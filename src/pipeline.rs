use vstd::prelude::*;

verus! {

broadcast use vstd::string::group_string_axioms;

/// Lifecycle of a pipeline. `InProgress` is the only non-terminal state.
#[derive(Clone, Copy, Debug, PartialEq, Eq, Structural)]
pub enum PipelineStatus {
    InProgress,
    Complete,
    Failed,
}

/// Lifecycle of one step: `NotStarted`, then `InProgress`, then one of the
/// terminal states `Success` or `Fail`.
#[derive(Clone, Copy, Debug, PartialEq, Eq, Structural)]
pub enum StepStatus {
    NotStarted,
    InProgress,
    Success,
    Fail,
}

/// When the cluster pulls a step's image.
#[derive(Clone, Copy, Debug, PartialEq, Eq, Structural)]
pub enum PipelineImagePullPref {
    Always,
}

/// A secret that the manifest declares: the entry `key` under the store path
/// `location`, injected under `name`.
#[derive(Clone, Debug)]
pub struct PipelineSecretConfig {
    pub name: String,
    pub location: String,
    pub key: String,
}

/// A step's request for one declared secret.
#[derive(Clone, Debug)]
pub struct StepSecretConfig {
    pub name: String,
    pub var_name: String,
}

/// One step of the manifest.
#[derive(Clone, Debug)]
pub struct PipelineStep {
    pub name: String,
    pub image: String,
    pub pull: PipelineImagePullPref,
    pub commands: Vec<String>,
    pub secrets: Option<Vec<StepSecretConfig>>,
}

/// The parsed pipeline manifest.
#[derive(Clone, Debug)]
pub struct Pipeline {
    pub version: u64,
    pub steps: Vec<PipelineStep>,
    pub secrets: Option<Vec<PipelineSecretConfig>>,
}

/// Wire name of a pipeline status.
pub open spec fn pipeline_status_name(s: PipelineStatus) -> Seq<char> {
    match s {
        PipelineStatus::InProgress => "InProgress"@,
        PipelineStatus::Complete => "Complete"@,
        PipelineStatus::Failed => "Failed"@,
    }
}

/// Wire name of a step status.
pub open spec fn step_status_name(s: StepStatus) -> Seq<char> {
    match s {
        StepStatus::NotStarted => "NotStarted"@,
        StepStatus::InProgress => "InProgress"@,
        StepStatus::Success => "Success"@,
        StepStatus::Fail => "Fail"@,
    }
}

/// The status that a wire name stands for, if any.
pub open spec fn pipeline_status_of(t: Seq<char>) -> Option<PipelineStatus> {
    if t == "InProgress"@ {
        Some(PipelineStatus::InProgress)
    } else if t == "Complete"@ {
        Some(PipelineStatus::Complete)
    } else if t == "Failed"@ {
        Some(PipelineStatus::Failed)
    } else {
        None
    }
}

/// The step status that a wire name stands for, if any.
pub open spec fn step_status_of(t: Seq<char>) -> Option<StepStatus> {
    if t == "NotStarted"@ {
        Some(StepStatus::NotStarted)
    } else if t == "InProgress"@ {
        Some(StepStatus::InProgress)
    } else if t == "Success"@ {
        Some(StepStatus::Success)
    } else if t == "Fail"@ {
        Some(StepStatus::Fail)
    } else {
        None
    }
}

impl PipelineStatus {
    /// The wire name of the status.
    pub fn as_str(&self) -> (r: &'static str)
        ensures
            r@ == pipeline_status_name(*self),
    {
        match self {
            PipelineStatus::InProgress => "InProgress",
            PipelineStatus::Complete => "Complete",
            PipelineStatus::Failed => "Failed",
        }
    }

    /// Reads a wire name; `None` for any other text.
    pub fn from_name(t: &str) -> (r: Option<PipelineStatus>)
        ensures
            r == pipeline_status_of(t@),
    {
        let s = t.to_owned();
        if s == String::from_str("InProgress") {
            Some(PipelineStatus::InProgress)
        } else if s == String::from_str("Complete") {
            Some(PipelineStatus::Complete)
        } else if s == String::from_str("Failed") {
            Some(PipelineStatus::Failed)
        } else {
            None
        }
    }

    /// Terminal states are absorbing.
    pub open spec fn is_terminal(self) -> bool {
        self != PipelineStatus::InProgress
    }
}

impl StepStatus {
    /// The wire name of the status.
    pub fn as_str(&self) -> (r: &'static str)
        ensures
            r@ == step_status_name(*self),
    {
        match self {
            StepStatus::NotStarted => "NotStarted",
            StepStatus::InProgress => "InProgress",
            StepStatus::Success => "Success",
            StepStatus::Fail => "Fail",
        }
    }

    /// Reads a wire name; `None` for any other text.
    pub fn from_name(t: &str) -> (r: Option<StepStatus>)
        ensures
            r == step_status_of(t@),
    {
        let s = t.to_owned();
        if s == String::from_str("NotStarted") {
            Some(StepStatus::NotStarted)
        } else if s == String::from_str("InProgress") {
            Some(StepStatus::InProgress)
        } else if s == String::from_str("Success") {
            Some(StepStatus::Success)
        } else if s == String::from_str("Fail") {
            Some(StepStatus::Fail)
        } else {
            None
        }
    }

    /// Position of the status along its chain: `NotStarted` 0, `InProgress` 1,
    /// `Success` and `Fail` 2.
    pub open spec fn rank(self) -> int {
        match self {
            StepStatus::NotStarted => 0,
            StepStatus::InProgress => 1,
            StepStatus::Success => 2,
            StepStatus::Fail => 2,
        }
    }

    /// `to` lies at or after `self` on one of the chains
    /// `NotStarted < InProgress < Success` and `NotStarted < InProgress < Fail`.
    pub open spec fn precedes(self, to: StepStatus) -> bool {
        self == to || self.rank() < to.rank()
    }

    pub open spec fn is_terminal(self) -> bool {
        self == StepStatus::Success || self == StepStatus::Fail
    }
}

/// Every status name reads back as the same status.
pub proof fn lemma_pipeline_status_name_round_trip(s: PipelineStatus)
    ensures
        pipeline_status_of(pipeline_status_name(s)) == Some(s),
{
    reveal_strlit("InProgress");
    reveal_strlit("Complete");
    reveal_strlit("Failed");
    assert("Complete"@ != "InProgress"@) by { assert("Complete"@[0] != "InProgress"@[0]); }
    assert("Failed"@ != "InProgress"@) by { assert("Failed"@[0] != "InProgress"@[0]); }
    assert("Failed"@ != "Complete"@) by { assert("Failed"@[0] != "Complete"@[0]); }
}

/// Every step status name reads back as the same status.
pub proof fn lemma_step_status_name_round_trip(s: StepStatus)
    ensures
        step_status_of(step_status_name(s)) == Some(s),
{
    reveal_strlit("NotStarted");
    reveal_strlit("InProgress");
    reveal_strlit("Success");
    reveal_strlit("Fail");
    assert("InProgress"@ != "NotStarted"@) by { assert("InProgress"@[0] != "NotStarted"@[0]); }
    assert("Success"@ != "NotStarted"@) by { assert("Success"@[0] != "NotStarted"@[0]); }
    assert("Success"@ != "InProgress"@) by { assert("Success"@[0] != "InProgress"@[0]); }
    assert("Fail"@ != "NotStarted"@) by { assert("Fail"@[0] != "NotStarted"@[0]); }
    assert("Fail"@ != "InProgress"@) by { assert("Fail"@[0] != "InProgress"@[0]); }
    assert("Fail"@ != "Success"@) by { assert("Fail"@[0] != "Success"@[0]); }
}


/// Lower-case form of a text, as `str::to_lowercase` gives it.
pub uninterp spec fn lower_of(s: Seq<char>) -> Seq<char>;

/// Whether a character has Unicode's `White_Space` property: tab, line feed,
/// vertical tab, form feed, carriage return, space, next line, no-break
/// space, ogham space mark, the spaces U+2000 to U+200A, line and paragraph
/// separators, narrow no-break space, medium mathematical space and
/// ideographic space.
pub open spec fn white_space(c: char) -> bool {
    let u = c as u32;
    (0x9 <= u && u <= 0xd) || u == 0x20 || u == 0x85 || u == 0xa0 || u == 0x1680
        || (0x2000 <= u && u <= 0x200a) || u == 0x2028 || u == 0x2029 || u == 0x202f
        || u == 0x205f || u == 0x3000
}

/// Relies on `str::to_lowercase`: the result depends on the text alone.
#[verifier::external_body]
fn lowercase(s: &str) -> (r: String)
    ensures
        r@ == lower_of(s@),
{
    s.to_lowercase()
}

/// Whether `c` is white space, as `char::is_whitespace` decides it.
pub fn is_space(c: char) -> (r: bool)
    ensures
        r == white_space(c),
{
    let u = c as u32;
    (0x9 <= u && u <= 0xd) || u == 0x20 || u == 0x85 || u == 0xa0 || u == 0x1680
        || (0x2000 <= u && u <= 0x200a) || u == 0x2028 || u == 0x2029 || u == 0x202f
        || u == 0x205f || u == 0x3000
}

/// Relies on `String::push`: appends one character.
#[verifier::external_body]
pub(crate) fn push_char(s: &mut String, c: char)
    ensures
        final(s)@ == old(s)@.push(c),
{
    s.push(c)
}

/// The maximal runs of non-white-space characters of `s`, in order.
pub open spec fn words(s: Seq<char>) -> Seq<Seq<char>>
    decreases s.len(),
{
    if s.len() == 0 {
        Seq::empty()
    } else {
        let w = words(s.drop_last());
        let c = s.last();
        if white_space(c) {
            w
        } else if s.len() >= 2 && !white_space(s[s.len() - 2]) {
            w.update(w.len() - 1, w.last().push(c))
        } else {
            w.push(seq![c])
        }
    }
}

/// Words joined by single underscores.
pub open spec fn join_underscore(ws: Seq<Seq<char>>) -> Seq<char>
    decreases ws.len(),
{
    if ws.len() == 0 {
        Seq::empty()
    } else if ws.len() == 1 {
        ws[0]
    } else {
        join_underscore(ws.drop_last()) + seq!['_'] + ws.last()
    }
}

/// The normal form of a step name: lower-cased, leading and trailing white
/// space dropped, each inner run of white space replaced by one underscore.
pub open spec fn normalized_name(name: Seq<char>) -> Seq<char> {
    join_underscore(words(lower_of(name)))
}

proof fn lemma_words_nonempty(s: Seq<char>)
    requires
        s.len() > 0,
        !white_space(s.last()),
    ensures
        words(s).len() > 0,
    decreases s.len(),
{
    if s.len() >= 2 && !white_space(s[s.len() - 2]) {
        lemma_words_nonempty(s.drop_last());
    }
}

proof fn lemma_join_extend_last(ws: Seq<Seq<char>>, c: char)
    requires
        ws.len() > 0,
    ensures
        join_underscore(ws.update(ws.len() - 1, ws.last().push(c)))
            == join_underscore(ws).push(c),
{
    let u = ws.update(ws.len() - 1, ws.last().push(c));
    if ws.len() > 1 {
        assert(u.drop_last() =~= ws.drop_last());
        assert(join_underscore(u) =~= join_underscore(ws).push(c));
    }
}

/// Normal form of a step name, see `normalized_name`.
pub fn normalize_step_name(name: &str) -> (r: String)
    ensures
        r@ == normalized_name(name@),
{
    let lower = lowercase(name);
    collapse_whitespace(lower.as_str())
}

/// The words of `l` joined by single underscores: white space at either end
/// dropped, each inner run of it replaced by one underscore.
pub fn collapse_whitespace(l: &str) -> (r: String)
    ensures
        r@ == join_underscore(words(l@)),
{
    let ghost ls = l@;
    let n = l.unicode_len();
    let mut out = String::new();
    let mut prev_space = true;
    let mut has_word = false;
    let mut i: usize = 0;
    proof {
        assert(ls.take(0) =~= Seq::<char>::empty());
    }
    while i < n
        invariant
            n == ls.len(),
            ls == l@,
            0 <= i <= n,
            out@ == join_underscore(words(ls.take(i as int))),
            prev_space == (i == 0 || white_space(ls[i - 1])),
            has_word == (words(ls.take(i as int)).len() > 0),
        decreases n - i,
    {
        let c = l.get_char(i);
        let ghost t = ls.take(i + 1);
        let ghost w = words(ls.take(i as int));
        proof {
            assert(t.drop_last() =~= ls.take(i as int));
            assert(t.last() == c);
            if i > 0 {
                assert(t[t.len() - 2] == ls[i - 1]);
            }
        }
        if is_space(c) {
            prev_space = true;
        } else {
            if prev_space && has_word {
                push_char(&mut out, '_');
            }
            push_char(&mut out, c);
            proof {
                if !prev_space {
                    lemma_words_nonempty(ls.take(i as int));
                    lemma_join_extend_last(w, c);
                } else {
                    let v = w.push(seq![c]);
                    assert(v.drop_last() =~= w);
                }
            }
            has_word = true;
            prev_space = false;
        }
        i = i + 1;
    }
    proof {
        assert(ls.take(n as int) =~= ls);
    }
    out
}

impl PipelineStep {
    /// Replaces the step's name by its normal form; the other fields stay.
    pub fn normalize_name(&mut self)
        ensures
            final(self).name@ == normalized_name(old(self).name@),
            final(self).image == old(self).image,
            final(self).pull == old(self).pull,
            final(self).commands == old(self).commands,
            final(self).secrets == old(self).secrets,
    {
        let n = normalize_step_name(self.name.as_str());
        self.name = n;
    }
}

impl Pipeline {
    /// Normalises the name of every step; nothing else changes.
    pub fn normalize(&mut self)
        ensures
            final(self).version == old(self).version,
            final(self).secrets == old(self).secrets,
            final(self).steps.len() == old(self).steps.len(),
            forall|i: int|
                0 <= i < old(self).steps.len() ==> {
                    let a = #[trigger] final(self).steps[i];
                    let b = old(self).steps[i];
                    &&& a.name@ == normalized_name(b.name@)
                    &&& a.image == b.image
                    &&& a.pull == b.pull
                    &&& a.commands == b.commands
                    &&& a.secrets == b.secrets
                },
    {
        let ghost orig = self.steps@;
        let n = self.steps.len();
        let mut i: usize = 0;
        while i < n
            invariant
                n == orig.len(),
                self.steps.len() == n,
                self.version == old(self).version,
                self.secrets == old(self).secrets,
                orig == old(self).steps@,
                0 <= i <= n,
                forall|j: int|
                    0 <= j < i ==> {
                        let a = #[trigger] self.steps[j];
                        let b = orig[j];
                        &&& a.name@ == normalized_name(b.name@)
                        &&& a.image == b.image
                        &&& a.pull == b.pull
                        &&& a.commands == b.commands
                        &&& a.secrets == b.secrets
                    },
                forall|j: int| i <= j < n ==> #[trigger] self.steps[j] == orig[j],
            decreases n - i,
        {
            self.steps[i].normalize_name();
            i = i + 1;
        }
    }
}

} // verus!
