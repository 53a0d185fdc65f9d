use vstd::prelude::*;
use crate::command::{copy_strings, shell_arguments};
use crate::naming::{pipeline_label, uuid_text};
use crate::pipeline::{Pipeline, PipelineStatus, PipelineStep, StepStatus};
use crate::secrets::{resolve_requests, MaterializedSecretConfig};
use crate::workload::{step_job_config, step_script, PipelineJobConfig};

verus! {

/// The stored record of one step.
#[derive(Clone, Debug)]
pub struct StepRecord {
    pub ordinal: usize,
    pub name: String,
    pub image: String,
    pub commands: Vec<String>,
    pub status: StepStatus,
    pub log_keys: Vec<String>,
}

impl StepRecord {
    /// Moves the step to `status`.
    pub fn set_status(&mut self, status: StepStatus)
        ensures
            *final(self) == (StepRecord { status, ..*old(self) }),
    {
        self.status = status;
    }

    /// Appends archived log keys; the keys already recorded stay, in order.
    pub fn append_log_keys(&mut self, keys: Vec<String>)
        ensures
            *final(self) == (StepRecord { log_keys: final(self).log_keys, ..*old(self) }),
            final(self).log_keys@ == old(self).log_keys@ + keys@,
    {
        let mut keys = keys;
        self.log_keys.append(&mut keys);
    }
}

/// The record that a manifest step starts as: its position, name, image and
/// commands, not started, no logs.
pub open spec fn fresh_record(rec: StepRecord, step: PipelineStep, i: int) -> bool {
    &&& rec.ordinal == i
    &&& rec.name == step.name
    &&& rec.image == step.image
    &&& rec.commands@ == step.commands@
    &&& rec.status == StepStatus::NotStarted
    &&& rec.log_keys@.len() == 0
}

/// The state of one pipeline under its supervisor.
pub struct RunState {
    pub pipeline: u128,
    pub manifest: Pipeline,
    pub status: PipelineStatus,
    pub finished: bool,
    pub steps: Seq<StepRecord>,
    /// The step being run, or the next one to run.
    pub next: int,
}

/// What holds of a supervisor's state at all times, also in the middle of an
/// operation.
pub open spec fn core_invariant(v: RunState) -> bool {
    let n = v.steps.len();
    &&& v.manifest.steps@.len() == n
    &&& forall|i: int| 0 <= i < n ==> (#[trigger] v.steps[i]).ordinal == i
    &&& forall|i: int| 0 <= i < n ==> {
        let r = #[trigger] v.steps[i];
        let s = v.manifest.steps@[i];
        r.name == s.name && r.image == s.image && r.commands@ == s.commands@
    }
    &&& 0 <= v.next <= n
    &&& forall|i: int| 0 <= i < v.next ==> (#[trigger] v.steps[i]).status == StepStatus::Success
    &&& forall|i: int| v.next < i < n ==> (#[trigger] v.steps[i]).status == StepStatus::NotStarted
    &&& v.status == PipelineStatus::InProgress ==> !v.finished
    &&& v.status == PipelineStatus::Complete ==> v.finished && v.next == n
    &&& v.status == PipelineStatus::Failed ==> v.finished && (
        (v.next < n && v.steps[v.next].status == StepStatus::Fail)
        || (v.next == 0 && (n == 0 || v.steps[0].status == StepStatus::NotStarted)))
}

/// What holds of every state that a supervisor operation leaves: while the
/// pipeline is in progress, either the step at `next` runs, or no step has
/// started yet.
pub open spec fn run_invariant(v: RunState) -> bool {
    let n = v.steps.len();
    &&& core_invariant(v)
    &&& v.status == PipelineStatus::InProgress ==> {
        &&& v.next == n ==> n == 0
        &&& v.next < n ==> (v.steps[v.next].status == StepStatus::InProgress
            || (v.steps[v.next].status == StepStatus::NotStarted && v.next == 0))
    }
}

/// Every step status moved forward along its chain, or stayed.
pub open spec fn statuses_advance(a: RunState, b: RunState) -> bool {
    &&& a.steps.len() == b.steps.len()
    &&& forall|i: int| 0 <= i < a.steps.len() ==> (#[trigger] a.steps[i]).status.precedes(b.steps[i].status)
}

/// Every step's log keys were kept, in order, with any new ones after them.
pub open spec fn log_keys_extend(a: RunState, b: RunState) -> bool {
    &&& a.steps.len() == b.steps.len()
    &&& forall|i: int| 0 <= i < a.steps.len() ==> {
        let old_keys = (#[trigger] a.steps[i]).log_keys@;
        let new_keys = b.steps[i].log_keys@;
        old_keys.len() <= new_keys.len() && new_keys.take(old_keys.len() as int) == old_keys
    }
}

proof fn lemma_same_log_keys(a: RunState, b: RunState)
    requires
        a.steps.len() == b.steps.len(),
        forall|i: int| 0 <= i < a.steps.len() ==> (#[trigger] a.steps[i]).log_keys == b.steps[i].log_keys,
    ensures
        log_keys_extend(a, b),
{
    assert forall|i: int| 0 <= i < a.steps.len() implies {
        let old_keys = (#[trigger] a.steps[i]).log_keys@;
        let new_keys = b.steps[i].log_keys@;
        old_keys.len() <= new_keys.len() && new_keys.take(old_keys.len() as int) == old_keys
    } by {
        assert(b.steps[i].log_keys@.take(a.steps[i].log_keys@.len() as int) =~= a.steps[i].log_keys@);
    }
}

/// What each supervisor operation keeps: the pipeline and its steps'
/// identities, step statuses only moving forward, log keys only growing, and
/// a terminal pipeline untouched.
pub open spec fn run_moves(a: RunState, b: RunState) -> bool {
    &&& b.pipeline == a.pipeline
    &&& b.manifest == a.manifest
    &&& statuses_advance(a, b)
    &&& log_keys_extend(a, b)
    &&& forall|i: int| 0 <= i < a.steps.len() ==> {
        let x = #[trigger] a.steps[i];
        let y = b.steps[i];
        x.ordinal == y.ordinal && x.name == y.name && x.image == y.image && x.commands == y.commands
    }
    &&& a.status.is_terminal() ==> b == a
    &&& a.finished ==> b.finished
}

/// A step's workload as the supervisor dispatches it: built by
/// `step_job_config` from the pipeline's identifier text and the manifest step.
pub open spec fn dispatched_config(
    c: PipelineJobConfig,
    id: u128,
    step: PipelineStep,
    working_directory: Seq<char>,
    secrets: Seq<crate::secrets::MaterializedSecret>,
) -> bool {
    &&& c.pipeline@ == uuid_text(id)
    &&& c.step == step.name
    &&& c.container == step.image
    &&& c.pipeline_working_directory@ == working_directory
    &&& c.commands.deep_view() == shell_arguments(step_script(step, c.annotations))
    &&& match step.secrets {
        None => c.annotations is None,
        Some(reqs) => c.annotations matches Some(a) && a.role@ == "constructum"@
            && resolve_requests(reqs@, secrets) == Some(a.secrets@),
    }
}

/// The manifest step requests a secret that the pipeline does not have.
pub open spec fn step_refused(step: PipelineStep, secrets: Seq<crate::secrets::MaterializedSecret>) -> bool {
    step.secrets matches Some(reqs) && resolve_requests(reqs@, secrets) is None
}

/// The effect of starting the step at `next` of an in-progress pipeline: with
/// no steps, the pipeline completes; a step that requests an unknown secret
/// fails, and the pipeline with it; any other step moves to `InProgress` and
/// its workload is handed out.
pub open spec fn started(
    a: RunState,
    b: RunState,
    r: Dispatch,
    secrets: Seq<crate::secrets::MaterializedSecret>,
    working_directory: Seq<char>,
) -> bool {
    &&& a.steps.len() == 0 ==> b == (RunState { status: PipelineStatus::Complete, finished: true, ..a })
        && r == Dispatch::Done(PipelineStatus::Complete)
    &&& a.next < a.steps.len() ==> {
        let k = a.next;
        let step = a.manifest.steps@[k];
        let rec = a.steps[k];
        if step_refused(step, secrets) {
            &&& b == (RunState {
                status: PipelineStatus::Failed,
                finished: true,
                steps: a.steps.update(k, StepRecord { status: StepStatus::Fail, ..rec }),
                ..a
            })
            &&& r == Dispatch::Done(PipelineStatus::Failed)
        } else {
            &&& b == (RunState {
                steps: a.steps.update(k, StepRecord { status: StepStatus::InProgress, ..rec }),
                ..a
            })
            &&& r matches Dispatch::Run(c) && dispatched_config(c, a.pipeline, step, working_directory, secrets)
        }
    }
}

/// A step of the pipeline is running: the pipeline is in progress and the
/// step at `next` is `InProgress`.
pub open spec fn step_running(v: RunState) -> bool {
    v.status == PipelineStatus::InProgress && 0 <= v.next < v.steps.len()
        && v.steps[v.next].status == StepStatus::InProgress
}

/// Supervisor operations compose: what holds over each of two consecutive
/// operations holds over both, so step statuses only move forward along their
/// chains and log keys only grow for the whole life of a pipeline.
pub proof fn lemma_run_moves_transitive(a: RunState, b: RunState, c: RunState)
    requires
        run_moves(a, b),
        run_moves(b, c),
    ensures
        run_moves(a, c),
{
    assert forall|i: int| 0 <= i < a.steps.len() implies {
        let old_keys = (#[trigger] a.steps[i]).log_keys@;
        let new_keys = c.steps[i].log_keys@;
        old_keys.len() <= new_keys.len() && new_keys.take(old_keys.len() as int) == old_keys
    } by {
        let x = a.steps[i].log_keys@;
        let y = b.steps[i].log_keys@;
        let z = c.steps[i].log_keys@;
        assert(z.take(y.len() as int) == y);
        assert(y.take(x.len() as int) == x);
        assert(z.take(x.len() as int) =~= z.take(y.len() as int).take(x.len() as int));
    }
    assert forall|i: int| 0 <= i < a.steps.len() implies (#[trigger] a.steps[i]).status.precedes(c.steps[i].status) by {
        assert(a.steps[i].status.precedes(b.steps[i].status));
        assert(b.steps[i].status.precedes(c.steps[i].status));
    }
}

/// Step ordinals are `0..n`, one per manifest step, in manifest order.
pub proof fn lemma_ordinals_contiguous(v: RunState)
    requires
        run_invariant(v),
    ensures
        v.steps.len() == v.manifest.steps@.len(),
        forall|i: int| 0 <= i < v.steps.len() ==> (#[trigger] v.steps[i]).ordinal == i
            && v.steps[i].name == v.manifest.steps@[i].name,
{
}

/// A complete pipeline has every step succeeded.
pub proof fn lemma_complete_all_success(v: RunState)
    requires
        run_invariant(v),
        v.status == PipelineStatus::Complete,
    ensures
        forall|i: int| 0 <= i < v.steps.len() ==> (#[trigger] v.steps[i]).status == StepStatus::Success,
{
}

/// A failed pipeline has a failed step, or none of its steps ever started.
pub proof fn lemma_failed_has_cause(v: RunState)
    requires
        run_invariant(v),
        v.status == PipelineStatus::Failed,
    ensures
        (exists|i: int| 0 <= i < v.steps.len() && (#[trigger] v.steps[i]).status == StepStatus::Fail)
            || (forall|i: int| 0 <= i < v.steps.len() ==> (#[trigger] v.steps[i]).status == StepStatus::NotStarted),
{
    if v.next < v.steps.len() && v.steps[v.next].status == StepStatus::Fail {
        assert(v.steps[v.next].status == StepStatus::Fail);
    } else {
        assert forall|i: int| 0 <= i < v.steps.len() implies (#[trigger] v.steps[i]).status == StepStatus::NotStarted by {
            if i > 0 {
                assert(v.next < i);
            }
        }
    }
}

/// What the supervisor asks its runner to do next.
#[derive(Debug)]
pub enum Dispatch {
    /// Run this workload, then report its outcome.
    Run(PipelineJobConfig),
    /// The pipeline reached this terminal status.
    Done(PipelineStatus),
}

/// The effect of `dispatch`: a terminal pipeline is reported as it is; an
/// in-progress one starts its step at `next` (see `started`).
pub open spec fn dispatch_effect(
    a: RunState,
    b: RunState,
    r: Dispatch,
    secrets: Seq<crate::secrets::MaterializedSecret>,
    working_directory: Seq<char>,
) -> bool {
    &&& a.status.is_terminal() ==> r == Dispatch::Done(a.status)
    &&& a.status == PipelineStatus::InProgress ==> started(
        a,
        b,
        r,
        secrets,
        working_directory,
    )
}

/// The effect of `step_finished`: with no step running, nothing changes.
/// Otherwise the keys are appended to the running step's; a failed workload
/// fails the step and the pipeline; a completed one makes the step succeed,
/// then completes the pipeline after the last step, or starts the next one
/// (see `started`).
pub open spec fn step_finished_effect(
    a: RunState,
    b: RunState,
    failed: bool,
    log_keys: Seq<String>,
    r: Option<Dispatch>,
    secrets: Seq<crate::secrets::MaterializedSecret>,
    working_directory: Seq<char>,
) -> bool {
    &&& !step_running(a) ==> r is None && b == a
    &&& step_running(a) ==> {
        let k = a.next;
        let rec = a.steps[k];
        let logged = StepRecord { log_keys: b.steps[k].log_keys, ..rec };
        &&& b.steps[k].log_keys@ == rec.log_keys@ + log_keys
        &&& failed ==> b == (RunState {
            status: PipelineStatus::Failed,
            finished: true,
            steps: a.steps.update(k, StepRecord { status: StepStatus::Fail, ..logged }),
            ..a
        }) && r == Some(Dispatch::Done(PipelineStatus::Failed))
        &&& !failed ==> {
            let passed = RunState {
                next: k + 1,
                steps: a.steps.update(k, StepRecord { status: StepStatus::Success, ..logged }),
                ..a
            };
            &&& k + 1 == a.steps.len() ==> b == (RunState {
                status: PipelineStatus::Complete,
                finished: true,
                ..passed
            }) && r == Some(Dispatch::Done(PipelineStatus::Complete))
            &&& k + 1 < a.steps.len() ==> (r matches Some(d) && started(
                passed,
                b,
                d,
                secrets,
                working_directory,
            ))
        }
    }
}

/// The effect of `abort`: an in-progress pipeline fails, and so does its
/// running step, if any; nothing else changes.
pub open spec fn abort_effect(a: RunState, b: RunState) -> bool {
    &&& a.status == PipelineStatus::InProgress ==> {
        let k = a.next;
        &&& b.status == PipelineStatus::Failed
        &&& b.finished
        &&& step_running(a) ==> b == (RunState {
            status: PipelineStatus::Failed,
            finished: true,
            steps: a.steps.update(k, StepRecord { status: StepStatus::Fail, ..a.steps[k] }),
            ..a
        })
        &&& !step_running(a) ==> b == (RunState {
            status: PipelineStatus::Failed,
            finished: true,
            ..a
        })
    }
}

/// The state behind a `PipelineRun`.
struct RunCore {
    pipeline: u128,
    manifest: Pipeline,
    status: PipelineStatus,
    finished: bool,
    steps: Vec<StepRecord>,
    next: usize,
}

impl View for RunCore {
    type V = RunState;

    closed spec fn view(&self) -> RunState {
        RunState {
            pipeline: self.pipeline,
            manifest: self.manifest,
            status: self.status,
            finished: self.finished,
            steps: self.steps@,
            next: self.next as int,
        }
    }
}

impl RunCore {
    /// A new run of `manifest`: one record per manifest step, at the step's
    /// position, not started; the pipeline in progress.
    fn new(pipeline: u128, manifest: Pipeline) -> (r: RunCore)
        ensures
            run_invariant(r@),
            r@.pipeline == pipeline,
            r@.manifest == manifest,
            r@.status == PipelineStatus::InProgress,
            !r@.finished,
            r@.next == 0,
            r@.steps.len() == manifest.steps@.len(),
            forall|i: int| 0 <= i < r@.steps.len() ==> fresh_record(#[trigger] r@.steps[i], manifest.steps@[i], i),
    {
        let mut steps: Vec<StepRecord> = Vec::new();
        let mut i: usize = 0;
        while i < manifest.steps.len()
            invariant
                0 <= i <= manifest.steps.len(),
                steps@.len() == i,
                forall|k: int| 0 <= k < i ==> fresh_record(#[trigger] steps@[k], manifest.steps@[k], k),
            decreases manifest.steps.len() - i,
        {
            let s = &manifest.steps[i];
            steps.push(StepRecord {
                ordinal: i,
                name: s.name.clone(),
                image: s.image.clone(),
                commands: copy_strings(&s.commands),
                status: StepStatus::NotStarted,
                log_keys: Vec::new(),
            });
            i = i + 1;
        }
        RunCore {
            pipeline,
            manifest,
            status: PipelineStatus::InProgress,
            finished: false,
            steps,
            next: 0,
        }
    }

    /// Starts the step at `next` (or finishes the pipeline when no step is
    /// left): the step moves to `InProgress` and its workload is returned;
    /// a step that requests an unknown secret fails, and the pipeline with it.
    fn start_current(&mut self, secrets: &MaterializedSecretConfig, working_directory: &str) -> (r: Dispatch)
        requires
            core_invariant(old(self)@),
            old(self)@.status == PipelineStatus::InProgress,
            old(self)@.next == old(self)@.steps.len() ==> old(self)@.steps.len() == 0,
            old(self)@.next < old(self)@.steps.len() ==> (old(self)@.steps[old(self)@.next].status
                == StepStatus::NotStarted || old(self)@.steps[old(self)@.next].status == StepStatus::InProgress),
        ensures
            run_invariant(final(self)@),
            started(old(self)@, final(self)@, r, secrets@, working_directory@),
            run_moves(old(self)@, final(self)@),
            final(self)@.next == old(self)@.next,
    {
        let ghost start = self@;
        if self.next >= self.steps.len() {
            self.status = PipelineStatus::Complete;
            self.finished = true;
            return Dispatch::Done(PipelineStatus::Complete);
        }
        let k = self.next;
        let label = pipeline_label(self.pipeline);
        let res = step_job_config(label.as_str(), &self.manifest.steps[k], working_directory, secrets);
        match res {
            Err(_) => {
                self.steps[k].set_status(StepStatus::Fail);
                self.status = PipelineStatus::Failed;
                self.finished = true;
                proof {
                    lemma_same_log_keys(start, self@);
                }
                Dispatch::Done(PipelineStatus::Failed)
            },
            Ok(c) => {
                self.steps[k].set_status(StepStatus::InProgress);
                proof {
                    lemma_same_log_keys(start, self@);
                }
                Dispatch::Run(c)
            },
        }
    }
    /// Starts the step at `next` (see `started`); a pipeline already in a
    /// terminal state is left as it is and reported.
    fn dispatch(&mut self, secrets: &MaterializedSecretConfig, working_directory: &str) -> (r: Dispatch)
        requires
            run_invariant(old(self)@),
        ensures
            run_invariant(final(self)@),
            run_moves(old(self)@, final(self)@),
            dispatch_effect(old(self)@, final(self)@, r, secrets@, working_directory@),
    {
        if self.status != PipelineStatus::InProgress {
            let ghost v = self@;
            proof {
                lemma_same_log_keys(v, v);
            }
            return Dispatch::Done(self.status);
        }
        self.start_current(secrets, working_directory)
    }

    /// Records how the running step's workload ended and the keys of its
    /// archived logs. A failed workload fails the step and the pipeline; a
    /// completed one makes the step succeed, then the next step starts (see
    /// `started`), or the pipeline completes after the last. `None`, and no
    /// change, when no step is running.
    fn step_finished(
        &mut self,
        failed: bool,
        log_keys: Vec<String>,
        secrets: &MaterializedSecretConfig,
        working_directory: &str,
    ) -> (r: Option<Dispatch>)
        requires
            run_invariant(old(self)@),
        ensures
            run_invariant(final(self)@),
            run_moves(old(self)@, final(self)@),
            step_finished_effect(old(self)@, final(self)@, failed, log_keys@, r, secrets@, working_directory@),
    {
        let ghost start = self@;
        if self.status != PipelineStatus::InProgress || self.next >= self.steps.len() {
            proof {
                lemma_same_log_keys(start, start);
            }
            return None;
        }
        let k = self.next;
        if self.steps[k].status != StepStatus::InProgress {
            proof {
                lemma_same_log_keys(start, start);
            }
            return None;
        }
        self.steps[k].append_log_keys(log_keys);
        proof {
            assert forall|i: int| 0 <= i < start.steps.len() implies {
                let old_keys = (#[trigger] start.steps[i]).log_keys@;
                let new_keys = self@.steps[i].log_keys@;
                old_keys.len() <= new_keys.len() && new_keys.take(old_keys.len() as int) == old_keys
            } by {
                if i == k {
                    assert(self@.steps[i].log_keys@.take(start.steps[i].log_keys@.len() as int)
                        =~= start.steps[i].log_keys@);
                } else {
                    assert(self@.steps[i].log_keys@.take(start.steps[i].log_keys@.len() as int)
                        =~= start.steps[i].log_keys@);
                }
            }
        }
        if failed {
            self.steps[k].set_status(StepStatus::Fail);
            self.status = PipelineStatus::Failed;
            self.finished = true;
            proof {
                assert(self@.steps =~= start.steps.update(k as int, StepRecord {
                    status: StepStatus::Fail,
                    log_keys: self@.steps[k as int].log_keys,
                    ..start.steps[k as int]
                }));
            }
            return Some(Dispatch::Done(PipelineStatus::Failed));
        }
        self.steps[k].set_status(StepStatus::Success);
        self.next = k + 1;
        let ghost passed = self@;
        proof {
            assert(self@.steps =~= start.steps.update(k as int, StepRecord {
                status: StepStatus::Success,
                log_keys: self@.steps[k as int].log_keys,
                ..start.steps[k as int]
            }));
        }
        if self.next == self.steps.len() {
            self.status = PipelineStatus::Complete;
            self.finished = true;
            return Some(Dispatch::Done(PipelineStatus::Complete));
        }
        let d = self.start_current(secrets, working_directory);
        proof {
            lemma_run_moves_transitive(start, passed, self@);
        }
        Some(d)
    }

    /// An unrecoverable supervisor error: the running step, if any, fails, and
    /// the pipeline fails. A pipeline already in a terminal state stays.
    fn abort(&mut self)
        requires
            run_invariant(old(self)@),
        ensures
            run_invariant(final(self)@),
            run_moves(old(self)@, final(self)@),
            abort_effect(old(self)@, final(self)@),
    {
        let ghost start = self@;
        if self.status != PipelineStatus::InProgress {
            proof {
                lemma_same_log_keys(start, start);
            }
            return;
        }
        if self.next < self.steps.len() {
            let k = self.next;
            if self.steps[k].status == StepStatus::InProgress {
                self.steps[k].set_status(StepStatus::Fail);
            }
        }
        self.status = PipelineStatus::Failed;
        self.finished = true;
        proof {
            lemma_same_log_keys(start, self@);
        }
    }
}

/// The supervisor of one pipeline: decides which step runs next, records
/// outcomes and log keys, and finalises the pipeline.
pub struct PipelineRun {
    core: RunCore,
}

impl View for PipelineRun {
    type V = RunState;

    closed spec fn view(&self) -> RunState {
        self.core@
    }
}

impl PipelineRun {
    #[verifier::type_invariant]
    spec fn well_formed(&self) -> bool {
        run_invariant(self.core@)
    }

    /// A run that has nothing to do, held while an operation works on the state.
    fn idle() -> (r: RunCore)
        ensures
            run_invariant(r@),
    {
        RunCore::new(0, Pipeline { version: 0, steps: Vec::new(), secrets: None })
    }

    /// A new run of `manifest`: one record per manifest step, at the step's
    /// position, not started; the pipeline in progress.
    pub fn new(pipeline: u128, manifest: Pipeline) -> (r: PipelineRun)
        ensures
            run_invariant(r@),
            r@.pipeline == pipeline,
            r@.manifest == manifest,
            r@.status == PipelineStatus::InProgress,
            !r@.finished,
            r@.next == 0,
            r@.steps.len() == manifest.steps@.len(),
            forall|i: int| 0 <= i < r@.steps.len() ==> fresh_record(#[trigger] r@.steps[i], manifest.steps@[i], i),
    {
        PipelineRun { core: RunCore::new(pipeline, manifest) }
    }

    pub fn pipeline(&self) -> (r: u128)
        ensures
            r == self@.pipeline,
    {
        self.core.pipeline
    }

    pub fn status(&self) -> (r: PipelineStatus)
        ensures
            r == self@.status,
    {
        self.core.status
    }

    pub fn finished(&self) -> (r: bool)
        ensures
            r == self@.finished,
    {
        self.core.finished
    }

    pub fn steps(&self) -> (r: &Vec<StepRecord>)
        ensures
            r@ == self@.steps,
    {
        &self.core.steps
    }

    /// Position of the step being run, or of the next one to run.
    pub fn next_step(&self) -> (r: usize)
        ensures
            r == self@.next,
    {
        self.core.next
    }

    /// Starts the step at `next` (see `started`); a pipeline already in a
    /// terminal state is left as it is and reported.
    pub fn dispatch(&mut self, secrets: &MaterializedSecretConfig, working_directory: &str) -> (r: Dispatch)
        ensures
            run_invariant(final(self)@),
            run_moves(old(self)@, final(self)@),
            dispatch_effect(old(self)@, final(self)@, r, secrets@, working_directory@),
    {
        proof {
            use_type_invariant(&*self);
        }
        let mut core = PipelineRun::idle();
        std::mem::swap(&mut core, &mut self.core);
        let r = core.dispatch(secrets, working_directory);
        self.core = core;
        r
    }

    /// Records how the running step's workload ended and the keys of its
    /// archived logs. A failed workload fails the step and the pipeline; a
    /// completed one makes the step succeed, then the next step starts (see
    /// `started`), or the pipeline completes after the last. `None`, and no
    /// change, when no step is running.
    pub fn step_finished(
        &mut self,
        failed: bool,
        log_keys: Vec<String>,
        secrets: &MaterializedSecretConfig,
        working_directory: &str,
    ) -> (r: Option<Dispatch>)
        ensures
            run_invariant(final(self)@),
            run_moves(old(self)@, final(self)@),
            step_finished_effect(old(self)@, final(self)@, failed, log_keys@, r, secrets@, working_directory@),
    {
        proof {
            use_type_invariant(&*self);
        }
        let mut core = PipelineRun::idle();
        std::mem::swap(&mut core, &mut self.core);
        let r = core.step_finished(failed, log_keys, secrets, working_directory);
        self.core = core;
        r
    }

    /// An unrecoverable supervisor error: the running step, if any, fails, and
    /// the pipeline fails. A pipeline already in a terminal state stays.
    pub fn abort(&mut self)
        ensures
            run_invariant(final(self)@),
            run_moves(old(self)@, final(self)@),
            abort_effect(old(self)@, final(self)@),
    {
        proof {
            use_type_invariant(&*self);
        }
        let mut core = PipelineRun::idle();
        std::mem::swap(&mut core, &mut self.core);
        core.abort();
        self.core = core;
    }
}

} // verus!
