use vstd::prelude::*;
use crate::pipeline::{Pipeline, PipelineSecretConfig, PipelineStep, StepSecretConfig};

verus! {

/// A validated secret, ready to be injected into a workload.
#[derive(Clone, Debug)]
pub struct MaterializedSecret {
    pub object_name: String,
    pub secret_path: String,
    pub secret_key: String,
}

impl MaterializedSecret {
    pub fn new(name: String, location: String, key: String) -> (r: MaterializedSecret)
        ensures
            r.object_name == name,
            r.secret_path == location,
            r.secret_key == key,
    {
        MaterializedSecret { object_name: name, secret_path: location, secret_key: key }
    }

    /// A copy equal to `self`.
    pub fn duplicate(&self) -> (r: MaterializedSecret)
        ensures
            r == *self,
    {
        MaterializedSecret {
            object_name: self.object_name.clone(),
            secret_path: self.secret_path.clone(),
            secret_key: self.secret_key.clone(),
        }
    }
}

/// The secret that a lookup by object name finds: the last one declared under
/// that name, as in a map filled in declaration order.
pub open spec fn last_named(s: Seq<MaterializedSecret>, name: Seq<char>) -> Option<MaterializedSecret>
    decreases s.len(),
{
    if s.len() == 0 {
        None
    } else if s.last().object_name@ == name {
        Some(s.last())
    } else {
        last_named(s.drop_last(), name)
    }
}

/// The validated secrets of a pipeline, in declaration order, looked up by
/// object name.
#[derive(Clone, Debug)]
pub struct MaterializedSecretConfig {
    secrets: Vec<MaterializedSecret>,
}

impl View for MaterializedSecretConfig {
    type V = Seq<MaterializedSecret>;

    closed spec fn view(&self) -> Seq<MaterializedSecret> {
        self.secrets@
    }
}

impl MaterializedSecretConfig {
    pub fn new(materialized_secrets: Vec<MaterializedSecret>) -> (r: MaterializedSecretConfig)
        ensures
            r@ == materialized_secrets@,
    {
        MaterializedSecretConfig { secrets: materialized_secrets }
    }

    /// The configuration with no secrets.
    pub fn empty() -> (r: MaterializedSecretConfig)
        ensures
            r@ == Seq::<MaterializedSecret>::empty(),
    {
        MaterializedSecretConfig { secrets: Vec::new() }
    }

    pub fn secrets(&self) -> (r: &Vec<MaterializedSecret>)
        ensures
            r@ == self@,
    {
        &self.secrets
    }

    /// Looks a secret up by object name.
    pub fn lookup(&self, name: &String) -> (r: Option<&MaterializedSecret>)
        ensures
            r matches Some(x) ==> last_named(self@, name@) == Some(*x),
            r is None ==> last_named(self@, name@) is None,
    {
        let mut j = self.secrets.len();
        proof {
            assert(self@.take(j as int) =~= self@);
        }
        while j > 0
            invariant
                0 <= j <= self.secrets.len(),
                last_named(self@, name@) == last_named(self@.take(j as int), name@),
            decreases j,
        {
            let ghost t = self@.take(j as int);
            proof {
                assert(t.drop_last() =~= self@.take(j - 1));
            }
            if self.secrets[j - 1].object_name == *name {
                return Some(&self.secrets[j - 1]);
            }
            j = j - 1;
        }
        None
    }
}

/// What a step's requests resolve to against the pipeline's secrets: the
/// secrets found, in request order, or `None` if one is unknown.
pub open spec fn resolve_requests(
    reqs: Seq<StepSecretConfig>,
    cfg: Seq<MaterializedSecret>,
) -> Option<Seq<MaterializedSecret>>
    decreases reqs.len(),
{
    if reqs.len() == 0 {
        Some(Seq::empty())
    } else {
        match (resolve_requests(reqs.drop_last(), cfg), last_named(cfg, reqs.last().name@)) {
            (Some(found), Some(s)) => Some(found.push(s)),
            _ => None,
        }
    }
}

/// Why a manifest's secret configuration was refused.
#[derive(Clone, Copy, Debug, PartialEq, Eq, Structural)]
pub enum SecretProblem {
    /// Two declared secrets share a name.
    Duplicate,
    /// A declared secret's key is not among the subkeys of its location.
    Missing,
    /// A step requests a secret that the manifest does not declare.
    UnknownReference,
}

/// An error of pipeline execution that the library decides.
#[derive(Clone, Copy, Debug, PartialEq, Eq, Structural)]
pub enum PipelineExecError {
    InvalidSecretConfiguration(SecretProblem),
}

/// Secret injection of one step workload: the sidecar role and the secrets to
/// materialise.
#[derive(Clone, Debug)]
pub struct VaultAnnotations {
    pub role: String,
    pub secrets: Vec<MaterializedSecret>,
}

/// Annotations for the secrets of `secret_cfg`, under the role `constructum`.
pub fn build_vault_annotations(secret_cfg: MaterializedSecretConfig) -> (r: VaultAnnotations)
    ensures
        r.role@ == "constructum"@,
        r.secrets@ == secret_cfg@,
{
    VaultAnnotations { role: String::from_str("constructum"), secrets: secret_cfg.secrets }
}

/// The injection descriptor of one step: `None` when the step requests no
/// secrets, an error when it requests one that `pipeline_secret_config` lacks.
pub fn build_step_secrets(step: &PipelineStep, pipeline_secret_config: &MaterializedSecretConfig) -> (r: Result<Option<VaultAnnotations>, PipelineExecError>)
    ensures
        step.secrets is None ==> r == Ok::<Option<VaultAnnotations>, PipelineExecError>(None),
        step.secrets matches Some(reqs) ==> match resolve_requests(reqs@, pipeline_secret_config@) {
            None => r == Err::<Option<VaultAnnotations>, PipelineExecError>(
                PipelineExecError::InvalidSecretConfiguration(SecretProblem::UnknownReference)),
            Some(found) => r matches Ok(Some(a)) && a.role@ == "constructum"@ && a.secrets@ == found,
        },
{
    match &step.secrets {
        None => Ok(None),
        Some(reqs) => {
            let mut mat_secs: Vec<MaterializedSecret> = Vec::new();
            let mut i: usize = 0;
            proof {
                assert(reqs@.take(0) =~= Seq::<StepSecretConfig>::empty());
            }
            while i < reqs.len()
                invariant
                    0 <= i <= reqs.len(),
                    step.secrets matches Some(rr) && rr@ == reqs@,
                    resolve_requests(reqs@.take(i as int), pipeline_secret_config@) == Some(mat_secs@),
                decreases reqs.len() - i,
            {
                let ghost t = reqs@.take(i + 1);
                proof {
                    assert(t.drop_last() =~= reqs@.take(i as int));
                    assert(t.last() == reqs@[i as int]);
                }
                match pipeline_secret_config.lookup(&reqs[i].name) {
                    Some(s) => {
                        mat_secs.push(s.duplicate());
                    },
                    None => {
                        proof {
                            lemma_resolve_prefix_fails(reqs@, pipeline_secret_config@, i + 1);
                        }
                        return Err(PipelineExecError::InvalidSecretConfiguration(SecretProblem::UnknownReference));
                    },
                }
                i = i + 1;
            }
            proof {
                assert(reqs@.take(reqs.len() as int) =~= reqs@);
            }
            let job_mat_secrets = MaterializedSecretConfig::new(mat_secs);
            Ok(Some(build_vault_annotations(job_mat_secrets)))
        },
    }
}

proof fn lemma_resolve_prefix_fails(reqs: Seq<StepSecretConfig>, cfg: Seq<MaterializedSecret>, k: int)
    requires
        0 <= k <= reqs.len(),
        resolve_requests(reqs.take(k), cfg) is None,
    ensures
        resolve_requests(reqs, cfg) is None,
    decreases reqs.len() - k,
{
    if k < reqs.len() {
        let t = reqs.take(k + 1);
        assert(t.drop_last() =~= reqs.take(k));
        lemma_resolve_prefix_fails(reqs, cfg, k + 1);
    } else {
        assert(reqs.take(k) =~= reqs);
    }
}


/// The secrets that a manifest declares at top level; none when it has no list.
pub open spec fn declared_secrets(p: Pipeline) -> Seq<PipelineSecretConfig> {
    match p.secrets {
        Some(v) => v@,
        None => Seq::empty(),
    }
}

/// Two declared secrets share a name.
pub open spec fn has_duplicate_name(ds: Seq<PipelineSecretConfig>) -> bool {
    exists|i: int, j: int| 0 <= i < j < ds.len() && ds[i].name@ == ds[j].name@
}

/// Some declared secret's key is not among the subkeys found at its location
/// (`subkeys[i]` belongs to `ds[i]`; a missing list counts as empty).
pub open spec fn has_missing_key(ds: Seq<PipelineSecretConfig>, subkeys: Seq<Seq<Seq<char>>>) -> bool {
    exists|i: int| 0 <= i < ds.len() && !#[trigger] key_found(ds, subkeys, i)
}

/// The key of the `i`-th declared secret is among the subkeys of its location.
pub open spec fn key_found(ds: Seq<PipelineSecretConfig>, subkeys: Seq<Seq<Seq<char>>>, i: int) -> bool {
    i < subkeys.len() && subkeys[i].contains(ds[i].key@)
}

pub open spec fn is_declared(ds: Seq<PipelineSecretConfig>, name: Seq<char>) -> bool {
    exists|i: int| 0 <= i < ds.len() && ds[i].name@ == name
}

/// The secrets that a step requests; none when it has no list.
pub open spec fn step_requests(step: PipelineStep) -> Seq<StepSecretConfig> {
    match step.secrets {
        Some(l) => l@,
        None => Seq::empty(),
    }
}

/// Some step requests a secret that is not declared.
pub open spec fn has_unknown_reference(ds: Seq<PipelineSecretConfig>, steps: Seq<PipelineStep>) -> bool {
    exists|s: int, k: int|
        0 <= s < steps.len() && 0 <= k < step_requests(steps[s]).len()
            && !#[trigger] request_declared(ds, steps, s, k)
}

/// The `k`-th request of step `s` names a declared secret.
pub open spec fn request_declared(ds: Seq<PipelineSecretConfig>, steps: Seq<PipelineStep>, s: int, k: int) -> bool {
    is_declared(ds, step_requests(steps[s])[k].name@)
}

/// The descriptor of a declared secret.
pub open spec fn materialize(d: PipelineSecretConfig) -> MaterializedSecret {
    MaterializedSecret { object_name: d.name, secret_path: d.location, secret_key: d.key }
}

/// Outcome of validating a manifest's secrets, checks in order: duplicate
/// names, keys missing from the store, steps that request undeclared secrets.
pub open spec fn secret_validation(
    ds: Seq<PipelineSecretConfig>,
    steps: Seq<PipelineStep>,
    subkeys: Seq<Seq<Seq<char>>>,
) -> Result<Seq<MaterializedSecret>, SecretProblem> {
    if has_duplicate_name(ds) {
        Err(SecretProblem::Duplicate)
    } else if has_missing_key(ds, subkeys) {
        Err(SecretProblem::Missing)
    } else if has_unknown_reference(ds, steps) {
        Err(SecretProblem::UnknownReference)
    } else {
        Ok(ds.map_values(|d: PipelineSecretConfig| materialize(d)))
    }
}

fn contains_string(v: &Vec<String>, s: &String) -> (r: bool)
    ensures
        r == v.deep_view().contains(s@),
{
    let mut i: usize = 0;
    while i < v.len()
        invariant
            0 <= i <= v.len(),
            forall|k: int| 0 <= k < i ==> v.deep_view()[k] != s@,
        decreases v.len() - i,
    {
        if v[i] == *s {
            assert(v.deep_view()[i as int] == s@);
            return true;
        }
        i = i + 1;
    }
    false
}

fn duplicate_name(ds: &Vec<PipelineSecretConfig>) -> (r: bool)
    ensures
        r == has_duplicate_name(ds@),
{
    let n = ds.len();
    let mut i: usize = 0;
    while i < n
        invariant
            n == ds.len(),
            0 <= i <= n,
            forall|a: int, b: int| 0 <= a < i && a < b < n ==> ds@[a].name@ != ds@[b].name@,
        decreases n - i,
    {
        let mut j: usize = i + 1;
        while j < n
            invariant
                n == ds.len(),
                0 <= i < n,
                i + 1 <= j <= n,
                forall|a: int, b: int| 0 <= a < i && a < b < n ==> ds@[a].name@ != ds@[b].name@,
                forall|b: int| i < b < j ==> ds@[i as int].name@ != ds@[b].name@,
            decreases n - j,
        {
            if ds[i].name == ds[j].name {
                return true;
            }
            j = j + 1;
        }
        i = i + 1;
    }
    false
}

fn declared(ds: &Vec<PipelineSecretConfig>, name: &String) -> (r: bool)
    ensures
        r == is_declared(ds@, name@),
{
    let mut i: usize = 0;
    while i < ds.len()
        invariant
            0 <= i <= ds.len(),
            forall|k: int| 0 <= k < i ==> ds@[k].name@ != name@,
        decreases ds.len() - i,
    {
        if ds[i].name == *name {
            return true;
        }
        i = i + 1;
    }
    false
}

fn missing_key(ds: &Vec<PipelineSecretConfig>, subkeys: &Vec<Vec<String>>) -> (r: bool)
    ensures
        r == has_missing_key(ds@, subkeys.deep_view()),
{
    let ghost sk = subkeys.deep_view();
    let mut i: usize = 0;
    while i < ds.len()
        invariant
            0 <= i <= ds.len(),
            sk == subkeys.deep_view(),
            forall|k: int| 0 <= k < i ==> #[trigger] key_found(ds@, sk, k),
        decreases ds.len() - i,
    {
        if i >= subkeys.len() {
            assert(!key_found(ds@, sk, i as int));
            return true;
        }
        assert(sk[i as int] == subkeys@[i as int].deep_view());
        if !contains_string(&subkeys[i], &ds[i].key) {
            assert(!key_found(ds@, sk, i as int));
            return true;
        }
        i = i + 1;
    }
    false
}

/// The store locations to query, one per declared secret in declaration
/// order; refused when two declared secrets share a name.
pub fn secret_locations(pipeline: &Pipeline) -> (r: Result<Vec<String>, PipelineExecError>)
    ensures
        has_duplicate_name(declared_secrets(*pipeline)) ==> r == Err::<Vec<String>, PipelineExecError>(
            PipelineExecError::InvalidSecretConfiguration(SecretProblem::Duplicate)),
        !has_duplicate_name(declared_secrets(*pipeline)) ==> (r matches Ok(locs)
            && locs@.len() == declared_secrets(*pipeline).len()
            && forall|i: int| 0 <= i < locs@.len() ==> #[trigger] locs@[i] == declared_secrets(*pipeline)[i].location),
{
    match &pipeline.secrets {
        None => Ok(Vec::new()),
        Some(ds) => {
            if duplicate_name(ds) {
                return Err(PipelineExecError::InvalidSecretConfiguration(SecretProblem::Duplicate));
            }
            let mut locs: Vec<String> = Vec::new();
            let mut i: usize = 0;
            while i < ds.len()
                invariant
                    pipeline.secrets matches Some(v) && v@ == ds@,
                    0 <= i <= ds.len(),
                    locs@.len() == i,
                    forall|k: int| 0 <= k < i ==> #[trigger] locs@[k] == ds@[k].location,
                decreases ds.len() - i,
            {
                locs.push(ds[i].location.clone());
                i = i + 1;
            }
            Ok(locs)
        },
    }
}

/// Validates a manifest's secrets against the subkeys that the store holds at
/// each declared location (`subkeys[i]` for the `i`-th declared secret), and
/// materialises them.
pub fn build_pipeline_secrets(pipeline: &Pipeline, subkeys: &Vec<Vec<String>>) -> (r: Result<MaterializedSecretConfig, PipelineExecError>)
    ensures
        match secret_validation(declared_secrets(*pipeline), pipeline.steps@, subkeys.deep_view()) {
            Ok(ms) => r matches Ok(c) && c@ == ms,
            Err(p) => r == Err::<MaterializedSecretConfig, PipelineExecError>(
                PipelineExecError::InvalidSecretConfiguration(p)),
        },
{
    let empty: Vec<PipelineSecretConfig> = Vec::new();
    let ds: &Vec<PipelineSecretConfig> = match &pipeline.secrets {
        Some(v) => v,
        None => &empty,
    };
    assert(ds@ == declared_secrets(*pipeline));
    if duplicate_name(ds) {
        return Err(PipelineExecError::InvalidSecretConfiguration(SecretProblem::Duplicate));
    }
    let ghost sk = subkeys.deep_view();
    if missing_key(ds, subkeys) {
        return Err(PipelineExecError::InvalidSecretConfiguration(SecretProblem::Missing));
    }
    let mut s: usize = 0;
    while s < pipeline.steps.len()
        invariant
            0 <= s <= pipeline.steps.len(),
            ds@ == declared_secrets(*pipeline),
            sk == subkeys.deep_view(),
            !has_duplicate_name(ds@),
            !has_missing_key(ds@, sk),
            forall|a: int, k: int|
                0 <= a < s && 0 <= k < step_requests(pipeline.steps@[a]).len()
                    ==> #[trigger] request_declared(ds@, pipeline.steps@, a, k),
        decreases pipeline.steps.len() - s,
    {
        match &pipeline.steps[s].secrets {
            None => {},
            Some(reqs) => {
                let mut k: usize = 0;
                while k < reqs.len()
                    invariant
                        0 <= s < pipeline.steps.len(),
                        ds@ == declared_secrets(*pipeline),
                        sk == subkeys.deep_view(),
                        !has_duplicate_name(ds@),
                        !has_missing_key(ds@, sk),
                        step_requests(pipeline.steps@[s as int]) == reqs@,
                        0 <= k <= reqs.len(),
                        forall|b: int| 0 <= b < k ==> #[trigger] request_declared(ds@, pipeline.steps@, s as int, b),
                    decreases reqs.len() - k,
                {
                    if !declared(ds, &reqs[k].name) {
                        proof {
                            assert(!request_declared(ds@, pipeline.steps@, s as int, k as int));
                        }
                        return Err(PipelineExecError::InvalidSecretConfiguration(SecretProblem::UnknownReference));
                    }
                    k = k + 1;
                }
            },
        }
        s = s + 1;
    }
    let mut ms: Vec<MaterializedSecret> = Vec::new();
    let mut i: usize = 0;
    while i < ds.len()
        invariant
            0 <= i <= ds.len(),
            ms@ == ds@.take(i as int).map_values(|d: PipelineSecretConfig| materialize(d)),
        decreases ds.len() - i,
    {
        let d = &ds[i];
        ms.push(MaterializedSecret::new(d.name.clone(), d.location.clone(), d.key.clone()));
        proof {
            assert(ds@.take(i + 1).map_values(|d: PipelineSecretConfig| materialize(d))
                =~= ds@.take(i as int).map_values(|d: PipelineSecretConfig| materialize(d)).push(materialize(ds@[i as int])));
        }
        i = i + 1;
    }
    proof {
        assert(ds@.take(ds.len() as int) =~= ds@);
    }
    Ok(MaterializedSecretConfig::new(ms))
}


/// Upper-case form of a text, as `str::to_uppercase` gives it.
pub uninterp spec fn upper_of(s: Seq<char>) -> Seq<char>;

/// Relies on `str::to_uppercase`: the result depends on the text alone.
#[verifier::external_body]
fn uppercase(s: &str) -> (r: String)
    ensures
        r@ == upper_of(s@),
{
    s.to_uppercase()
}

/// The shell line that loads the file the sidecar writes for a secret.
pub open spec fn source_line(m: MaterializedSecret) -> Seq<char> {
    ". /vault/secrets/"@ + m.object_name@
}

/// The sidecar template that exports a secret's value under the upper-cased
/// object name.
pub open spec fn secret_template(m: MaterializedSecret) -> Seq<char> {
    template_text(m.secret_path@, upper_of(m.object_name@), m.secret_key@)
}

/// The sidecar template that reads entry `key` at `path` and exports it as `var`.
pub open spec fn template_text(path: Seq<char>, var: Seq<char>, key: Seq<char>) -> Seq<char> {
    "\n            {{ with secret \"constructum/"@ + path + "\" -}}\n                export "@
        + var + "=\"{{ .Data.data."@ + key + " }}\"\n            {{- end }}"@
}

/// The sidecar template that reads entry `key` at `path` and exports it as `var`.
pub fn secret_template_text(path: &str, var: &str, key: &str) -> (r: String)
    ensures
        r@ == template_text(path@, var@, key@),
{
    let mut t = String::from_str("\n            {{ with secret \"constructum/");
    t.append(path);
    t.append("\" -}}\n                export ");
    t.append(var);
    t.append("=\"{{ .Data.data.");
    t.append(key);
    t.append(" }}\"\n            {{- end }}");
    t
}

/// The two annotations of one secret: where to read it, and how to render it.
pub open spec fn secret_annotations(m: MaterializedSecret) -> Seq<(Seq<char>, Seq<char>)> {
    seq![
        ("vault.hashicorp.com/agent-inject-secret-"@ + m.object_name@, m.secret_path@),
        ("vault.hashicorp.com/agent-inject-template-"@ + m.object_name@, secret_template(m)),
    ]
}

/// The annotations of a list of secrets, in order.
pub open spec fn secrets_annotations(ms: Seq<MaterializedSecret>) -> Seq<(Seq<char>, Seq<char>)>
    decreases ms.len(),
{
    if ms.len() == 0 {
        Seq::empty()
    } else {
        secrets_annotations(ms.drop_last()) + secret_annotations(ms.last())
    }
}

/// All pod annotations of an injection descriptor: injection on, the role,
/// then two per secret.
pub open spec fn vault_annotation_entries(role: Seq<char>, ms: Seq<MaterializedSecret>) -> Seq<(Seq<char>, Seq<char>)> {
    seq![("vault.hashicorp.com/agent-inject"@, "true"@), ("vault.hashicorp.com/role"@, role)]
        + secrets_annotations(ms)
}

fn concat(a: &str, b: &str) -> (r: String)
    ensures
        r@ == a@ + b@,
{
    let mut s = String::from_str(a);
    s.append(b);
    s
}

impl VaultAnnotations {
    /// One `source` line per secret, in order: `. /vault/secrets/<object_name>`.
    pub fn to_source_commands(&self) -> (r: Vec<String>)
        ensures
            r@.len() == self.secrets@.len(),
            forall|i: int| 0 <= i < r@.len() ==> #[trigger] r@[i]@ == source_line(self.secrets@[i]),
    {
        let mut src_commands: Vec<String> = Vec::new();
        let mut i: usize = 0;
        while i < self.secrets.len()
            invariant
                0 <= i <= self.secrets.len(),
                src_commands@.len() == i,
                forall|k: int| 0 <= k < i ==> #[trigger] src_commands@[k]@ == source_line(self.secrets@[k]),
            decreases self.secrets.len() - i,
        {
            src_commands.push(concat(". /vault/secrets/", self.secrets[i].object_name.as_str()));
            i = i + 1;
        }
        src_commands
    }

    /// The pod annotations that ask the sidecar to inject these secrets, as
    /// key and value pairs in order.
    pub fn annotation_entries(&self) -> (r: Vec<(String, String)>)
        ensures
            r.deep_view() == vault_annotation_entries(self.role@, self.secrets@),
    {
        let mut out: Vec<(String, String)> = Vec::new();
        out.push((String::from_str("vault.hashicorp.com/agent-inject"), String::from_str("true")));
        out.push((String::from_str("vault.hashicorp.com/role"), self.role.clone()));
        let ghost head = seq![("vault.hashicorp.com/agent-inject"@, "true"@), ("vault.hashicorp.com/role"@, self.role@)];
        proof {
            assert(out.deep_view() =~= head);
            assert(self.secrets@.take(0) =~= Seq::<MaterializedSecret>::empty());
            assert(head + secrets_annotations(Seq::<MaterializedSecret>::empty()) =~= head);
        }
        let mut i: usize = 0;
        while i < self.secrets.len()
            invariant
                0 <= i <= self.secrets.len(),
                head == seq![("vault.hashicorp.com/agent-inject"@, "true"@), ("vault.hashicorp.com/role"@, self.role@)],
                out.deep_view() == head + secrets_annotations(self.secrets@.take(i as int)),
            decreases self.secrets.len() - i,
        {
            let m = &self.secrets[i];
            let upper = uppercase(m.object_name.as_str());
            let t = secret_template_text(m.secret_path.as_str(), upper.as_str(), m.secret_key.as_str());
            let ghost before = out.deep_view();
            out.push((concat("vault.hashicorp.com/agent-inject-secret-", m.object_name.as_str()), m.secret_path.clone()));
            out.push((concat("vault.hashicorp.com/agent-inject-template-", m.object_name.as_str()), t));
            proof {
                let ms = self.secrets@.take(i + 1);
                assert(ms.drop_last() =~= self.secrets@.take(i as int));
                assert(ms.last() == *m);
                assert(out.deep_view() =~= before + secret_annotations(*m));
                assert(head + secrets_annotations(ms) =~= before + secret_annotations(*m));
            }
            i = i + 1;
        }
        proof {
            assert(self.secrets@.take(self.secrets.len() as int) =~= self.secrets@);
        }
        out
    }
}


/// A manifest whose declared secrets share a name is refused as a
/// duplicate; one where a step requests an undeclared secret is refused.
pub proof fn lemma_secret_rejections(
    ds: Seq<PipelineSecretConfig>,
    steps: Seq<PipelineStep>,
    subkeys: Seq<Seq<Seq<char>>>,
)
    ensures
        has_duplicate_name(ds) ==> secret_validation(ds, steps, subkeys) == Err::<Seq<MaterializedSecret>, SecretProblem>(
            SecretProblem::Duplicate),
        has_unknown_reference(ds, steps) ==> secret_validation(ds, steps, subkeys) is Err,
{
}

} // verus!
