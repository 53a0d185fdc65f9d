use vstd::prelude::*;

verus! {

/// Text form of a pipeline identifier, as the uuid crate prints it.
pub uninterp spec fn uuid_text(id: u128) -> Seq<char>;

/// Relies on `uuid::Uuid::from_u128` and the `Display` impl of `uuid::Uuid`:
/// the hyphenated lower-case form, which depends on the value alone.
#[verifier::external_body]
fn hyphenated(id: u128) -> (r: String)
    ensures
        r@ == uuid_text(id),
{
    uuid::Uuid::from_u128(id).to_string()
}

/// The text of a pipeline identifier, as it appears in resource names and labels.
pub fn pipeline_label(id: u128) -> (r: String)
    ensures
        r@ == uuid_text(id),
{
    hyphenated(id)
}

/// Name of the scratch volume of a pipeline: `pipeline-<uuid>-pvc`.
pub fn pvc_name(id: u128) -> (r: String)
    ensures
        r@ == "pipeline-"@ + uuid_text(id) + "-pvc"@,
{
    let u = hyphenated(id);
    volume_name(u.as_str())
}

/// Name of the scratch volume of the pipeline whose identifier reads `label`.
pub fn volume_name(label: &str) -> (r: String)
    ensures
        r@ == "pipeline-"@ + label@ + "-pvc"@,
{
    let mut s = String::from_str("pipeline-");
    s.append(label);
    s.append("-pvc");
    s
}

/// Name of the client workload of a pipeline: `pipeline-<uuid>-client`.
pub fn client_job_name(id: u128) -> (r: String)
    ensures
        r@ == "pipeline-"@ + uuid_text(id) + "-client"@,
{
    let u = hyphenated(id);
    client_workload_name(u.as_str())
}

/// Name of the client workload of the pipeline whose identifier reads `label`.
pub fn client_workload_name(label: &str) -> (r: String)
    ensures
        r@ == "pipeline-"@ + label@ + "-client"@,
{
    let mut s = String::from_str("pipeline-");
    s.append(label);
    s.append("-client");
    s
}

/// Name of the workload that runs one step: `pipeline-<pipeline>-<step>`.
pub fn step_job_name(pipeline: &str, step: &str) -> (r: String)
    ensures
        r@ == "pipeline-"@ + pipeline@ + "-"@ + step@,
{
    let mut s = String::from_str("pipeline-");
    s.append(pipeline);
    s.append("-");
    s.append(step);
    s
}

/// Name of the single container of a workload: `<name>-container`.
pub fn container_name(name: &str) -> (r: String)
    ensures
        r@ == name@ + "-container"@,
{
    let mut s = String::from_str(name);
    s.append("-container");
    s
}

/// Name of the pod template of a workload: `<name>-pod`.
pub fn pod_template_name(name: &str) -> (r: String)
    ensures
        r@ == name@ + "-pod"@,
{
    let mut s = String::from_str(name);
    s.append("-pod");
    s
}

/// Key of the live log of a step in the log cache: `job:<workload>:step:<step>`.
pub fn log_cache_key(workload: &str, step: &str) -> (r: String)
    ensures
        r@ == "job:"@ + workload@ + ":step:"@ + step@,
{
    let mut s = String::from_str("job:");
    s.append(workload);
    s.append(":step:");
    s.append(step);
    s
}

/// Key of the archived log of one pod: `<pod>-<workload>.txt`.
pub fn archive_key(pod: &str, workload: &str) -> (r: String)
    ensures
        r@ == pod@ + "-"@ + workload@ + ".txt"@,
{
    let mut s = String::from_str(pod);
    s.append("-");
    s.append(workload);
    s.append(".txt");
    s
}

/// Label selector that picks the pods of a workload: `job-name=<workload>`.
pub fn job_pods_selector(workload: &str) -> (r: String)
    ensures
        r@ == "job-name="@ + workload@,
{
    let mut s = String::from_str("job-name=");
    s.append(workload);
    s
}

/// Label selector that picks the scratch volumes of a pipeline:
/// `constructum-pipeline=<uuid>`.
pub fn pipeline_volume_selector(id: u128) -> (r: String)
    ensures
        r@ == "constructum-pipeline="@ + uuid_text(id),
{
    let u = hyphenated(id);
    volume_selector(u.as_str())
}

/// Label selector of the scratch volumes of the pipeline whose identifier
/// reads `label`.
pub fn volume_selector(label: &str) -> (r: String)
    ensures
        r@ == "constructum-pipeline="@ + label@,
{
    let mut s = String::from_str("constructum-pipeline=");
    s.append(label);
    s
}


/// A create call's HTTP status that counts as done: the resource was
/// created, or one of that name already exists (creation is idempotent by name).
pub fn create_done(status: u16) -> (r: bool)
    ensures
        r == ((200 <= status && status < 300) || status == 409),
{
    (200 <= status && status < 300) || status == 409
}

/// A delete call's HTTP status that counts as done: the resource was
/// deleted, or there was none.
pub fn delete_done(status: u16) -> (r: bool)
    ensures
        r == ((200 <= status && status < 300) || status == 404),
{
    (200 <= status && status < 300) || status == 404
}

} // verus!
