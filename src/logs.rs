use vstd::prelude::*;
use crate::naming::archive_key;
use vstd::utf8::{valid_utf8, decode_utf8 as decode_utf8_spec};

verus! {

/// Relies on `String::from_utf8`: decodes valid UTF-8, and refuses anything else.
#[verifier::external_body]
fn decode_utf8(bytes: Vec<u8>) -> (r: Option<String>)
    ensures
        r is Some <==> valid_utf8(bytes@),
        r matches Some(s) ==> s@ == decode_utf8_spec(bytes@),
{
    String::from_utf8(bytes).ok()
}

/// The live log after one more chunk: the chunk's text appended; `None`
/// when the chunk is not valid UTF-8.
pub fn build_new_log(log_base: String, new_line: Vec<u8>) -> (r: Option<String>)
    ensures
        valid_utf8(new_line@) ==> (r matches Some(s) && s@ == log_base@ + decode_utf8_spec(new_line@)),
        !valid_utf8(new_line@) ==> r is None,
{
    match decode_utf8(new_line) {
        Some(t) => {
            let mut s = log_base;
            s.append(t.as_str());
            Some(s)
        },
        None => None,
    }
}

/// The object-store keys of the archived logs of a workload's pods:
/// `<pod>-<workload>.txt`, one per pod, in order.
pub fn archive_keys(pods: &Vec<String>, workload: &str) -> (r: Vec<String>)
    ensures
        r@.len() == pods@.len(),
        forall|i: int| 0 <= i < r@.len() ==> #[trigger] r@[i]@ == pods@[i]@ + "-"@ + workload@ + ".txt"@,
{
    let mut keys: Vec<String> = Vec::new();
    let mut i: usize = 0;
    while i < pods.len()
        invariant
            0 <= i <= pods.len(),
            keys@.len() == i,
            forall|k: int| 0 <= k < i ==> #[trigger] keys@[k]@ == pods@[k]@ + "-"@ + workload@ + ".txt"@,
        decreases pods.len() - i,
    {
        keys.push(archive_key(pods[i].as_str(), workload));
        i = i + 1;
    }
    keys
}

/// What the step-log endpoint answers.
#[derive(Clone, Debug)]
pub enum StepLogs {
    /// Neither a live nor an archived log exists.
    NoLogs,
    /// The live log of a running step.
    Logs(String),
    /// The archived logs of the step's pods, in key order.
    ManyLogs(Vec<String>),
}

/// Prefers the live log from the cache; on a miss, the archived blobs; with
/// neither, nothing.
pub fn step_logs(live: Option<String>, archived: Vec<String>) -> (r: StepLogs)
    ensures
        live matches Some(l) ==> r == StepLogs::Logs(l),
        live is None && archived@.len() == 0 ==> r == StepLogs::NoLogs,
        live is None && archived@.len() > 0 ==> r == StepLogs::ManyLogs(archived),
{
    match live {
        Some(l) => StepLogs::Logs(l),
        None => {
            if archived.len() == 0 {
                StepLogs::NoLogs
            } else {
                StepLogs::ManyLogs(archived)
            }
        },
    }
}

} // verus!
