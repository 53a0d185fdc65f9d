use vstd::prelude::*;
use crate::pipeline::PipelineStatus;

verus! {

/// A registered repository.
#[derive(Clone, Debug)]
pub struct Repository {
    pub id: u128,
    /// Identifier of the repository at the Git service.
    pub external_id: i32,
    pub url: String,
    pub owner: String,
    pub name: String,
    pub webhook_id: Option<i32>,
    pub enabled: bool,
    /// Sequence number of the last pipeline admitted for this repository.
    pub build_seq: i32,
}

/// The stored record of one pipeline run (a job).
#[derive(Clone, Debug)]
pub struct JobRecord {
    pub id: u128,
    pub seq: i32,
    pub repo_id: u128,
    pub commit: String,
    pub finished: bool,
    pub status: PipelineStatus,
}

impl JobRecord {
    /// Moves the job to a terminal status. Only `InProgress` moves, and only to
    /// `Complete` or `Failed`, which also marks it finished; a terminal job
    /// stays as it is. Returns whether the job changed.
    pub fn finish(&mut self, status: PipelineStatus) -> (r: bool)
        ensures
            r == (old(self).status == PipelineStatus::InProgress && status != PipelineStatus::InProgress),
            r ==> *final(self) == (JobRecord { status, finished: true, ..*old(self) }),
            !r ==> *final(self) == *old(self),
    {
        if self.status == PipelineStatus::InProgress && status != PipelineStatus::InProgress {
            self.status = status;
            self.finished = true;
            true
        } else {
            false
        }
    }
}

/// Why a push was not admitted.
#[derive(Clone, Copy, Debug, PartialEq, Eq, Structural)]
pub enum AdmissionError {
    /// No registered repository has the pushed repository's identifier.
    UnknownRepository,
    /// The repository was removed; it admits no new pipelines.
    RepositoryDisabled,
}

/// The two writes that admitting a pipeline makes together: the repository
/// with its counter moved on, and the new job.
#[derive(Clone, Debug)]
pub struct Admission {
    pub repository: Repository,
    pub job: JobRecord,
}

/// The repository after admitting a pipeline: its counter moved on by one.
pub open spec fn advanced(repo: Repository) -> Repository {
    Repository { build_seq: (repo.build_seq + 1) as i32, ..repo }
}

/// The job that admitting pipeline `id` at `commit` creates: the next number
/// of the repository, in progress.
pub open spec fn admitted_job(repo: Repository, id: u128, commit: String) -> JobRecord {
    JobRecord {
        id,
        seq: (repo.build_seq + 1) as i32,
        repo_id: repo.id,
        commit,
        finished: false,
        status: PipelineStatus::InProgress,
    }
}

/// Admits pipeline `pipeline` at `commit` for the repository that the lookup
/// by external identifier found (`None`: none was).
pub fn admit_pipeline(found: Option<Repository>, pipeline: u128, commit: String) -> (r: Result<Admission, AdmissionError>)
    requires
        found matches Some(repo) ==> repo.build_seq < i32::MAX,
    ensures
        found is None ==> r == Err::<Admission, AdmissionError>(AdmissionError::UnknownRepository),
        found matches Some(repo) ==> if repo.enabled {
            r matches Ok(a) && a.repository == advanced(repo) && a.job == admitted_job(repo, pipeline, commit)
        } else {
            r == Err::<Admission, AdmissionError>(AdmissionError::RepositoryDisabled)
        },
{
    match found {
        None => Err(AdmissionError::UnknownRepository),
        Some(repo) => {
            if !repo.enabled {
                return Err(AdmissionError::RepositoryDisabled);
            }
            let seq = repo.build_seq + 1;
            let job = JobRecord {
                id: pipeline,
                seq,
                repo_id: repo.id,
                commit,
                finished: false,
                status: PipelineStatus::InProgress,
            };
            let mut repository = repo;
            repository.build_seq = seq;
            Ok(Admission { repository, job })
        },
    }
}

/// The stored jobs of a repository are numbered at most its counter.
pub open spec fn counter_covers(repo: Repository, jobs: Seq<JobRecord>) -> bool {
    forall|i: int| 0 <= i < jobs.len() && (#[trigger] jobs[i]).repo_id == repo.id ==> jobs[i].seq <= repo.build_seq
}

/// After an admission the repository's counter equals the new job's number,
/// which is greater than the number of every earlier job of the repository;
/// the counter still covers all jobs, the new one included.
pub proof fn lemma_admission_sequence(repo: Repository, jobs: Seq<JobRecord>, id: u128, commit: String)
    requires
        repo.build_seq < i32::MAX,
        counter_covers(repo, jobs),
    ensures
        advanced(repo).build_seq == admitted_job(repo, id, commit).seq,
        forall|i: int| 0 <= i < jobs.len() && (#[trigger] jobs[i]).repo_id == repo.id
            ==> jobs[i].seq < admitted_job(repo, id, commit).seq,
        counter_covers(advanced(repo), jobs.push(admitted_job(repo, id, commit))),
{
    let j = admitted_job(repo, id, commit);
    let all = jobs.push(j);
    assert forall|i: int| 0 <= i < all.len() && (#[trigger] all[i]).repo_id == advanced(repo).id
        implies all[i].seq <= advanced(repo).build_seq by {
        if i < jobs.len() {
            assert(all[i] == jobs[i]);
        }
    }
}

} // verus!
