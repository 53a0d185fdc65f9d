use vstd::prelude::*;
use crate::admission::AdmissionError;

verus! {

/// A user as a push event names it.
#[derive(Clone, Debug)]
pub struct UserWebhookPayload {
    pub id: u64,
    pub login: String,
    pub full_name: String,
    pub email: String,
    pub avatar_url: String,
    pub username: String,
}

/// The author or committer of a pushed commit.
#[derive(Clone, Debug)]
pub struct CommitUserWebhookPayload {
    pub name: String,
    pub email: String,
    pub username: String,
}

/// One pushed commit.
#[derive(Clone, Debug)]
pub struct CommitWebhookPayload {
    pub id: String,
    pub message: String,
    pub url: String,
    pub author: CommitUserWebhookPayload,
    pub committer: CommitUserWebhookPayload,
    pub timestamp: String,
}

/// The repository a push event is about.
#[derive(Clone, Debug)]
pub struct RepositoryWebhookPayload {
    pub id: u64,
    pub owner: UserWebhookPayload,
    pub name: String,
    pub full_name: String,
    pub description: String,
    pub private: bool,
    pub fork: bool,
    pub html_url: String,
    pub ssh_url: String,
    pub clone_url: String,
    pub website: String,
    pub stars_count: u64,
    pub forks_count: u64,
    pub watchers_count: u64,
    pub open_issues_count: u64,
    pub default_branch: String,
    pub created_at: String,
    pub updated_at: String,
}

/// A push event of the Git service.
#[derive(Clone, Debug)]
pub struct GitWebhookPayload {
    pub secret: Option<String>,
    pub git_reference: String,
    pub before: String,
    /// The commit the branch now points at.
    pub after: String,
    pub compare_url: String,
    pub commits: Vec<CommitWebhookPayload>,
    pub repository: RepositoryWebhookPayload,
    pub pusher: UserWebhookPayload,
    pub sender: UserWebhookPayload,
}

/// What admission needs of a push: the repository's Git identifier, its
/// clone URL and name, and the commit.
#[derive(Clone, Debug)]
pub struct CreateJobPayload {
    pub repo_id: i32,
    pub html_url: String,
    pub name: String,
    pub commit_hash: String,
}

impl CreateJobPayload {
    pub fn new(repo_id: i32, html_url: String, name: String, commit_hash: String) -> (r: CreateJobPayload)
        ensures
            r.repo_id == repo_id,
            r.html_url == html_url,
            r.name == name,
            r.commit_hash == commit_hash,
    {
        CreateJobPayload { repo_id, html_url, name, commit_hash }
    }

    /// The admission request of a push event. A repository identifier beyond
    /// the range of stored identifiers names no registered repository.
    pub fn from_push(payload: &GitWebhookPayload) -> (r: Result<CreateJobPayload, AdmissionError>)
        ensures
            payload.repository.id > i32::MAX ==> r == Err::<CreateJobPayload, AdmissionError>(
                AdmissionError::UnknownRepository),
            payload.repository.id <= i32::MAX ==> (r matches Ok(c)
                && c.repo_id == payload.repository.id
                && c.html_url == payload.repository.html_url
                && c.name == payload.repository.name
                && c.commit_hash == payload.after),
    {
        if payload.repository.id > 2147483647u64 {
            return Err(AdmissionError::UnknownRepository);
        }
        Ok(CreateJobPayload::new(
            payload.repository.id as i32,
            payload.repository.html_url.clone(),
            payload.repository.name.clone(),
            payload.after.clone(),
        ))
    }
}

} // verus!
