use vstd::prelude::*;
use crate::admission::Repository;

verus! {

/// An account at the Git service.
#[derive(Clone, Debug)]
pub struct GiteaUser {
    pub id: i32,
    pub login: String,
}

/// A repository as the Git service describes it.
#[derive(Clone, Debug)]
pub struct GiteaRepository {
    pub id: i32,
    pub name: String,
    pub description: String,
    pub html_url: String,
    pub ssh_url: String,
    pub owner: GiteaUser,
}

/// A request to register the repository `owner/name`.
#[derive(Clone, Debug)]
pub struct RegisterRepositoryPayload {
    pub owner: String,
    pub name: String,
}

/// One repository of the Git service, with what this system knows of it.
#[derive(Clone, Debug)]
pub struct GitRepoResponse {
    /// Identifier of the registered repository, if one was ever registered.
    pub id: Option<u128>,
    pub name: String,
    pub description: String,
    pub html_url: String,
    pub ssh_url: String,
    pub owner: GiteaUser,
    /// Registered and enabled.
    pub is_registered: bool,
}

impl GiteaUser {
    pub fn duplicate(&self) -> (r: GiteaUser)
        ensures
            r == *self,
    {
        GiteaUser { id: self.id, login: self.login.clone() }
    }
}

/// What registering a repository amounts to, given the stored record with
/// the same Git identifier, if any.
#[derive(Clone, Copy, Debug, PartialEq, Eq, Structural)]
pub enum Registration {
    /// It is registered and enabled: refused.
    AlreadyRegistered,
    /// It was removed: enable this record again, with a new webhook.
    Reenable(u128),
    /// It is new: store a new record, with a new webhook.
    Register,
}

pub fn registration_for(found: Option<&Repository>) -> (r: Registration)
    ensures
        found is None ==> r == Registration::Register,
        found matches Some(repo) ==> r == if repo.enabled {
            Registration::AlreadyRegistered
        } else {
            Registration::Reenable(repo.id)
        },
{
    match found {
        None => Registration::Register,
        Some(repo) => {
            if repo.enabled {
                Registration::AlreadyRegistered
            } else {
                Registration::Reenable(repo.id)
            }
        },
    }
}

/// The record of a newly registered repository: enabled, with its webhook,
/// no pipelines yet.
pub fn new_repository(id: u128, git: &GiteaRepository, webhook_id: i32) -> (r: Repository)
    ensures
        r.id == id,
        r.external_id == git.id,
        r.url == git.html_url,
        r.owner == git.owner.login,
        r.name == git.name,
        r.webhook_id == Some(webhook_id),
        r.enabled,
        r.build_seq == 0,
{
    Repository {
        id,
        external_id: git.id,
        url: git.html_url.clone(),
        owner: git.owner.login.clone(),
        name: git.name.clone(),
        webhook_id: Some(webhook_id),
        enabled: true,
        build_seq: 0,
    }
}

/// A removed repository: disabled, webhook cleared, all else kept.
pub fn soft_deleted(repo: Repository) -> (r: Repository)
    ensures
        r == (Repository { enabled: false, webhook_id: None, ..repo }),
{
    Repository { enabled: false, webhook_id: None, ..repo }
}

/// A repository registered again: enabled, with its new webhook.
pub fn reenabled(repo: Repository, webhook_id: i32) -> (r: Repository)
    ensures
        r == (Repository { enabled: true, webhook_id: Some(webhook_id), ..repo }),
{
    Repository { enabled: true, webhook_id: Some(webhook_id), ..repo }
}

/// The first stored record with Git identifier `external_id`.
pub open spec fn find_known(known: Seq<Repository>, external_id: i32) -> Option<Repository>
    decreases known.len(),
{
    if known.len() == 0 {
        None
    } else if known[0].external_id == external_id {
        Some(known[0])
    } else {
        find_known(known.drop_first(), external_id)
    }
}

/// A Git service repository with what the stored records say of it.
pub open spec fn listed(g: GiteaRepository, known: Seq<Repository>) -> GitRepoResponse {
    let k = find_known(known, g.id);
    GitRepoResponse {
        id: match k {
            Some(repo) => Some(repo.id),
            None => None,
        },
        name: g.name,
        description: g.description,
        html_url: g.html_url,
        ssh_url: g.ssh_url,
        owner: g.owner,
        is_registered: match k {
            Some(repo) => repo.enabled,
            None => false,
        },
    }
}

fn find_known_index(known: &Vec<Repository>, external_id: i32) -> (r: Option<usize>)
    ensures
        match find_known(known@, external_id) {
            None => r is None,
            Some(repo) => r matches Some(i) && i < known@.len() && known@[i as int] == repo,
        },
{
    let mut i: usize = 0;
    proof {
        assert(known@.skip(0) =~= known@);
    }
    while i < known.len()
        invariant
            0 <= i <= known.len(),
            find_known(known@, external_id) == find_known(known@.skip(i as int), external_id),
        decreases known.len() - i,
    {
        proof {
            assert(known@.skip(i as int).drop_first() =~= known@.skip(i + 1));
        }
        if known[i].external_id == external_id {
            return Some(i);
        }
        i = i + 1;
    }
    None
}

/// The Git service's repositories, each with its stored identifier and
/// whether it is registered, in the service's order.
pub fn list_git_repos(git_repos: &Vec<GiteaRepository>, known: &Vec<Repository>) -> (r: Vec<GitRepoResponse>)
    ensures
        r@.len() == git_repos@.len(),
        forall|i: int| 0 <= i < r@.len() ==> #[trigger] r@[i] == listed(git_repos@[i], known@),
{
    let mut out: Vec<GitRepoResponse> = Vec::new();
    let mut i: usize = 0;
    while i < git_repos.len()
        invariant
            0 <= i <= git_repos.len(),
            out@.len() == i,
            forall|k: int| 0 <= k < i ==> #[trigger] out@[k] == listed(git_repos@[k], known@),
        decreases git_repos.len() - i,
    {
        let g = &git_repos[i];
        let (id, is_registered) = match find_known_index(known, g.id) {
            Some(j) => (Some(known[j].id), known[j].enabled),
            None => (None, false),
        };
        out.push(GitRepoResponse {
            id,
            name: g.name.clone(),
            description: g.description.clone(),
            html_url: g.html_url.clone(),
            ssh_url: g.ssh_url.clone(),
            owner: g.owner.duplicate(),
            is_registered,
        });
        i = i + 1;
    }
    out
}

} // verus!
