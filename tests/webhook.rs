use constructum::admission::AdmissionError;
use constructum::config::{Config, MissingSetting};
use constructum::webhook::{CreateJobPayload, GitWebhookPayload, RepositoryWebhookPayload, UserWebhookPayload};

fn user() -> UserWebhookPayload {
    UserWebhookPayload {
        id: 1,
        login: "o".to_string(),
        full_name: String::new(),
        email: String::new(),
        avatar_url: String::new(),
        username: "o".to_string(),
    }
}

fn push(repo_id: u64) -> GitWebhookPayload {
    GitWebhookPayload {
        secret: None,
        git_reference: "refs/heads/main".to_string(),
        before: "B".to_string(),
        after: "C".to_string(),
        compare_url: String::new(),
        commits: Vec::new(),
        repository: RepositoryWebhookPayload {
            id: repo_id,
            owner: user(),
            name: "r".to_string(),
            full_name: "o/r".to_string(),
            description: String::new(),
            private: false,
            fork: false,
            html_url: "https://git.example/o/r".to_string(),
            ssh_url: String::new(),
            clone_url: String::new(),
            website: String::new(),
            stars_count: 0,
            forks_count: 0,
            watchers_count: 0,
            open_issues_count: 0,
            default_branch: "main".to_string(),
            created_at: String::new(),
            updated_at: String::new(),
        },
        pusher: user(),
        sender: user(),
    }
}

#[test]
fn push_becomes_admission_request() {
    let c = CreateJobPayload::from_push(&push(42)).unwrap();
    assert_eq!(c.repo_id, 42);
    assert_eq!(c.commit_hash, "C");
    assert_eq!(c.name, "r");
    assert_eq!(c.html_url, "https://git.example/o/r");
    assert_eq!(CreateJobPayload::from_push(&push(1 << 40)).unwrap_err(), AdmissionError::UnknownRepository);
    let n = CreateJobPayload::new(1, "u".to_string(), "n".to_string(), "h".to_string());
    assert_eq!(n.repo_id, 1);
}

#[test]
fn config_settings() {
    let mut c = Config {
        sql_connection_url: String::new(),
        s3_region: String::new(),
        s3_endpoint: String::new(),
        s3_bucket: String::new(),
        redis_url: String::new(),
        container_name: String::new(),
        build_cache_location: None,
        pipeline_uuid: None,
        vault_server: None,
        git_server_url: None,
    };
    assert_eq!(c.server_settings().unwrap_err(), MissingSetting::GitServerUrl);
    c.git_server_url = Some("g".to_string());
    assert_eq!(c.server_settings().unwrap_err(), MissingSetting::BuildCacheLocation);
    c.build_cache_location = Some("b".to_string());
    assert_eq!(c.server_settings().unwrap(), ("g".to_string(), "b".to_string()));
    assert_eq!(c.client_settings().unwrap_err(), MissingSetting::PipelineUuid);
    c.pipeline_uuid = Some("p".to_string());
    assert_eq!(c.client_settings().unwrap_err(), MissingSetting::VaultServer);
}
