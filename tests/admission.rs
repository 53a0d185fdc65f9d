use constructum::admission::{admit_pipeline, AdmissionError, Repository};
use constructum::pipeline::PipelineStatus;

fn repo(enabled: bool, build_seq: i32) -> Repository {
    Repository {
        id: 7,
        external_id: 42,
        url: "https://git.example/o/r".to_string(),
        owner: "o".to_string(),
        name: "r".to_string(),
        webhook_id: Some(3),
        enabled,
        build_seq,
    }
}

#[test]
fn admission_numbers_pipelines() {
    let a = admit_pipeline(Some(repo(true, 0)), 100, "C".to_string()).unwrap();
    assert_eq!(a.job.seq, 1);
    assert_eq!(a.repository.build_seq, 1);
    assert_eq!(a.job.repo_id, 7);
    assert_eq!(a.job.commit, "C");
    assert!(!a.job.finished);
    assert_eq!(a.job.status, PipelineStatus::InProgress);
    let b = admit_pipeline(Some(a.repository), 101, "D".to_string()).unwrap();
    assert_eq!(b.job.seq, 2);
    assert!(b.job.seq > a.job.seq);
    assert_eq!(b.repository.build_seq, b.job.seq);
}

#[test]
fn admission_errors() {
    assert_eq!(admit_pipeline(None, 1, "C".to_string()).unwrap_err(), AdmissionError::UnknownRepository);
    assert_eq!(
        admit_pipeline(Some(repo(false, 5)), 1, "C".to_string()).unwrap_err(),
        AdmissionError::RepositoryDisabled
    );
}
