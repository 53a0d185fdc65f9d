use constructum::admission::JobRecord;
use constructum::ordering::order_by_key;
use constructum::pipeline::PipelineStatus;

#[test]
fn steps_listed_by_ordinal() {
    assert_eq!(order_by_key(&vec![2, 0, 1]), vec![1, 2, 0]);
    assert_eq!(order_by_key(&vec![1, 0, 1, 0]), vec![1, 3, 0, 2]);
    assert!(order_by_key(&Vec::new()).is_empty());
}

#[test]
fn job_finishes_once() {
    let mut j = JobRecord {
        id: 1,
        seq: 1,
        repo_id: 2,
        commit: "C".to_string(),
        finished: false,
        status: PipelineStatus::InProgress,
    };
    assert!(!j.finish(PipelineStatus::InProgress));
    assert!(!j.finished);
    assert!(j.finish(PipelineStatus::Failed));
    assert!(j.finished);
    assert_eq!(j.status, PipelineStatus::Failed);
    assert!(!j.finish(PipelineStatus::Complete));
    assert_eq!(j.status, PipelineStatus::Failed);
}
