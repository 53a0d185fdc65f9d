use constructum::workload::job_failed_from;
use constructum::pipeline::{
    Pipeline, PipelineImagePullPref, PipelineSecretConfig, PipelineStatus, PipelineStep, StepSecretConfig,
    StepStatus,
};
use constructum::secrets::{MaterializedSecret, MaterializedSecretConfig};
use constructum::supervisor::{Dispatch, PipelineRun};

const ID: u128 = 0x67e55044_10b1_426f_9247_bb680e5fe0c8;
const LABEL: &str = "67e55044-10b1-426f-9247-bb680e5fe0c8";

fn step(name: &str, cmd: &str) -> PipelineStep {
    PipelineStep {
        name: name.to_string(),
        image: "img:1".to_string(),
        pull: PipelineImagePullPref::Always,
        commands: vec![cmd.to_string()],
        secrets: None,
    }
}

fn manifest() -> Pipeline {
    Pipeline { version: 1, steps: vec![step("build", "make"), step("test", "make test")], secrets: None }
}

fn statuses(run: &PipelineRun) -> Vec<StepStatus> {
    run.steps().iter().map(|s| s.status).collect()
}

#[test]
fn happy_path_completes() {
    let secrets = MaterializedSecretConfig::empty();
    let mut run = PipelineRun::new(ID, manifest());
    assert_eq!(run.steps().iter().map(|s| s.ordinal).collect::<Vec<_>>(), vec![0, 1]);
    let first = match run.dispatch(&secrets, "/data/repo") {
        Dispatch::Run(c) => c,
        Dispatch::Done(s) => panic!("done early: {:?}", s),
    };
    assert_eq!(first.job_name(), format!("pipeline-{LABEL}-build"));
    assert_eq!(first.container_name(), "build-container");
    assert_eq!(first.commands, vec!["-c".to_string(), "make;".to_string()]);
    assert_eq!(first.pipeline_working_directory, "/data/repo");
    assert_eq!(first.service_account(), None);
    assert_eq!(statuses(&run), vec![StepStatus::InProgress, StepStatus::NotStarted]);

    let second = match run.step_finished(false, vec!["pod-a-build.txt".to_string()], &secrets, "/data/repo") {
        Some(Dispatch::Run(c)) => c,
        other => panic!("unexpected: {:?}", other.is_some()),
    };
    assert_eq!(second.step, "test");
    assert_eq!(second.commands, vec!["-c".to_string(), "make test;".to_string()]);
    assert_eq!(statuses(&run), vec![StepStatus::Success, StepStatus::InProgress]);

    match run.step_finished(false, vec!["pod-b-test.txt".to_string()], &secrets, "/data/repo") {
        Some(Dispatch::Done(PipelineStatus::Complete)) => {}
        _ => panic!("pipeline should complete"),
    }
    assert_eq!(run.status(), PipelineStatus::Complete);
    assert!(run.finished());
    assert_eq!(statuses(&run), vec![StepStatus::Success, StepStatus::Success]);
    assert_eq!(run.steps()[0].log_keys, vec!["pod-a-build.txt".to_string()]);
    assert_eq!(run.steps()[1].log_keys, vec!["pod-b-test.txt".to_string()]);
}

#[test]
fn failed_step_short_circuits() {
    let secrets = MaterializedSecretConfig::empty();
    let mut run = PipelineRun::new(ID, manifest());
    assert!(matches!(run.dispatch(&secrets, "/w"), Dispatch::Run(_)));
    match run.step_finished(true, vec!["pod-a-build.txt".to_string()], &secrets, "/w") {
        Some(Dispatch::Done(PipelineStatus::Failed)) => {}
        _ => panic!("pipeline should fail"),
    }
    assert_eq!(statuses(&run), vec![StepStatus::Fail, StepStatus::NotStarted]);
    assert_eq!(run.status(), PipelineStatus::Failed);
    assert!(run.finished());
    assert!(matches!(run.dispatch(&secrets, "/w"), Dispatch::Done(PipelineStatus::Failed)));
    assert!(run.step_finished(false, Vec::new(), &secrets, "/w").is_none());
    assert_eq!(statuses(&run), vec![StepStatus::Fail, StepStatus::NotStarted]);
}

#[test]
fn empty_pipeline_completes() {
    let mut run = PipelineRun::new(ID, Pipeline { version: 1, steps: Vec::new(), secrets: None });
    assert!(matches!(
        run.dispatch(&MaterializedSecretConfig::empty(), "/w"),
        Dispatch::Done(PipelineStatus::Complete)
    ));
    assert!(run.finished());
}

#[test]
fn abort_before_start_leaves_steps_untouched() {
    let mut run = PipelineRun::new(ID, manifest());
    run.abort();
    assert_eq!(run.status(), PipelineStatus::Failed);
    assert_eq!(statuses(&run), vec![StepStatus::NotStarted, StepStatus::NotStarted]);
}

#[test]
fn abort_fails_running_step() {
    let secrets = MaterializedSecretConfig::empty();
    let mut run = PipelineRun::new(ID, manifest());
    run.dispatch(&secrets, "/w");
    run.step_finished(false, Vec::new(), &secrets, "/w");
    run.abort();
    assert_eq!(statuses(&run), vec![StepStatus::Success, StepStatus::Fail]);
    assert_eq!(run.status(), PipelineStatus::Failed);
    run.abort();
    assert_eq!(statuses(&run), vec![StepStatus::Success, StepStatus::Fail]);
}

#[test]
fn step_with_secrets_gets_sources_and_account() {
    let mut s = step("deploy", "./deploy.sh");
    s.secrets = Some(vec![StepSecretConfig { name: "tok".to_string(), var_name: "TOK".to_string() }]);
    let m = Pipeline {
        version: 1,
        steps: vec![s],
        secrets: Some(vec![PipelineSecretConfig {
            name: "tok".to_string(),
            location: "app/t".to_string(),
            key: "k".to_string(),
        }]),
    };
    let secrets = MaterializedSecretConfig::new(vec![MaterializedSecret::new(
        "tok".to_string(),
        "app/t".to_string(),
        "k".to_string(),
    )]);
    let mut run = PipelineRun::new(ID, m);
    match run.dispatch(&secrets, "/w") {
        Dispatch::Run(c) => {
            assert_eq!(c.commands, vec!["-c".to_string(), ". /vault/secrets/tok; ./deploy.sh;".to_string()]);
            assert_eq!(c.service_account(), Some("constructum-client-build".to_string()));
            assert_eq!(c.annotations.unwrap().secrets.len(), 1);
        }
        Dispatch::Done(_) => panic!("should run"),
    }
}

#[test]
fn unknown_step_secret_fails_step() {
    let mut s = step("deploy", "./deploy.sh");
    s.secrets = Some(vec![StepSecretConfig { name: "nope".to_string(), var_name: "N".to_string() }]);
    let mut run = PipelineRun::new(ID, Pipeline { version: 1, steps: vec![s], secrets: None });
    assert!(matches!(
        run.dispatch(&MaterializedSecretConfig::empty(), "/w"),
        Dispatch::Done(PipelineStatus::Failed)
    ));
    assert_eq!(statuses(&run), vec![StepStatus::Fail]);
}

#[test]
fn log_keys_only_grow() {
    let secrets = MaterializedSecretConfig::empty();
    let mut run = PipelineRun::new(ID, manifest());
    run.dispatch(&secrets, "/w");
    let mut rec = run.steps()[0].clone();
    rec.append_log_keys(vec!["a".to_string()]);
    rec.append_log_keys(vec!["b".to_string(), "c".to_string()]);
    assert_eq!(rec.log_keys, vec!["a".to_string(), "b".to_string(), "c".to_string()]);
}

#[test]
fn failed_condition_detection() {
    let c = |t: &str, s: &str| (t.to_string(), s.to_string());
    assert!(job_failed_from(&vec![c("Complete", "False"), c("Failed", "True")]));
    assert!(!job_failed_from(&vec![c("Failed", "False")]));
    assert!(!job_failed_from(&vec![c("Complete", "True")]));
    assert!(!job_failed_from(&Vec::new()));
}
