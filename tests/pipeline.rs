use constructum::pipeline::{collapse_whitespace, is_space};
use constructum::pipeline::{
    normalize_step_name, Pipeline, PipelineImagePullPref, PipelineStatus, PipelineStep, StepStatus,
};

fn step(name: &str) -> PipelineStep {
    PipelineStep {
        name: name.to_string(),
        image: "img:1".to_string(),
        pull: PipelineImagePullPref::Always,
        commands: vec!["make".to_string()],
        secrets: None,
    }
}

#[test]
fn step_name_is_normalized() {
    assert_eq!(normalize_step_name("  Build   and Package  "), "build_and_package");
}

#[test]
fn normalization_edge_cases() {
    assert_eq!(normalize_step_name(""), "");
    assert_eq!(normalize_step_name("   "), "");
    assert_eq!(normalize_step_name("Test"), "test");
    assert_eq!(normalize_step_name("a\tb\nc"), "a_b_c");
    assert_eq!(normalize_step_name("build_and_package"), "build_and_package");
}

#[test]
fn pipeline_normalize_touches_names_only() {
    let mut p = Pipeline { version: 1, steps: vec![step(" Unit Tests "), step("LINT")], secrets: None };
    p.normalize();
    assert_eq!(p.steps[0].name, "unit_tests");
    assert_eq!(p.steps[1].name, "lint");
    assert_eq!(p.steps[0].image, "img:1");
    assert_eq!(p.steps[0].commands, vec!["make".to_string()]);
    assert_eq!(p.version, 1);
}

#[test]
fn step_name_normalize_in_place() {
    let mut s = step("Deploy  Prod");
    s.normalize_name();
    assert_eq!(s.name, "deploy_prod");
}

#[test]
fn status_names_round_trip() {
    for s in [PipelineStatus::InProgress, PipelineStatus::Complete, PipelineStatus::Failed] {
        assert_eq!(PipelineStatus::from_name(s.as_str()), Some(s));
    }
    for s in [StepStatus::NotStarted, StepStatus::InProgress, StepStatus::Success, StepStatus::Fail] {
        assert_eq!(StepStatus::from_name(s.as_str()), Some(s));
    }
    assert_eq!(PipelineStatus::Complete.as_str(), "Complete");
    assert_eq!(StepStatus::NotStarted.as_str(), "NotStarted");
    assert_eq!(StepStatus::from_name("Done"), None);
    assert_eq!(PipelineStatus::from_name("complete"), None);
}

#[test]
fn whitespace_collapse_and_classes() {
    assert_eq!(collapse_whitespace("  a  b "), "a_b");
    assert_eq!(collapse_whitespace("A\u{3000}B"), "A_B");
    assert!(is_space('\u{3000}'));
    assert!(is_space('\u{85}'));
    assert!(is_space('\t'));
    assert!(!is_space('x'));
    assert!(!is_space('_'));
    for c in ['\u{a0}', '\u{1680}', '\u{2000}', '\u{200a}', '\u{2028}', '\u{2029}', '\u{202f}', '\u{205f}', '\u{b}', '\u{c}', '\r'] {
        assert_eq!(is_space(c), c.is_whitespace());
    }
    assert_eq!(is_space('\u{200b}'), '\u{200b}'.is_whitespace());
}
