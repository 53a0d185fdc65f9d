use constructum::command::{correct_args, shell_invocation};

#[test]
fn test_correct_arguments() {
    let args_to_correct = vec![
        "pause",
        ". /vault/blah",
        ". /vault/blah2",
        "echo $TEST_1",
        "echo $TEST_2"
    ].into_iter().map(String::from).collect();

    let expected = "pause; . /vault/blah; . /vault/blah2; echo $TEST_1; echo $TEST_2;";

    let actual = correct_args(args_to_correct).expect("failed to correct args");

    assert_eq!(expected.to_string(), actual);
}

#[test]
fn three_commands_make_one_script() {
    let argv = shell_invocation(vec!["a".to_string(), "b".to_string(), "c".to_string()]);
    assert_eq!(argv, vec!["-c".to_string(), "a; b; c;".to_string()]);
}

#[test]
fn single_command_ends_with_semicolon() {
    assert_eq!(correct_args(vec!["make".to_string()]), Some("make;".to_string()));
}

#[test]
fn no_commands_give_empty_script() {
    assert_eq!(correct_args(Vec::new()), Some(String::new()));
    assert_eq!(shell_invocation(Vec::new()), vec!["-c".to_string(), String::new()]);
}
