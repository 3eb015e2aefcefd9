use rustic_config::command::CommandInput;

#[test]
fn tokenizes_shell_syntax() {
    let ci = CommandInput::from_str("run-me --flag \"value with spaces\"").unwrap();
    assert!(ci.is_set());
    assert_eq!(ci.command(), "run-me");
    assert_eq!(ci.args(), vec!["--flag".to_string(), "value with spaces".to_string()]);
    assert_eq!(
        ci.tokens(),
        &vec!["run-me".to_string(), "--flag".to_string(), "value with spaces".to_string()]
    );
}

#[test]
fn rejects_unterminated_quote() {
    let r = CommandInput::from_str("\"unterminated");
    assert!(r.is_err());
}

#[test]
fn empty_string_gives_unset_command() {
    let ci = CommandInput::from_str("").unwrap();
    assert!(!ci.is_set());
    assert_eq!(ci.tokens().len(), 0);
}

#[test]
fn structured_and_parsed_forms_agree() {
    let parsed = CommandInput::from_str("prog a b").unwrap();
    let built = CommandInput::from_tokens(vec![
        "prog".to_string(),
        "a".to_string(),
        "b".to_string(),
    ]);
    assert_eq!(parsed.tokens(), built.tokens());
}

#[test]
fn unset_command_skips_spawning() {
    let ci = CommandInput::default();
    assert!(!ci.is_set());
}

#[test]
fn nonzero_exit_is_a_warning_not_a_failure() {
    let ci = CommandInput::from_str("false-cmd").unwrap();
    let warn = ci.run_warning("unit hook", false);
    let msg = warn.expect("a failing hook must produce a warning");
    assert_eq!(msg, "running command unit hook was not successful");
    assert!(ci.run_warning("unit hook", true).is_none());
}
