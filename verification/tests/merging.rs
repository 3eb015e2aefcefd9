use rustic_config::command::CommandInput;
use rustic_config::config::RusticConfig;
use rustic_config::envmap::extend;
use rustic_config::envmap::EnvMap;

fn sample_profile() -> RusticConfig {
    let mut p = RusticConfig::default();
    p.global.use_profile = vec!["other".to_string()];
    p.global.dry_run = true;
    p.global.log_level = Some("debug".to_string());
    p.global.env.insert("RUST_LOG".to_string(), "info".to_string());
    p.global.run_before = CommandInput::from_str("echo hello").unwrap();
    p.repository.repository = Some("/tmp/repo".to_string());
    p.snapshot_filter.filter_host = vec!["host1".to_string()];
    p.backup.init = true;
    p.forget.keep_last = Some(7);
    p
}

#[test]
fn merge_into_default_yields_the_profile() {
    let profile = sample_profile();
    let mut acc = RusticConfig::default();
    acc.merge(profile.duplicate());
    assert_eq!(acc.global.use_profile, profile.global.use_profile);
    assert_eq!(acc.global.dry_run, profile.global.dry_run);
    assert_eq!(acc.global.check_index, profile.global.check_index);
    assert_eq!(acc.global.log_level, profile.global.log_level);
    assert_eq!(acc.global.log_file, profile.global.log_file);
    assert_eq!(acc.global.env.bindings(), profile.global.env.bindings());
    assert_eq!(acc.global.run_before.tokens(), profile.global.run_before.tokens());
    assert_eq!(acc.global.run_after.tokens(), profile.global.run_after.tokens());
    assert_eq!(acc.repository.repository, profile.repository.repository);
    assert_eq!(acc.snapshot_filter.filter_host, profile.snapshot_filter.filter_host);
    assert_eq!(acc.backup.init, profile.backup.init);
    assert_eq!(acc.forget.keep_last, profile.forget.keep_last);
}

#[test]
fn remerging_is_idempotent_or_additive() {
    let mut a = RusticConfig::default();
    a.global.log_level = Some("info".to_string());
    a.global.run_before = CommandInput::from_str("echo first").unwrap();
    a.global.env.insert("A".to_string(), "1".to_string());
    let b = sample_profile();

    let mut once = a;
    once.merge(b.duplicate());
    let mut twice = once.duplicate();
    twice.merge(b.duplicate());

    // replace-if-empty fields: unchanged by the second application
    assert_eq!(twice.global.run_before.tokens(), once.global.run_before.tokens());
    assert_eq!(twice.snapshot_filter.filter_host, once.snapshot_filter.filter_host);
    assert_eq!(twice.copy.targets, once.copy.targets);
    // union fields: unchanged
    let keys = ["A", "RUST_LOG"];
    for k in keys {
        assert_eq!(twice.global.env.get(&k.to_string()), once.global.env.get(&k.to_string()));
    }
    // accumulate fields: purely additive, the first application is a prefix
    assert_eq!(
        &twice.global.use_profile[..once.global.use_profile.len()],
        &once.global.use_profile[..]
    );
}

#[test]
fn flags_are_never_cleared_and_scalars_take_the_latest() {
    let mut acc = RusticConfig::default();
    acc.global.dry_run = true;
    acc.global.log_level = Some("info".to_string());
    let mut incoming = RusticConfig::default();
    incoming.global.dry_run = false;
    incoming.global.log_level = Some("debug".to_string());
    acc.merge(incoming);
    assert!(acc.global.dry_run, "false must not clear an already-set flag");
    assert_eq!(acc.global.log_level, Some("debug".to_string()), "latest explicit value wins");

    let mut unset = RusticConfig::default();
    unset.global.log_level = None;
    acc.merge(unset);
    assert_eq!(acc.global.log_level, Some("debug".to_string()), "unset never clears");
}

#[test]
fn hooks_keep_the_first_nonempty_value() {
    let mut acc = RusticConfig::default();
    acc.global.run_before = CommandInput::from_str("echo first").unwrap();
    let mut incoming = RusticConfig::default();
    incoming.global.run_before = CommandInput::from_str("echo second").unwrap();
    incoming.global.run_after = CommandInput::from_str("echo after").unwrap();
    acc.merge(incoming);
    assert_eq!(acc.global.run_before.command(), "echo");
    assert_eq!(acc.global.run_before.args(), vec!["first".to_string()]);
    assert_eq!(acc.global.run_after.args(), vec!["after".to_string()]);
}

#[test]
fn env_union_prefers_incoming_keys() {
    let mut left = EnvMap::default();
    left.insert("KEEP".to_string(), "old".to_string());
    left.insert("BOTH".to_string(), "old".to_string());
    let mut right = EnvMap::default();
    right.insert("BOTH".to_string(), "new".to_string());
    right.insert("NEW".to_string(), "fresh".to_string());
    extend(&mut left, right);
    assert_eq!(left.get(&"KEEP".to_string()), Some(&"old".to_string()));
    assert_eq!(left.get(&"BOTH".to_string()), Some(&"new".to_string()));
    assert_eq!(left.get(&"NEW".to_string()), Some(&"fresh".to_string()));
    assert_eq!(left.get(&"ABSENT".to_string()), None);
}
