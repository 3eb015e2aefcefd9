use rustic_config::config::RusticConfig;
use rustic_config::level::LogLevel;
use rustic_config::paths::ConfigLocations;
use rustic_config::paths::Platform;
use rustic_config::resolve::ProfileError;
use rustic_config::source::LoadedFile;
use rustic_config::source::ProfileSource;

fn cwd_only_locations() -> ConfigLocations {
    ConfigLocations::new(Platform::Restricted, None, None)
}

fn profile_with_level(level: &str, uses: &[&str]) -> RusticConfig {
    let mut p = RusticConfig::default();
    p.global.log_level = Some(level.to_string());
    p.global.use_profile = uses.iter().map(|s| s.to_string()).collect();
    p
}

#[test]
fn missing_profile_logs_once_and_keeps_defaults() {
    let locs = cwd_only_locations();
    let source = ProfileSource::default();
    let mut acc = RusticConfig::default();
    let mut logs: Vec<(LogLevel, String)> = Vec::new();
    let r = acc.merge_profile("nothere", &mut logs, LogLevel::Info, &locs, &source);
    assert!(r.is_ok(), "a missing profile is not an error");
    assert_eq!(logs.len(), 1);
    assert_eq!(logs[0].0, LogLevel::Info);
    assert_eq!(logs[0].1, "using no config file, none of these exist: ./nothere.toml");
    assert_eq!(acc.global.log_level, None);
    assert!(!acc.global.dry_run);
    assert_eq!(acc.global.use_profile.len(), 0);
    assert_eq!(acc.repository.repository, None);
}

#[test]
fn missing_probes_every_candidate() {
    let locs = ConfigLocations::new(
        Platform::Unix,
        Some("/home/u/.config/rustic".to_string()),
        None,
    );
    let source = ProfileSource::default();
    let mut acc = RusticConfig::default();
    let mut logs: Vec<(LogLevel, String)> = Vec::new();
    acc.merge_profile("p", &mut logs, LogLevel::Info, &locs, &source).unwrap();
    assert_eq!(
        logs[0].1,
        "using no config file, none of these exist: \
         /home/u/.config/rustic/p.toml, /etc/rustic/p.toml, ./p.toml"
    );
}

#[test]
fn single_profile_fills_default_accumulator() {
    let locs = cwd_only_locations();
    let mut source = ProfileSource::default();
    let profile = profile_with_level("debug", &[]);
    source.insert("./solo.toml".to_string(), LoadedFile::Parsed(profile));
    let mut acc = RusticConfig::default();
    let mut logs: Vec<(LogLevel, String)> = Vec::new();
    let r = acc.merge_profile("solo", &mut logs, LogLevel::Info, &locs, &source);
    assert!(r.is_ok());
    assert_eq!(logs.len(), 1);
    assert_eq!(logs[0].0, LogLevel::Info);
    assert_eq!(logs[0].1, "using config ./solo.toml");
    assert_eq!(acc.global.log_level, Some("debug".to_string()));
}

#[test]
fn three_level_chain_applies_deepest_first() {
    let locs = cwd_only_locations();
    let mut source = ProfileSource::default();
    source.insert("./a.toml".to_string(), LoadedFile::Parsed(profile_with_level("error", &["b"])));
    source.insert("./b.toml".to_string(), LoadedFile::Parsed(profile_with_level("warn", &["c"])));
    source.insert("./c.toml".to_string(), LoadedFile::Parsed(profile_with_level("info", &[])));
    let mut acc = RusticConfig::default();
    let mut logs: Vec<(LogLevel, String)> = Vec::new();
    let r = acc.merge_profile("a", &mut logs, LogLevel::Info, &locs, &source);
    assert!(r.is_ok());
    // A's explicit value overrides B's, which overrode C's.
    assert_eq!(acc.global.log_level, Some("error".to_string()));
    // the log names the three files in resolution order
    let msgs: Vec<&str> = logs.iter().map(|e| e.1.as_str()).collect();
    assert_eq!(
        msgs,
        vec!["using config ./a.toml", "using config ./b.toml", "using config ./c.toml"]
    );
    // every referenced profile accumulates in use-profile
    assert_eq!(acc.global.use_profile, vec!["c".to_string(), "b".to_string()]);
}

#[test]
fn middle_profile_wins_over_deepest() {
    let locs = cwd_only_locations();
    let mut source = ProfileSource::default();
    source.insert("./a.toml".to_string(), LoadedFile::Parsed(profile_with_level("error", &["b"])));
    let mut b = RusticConfig::default();
    b.global.use_profile = vec!["c".to_string()];
    let mut c = RusticConfig::default();
    c.global.log_level = Some("info".to_string());
    c.global.dry_run = true;
    source.insert("./b.toml".to_string(), LoadedFile::Parsed(b));
    source.insert("./c.toml".to_string(), LoadedFile::Parsed(c));
    let mut acc = RusticConfig::default();
    let mut logs: Vec<(LogLevel, String)> = Vec::new();
    acc.merge_profile("a", &mut logs, LogLevel::Info, &locs, &source).unwrap();
    // B sets nothing itself, so C's scalar survives until A overrides it
    assert_eq!(acc.global.log_level, Some("error".to_string()));
    assert!(acc.global.dry_run, "C's flag survives the whole chain");
}

#[test]
fn nested_missing_profile_is_a_warning() {
    let locs = cwd_only_locations();
    let mut source = ProfileSource::default();
    source.insert("./a.toml".to_string(), LoadedFile::Parsed(profile_with_level("error", &["b"])));
    let mut acc = RusticConfig::default();
    let mut logs: Vec<(LogLevel, String)> = Vec::new();
    let r = acc.merge_profile("a", &mut logs, LogLevel::Info, &locs, &source);
    assert!(r.is_ok());
    assert_eq!(logs.len(), 2);
    assert_eq!(logs[0].0, LogLevel::Info);
    assert_eq!(logs[1].0, LogLevel::Warn);
    assert_eq!(logs[1].1, "using no config file, none of these exist: ./b.toml");
}

#[test]
fn self_reference_is_a_cycle_error() {
    let locs = cwd_only_locations();
    let mut source = ProfileSource::default();
    source.insert("./a.toml".to_string(), LoadedFile::Parsed(profile_with_level("error", &["a"])));
    let mut acc = RusticConfig::default();
    let mut logs: Vec<(LogLevel, String)> = Vec::new();
    let r = acc.merge_profile("a", &mut logs, LogLevel::Info, &locs, &source);
    match r {
        Err(ProfileError::Cycle { path }) => assert_eq!(path, "./a.toml"),
        other => panic!("expected a cycle error, got {:?}", other),
    }
}

#[test]
fn transitive_cycle_is_detected() {
    let locs = cwd_only_locations();
    let mut source = ProfileSource::default();
    source.insert("./a.toml".to_string(), LoadedFile::Parsed(profile_with_level("error", &["b"])));
    source.insert("./b.toml".to_string(), LoadedFile::Parsed(profile_with_level("warn", &["a"])));
    let mut acc = RusticConfig::default();
    let mut logs: Vec<(LogLevel, String)> = Vec::new();
    let r = acc.merge_profile("a", &mut logs, LogLevel::Info, &locs, &source);
    match r {
        Err(ProfileError::Cycle { path }) => assert_eq!(path, "./a.toml"),
        other => panic!("expected a cycle error, got {:?}", other),
    }
}

#[test]
fn malformed_file_aborts_resolution() {
    let locs = cwd_only_locations();
    let mut source = ProfileSource::default();
    source.insert("./bad.toml".to_string(), LoadedFile::Malformed("expected value".to_string()));
    let mut acc = RusticConfig::default();
    let mut logs: Vec<(LogLevel, String)> = Vec::new();
    let r = acc.merge_profile("bad", &mut logs, LogLevel::Info, &locs, &source);
    match r {
        Err(ProfileError::Malformed { path, detail }) => {
            assert_eq!(path, "./bad.toml");
            assert_eq!(detail, "expected value");
        }
        other => panic!("expected a parse error, got {:?}", other),
    }
}

#[test]
fn unreadable_file_aborts_resolution() {
    let locs = cwd_only_locations();
    let mut source = ProfileSource::default();
    source.insert("./locked.toml".to_string(), LoadedFile::Unreadable("denied".to_string()));
    let mut acc = RusticConfig::default();
    let mut logs: Vec<(LogLevel, String)> = Vec::new();
    let r = acc.merge_profile("locked", &mut logs, LogLevel::Info, &locs, &source);
    assert!(matches!(r, Err(ProfileError::Unreadable { .. })));
}

#[test]
fn unknown_field_aborts_resolution() {
    let locs = cwd_only_locations();
    let mut source = ProfileSource::default();
    source.insert("./typo.toml".to_string(), LoadedFile::UnknownField("dryrun".to_string()));
    let mut acc = RusticConfig::default();
    let mut logs: Vec<(LogLevel, String)> = Vec::new();
    let r = acc.merge_profile("typo", &mut logs, LogLevel::Info, &locs, &source);
    match r {
        Err(ProfileError::UnknownField { path, detail }) => {
            assert_eq!(path, "./typo.toml");
            assert_eq!(detail, "dryrun");
        }
        other => panic!("expected an unknown-field error, got {:?}", other),
    }
}

#[test]
fn first_existing_candidate_wins() {
    // the same profile name exists in the user directory and the working
    // directory: the user directory is probed first
    let locs = ConfigLocations::new(Platform::Restricted, Some("/conf".to_string()), None);
    let mut source = ProfileSource::default();
    source.insert("/conf/p.toml".to_string(), LoadedFile::Parsed(profile_with_level("a", &[])));
    source.insert("./p.toml".to_string(), LoadedFile::Parsed(profile_with_level("b", &[])));
    let mut acc = RusticConfig::default();
    let mut logs: Vec<(LogLevel, String)> = Vec::new();
    acc.merge_profile("p", &mut logs, LogLevel::Info, &locs, &source).unwrap();
    assert_eq!(acc.global.log_level, Some("a".to_string()));
    assert_eq!(logs[0].1, "using config /conf/p.toml");
}
