use rustic_config::paths::get_config_paths;
use rustic_config::paths::get_global_config_path;
use rustic_config::paths::ConfigLocations;
use rustic_config::paths::Platform;

#[test]
fn unix_global_dir_is_fixed() {
    assert_eq!(get_global_config_path(Platform::Unix, &None), Some("/etc/rustic".to_string()));
}

#[test]
fn windows_global_dir_comes_from_environment() {
    let pd = Some("C:/ProgramData".to_string());
    assert_eq!(
        get_global_config_path(Platform::Windows, &pd),
        Some("C:/ProgramData/rustic/config".to_string())
    );
    assert_eq!(get_global_config_path(Platform::Windows, &None), None);
}

#[test]
fn restricted_platform_has_no_global_dir() {
    assert_eq!(get_global_config_path(Platform::Restricted, &None), None);
}

#[test]
fn candidates_in_order_user_system_cwd() {
    let locs = ConfigLocations::new(
        Platform::Unix,
        Some("/home/u/.config/rustic".to_string()),
        None,
    );
    let paths = get_config_paths(&locs, "p.toml");
    assert_eq!(
        paths,
        vec![
            "/home/u/.config/rustic/p.toml".to_string(),
            "/etc/rustic/p.toml".to_string(),
            "./p.toml".to_string(),
        ]
    );
}

#[test]
fn undeterminable_sources_are_skipped() {
    let locs = ConfigLocations::new(Platform::Restricted, None, None);
    let paths = get_config_paths(&locs, "p.toml");
    assert_eq!(paths, vec!["./p.toml".to_string()]);
}
