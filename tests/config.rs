use kudoctl::config::{
    check_env_override, config_file_path, default_config_file, default_controller_url,
    default_log_level_str, get_verbosity_level_from_string, read_config_file, Config, ConfigFile,
    EnvOverrides, StoredConfig, VerbosityLevel,
};

fn found(url: Option<&str>, level: Option<&str>) -> StoredConfig {
    StoredConfig::Found {
        controller_url: url.map(|s| s.to_string()),
        verbosity_level: level.map(|s| s.to_string()),
    }
}

fn env(config: Option<&str>, url: Option<&str>, level: Option<&str>) -> EnvOverrides {
    EnvOverrides {
        config: config.map(|s| s.to_string()),
        controller_url: url.map(|s| s.to_string()),
        verbosity_level: level.map(|s| s.to_string()),
    }
}

fn resolve(path: &str, stored: StoredConfig, env: &EnvOverrides) -> (Config, Option<ConfigFile>) {
    let read = read_config_file(stored);
    (Config::resolve(path.to_string(), &read.file, env), read.to_create)
}

#[test]
fn defaults_are_compiled_in() {
    assert_eq!(default_controller_url(), "http://localhost:8080");
    assert_eq!(default_log_level_str(), "info");
    let d = ConfigFile::defaults();
    assert_eq!(d.controller_url, "http://localhost:8080");
    assert_eq!(d.verbosity_level, "info");
}

#[test]
fn verbosity_names_map_to_levels() {
    assert_eq!(get_verbosity_level_from_string("off"), VerbosityLevel::Off);
    assert_eq!(get_verbosity_level_from_string("error"), VerbosityLevel::Error);
    assert_eq!(get_verbosity_level_from_string("warn"), VerbosityLevel::Warn);
    assert_eq!(get_verbosity_level_from_string("info"), VerbosityLevel::Info);
    assert_eq!(get_verbosity_level_from_string("debug"), VerbosityLevel::Debug);
}

#[test]
fn unknown_verbosity_names_map_to_info() {
    assert_eq!(get_verbosity_level_from_string("bogus"), VerbosityLevel::Info);
    assert_eq!(get_verbosity_level_from_string(""), VerbosityLevel::Info);
    assert_eq!(get_verbosity_level_from_string("DEBUG"), VerbosityLevel::Info);
    assert_eq!(get_verbosity_level_from_string("trace"), VerbosityLevel::Info);
}

#[test]
fn env_override_wins_where_set() {
    assert_eq!(check_env_override(&Some("http://b".to_string()), "http://a"), "http://b");
    assert_eq!(check_env_override(&None, "http://a"), "http://a");
    assert_eq!(check_env_override(&Some(String::new()), "http://a"), "");
}

#[test]
fn default_path_is_under_home() {
    assert_eq!(default_config_file(Some("/home/u".to_string())), "/home/u/.kudo/config.yaml");
    assert_eq!(default_config_file(Some("/home/u/".to_string())), "/home/u/.kudo/config.yaml");
    assert_eq!(default_config_file(None), "./.kudo/config.yaml");
}

#[test]
fn config_path_env_is_taken_verbatim() {
    let e = env(Some("/etc/kudo.yaml"), None, None);
    assert_eq!(config_file_path(&e, Some("/home/u".to_string())), "/etc/kudo.yaml");
    let none = EnvOverrides::none();
    assert_eq!(config_file_path(&none, Some("/root".to_string())), "/root/.kudo/config.yaml");
}

#[test]
fn existing_file_resolves_identically_twice() {
    let e = EnvOverrides::none();
    let (a, wa) = resolve("/c.yaml", found(Some("http://ctl:9000"), Some("debug")), &e);
    let (b, wb) = resolve("/c.yaml", found(Some("http://ctl:9000"), Some("debug")), &e);
    assert!(wa.is_none());
    assert!(wb.is_none());
    assert_eq!(a.config_file, b.config_file);
    assert_eq!(a.controller_url, b.controller_url);
    assert_eq!(a.verbosity_level, b.verbosity_level);
    assert_eq!(a.controller_url, "http://ctl:9000");
    assert_eq!(a.verbosity_level, VerbosityLevel::Debug);
}

#[test]
fn first_run_writes_defaults_and_reads_them_back() {
    let e = EnvOverrides::none();
    let (first, written) = resolve("/new/config.yaml", StoredConfig::Missing, &e);
    let written = written.expect("a missing file is created");
    assert_eq!(written.controller_url, "http://localhost:8080");
    assert_eq!(written.verbosity_level, "info");
    assert_eq!(first.controller_url, "http://localhost:8080");
    assert_eq!(first.verbosity_level, VerbosityLevel::Info);
    assert_eq!(first.config_file, "/new/config.yaml");
    let stored = StoredConfig::Found {
        controller_url: Some(written.controller_url.clone()),
        verbosity_level: Some(written.verbosity_level.clone()),
    };
    let (second, again) = resolve("/new/config.yaml", stored, &e);
    assert!(again.is_none());
    assert_eq!(second.controller_url, first.controller_url);
    assert_eq!(second.verbosity_level, first.verbosity_level);
}

#[test]
fn partial_file_defaults_missing_verbosity() {
    let (c, w) = resolve("/c.yaml", found(Some("http://a"), None), &EnvOverrides::none());
    assert!(w.is_none());
    assert_eq!(c.controller_url, "http://a");
    assert_eq!(c.verbosity_level, VerbosityLevel::Info);
    let f = ConfigFile::from_fields(None, Some("warn".to_string()));
    assert_eq!(f.controller_url, "http://localhost:8080");
    assert_eq!(f.verbosity_level, "warn");
}

#[test]
fn present_but_empty_key_is_kept() {
    let f = ConfigFile::from_fields(Some(String::new()), None);
    assert_eq!(f.controller_url, "");
}

#[test]
fn env_url_overrides_file_url() {
    let e = env(None, Some("http://b"), None);
    let (c, _) = resolve("/c.yaml", found(Some("http://a"), Some("warn")), &e);
    assert_eq!(c.controller_url, "http://b");
    assert_eq!(c.verbosity_level, VerbosityLevel::Warn);
}

#[test]
fn env_verbosity_overrides_file_verbosity() {
    let e = env(None, None, Some("error"));
    let (c, _) = resolve("/c.yaml", found(Some("http://a"), Some("debug")), &e);
    assert_eq!(c.controller_url, "http://a");
    assert_eq!(c.verbosity_level, VerbosityLevel::Error);
}

#[test]
fn bogus_verbosity_in_file_or_env_is_info() {
    let (c, _) = resolve("/c.yaml", found(None, Some("bogus")), &EnvOverrides::none());
    assert_eq!(c.verbosity_level, VerbosityLevel::Info);
    let e = env(None, None, Some("bogus"));
    let (d, _) = resolve("/c.yaml", found(None, Some("debug")), &e);
    assert_eq!(d.verbosity_level, VerbosityLevel::Info);
}
