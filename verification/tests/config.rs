//! Bootstrap state machine, materialized defaults, TLS resolution, and
//! ignore-list idempotence.

use out_server::gitignore_needs_entry;
use out_server::join_path;
use out_server::Config;
use out_server::InternalError;
use out_server::RuntimeError;
use out_server::ServerConfigError;

fn empty_config() -> Config {
    Config { symmetric_key: None, host: None, port: None, tls: None }
}

fn config_error(e: ServerConfigError) -> RuntimeError {
    RuntimeError::ServerError(InternalError::ServerConfigError(e))
}

#[test]
fn select_contents_four_cases() {
    assert_eq!(
        Config::select_contents(true, None),
        Ok(String::new())
    );
    assert_eq!(
        Config::select_contents(true, Some("host = \"h\"".to_string())),
        Err(config_error(ServerConfigError::AlreadyInitializedOnInitRequest))
    );
    assert_eq!(
        Config::select_contents(false, Some("host = \"h\"".to_string())),
        Ok("host = \"h\"".to_string())
    );
    assert_eq!(
        Config::select_contents(false, None),
        Err(config_error(ServerConfigError::MissingRequiredOnLoad))
    );
}

#[test]
fn try_init_fills_every_default() {
    let mut config = empty_config();
    let changed = config.try_init().unwrap();
    assert!(changed);
    assert_eq!(config.host.as_deref(), Some("127.0.0.1"));
    assert_eq!(config.port, Some(8080));
    assert_eq!(config.tls.as_ref().map(|v| v.len()), Some(0));
    let key_text = config.symmetric_key.clone().unwrap().to_string();
    assert_eq!(key_text.chars().count(), 43);
    assert!(config.get_symmetric_key().is_ok());
}

#[test]
fn try_init_again_changes_nothing_and_keeps_the_key() {
    let mut config = empty_config();
    config.try_init().unwrap();
    let first_key = config.get_symmetric_key().unwrap();
    let first_text = config.symmetric_key.clone().unwrap().to_string();
    let changed = config.try_init().unwrap();
    assert!(!changed);
    assert_eq!(config.symmetric_key.clone().unwrap().to_string(), first_text);
    assert_eq!(config.get_symmetric_key().unwrap(), first_key);
}

#[test]
fn try_init_keeps_present_fields() {
    let mut config = empty_config();
    config.host = Some("0.0.0.0".to_string());
    config.port = Some(443);
    let changed = config.try_init().unwrap();
    assert!(changed);
    assert_eq!(config.host.as_deref(), Some("0.0.0.0"));
    assert_eq!(config.port, Some(443));
}

#[test]
fn missing_key_is_a_config_error() {
    let config = empty_config();
    assert_eq!(
        config.get_symmetric_key(),
        Err(config_error(ServerConfigError::InvalidConfigFile))
    );
}

#[test]
fn tls_zero_pairs_means_no_tls() {
    let mut config = empty_config();
    config.tls = Some(vec![]);
    assert_eq!(config.tls("/etc/app"), Ok(None));
}

#[test]
fn tls_missing_list_is_a_config_error() {
    let config = empty_config();
    assert_eq!(
        config.tls("/etc/app"),
        Err(config_error(ServerConfigError::InvalidConfigFile))
    );
}

#[test]
fn tls_one_pair_resolves_against_the_config_directory() {
    let mut config = empty_config();
    config.tls = Some(vec![("cert.pem".to_string(), "key.pem".to_string())]);
    let resolved = config.tls("/etc/app").unwrap().unwrap();
    assert_eq!(resolved.0, "/etc/app/cert.pem");
    assert_eq!(resolved.1, "/etc/app/key.pem");
}

#[test]
fn tls_absolute_paths_stand_alone() {
    let mut config = empty_config();
    config.tls = Some(vec![("/srv/cert.pem".to_string(), "/srv/key.pem".to_string())]);
    let resolved = config.tls("/etc/app").unwrap().unwrap();
    assert_eq!(resolved.0, "/srv/cert.pem");
    assert_eq!(resolved.1, "/srv/key.pem");
}

#[test]
fn tls_two_pairs_are_refused() {
    let mut config = empty_config();
    config.tls = Some(vec![
        ("a.pem".to_string(), "b.pem".to_string()),
        ("c.pem".to_string(), "d.pem".to_string()),
    ]);
    assert_eq!(
        config.tls("/etc/app"),
        Err(config_error(ServerConfigError::InvalidCert))
    );
}

#[test]
fn join_path_cases() {
    assert_eq!(join_path("", "x.toml"), "x.toml");
    assert_eq!(join_path("dir", "x.toml"), "dir/x.toml");
    assert_eq!(join_path("dir/", "x.toml"), "dir/x.toml");
    assert_eq!(join_path("dir", "/abs/x.toml"), "/abs/x.toml");
}

#[test]
fn gitignore_entry_is_appended_at_most_once() {
    let name = b"config.toml";
    assert!(gitignore_needs_entry(b"", name));
    assert!(gitignore_needs_entry(b"target\n*.log\n", name));
    assert!(!gitignore_needs_entry(b"config.toml\n", name));
    assert!(!gitignore_needs_entry(b"target\nconfig.toml", name));
    assert!(!gitignore_needs_entry(b"some/dir/config.toml\n", name));
}

#[test]
fn gitignore_commented_lines_do_not_count() {
    let name = b"config.toml";
    assert!(gitignore_needs_entry(b"# config.toml\n", name));
    assert!(gitignore_needs_entry(b"config.toml # kept\n", name));
    assert!(!gitignore_needs_entry(b"# note\nconfig.toml\n", name));
}

#[test]
fn gitignore_carriage_returns_are_stripped() {
    let name = b"config.toml";
    assert!(!gitignore_needs_entry(b"config.toml\r\n", name));
    assert!(gitignore_needs_entry(b"# config.toml\r\n", name));
}
