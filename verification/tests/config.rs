//! The configuration and where it comes from.

use lazydc::config::{
    config_path, config_read_failure, example_config, AppConfig, ConfigError, FileConfig, TomlValue,
    DEFAULT_COMPOSE_DIR, DEFAULT_DOCKER_BIN, DEFAULT_LOG_LINES, DEFAULT_REFRESH_INTERVAL_MS,
};
use lazydc::native::NativeString;

fn native(text: &str) -> NativeString {
    NativeString::from_text(text)
}

#[test]
fn defaults_are_used_when_config_is_missing() {
    let config = AppConfig::load(None, None).unwrap();
    assert_eq!(config.compose_dir, native(DEFAULT_COMPOSE_DIR));
    assert_eq!(config.docker_bin, native(DEFAULT_DOCKER_BIN));
}

#[test]
fn cli_override_wins() {
    let text = r#"
compose_dir = "/tmp/from-file"
docker_bin = "/bin/docker"
"#;

    let config = AppConfig::load(Some(text), Some(native("/tmp/override"))).unwrap();
    assert_eq!(config.compose_dir, native("/tmp/override"));
    assert_eq!(config.docker_bin, native("/bin/docker"));
}

#[test]
fn example_config_uses_default_values() {
    let example = example_config();
    assert!(example.contains("compose_dir = \"/var/lib/lazydc\""));
    assert!(example.contains("docker_bin = \"docker\""));
    assert!(example.contains("refresh_interval_ms = 2000"));
    assert!(example.contains("default_log_lines = 100"));
}

#[test]
fn example_config_is_exact() {
    assert_eq!(
        example_config(),
        "compose_dir = \"/var/lib/lazydc\"\ndocker_bin = \"docker\"\nrefresh_interval_ms = 2000\ndefault_log_lines = 100\n"
    );
}

#[test]
fn example_config_sets_every_default() {
    let file = FileConfig::parse(&example_config()).unwrap();
    assert_eq!(file.compose_dir, Some(native(DEFAULT_COMPOSE_DIR)));
    assert_eq!(file.docker_bin, Some(native(DEFAULT_DOCKER_BIN)));
    assert_eq!(file.refresh_interval_ms, Some(DEFAULT_REFRESH_INTERVAL_MS));
    assert_eq!(file.default_log_lines, Some(DEFAULT_LOG_LINES));
}

#[test]
fn config_file_fills_in_what_the_command_line_leaves_open() {
    let text = "compose_dir = \"/srv/compose\"\ndefault_log_lines = 7\nunknown = [1, 2]\n";
    let config = AppConfig::load(Some(text), None).unwrap();
    assert_eq!(config.compose_dir, native("/srv/compose"));
    assert_eq!(config.docker_bin, native("docker"));
    assert_eq!(config.refresh_interval_ms, 2_000);
    assert_eq!(config.default_log_lines, 7);
}

#[test]
fn broken_toml_is_refused() {
    let error = AppConfig::load(Some("compose_dir = "), None).unwrap_err();
    assert_eq!(error, ConfigError::NotToml);
    assert_eq!(
        error.message(&native("/etc/lazydc.toml")),
        "failed to parse config file /etc/lazydc.toml"
    );
}

#[test]
fn values_of_the_wrong_kind_are_refused() {
    for text in [
        "compose_dir = 1",
        "docker_bin = true",
        "refresh_interval_ms = \"2000\"",
        "refresh_interval_ms = -1",
        "default_log_lines = -5",
        "default_log_lines = 1.5",
        "default_log_lines = 7.0",
        "refresh_interval_ms = inf",
        "compose_dir = 1979-05-27",
        "docker_bin = { path = \"docker\" }",
    ] {
        let error = AppConfig::load(Some(text), None).unwrap_err();
        assert_eq!(error, ConfigError::BadValue, "{text}");
    }
}

#[test]
fn unknown_keys_are_ignored_whatever_they_hold() {
    for unknown in [
        "other = nan",
        "other = 1979-05-27T07:32:00Z",
        "other = [[1], [\"a\"]]",
        "[other]\n\"$__toml_private_datetime\" = 1",
        "[other]\n\"$__toml_private_datetime\" = \"no date\"",
        "[[other]]\nnested = { \"$__toml_private_datetime\" = true }",
    ] {
        let text = format!("default_log_lines = 9223372036854775807\n{unknown}\n");
        let file = FileConfig::parse(&text).unwrap();
        assert_eq!(file.default_log_lines, Some(9_223_372_036_854_775_807), "{unknown}");
        assert_eq!(file.compose_dir, None);
    }
}

#[test]
fn settings_are_read_from_entries() {
    let entries = vec![
        ("docker_bin".to_string(), TomlValue::Text("podman".to_string())),
        ("refresh_interval_ms".to_string(), TomlValue::Number(Some(500))),
        ("docker_bin".to_string(), TomlValue::Text("docker".to_string())),
    ];
    let file = FileConfig::from_entries(&entries).unwrap();
    assert_eq!(file.docker_bin, Some(native("podman")));
    assert_eq!(file.refresh_interval_ms, Some(500));
    assert_eq!(file.compose_dir, None);

    let wrong = vec![("compose_dir".to_string(), TomlValue::Other)];
    assert_eq!(FileConfig::from_entries(&wrong).unwrap_err(), ConfigError::BadValue);
}

#[test]
fn config_file_is_looked_for_in_the_config_dir() {
    assert_eq!(
        config_path(None, Some(native("/home/me/.config"))),
        Some(native("/home/me/.config/lazydc/config.toml"))
    );
    assert_eq!(
        config_path(Some(native("/tmp/own.toml")), Some(native("/home/me/.config"))),
        Some(native("/tmp/own.toml"))
    );
    assert_eq!(config_path(None, None), None);
    assert_eq!(
        config_read_failure(&native("/tmp/own.toml")),
        "failed to read config file /tmp/own.toml"
    );
}

#[test]
fn global_env_file_lies_in_the_compose_dir() {
    let config = AppConfig::load(None, Some(native("/srv/compose"))).unwrap();
    assert_eq!(config.env_file(), native("/srv/compose/.env.global"));
}
