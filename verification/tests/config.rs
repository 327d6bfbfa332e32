use orion_cli::commands::ConfigSubcommand;
use orion_cli::config::{
    can_show, choose_server_url, default_output, parse_key, resolve_server_url, run_config,
    ConfigKey, OrionConfig,
};
use orion_cli::view::Doc;

fn texts(d: &Doc) -> Vec<String> {
    d.lines.iter().map(|l| l.iter().map(|s| s.text.clone()).collect::<String>()).collect()
}

fn sample() -> OrionConfig {
    OrionConfig {
        server_url: Some("http://localhost:8080".to_string()),
        default_output: "table".to_string(),
        api_key: Some("my-secret-key".to_string()),
        api_key_header: None,
    }
}

#[test]
fn default_output_is_table() {
    assert_eq!(default_output(), "table");
    let c = OrionConfig::default();
    assert_eq!(c.default_output, "");
    assert!(c.server_url.is_none());
}

#[test]
fn keys_are_recognised() {
    assert_eq!(parse_key("server_url"), Some(ConfigKey::ServerUrl));
    assert_eq!(parse_key("api_key_header"), Some(ConfigKey::ApiKeyHeader));
    assert_eq!(parse_key("bogus"), None);
}

#[test]
fn get_after_set_reads_the_value() {
    let mut c = sample();
    c.set_value("default_output", "json").unwrap();
    assert_eq!(c.get_value("default_output").unwrap(), "json");
    // other keys unchanged
    assert_eq!(c.get_value("server_url").unwrap(), "http://localhost:8080");
    // last write wins
    c.set_value("default_output", "yaml").unwrap();
    assert_eq!(c.get_value("default_output").unwrap(), "yaml");
}

#[test]
fn unknown_key_is_an_error_and_changes_nothing() {
    let mut c = sample();
    let err = c.set_value("colour", "red").unwrap_err();
    assert_eq!(
        err,
        "Unknown config key: colour. Valid keys: server_url, default_output, api_key, api_key_header"
    );
    assert_eq!(c.get_value("api_key").unwrap(), "my-secret-key");
    assert!(c.get_value("colour").is_err());
    assert_eq!(c.get_value("api_key_header").unwrap(), "");
}

#[test]
fn server_url_resolution() {
    let c = sample();
    assert_eq!(resolve_server_url(Some("http://env:1"), &c).unwrap(), "http://env:1");
    assert_eq!(resolve_server_url(Some(""), &c).unwrap(), "http://localhost:8080");
    assert_eq!(resolve_server_url(None, &c).unwrap(), "http://localhost:8080");
    let empty = OrionConfig::empty();
    assert!(resolve_server_url(None, &empty).unwrap_err().starts_with("No server URL configured"));
    assert_eq!(choose_server_url(Some("http://flag"), &c).as_deref(), Some("http://flag"));
    assert_eq!(choose_server_url(None, &empty), None);
}

#[test]
fn config_show_masks_the_key() {
    let c = sample();
    assert!(can_show(&c));
    let out = run_config(&ConfigSubcommand::Show, c, "/home/u/.orion/config.toml").unwrap();
    assert!(out.save.is_none());
    assert_eq!(
        texts(&out.doc),
        vec![
            "Configuration",
            "  Path:           /home/u/.orion/config.toml",
            "  Server URL:     http://localhost:8080",
            "  Output:         table",
            "  API Key:        ****-key",
        ]
    );
}

#[test]
fn config_set_and_get_commands() {
    let out = run_config(
        &ConfigSubcommand::SetKey { key: "api_key_header".to_string(), value: "X-Auth".to_string() },
        sample(),
        "p",
    )
    .unwrap();
    let saved = out.save.unwrap();
    assert_eq!(saved.api_key_header.as_deref(), Some("X-Auth"));
    assert_eq!(texts(&out.doc), vec!["OK api_key_header = X-Auth"]);
    let got = run_config(&ConfigSubcommand::Get { key: "server_url".to_string() }, saved, "p").unwrap();
    assert_eq!(texts(&got.doc), vec!["http://localhost:8080"]);
    let set_server = run_config(&ConfigSubcommand::SetServer { url: "http://x".to_string() }, sample(), "p").unwrap();
    assert_eq!(set_server.save.unwrap().server_url.as_deref(), Some("http://x"));
    assert_eq!(texts(&set_server.doc), vec!["OK Server URL set to http://x"]);
    assert!(run_config(&ConfigSubcommand::Get { key: "nope".to_string() }, sample(), "p").is_err());
}
