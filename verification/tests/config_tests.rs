use croak::config::{Config, ConfigError, Folders, Settings};
use croak::transport::http::{Http, Method};
use croak::transport::{Transport, TransportService};

fn http(name: &str, method: Method) -> Transport {
    Transport::Http(Http::new(
        name.to_string(),
        method,
        "https://example.com/notify".to_string(),
        None,
        None,
        None,
    ))
}

fn config(hostname: Option<&str>, transports: Vec<Transport>) -> Config {
    Config {
        _folders: Folders::default(),
        settings: Settings { notify_on_start: None, override_hostname: hostname.map(|h| h.to_string()) },
        transports,
    }
}

#[test]
fn validates_config_after_loading() {
    let mut cfg = config(Some("   "), vec![http("notify", Method::POST), http("notify", Method::PUT)]);

    let err = cfg.validate().unwrap_err();

    assert!(cfg.settings.override_hostname.is_none());
    assert!(err.message().contains("Duplicate transport name"));
}

#[test]
fn default_config_has_no_transports() {
    let cfg = Config::default();

    assert!(cfg.transports.is_empty());
}

#[test]
fn validate_accepts_distinct_names_and_keeps_hostname() {
    let mut cfg = config(Some("box"), vec![http("a", Method::POST), http("b", Method::PATCH)]);
    assert!(cfg.validate().is_ok());
    assert_eq!(cfg.settings.override_hostname.as_deref(), Some("box"));
    assert_eq!(cfg.transports.len(), 2);
    assert_eq!(cfg.transports[1].name(), "b");
}

#[test]
fn validate_names_first_repeated_transport() {
    let mut cfg = config(None, vec![http("a", Method::POST), http("b", Method::POST), http("b", Method::POST), http("a", Method::POST)]);
    match cfg.validate() {
        Err(ConfigError::DuplicateTransportName(n)) => assert_eq!(n, "b"),
        Ok(()) => panic!("duplicates accepted"),
    }
    let err = ConfigError::DuplicateTransportName("x".to_string());
    assert_eq!(err.message(), "Duplicate transport name found: 'x'. Each transport must have a unique name.");
}

use croak::config::{
    appended_text, config_file_candidates, default_config_contents, edit_config_file, editor_command,
    editor_outcome, existing_config_path, needs_default_config, preferred_config_path, transport_entry,
    ConfigFormat, EditError,
};

#[test]
fn new_config_fills_default_notify_on_start() {
    let mut defaults = Config::default();
    defaults.settings.notify_on_start = Some(true);
    let loaded = config(Some(" "), vec![http("a", Method::POST)]);
    let c = Config::new(loaded, &defaults).ok().unwrap();
    assert_eq!(c.settings.notify_on_start, Some(true));
    assert!(c.settings.override_hostname.is_none());
    let mut loaded = config(None, vec![]);
    loaded.settings.notify_on_start = Some(false);
    let c = Config::new(loaded, &defaults).ok().unwrap();
    assert_eq!(c.settings.notify_on_start, Some(false));
    let dup = config(None, vec![http("a", Method::POST), http("a", Method::PUT)]);
    assert!(Config::new(dup, &defaults).is_err());
}

#[test]
fn listing_transports() {
    assert_eq!(config(None, vec![]).list_transports(), vec!["No transports configured.".to_string()]);
    assert_eq!(
        config(None, vec![http("a", Method::POST), http("b", Method::PUT)]).list_transports(),
        vec!["Configured transports:".to_string(), "- [HTTP] a".to_string(), "- [HTTP] b".to_string()]
    );
}

#[test]
fn candidate_files_in_order() {
    let c = config_file_candidates();
    let names: Vec<&str> = c.iter().map(|(n, _)| n.as_str()).collect();
    assert_eq!(names, vec!["config.json5", "config.json", "config.yaml", "config.toml", "config.ini"]);
    assert_eq!(c[3].1, ConfigFormat::Toml);
    assert_eq!(preferred_config_path("/etc/croak"), "/etc/croak/config.toml");
}

#[test]
fn editing_picks_first_existing_file() {
    let edit = edit_config_file("/cfg");
    assert_eq!(edit.candidates[0], "/cfg/config.json5");
    assert_eq!(edit.path(&vec![false, false, true, true, false]), "/cfg/config.yaml");
    assert_eq!(edit.path(&vec![false; 5]), "/cfg/config.toml");
    assert_eq!(existing_config_path(&edit.candidates, &vec![false, false, false, false, true]), Some("/cfg/config.ini".to_string()));
    assert_eq!(existing_config_path(&edit.candidates, &vec![false; 5]), None);
}

#[test]
fn default_written_only_for_missing_or_blank_files() {
    assert!(needs_default_config(None));
    assert!(needs_default_config(Some(" \n")));
    assert!(!needs_default_config(Some("[settings]")));
    assert!(!default_config_contents().trim().is_empty());
}

#[test]
fn editor_choice() {
    let s = |v: &str| Some(v.to_string());
    let c = editor_command(s("code --wait"), s("nano")).ok().unwrap();
    assert_eq!(c.program, "code");
    assert_eq!(c.args, vec!["--wait".to_string()]);
    let c = editor_command(s("   "), s(" nano ")).ok().unwrap();
    assert_eq!(c.program, "nano");
    assert!(c.args.is_empty());
    let c = editor_command(None, None).ok().unwrap();
    assert_eq!(c.program, "vi");
}

#[test]
fn editor_exit() {
    assert!(editor_outcome(true, Some(0)).is_ok());
    let e = editor_outcome(false, Some(2)).err().unwrap();
    assert_eq!(e.message(), format!("Editor exited with status code {:?}", Some(2)));
    let e = editor_outcome(false, Some(-3)).err().unwrap();
    assert_eq!(e.message(), format!("Editor exited with status code {:?}", Some(-3)));
    let e = editor_outcome(false, Some(i32::MIN)).err().unwrap();
    assert_eq!(e.message(), format!("Editor exited with status code {:?}", Some(i32::MIN)));
    let e = editor_outcome(false, None).err().unwrap();
    assert_eq!(e.message(), "Editor exited with status code None");
    assert_eq!(EditError::UnparsableEditor.message(), "Could not parse editor command");
}

#[test]
fn appending_and_entries() {
    assert_eq!(appended_text("x = 1"), "\nx = 1\n\n");
    assert_eq!(transport_entry("type = \"Http\"\n"), "[[transports]]\ntype = \"Http\"\n");
}
