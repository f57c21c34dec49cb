use app_redirect::app_config::{parse_document, render_document, AppConfig};
use app_redirect::console_input::{parse_command, Command};
use app_redirect::document::Document;
use app_redirect::error::{ConfigError, InputProblem};
use app_redirect::lookup::{home_target, index_target, resolve};
use app_redirect::validate::{same_text, starts_with, validate_entry};

fn store(text: &str) -> AppConfig {
    AppConfig::new("config.json", text).expect("valid document")
}

#[test]
fn load_then_read_gives_every_pair() {
    let c = store(r#"{"default":"https://a.test","blog":"https://b.test","x":""}"#);
    let d = c.read();
    assert_eq!(d.len(), 3);
    assert_eq!(d.get("default"), Some("https://a.test".to_string()));
    assert_eq!(d.get("blog"), Some("https://b.test".to_string()));
    assert_eq!(d.get("x"), Some(String::new()));
    assert_eq!(d.get("Blog"), None);
    assert_eq!(c.file_path(), "config.json");
}

#[test]
fn load_empty_object() {
    let c = store("{}");
    assert_eq!(c.read().len(), 0);
    assert_eq!(c.get_content().len(), 0);
}

#[test]
fn duplicate_keys_last_one_wins() {
    let c = store(r#"{"a":"http://1.test","a":"http://2.test"}"#);
    let d = c.read();
    assert_eq!(d.len(), 1);
    assert_eq!(d.get("a"), Some("http://2.test".to_string()));
}

#[test]
fn startup_fails_on_bad_text() {
    assert!(matches!(
        AppConfig::new("config.json", "{not json"),
        Err(ConfigError::StartupFailure { .. })
    ));
    assert!(matches!(
        AppConfig::new("config.json", "[1, 2]"),
        Err(ConfigError::StartupFailure { .. })
    ));
}

#[test]
fn mutate_twice_same_as_once() {
    let mut c = store(r#"{"default":"https://a.test"}"#);
    let m = c.prepare("blog", "https://b.test").unwrap();
    c.commit(m, Ok(())).unwrap();
    let once = c.read();
    let m = c.prepare("blog", "https://b.test").unwrap();
    let text_once = m.text().clone();
    c.commit(m, Ok(())).unwrap();
    let twice = c.read();
    assert_eq!(once.len(), twice.len());
    assert_eq!(once.pairs(), twice.pairs());
    assert_eq!(render_document(&twice), text_once);
}

#[test]
fn mutate_then_file_text_reloads_to_same_mapping() {
    let mut c = store(r#"{"default":"https://a.test"}"#);
    let m = c.prepare("blog", "https://b.test").unwrap();
    let text = m.text().clone();
    assert!(text.contains(r#""blog": "https://b.test""#));
    c.commit(m, Ok(())).unwrap();
    let before = c.read();
    let on_disk = parse_document(&text).unwrap();
    assert_eq!(on_disk.get("blog"), Some("https://b.test".to_string()));
    c.reload(Ok(text)).unwrap();
    let after = c.read();
    assert_eq!(before.len(), after.len());
    assert_eq!(after.get("blog"), Some("https://b.test".to_string()));
    assert_eq!(after.get("default"), Some("https://a.test".to_string()));
}

#[test]
fn mutate_overwrites_default() {
    let mut c = store(r#"{"default":"https://a.test"}"#);
    let m = c.prepare("default", "http://new.test").unwrap();
    c.commit(m, Ok(())).unwrap();
    assert_eq!(home_target(&c.read()), "http://new.test");
}

#[test]
fn persist_failure_keeps_document() {
    let mut c = store(r#"{"default":"https://a.test"}"#);
    let m = c.prepare("blog", "https://b.test").unwrap();
    assert_eq!(m.document().get("blog"), Some("https://b.test".to_string()));
    let r = c.commit(m, Err("disk full".to_string()));
    assert!(matches!(r, Err(ConfigError::PersistFailed { .. })));
    assert_eq!(c.read().get("blog"), None);
    assert_eq!(c.read().len(), 1);
}

#[test]
fn reload_on_corrupted_file_keeps_document() {
    let mut c = store(r#"{"default":"https://a.test"}"#);
    let r = c.reload(Ok(r#"{"default": "#.to_string()));
    assert!(matches!(r, Err(ConfigError::ReloadFailed { .. })));
    assert_eq!(c.read().get("default"), Some("https://a.test".to_string()));
    let r = c.reload(Err("no such file".to_string()));
    assert!(matches!(r, Err(ConfigError::ReloadFailed { .. })));
    assert_eq!(c.read().len(), 1);
}

#[test]
fn reload_replaces_document_wholesale() {
    let mut c = store(r#"{"default":"https://a.test","old":"https://o.test"}"#);
    c.reload(Ok(r#"{"new":"https://n.test"}"#.to_string())).unwrap();
    let d = c.read();
    assert_eq!(d.len(), 1);
    assert_eq!(d.get("old"), None);
    assert_eq!(d.get("default"), None);
    assert_eq!(d.get("new"), Some("https://n.test".to_string()));
    assert_eq!(c.file_path(), "config.json");
}

#[test]
fn unknown_app_goes_to_root() {
    let c = store(r#"{"default":"https://x.test"}"#);
    let d = c.read();
    assert_eq!(resolve(&d, "unknown"), None);
    assert_eq!(index_target(&d, "unknown"), "/");
}

#[test]
fn home_falls_back_without_default() {
    let c = store(r#"{"blog":"https://b.test"}"#);
    assert_eq!(home_target(&c.read()), "https://example.com");
    let c = store(r#"{"default":"https://a.test"}"#);
    assert_eq!(home_target(&c.read()), "https://a.test");
}

#[test]
fn end_to_end_scenario() {
    let mut c = store(r#"{"default":"https://a.test"}"#);
    assert_eq!(index_target(&c.read(), "default"), "https://a.test");
    assert_eq!(resolve(&c.read(), "blog"), None);
    assert_eq!(index_target(&c.read(), "blog"), "/");
    let m = c.prepare("blog", "https://b.test").unwrap();
    let text = m.text().clone();
    c.commit(m, Ok(())).unwrap();
    let persisted = parse_document(&text).unwrap();
    assert_eq!(persisted.get("blog"), Some("https://b.test".to_string()));
    assert_eq!(index_target(&c.read(), "blog"), "https://b.test");
}

#[test]
fn invalid_input_leaves_store_untouched() {
    let c = store(r#"{"default":"https://a.test"}"#);
    assert!(matches!(
        c.prepare("", "https://x.test"),
        Err(ConfigError::InvalidInput { problem: InputProblem::EmptyName })
    ));
    assert!(matches!(
        c.prepare("blog", "ftp://x.test"),
        Err(ConfigError::InvalidInput { problem: InputProblem::BadScheme })
    ));
    assert!(matches!(
        c.prepare("blog", ""),
        Err(ConfigError::InvalidInput { problem: InputProblem::EmptyUrl })
    ));
    assert_eq!(c.read().len(), 1);
    assert_eq!(c.read().get("blog"), None);
}

#[test]
fn validate_entry_cases() {
    assert_eq!(validate_entry("a", "http://x"), Ok(()));
    assert_eq!(validate_entry("a", "https://x"), Ok(()));
    assert_eq!(validate_entry("a", "http:/x"), Err(InputProblem::BadScheme));
    assert_eq!(validate_entry("a", "HTTP://x"), Err(InputProblem::BadScheme));
    assert_eq!(validate_entry("", ""), Err(InputProblem::EmptyName));
}

#[test]
fn prefix_and_equality() {
    assert!(starts_with("https://a", "https://"));
    assert!(!starts_with("http", "http://"));
    assert!(starts_with("abc", ""));
    assert!(same_text("ab", "ab"));
    assert!(!same_text("ab", "abc"));
    assert!(!same_text("ab", "ac"));
}

#[test]
fn document_set_and_get() {
    let mut d = Document::new();
    d.set("k".to_string(), "http://1".to_string());
    d.set("j".to_string(), "http://2".to_string());
    d.set("k".to_string(), "http://3".to_string());
    assert_eq!(d.len(), 2);
    assert_eq!(d.get("k"), Some("http://3".to_string()));
    let s = d.snapshot();
    d.set("z".to_string(), "http://4".to_string());
    assert_eq!(s.len(), 2);
    assert_eq!(s.get("z"), None);
    let f = Document::from_pairs(vec![
        ("a".to_string(), "1".to_string()),
        ("a".to_string(), "2".to_string()),
    ]);
    assert_eq!(f.len(), 1);
    assert_eq!(f.get("a"), Some("2".to_string()));
}

#[test]
fn render_is_pretty_json() {
    let d = parse_document(r#"{"b":"2","a":"1"}"#).unwrap();
    assert_eq!(render_document(&d), "{\n  \"a\": \"1\",\n  \"b\": \"2\"\n}");
    assert!(parse_document(r#"{"a": 1}"#).is_err());
}

#[test]
fn console_commands() {
    assert_eq!(parse_command("h"), Command::Help);
    assert_eq!(parse_command("a"), Command::Add);
    assert_eq!(parse_command("r"), Command::Reload);
    assert_eq!(parse_command("q"), Command::Quit);
    assert_eq!(parse_command("x"), Command::Unknown);
    assert_eq!(parse_command("hh"), Command::Unknown);
    assert_eq!(parse_command(""), Command::Unknown);
}
