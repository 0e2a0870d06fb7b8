use openlogi::config::document::{reconcile_table, render_config};
use openlogi::config::file::ConfigError;
use toml_edit::DocumentMut;

#[test]
fn render_without_a_file_writes_the_generated_text() {
    let generated = "schema_version = 3\n";
    let rendered = render_config(generated, None, "/tmp/config.toml");
    assert!(matches!(rendered, Ok(ref text) if text == generated));
}

#[test]
fn render_keeps_the_comment_of_a_replaced_value() {
    let rendered = render_config("a = 5\n", Some("a = 1 # note\nb = 2\n"), "/tmp/config.toml");
    assert!(matches!(rendered, Ok(ref text) if text == "a = 5 # note\n"));
}

#[test]
fn render_appends_new_keys() {
    let rendered = render_config("a = 1\nb = 2\n", Some("a = 1\n"), "/tmp/config.toml");
    assert!(matches!(rendered, Ok(ref text) if text == "a = 1\nb = 2\n"));
}

#[test]
fn render_reconciles_nested_tables() {
    let original = "# OpenLogi settings\nschema_version = 2 # keep me\nstale = true\n\n[devices.mouse]\ndpi = 800 # mine\nold = 1\n";
    let generated = "schema_version = 3\n\n[devices.mouse]\ndpi = 1600\n";
    let text = render_config(generated, Some(original), "/tmp/config.toml").ok().unwrap();
    assert!(text.contains("# OpenLogi settings"));
    assert!(text.contains("schema_version = 3 # keep me"));
    assert!(text.contains("dpi = 1600 # mine"));
    assert!(!text.contains("stale"));
    assert!(!text.contains("old"));
    let reparsed: DocumentMut = text.parse().unwrap();
    let keys: Vec<&str> = reparsed.iter().map(|(key, _)| key).collect();
    assert_eq!(keys, vec!["schema_version", "devices"]);
    let mouse = reparsed["devices"]["mouse"].as_table().unwrap();
    assert_eq!(mouse.iter().map(|(key, _)| key).collect::<Vec<_>>(), vec!["dpi"]);
    assert_eq!(mouse["dpi"].as_integer(), Some(1600));
}

#[test]
fn render_replaces_a_table_by_a_value() {
    let rendered = render_config("x = 3\n", Some("[x]\ny = 1\n"), "/tmp/config.toml");
    let text = rendered.ok().unwrap();
    let reparsed: DocumentMut = text.parse().unwrap();
    assert_eq!(reparsed["x"].as_integer(), Some(3));
    assert_eq!(reparsed.iter().count(), 1);
}

#[test]
fn render_rejects_an_unparsable_file() {
    let rendered = render_config("a = 1\n", Some("a = = 1\n"), "/tmp/config.toml");
    assert!(matches!(rendered, Err(ConfigError::Edit { ref path, ref source }) if path == "/tmp/config.toml" && !source.is_empty()));
}

#[test]
fn render_rejects_unparsable_generated_text() {
    let rendered = render_config("a = \n", Some("a = 1\n"), "/tmp/config.toml");
    assert!(matches!(rendered, Err(ConfigError::Edit { ref path, .. }) if path == "/tmp/config.toml"));
}

#[test]
fn render_error_carries_the_parser_message() {
    let expected = "a = = 1\n".parse::<DocumentMut>().unwrap_err().to_string();
    let rendered = render_config("a = 1\n", Some("a = = 1\n"), "/tmp/config.toml");
    assert!(matches!(rendered, Err(ConfigError::Edit { ref source, .. }) if *source == expected));
}

#[test]
fn reconcile_table_gives_the_generated_keys() {
    let mut current: DocumentMut = "keep = 1 # c\ngone = 2\n[t]\nx = 1\n".parse().unwrap();
    let generated: DocumentMut = "keep = 9\nnew = 3\n[t]\ny = 2\n".parse().unwrap();
    reconcile_table(current.as_table_mut(), generated.as_table());
    let keys: Vec<&str> = current.iter().map(|(key, _)| key).collect();
    assert_eq!(keys, vec!["keep", "t", "new"]);
    assert_eq!(current["keep"].as_integer(), Some(9));
    assert_eq!(current["new"].as_integer(), Some(3));
    let t = current["t"].as_table().unwrap();
    assert_eq!(t.iter().map(|(key, _)| key).collect::<Vec<_>>(), vec!["y"]);
    assert!(current.to_string().contains("keep = 9 # c"));
}
