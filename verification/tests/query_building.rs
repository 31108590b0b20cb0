use overpassql::query::{
    append_out_clause, apply_settings, build_query, ensure_trailing_semicolon, has_out_clause,
};
use overpassql::settings::{Format, Output, Settings};

fn empty_settings() -> Settings {
    Settings { bbox: None, format: None, date: None, diff: None, adiff: None }
}

#[test]
fn semicolon_added_when_missing() {
    let r = ensure_trailing_semicolon(String::from("node(1)"));
    assert_eq!(r, "node(1);");
}

#[test]
fn semicolon_kept_when_present() {
    let r = ensure_trailing_semicolon(String::from("node(1);"));
    assert_eq!(r, "node(1);");
}

#[test]
fn semicolon_on_empty_query() {
    let r = ensure_trailing_semicolon(String::new());
    assert_eq!(r, ";");
}

#[test]
fn semicolon_insertion_idempotent() {
    let once = ensure_trailing_semicolon(String::from("node(1)"));
    let twice = ensure_trailing_semicolon(once.clone());
    assert_eq!(once, twice);
}

#[test]
fn out_clause_detected() {
    assert!(has_out_clause("node(1);out body;"));
    assert!(has_out_clause("out meta;"));
}

#[test]
fn out_clause_absent() {
    assert!(!has_out_clause("node(1);"));
    assert!(!has_out_clause(";"));
}

#[test]
fn out_clause_on_new_line_not_detected() {
    // The check looks at the literal last statement; a leading newline
    // keeps it from starting with "out ".
    assert!(!has_out_clause("node(1);\nout body;"));
}

#[test]
fn out_clause_appended() {
    let r = append_out_clause(String::from("node(1);"), Output::Geom);
    assert_eq!(r, "node(1);\nout geom;");
}

#[test]
fn settings_prepended_to_plain_query() {
    let s = Settings { format: Some(Format::Json), ..empty_settings() };
    let r = apply_settings(String::from("node(1);"), &s);
    assert_eq!(r, "[out:json];\nnode(1);");
}

#[test]
fn settings_not_prepended_when_query_has_own_block() {
    let s = Settings { format: Some(Format::Json), ..empty_settings() };
    let r = apply_settings(String::from("[timeout:25];node(1);"), &s);
    assert_eq!(r, "[timeout:25];node(1);");
}

#[test]
fn settings_not_prepended_when_empty() {
    let s = empty_settings();
    let r = apply_settings(String::from("node(1);"), &s);
    assert_eq!(r, "node(1);");
}

#[test]
fn build_inserts_default_out_clause() {
    let s = empty_settings();
    let r = build_query(String::from("node(1)"), &s, None);
    assert_eq!(r, "node(1);\nout body;");
}

#[test]
fn build_uses_requested_output() {
    let s = empty_settings();
    let r = build_query(String::from("node(1)"), &s, Some(Output::Geom));
    assert_eq!(r, "node(1);\nout geom;");
}

#[test]
fn build_keeps_existing_out_clause() {
    let s = empty_settings();
    let r = build_query(String::from("node(1);out meta;"), &s, None);
    assert_eq!(r, "node(1);out meta;");
}

#[test]
fn build_with_settings_and_default_out() {
    let s = Settings { format: Some(Format::Json), ..empty_settings() };
    let r = build_query(String::from("node(1);"), &s, None);
    assert_eq!(r, "[out:json];\nnode(1);\nout body;");
}

#[test]
fn build_on_empty_query() {
    let s = empty_settings();
    let r = build_query(String::new(), &s, None);
    assert_eq!(r, ";\nout body;");
}
