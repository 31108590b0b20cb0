use overpassql::api::{default_server, endpoint_url, format_response, is_json_content_type};
use overpassql::text::{str_eq, trim};

#[test]
fn trim_removes_surrounding_whitespace() {
    assert_eq!(trim(" \t node(1); \n"), "node(1);");
}

#[test]
fn trim_removes_unicode_whitespace() {
    assert_eq!(trim("\u{3000}hi\u{00A0}"), "hi");
}

#[test]
fn trim_keeps_inner_whitespace() {
    assert_eq!(trim("node(1);\nout body;"), "node(1);\nout body;");
}

#[test]
fn trim_of_all_whitespace_is_empty() {
    assert_eq!(trim(" \n\t "), "");
}

#[test]
fn str_eq_compares_contents() {
    assert!(str_eq("abc", "abc"));
    assert!(!str_eq("abc", "abd"));
    assert!(!str_eq("abc", "abcd"));
    assert!(str_eq("", ""));
}

#[test]
fn json_content_type_recognised() {
    assert!(is_json_content_type("application/json"));
    assert!(!is_json_content_type("application/osm3s+xml"));
    assert!(!is_json_content_type(""));
}

#[test]
fn default_server_url() {
    assert_eq!(default_server(), "https://overpass-api.de");
}

#[test]
fn endpoint_appends_interpreter_path() {
    assert_eq!(
        endpoint_url("https://overpass-api.de"),
        "https://overpass-api.de/api/interpreter"
    );
}

#[test]
fn json_response_is_pretty_printed() {
    let body = String::from("{\"a\":1,\"b\":2}");
    let r = format_response("application/json", body).unwrap();
    assert_eq!(r, "{\n  \"a\": 1,\n  \"b\": 2\n}\n");
}

#[test]
fn non_json_response_passes_through() {
    let body = String::from("<osm version=\"0.6\"/>");
    let r = format_response("application/osm3s+xml", body).unwrap();
    assert_eq!(r, "<osm version=\"0.6\"/>");
}
