use reqtui::json::check_json;

fn json_chars(s: &str) -> Vec<char> {
    s.chars().collect()
}

fn accepts(s: &str) -> bool {
    check_json(&json_chars(s))
}

#[test]
fn accepts_literals_and_numbers() {
    assert!(accepts("null"));
    assert!(accepts("true"));
    assert!(accepts("false"));
    assert!(accepts("0"));
    assert!(accepts("123"));
    assert!(accepts("-7"));
    assert!(accepts("-0.5"));
    assert!(accepts("12.25"));
    assert!(accepts("1e3"));
    assert!(accepts("2.5E-10"));
    assert!(accepts("1e+06"));
}

#[test]
fn accepts_strings_with_escapes() {
    assert!(accepts("\"\""));
    assert!(accepts("\"hello\""));
    assert!(accepts("\"line\\nbreak\""));
    assert!(accepts("\"quote \\\" backslash \\\\\""));
    assert!(accepts("\"unicode \\u00fF\""));
    assert!(accepts("\"slash \\/ b \\b f \\f r \\r t \\t\""));
}

#[test]
fn accepts_containers_and_whitespace() {
    assert!(accepts("{}"));
    assert!(accepts("[]"));
    assert!(accepts("[ ]"));
    assert!(accepts(" { } "));
    assert!(accepts("[1, 2, 3]"));
    assert!(accepts("{\"a\": 1}"));
    assert!(accepts("{\"a\": 1, \"b\": [true, null]}"));
    assert!(accepts("{\"outer\": {\"inner\": [{\"deep\": \"x\"}]}}"));
    assert!(accepts("\t[\n  {\"a\"\t:\r1}\n]\n"));
}

#[test]
fn rejects_non_json_text() {
    assert!(!accepts(""));
    assert!(!accepts("   "));
    assert!(!accepts("{ json: yes }"));
    assert!(!accepts("hello"));
    assert!(!accepts("nul"));
    assert!(!accepts("truth"));
    assert!(!accepts("'single'"));
}

#[test]
fn rejects_malformed_numbers() {
    assert!(!accepts("-"));
    assert!(!accepts("+1"));
    assert!(!accepts("--1"));
    assert!(!accepts("01"));
    assert!(!accepts("1."));
    assert!(!accepts(".5"));
    assert!(!accepts("1e"));
    assert!(!accepts("1e+"));
}

#[test]
fn rejects_malformed_strings() {
    assert!(!accepts("\"unterminated"));
    assert!(!accepts("\"bad escape \\q\""));
    assert!(!accepts("\"short unicode \\u12\""));
    assert!(!accepts("\"control \u{0007} char\""));
}

#[test]
fn rejects_malformed_containers() {
    assert!(!accepts("{,}"));
    assert!(!accepts("{\"a\":}"));
    assert!(!accepts("{\"a\" 1}"));
    assert!(!accepts("{\"a\": 1,}"));
    assert!(!accepts("{1: 2}"));
    assert!(!accepts("[1,]"));
    assert!(!accepts("[1 2]"));
    assert!(!accepts("[1, 2"));
    assert!(!accepts("1, 2]"));
}

#[test]
fn rejects_trailing_content() {
    assert!(!accepts("1 x"));
    assert!(!accepts("{} {}"));
    assert!(!accepts("null null"));
}
