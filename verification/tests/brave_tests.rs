use aggo_agent::json::{parse_json, JsonValue};
use aggo_agent::search::brave_handle_response;

#[test]
fn failure_status_reports_status_and_body() {
    let err = brave_handle_response(404, "not found").unwrap_err();
    assert_eq!(err, "Brave HTTP error status=404 body=not found");
}

#[test]
fn failure_status_truncates_long_bodies() {
    let body: String = std::iter::repeat('a').take(2500).collect();
    let err = brave_handle_response(500, &body).unwrap_err();
    let expected_body: String = std::iter::repeat('a').take(2000).collect();
    assert_eq!(
        err,
        format!(
            "Brave HTTP error status=500 body={}...<truncated>",
            expected_body
        )
    );
}

#[test]
fn empty_object_yields_empty_results() {
    let out = brave_handle_response(200, "{}").unwrap();
    assert!(out.is_empty());
}

#[test]
fn null_web_section_yields_empty_results() {
    let out = brave_handle_response(200, "{\"web\": null}").unwrap();
    assert!(out.is_empty());
}

#[test]
fn whitespace_and_extra_fields_are_tolerated() {
    let body = " {\n  \"query\": {\"original\": \"q\"},\n  \"web\": {\n    \"results\": [\n      {\"title\": \"T\", \"url\": \"https://t.example\", \"description\": \"D\", \"age\": \"2d\"}\n    ],\n    \"family_friendly\": true\n  }\n} ";
    let out = brave_handle_response(200, body).unwrap();
    assert_eq!(out.len(), 1);
    assert_eq!(out[0].url, "https://t.example");
    assert_eq!(out[0].title, "T");
    assert_eq!(out[0].snippet, "D");
}

#[test]
fn items_without_url_or_with_blank_url_are_dropped() {
    let body = "{\"web\":{\"results\":[\
        {\"title\":\"no url\"},\
        {\"title\":\"blank\",\"url\":\"   \"},\
        {\"title\":\"empty\",\"url\":\"\"},\
        {\"title\":\"null url\",\"url\":null},\
        {\"title\":\"kept\",\"url\":\"https://k.example\"}\
    ]}}";
    let out = brave_handle_response(200, body).unwrap();
    assert_eq!(out.len(), 1);
    assert_eq!(out[0].title, "kept");
}

#[test]
fn missing_title_and_description_get_defaults() {
    let body = "{\"web\":{\"results\":[{\"url\":\"https://a.example\"}]}}";
    let out = brave_handle_response(200, body).unwrap();
    assert_eq!(out.len(), 1);
    assert_eq!(out[0].url, "https://a.example");
    assert_eq!(out[0].title, "(no title)");
    assert_eq!(out[0].snippet, "");
}

#[test]
fn order_of_results_is_kept() {
    let body = "{\"web\":{\"results\":[\
        {\"url\":\"https://1.example\",\"title\":\"one\"},\
        {\"url\":\"https://2.example\",\"title\":\"two\"},\
        {\"url\":\"https://3.example\",\"title\":\"three\"}\
    ]}}";
    let out = brave_handle_response(200, body).unwrap();
    let titles: Vec<&str> = out.iter().map(|r| r.title.as_str()).collect();
    assert_eq!(titles, vec!["one", "two", "three"]);
}

#[test]
fn malformed_body_is_a_parse_error() {
    let err = brave_handle_response(200, "{\"web\": {").unwrap_err();
    assert_eq!(
        err,
        "Failed to parse Brave JSON: invalid JSON document body={\"web\": {"
    );
}

#[test]
fn non_object_body_is_a_parse_error() {
    let err = brave_handle_response(200, "[1, 2]").unwrap_err();
    assert!(err.starts_with("Failed to parse Brave JSON: "));
}

#[test]
fn web_section_without_results_is_an_error() {
    let err = brave_handle_response(200, "{\"web\": {\"count\": 3}}").unwrap_err();
    assert_eq!(
        err,
        "Failed to parse Brave JSON: unexpected result structure body={\"web\": {\"count\": 3}}"
    );
}

#[test]
fn non_string_title_is_an_error() {
    let err = brave_handle_response(
        200,
        "{\"web\":{\"results\":[{\"url\":\"https://a.example\",\"title\":7}]}}",
    )
    .unwrap_err();
    assert!(err.starts_with("Failed to parse Brave JSON: "));
}

#[test]
fn string_escapes_are_decoded() {
    let body = "{\"web\":{\"results\":[{\"url\":\"https://e.example\",\"title\":\"\\u0041\\n\\\"q\\\"\",\"description\":\"tab\\there \\u00e9 \\ud83d\\ude00\"}]}}";
    let out = brave_handle_response(200, body).unwrap();
    assert_eq!(out[0].title, "A\n\"q\"");
    assert_eq!(out[0].snippet, "tab\there \u{e9} \u{1F600}");
}

#[test]
fn parser_agrees_with_reference_parser_on_scalars() {
    for body in [
        "null",
        "true",
        "false",
        "42",
        "-3.5e2",
        "\"plain\"",
        "[]",
        "{}",
        "[null, true, \"x\"]",
        "{\"a\": {\"b\": [1, 2]}}",
    ] {
        let ours = parse_json(body);
        let reference: Result<serde_json::Value, _> = serde_json::from_str(body);
        assert_eq!(ours.is_some(), reference.is_ok(), "disagree on {body}");
    }
    for body in [
        "",
        "{",
        "[1,]",
        "tru",
        "\"unterminated",
        "{\"a\":}",
        "1 2",
        "01",
        "-",
        "1.",
        "1e",
        "1e+",
        "-.5",
        "[1..2]",
    ] {
        assert!(parse_json(body).is_none(), "should refuse {body}");
        assert!(
            serde_json::from_str::<serde_json::Value>(body).is_err(),
            "reference should refuse {body}"
        );
    }
}

#[test]
fn parsed_strings_match_reference_parser() {
    let body = "{\"k\": \"a\\u0042 \\\\ \\/ \\b\\f\\n\\r\\t \\ud83d\\ude00\"}";
    let ours = parse_json(body).unwrap();
    let reference: serde_json::Value = serde_json::from_str(body).unwrap();
    let expected = reference.get("k").unwrap().as_str().unwrap();
    match ours {
        JsonValue::Obj(fields) => {
            assert_eq!(fields.len(), 1);
            assert_eq!(fields[0].0, "k");
            match &fields[0].1 {
                JsonValue::Str(s) => assert_eq!(s, expected),
                other => panic!("expected a string, got {:?}", other_kind(other)),
            }
        }
        _ => panic!("expected an object"),
    }
}

fn other_kind(v: &JsonValue) -> &'static str {
    match v {
        JsonValue::Null => "null",
        JsonValue::Bool(_) => "bool",
        JsonValue::Num(_) => "number",
        JsonValue::Str(_) => "string",
        JsonValue::Arr(_) => "array",
        JsonValue::Obj(_) => "object",
    }
}

#[test]
fn number_tokens_keep_their_raw_text() {
    match parse_json("[1.5e3, -7]").unwrap() {
        JsonValue::Arr(items) => {
            assert_eq!(items.len(), 2);
            match (&items[0], &items[1]) {
                (JsonValue::Num(a), JsonValue::Num(b)) => {
                    assert_eq!(a, "1.5e3");
                    assert_eq!(b, "-7");
                }
                _ => panic!("expected two numbers"),
            }
        }
        _ => panic!("expected an array"),
    }
}

#[test]
fn deeply_nested_documents_are_refused() {
    let shallow = format!("{}1{}", "[".repeat(50), "]".repeat(50));
    assert!(parse_json(&shallow).is_some());
    assert!(serde_json::from_str::<serde_json::Value>(&shallow).is_ok());

    let deep = format!("{}1{}", "[".repeat(200), "]".repeat(200));
    assert!(parse_json(&deep).is_none());
    assert!(serde_json::from_str::<serde_json::Value>(&deep).is_err());
}

#[test]
fn lone_surrogate_escapes_are_refused() {
    assert!(parse_json("\"\\ud800\"").is_none());
    assert!(parse_json("\"\\udc00 alone\"").is_none());
    assert!(serde_json::from_str::<serde_json::Value>("\"\\ud800\"").is_err());
}
