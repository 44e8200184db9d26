use geocode_mcp::arguments::count_argument;
use geocode_mcp::error::{GeocodeMcpError, McpError};
use geocode_mcp::json::{
    double_argument, optional_string, parse_value, string_argument, value_as_u64,
};
use geocode_mcp::operations::photon::Subject;
use geocode_mcp::text::{decimal_text, is_blank, joined, parse_u64, same_text};
use geocode_mcp::tools::{mcp_tool_result_text, tool_result, ToolRegistry};
use serde_json::Value;

fn json(text: &str) -> Value {
    serde_json::from_str(text).expect("valid JSON")
}

#[test]
fn decimal_digits_are_written_out() {
    assert_eq!(decimal_text(0), "0");
    assert_eq!(decimal_text(10), "10");
    assert_eq!(decimal_text(503), "503");
    assert_eq!(decimal_text(18446744073709551615), "18446744073709551615");
}

#[test]
fn decimal_digits_read_back() {
    for n in [0u64, 7, 10, 429, 4294967296, 18446744073709551615] {
        assert_eq!(parse_u64(&decimal_text(n)), Some(n));
    }
}

#[test]
fn parsing_agrees_with_the_standard_library() {
    for s in [
        "",
        "+",
        "-",
        "0",
        "+5",
        "-5",
        "-0",
        "++5",
        " 5",
        "5 ",
        "007",
        "1_000",
        "1.0",
        "٣",
        "18446744073709551615",
        "18446744073709551616",
        "99999999999999999999999",
        "99999999999999999999999x",
    ] {
        assert_eq!(parse_u64(s), s.parse::<u64>().ok(), "on {s:?}");
    }
}

#[test]
fn blank_is_what_trims_to_nothing() {
    for s in ["", " ", "\t\r\n", "\u{a0}\u{2003}\u{3000}", "\u{85}\u{1680}\u{202f}\u{205f}"] {
        assert!(is_blank(s), "on {s:?}");
    }
    for s in ["a", " a ", "\u{200b}", "\u{180e}", "\u{feff}"] {
        assert!(!is_blank(s), "on {s:?}");
    }
}

#[test]
fn white_space_is_the_documented_property() {
    for p in 0..=0x10ffffu32 {
        if let Some(c) = char::from_u32(p) {
            let expected = matches!(p,
                0x9..=0xd | 0x20 | 0x85 | 0xa0 | 0x1680 | 0x2000..=0x200a | 0x2028 | 0x2029
                | 0x202f | 0x205f | 0x3000);
            assert_eq!(c.is_whitespace(), expected, "on {p:x}");
        }
    }
}

#[test]
fn texts_join_and_compare() {
    assert_eq!(joined("tool not found: ", "x"), "tool not found: x");
    assert!(same_text("geocode", "geocode"));
    assert!(!same_text("geocode", "Geocode"));
}

#[test]
fn counts_come_as_numbers_or_numeric_strings() {
    assert_eq!(value_as_u64(&json("3")), Some(3));
    assert_eq!(value_as_u64(&json("\"3\"")), Some(3));
    assert_eq!(value_as_u64(&json("\"three\"")), None);
    assert_eq!(value_as_u64(&json("-3")), None);
    assert_eq!(value_as_u64(&json("3.0")), None);
    assert_eq!(value_as_u64(&json("true")), None);
    assert_eq!(value_as_u64(&json("null")), None);
}

#[test]
fn count_defaults_to_five() {
    assert_eq!(count_argument(&json("{}")), 5);
    assert_eq!(count_argument(&json(r#"{"count": "many"}"#)), 5);
    assert_eq!(count_argument(&json(r#"{"count": 2.5}"#)), 5);
    assert_eq!(count_argument(&json(r#"{"count": "8"}"#)), 8);
    assert_eq!(count_argument(&json(r#"{"count": 4294967298}"#)), 2);
    assert_eq!(count_argument(&json(r#"{"count": 4294967306}"#)), 10);
    assert_eq!(count_argument(&json("[]")), 5);
}

#[test]
fn arguments_are_found_by_name_and_type() {
    let v = json(r#"{"a": "x", "b": 1.50, "c": -7, "d": 1e21}"#);
    assert_eq!(string_argument(&v, "a"), Some("x"));
    assert_eq!(string_argument(&v, "b"), None);
    assert_eq!(string_argument(&v, "z"), None);
    assert_eq!(double_argument(&v, "b"), Some("1.5".to_string()));
    assert_eq!(double_argument(&v, "c"), Some("-7".to_string()));
    assert_eq!(double_argument(&v, "d"), Some("1000000000000000000000".to_string()));
    assert_eq!(double_argument(&v, "a"), None);
    assert_eq!(optional_string(None), Value::Null);
    assert_eq!(optional_string(Some("x".to_string())), Value::from("x"));
}

#[test]
fn registry_lists_both_tools() {
    let registry = ToolRegistry::new().expect("reqwest client");
    let tools = registry.list_tools();
    let tools = tools.as_array().expect("an array");
    assert_eq!(tools.len(), 2);
    assert_eq!(tools[0]["name"], "geocode");
    assert_eq!(tools[1]["name"], "reverse_geocode");
    assert_eq!(tools[0]["inputSchema"]["required"], json(r#"["name"]"#));
    assert_eq!(
        tools[1]["inputSchema"]["properties"]["latitude"]["type"],
        "number"
    );
    assert!(tools[1]["description"]
        .as_str()
        .expect("a description")
        .starts_with("Resolve geographic coordinates (latitude and longitude) to a location name"));
}

#[test]
fn registry_starts_the_lookup_of_a_call() {
    let registry = ToolRegistry::new().expect("reqwest client");
    let lookup = registry
        .execute_tool("geocode", &json(r#"{"name": "London", "count": "3"}"#))
        .expect("a lookup");
    assert!(matches!(&lookup.subject, Subject::Name(n, 3) if n == "London"));
    assert_eq!(
        lookup.request.expect("a request").url().as_str(),
        "https://photon.komoot.io/api/?q=London&limit=3&lang=en"
    );
    let lookup = registry
        .execute_tool("reverse_geocode", &json(r#"{"latitude": 1, "longitude": 2}"#))
        .expect("a lookup");
    assert_eq!(
        lookup.request.expect("a request").url().as_str(),
        "https://photon.komoot.io/reverse?lat=1&lon=2&lang=en"
    );
}

#[test]
fn registry_refuses_what_it_cannot_do() {
    let registry = ToolRegistry::new().expect("reqwest client");
    let e = registry.execute_tool("nope", &json("{}")).unwrap_err();
    assert!(matches!(&e, GeocodeMcpError::Mcp(McpError::ToolNotFound(s)) if s == "nope"));
    assert_eq!(e.to_string(), "Tool not found: nope");
    let e = registry.execute_tool("geocode", &json(r#"{"name": " "}"#)).unwrap_err();
    assert_eq!(
        e.to_string(),
        "Invalid tool parameters: Parameter 'name' must not be empty or whitespace-only"
    );
    let e = registry
        .execute_tool("reverse_geocode", &json(r#"{"latitude": 1}"#))
        .unwrap_err();
    assert_eq!(
        e.to_string(),
        "Invalid tool parameters: Missing required parameter: longitude"
    );
}

#[test]
fn text_of_a_result_reads_back() {
    let value = json(
        r#"{"a": [], "b": {}, "": [null, true, -9223372036854775808, 18446744073709551615],
            "q\"\\\n\u0000\u00e9": "\ud83c\udf0d \t"}"#,
    );
    let result = mcp_tool_result_text(value.clone());
    let text = result["content"][0]["text"].as_str().expect("a text");
    assert_eq!(parse_value(text).expect("a value"), value);
}

/// `levels` arrays inside one another.
fn nested(levels: u32) -> Value {
    (1..levels).fold(Value::Array(Vec::new()), |v, _| Value::Array(vec![v]))
}

#[test]
fn text_reads_back_up_to_the_deepest_level() {
    for levels in [1, 99, 127] {
        let result = mcp_tool_result_text(nested(levels));
        let text = result["content"][0]["text"].as_str().expect("a text");
        assert_eq!(parse_value(text).expect("a value"), nested(levels));
    }
    let result = mcp_tool_result_text(nested(128));
    let text = result["content"][0]["text"].as_str().expect("a text");
    assert!(matches!(parse_value(text), Err(GeocodeMcpError::Json(_))));
}

#[test]
fn text_that_is_no_json_is_an_error() {
    for s in ["", "not json", "{", "1 2"] {
        assert!(matches!(parse_value(s), Err(GeocodeMcpError::Json(_))), "on {s:?}");
    }
}

#[test]
fn results_are_wrapped_as_text() {
    let v = mcp_tool_result_text(json(r#"{"b": 1.0, "a": [null, "x"]}"#));
    let content = v["content"].as_array().expect("content");
    assert_eq!(content.len(), 1);
    assert_eq!(content[0]["type"], "text");
    assert_eq!(
        content[0]["text"],
        "{\n  \"a\": [\n    null,\n    \"x\"\n  ],\n  \"b\": 1.0\n}"
    );
    assert_eq!(v.as_object().expect("an object").len(), 1);
    let r = tool_result(Ok(Value::from(7))).expect("a result");
    assert_eq!(r["content"][0]["text"], "7");
    let e = tool_result(Err(GeocodeMcpError::Mcp(McpError::ToolNotFound("x".to_string()))));
    assert_eq!(e.unwrap_err().to_string(), "Tool not found: x");
}
