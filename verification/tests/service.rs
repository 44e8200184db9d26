use geocode_mcp::error::{GeocodeError, GeocodeMcpError, McpError};
use geocode_mcp::mcp::CallError;
use geocode_mcp::operations::photon::{
    answered, Lookup, PhotonFeature, PhotonGeometry, PhotonProperties, PhotonResponse, Subject,
};
use geocode_mcp::service::{
    domain_err_to_call_error, finished, record_upstream_failure, upstream_failure_reason, Increment,
};
use geocode_mcp::tools::ToolRegistry;
use geocode_mcp::{build_service, server_config, GeocodeService};
use serde_json::Value;

fn service() -> GeocodeService {
    GeocodeService::new().expect("reqwest client")
}

fn mock_service() -> GeocodeService {
    GeocodeService::with_base_urls(
        "http://127.0.0.1:9/api/".to_string(),
        "http://127.0.0.1:9/reverse".to_string(),
    )
    .expect("reqwest client")
}

fn json(text: &str) -> Value {
    serde_json::from_str(text).expect("valid JSON")
}

/// Look up a tool's description by name from the live service definition.
fn tool_description(name: &str) -> String {
    service()
        .tools()
        .into_iter()
        .find(|t| t.name == name)
        .unwrap_or_else(|| panic!("tool '{name}' not found in tools()"))
        .description
}

/// A `reqwest::Error` built from a URL that fails to parse, without any network access.
fn synthetic_reqwest_error() -> reqwest::Error {
    reqwest::Client::new()
        .get("not a valid url")
        .build()
        .expect_err("a malformed url must fail to build, with no network access")
}

fn url_of(lookup: Lookup) -> String {
    lookup.request.expect("a request").url().as_str().to_string()
}

fn expect_err_contains(res: Result<Lookup, CallError>, needle: &str) {
    match res {
        Ok(v) => panic!("expected error containing '{needle}', but call succeeded: {v:?}"),
        Err(CallError::InvalidParams(e)) | Err(CallError::Tool(e)) => {
            let lower = e.to_lowercase();
            assert!(
                lower.contains(&needle.to_lowercase()),
                "expected error containing '{needle}', got: {e}"
            );
        }
    }
}

#[test]
fn build_service_exposes_tools() {
    let svc = build_service().expect("reqwest client");
    assert!(
        !svc.tools().is_empty(),
        "geocode build_service() must expose at least one tool"
    );
}

/// The server must advertise a non-empty, model-facing `instructions` blurb.
#[test]
fn server_config_sets_non_empty_instructions() {
    let instructions = server_config()
        .instructions
        .expect("server_config() must set instructions");
    assert!(
        !instructions.trim().is_empty(),
        "instructions must not be empty or whitespace-only"
    );
}

/// The instructions must name both tools and the core concepts a model would search on.
#[test]
fn instructions_name_both_tools_and_core_concepts() {
    let instructions = server_config()
        .instructions
        .expect("server_config() must set instructions")
        .to_lowercase();
    for needle in ["geocode", "reverse_geocode", "coordinates", "latitude"] {
        assert!(
            instructions.contains(needle),
            "instructions should mention '{needle}', got: {instructions}"
        );
    }
}

/// `reverse_geocode` must describe itself in natural terms and must not claim to return a full
/// street address.
#[test]
fn reverse_geocode_description_is_natural_and_honest() {
    let desc = tool_description("reverse_geocode").to_lowercase();
    for needle in ["coordinates", "latitude", "place", "gps"] {
        assert!(
            desc.contains(needle),
            "reverse_geocode description should mention '{needle}', got: {desc}"
        );
    }
    assert!(
        !desc.contains("address"),
        "reverse_geocode must not over-claim returning an 'address': {desc}"
    );
}

#[test]
fn server_config_names_the_server() {
    let config = server_config();
    assert_eq!(config.name, "geocode-mcp");
    assert_eq!(config.version, "0.1.0");
    assert!(!config.websocket);
    assert!(config
        .instructions
        .expect("instructions")
        .starts_with("Convert between place names and geographic coordinates. Reach for this whenever"));
}

#[test]
fn upstream_failure_reason_counts_http_error_and_network_faults() {
    assert_eq!(
        upstream_failure_reason(&GeocodeMcpError::Geocode(GeocodeError::ApiError("x".into()))),
        Some("http_error")
    );
    assert_eq!(
        upstream_failure_reason(&GeocodeMcpError::Http(synthetic_reqwest_error())),
        Some("network")
    );
}

/// A "no results" answer and bad caller input are declines, not a fault reaching outward.
#[test]
fn upstream_failure_reason_excludes_declines_and_caller_errors() {
    assert_eq!(
        upstream_failure_reason(&GeocodeMcpError::Geocode(GeocodeError::LocationNotFound(
            "x".into()
        ))),
        None
    );
    assert_eq!(
        upstream_failure_reason(&GeocodeMcpError::Geocode(GeocodeError::InvalidParameters(
            "x".into()
        ))),
        None
    );
    assert_eq!(
        upstream_failure_reason(&GeocodeMcpError::Mcp(McpError::InvalidToolParameters(
            "x".into()
        ))),
        None
    );
    let json_err = serde_json::from_str::<Value>("not json").unwrap_err();
    assert_eq!(
        upstream_failure_reason(&GeocodeMcpError::Json(json_err)),
        None
    );
    assert_eq!(
        upstream_failure_reason(&GeocodeMcpError::Io(std::io::Error::other("x"))),
        None
    );
}

/// Adds a step to a counter that stands at `total`.
fn counted(total: u64, step: Option<Increment>, labels: &[(&str, &str)]) -> u64 {
    match step {
        Some(i) if i.counter == "geocode.upstream_failures" && i.labels == labels => total + 1,
        Some(i) => panic!("an unexpected counter or label: {i:?}"),
        None => total,
    }
}

#[test]
fn record_upstream_failure_increments_only_for_counted_reasons() {
    let labels = [("tool", "geocode"), ("reason", "http_error")];
    let before = 0;
    let mut total = before;

    let ok: Result<Value, GeocodeMcpError> = Ok(Value::Array(Vec::new()));
    total = counted(total, record_upstream_failure("geocode", &ok), &labels);
    let not_found: Result<Value, GeocodeMcpError> = Err(GeocodeMcpError::Geocode(
        GeocodeError::LocationNotFound("x".into()),
    ));
    total = counted(total, record_upstream_failure("geocode", &not_found), &labels);
    assert_eq!(
        total, before,
        "a successful call or a 'no results' answer must not move the counter"
    );

    let http_failed: Result<Value, GeocodeMcpError> =
        Err(GeocodeMcpError::Geocode(GeocodeError::ApiError("x".into())));
    total = counted(total, record_upstream_failure("geocode", &http_failed), &labels);
    assert_eq!(
        total,
        before + 1,
        "an upstream HTTP error must increment the counter, labelled by tool and reason"
    );
}

/// `tools` must return the expected set of tool names.
#[test]
fn test_tools_list_contains_expected_tools() {
    let tools = service().tools();
    let names: Vec<&str> = tools.iter().map(|t| t.name.as_str()).collect();
    let expected = ["geocode", "reverse_geocode"];
    for expected_name in &expected {
        assert!(
            names.contains(expected_name),
            "tool '{}' missing from tools/list. Got: {:?}",
            expected_name,
            names
        );
    }
}

/// An unknown tool name must return an error of the tool, not one about the arguments.
#[test]
fn test_unknown_tool_returns_is_error() {
    let result = service().call_tool("nonexistent_tool", &json("{}"));
    assert!(matches!(&result, Err(CallError::Tool(s)) if s == "tool not found: nonexistent_tool"));
    expect_err_contains(result, "not found");
}

/// `geocode` must reject a missing name.
#[test]
fn test_geocode_missing_name() {
    let result = service().call_tool("geocode", &json(r#"{"count": 3}"#));
    assert!(matches!(&result, Err(CallError::InvalidParams(_))));
    expect_err_contains(result, "name");
}

/// `geocode` must reject an empty name.
#[test]
fn test_geocode_empty_name_rejected() {
    let result = service().call_tool("geocode", &json(r#"{"name": ""}"#));
    assert!(matches!(&result, Err(CallError::InvalidParams(_))));
    expect_err_contains(result, "empty");
}

/// `geocode` must reject a whitespace-only name.
#[test]
fn test_geocode_whitespace_name_rejected() {
    let result = service().call_tool("geocode", &json(r#"{"name": "   "}"#));
    assert!(matches!(&result, Err(CallError::InvalidParams(_))));
    expect_err_contains(result, "empty");
}

/// `reverse_geocode` must reject missing latitude.
#[test]
fn test_reverse_geocode_missing_latitude() {
    let result = service().call_tool("reverse_geocode", &json(r#"{"longitude": -0.1278}"#));
    assert!(matches!(&result, Err(CallError::InvalidParams(_))));
    expect_err_contains(result, "latitude");
}

/// `reverse_geocode` must reject missing longitude.
#[test]
fn test_reverse_geocode_missing_longitude() {
    let result = service().call_tool("reverse_geocode", &json(r#"{"latitude": 51.5074}"#));
    assert!(matches!(&result, Err(CallError::InvalidParams(_))));
    expect_err_contains(result, "longitude");
}

const SENTINEL_ADDRESS: &str = "MARKER-9f3d1c2a-sentinel-address";

/// One probe per advertised tool: its name and arguments that it accepts.
fn tool_probes() -> Vec<(&'static str, Value)> {
    vec![
        (
            "geocode",
            json(&format!("{{\"name\": \"{SENTINEL_ADDRESS}\", \"count\": 1}}")),
        ),
        (
            "reverse_geocode",
            json(r#"{"latitude": 12.345678, "longitude": -98.765432}"#),
        ),
    ]
}

#[test]
fn tool_probe_table_covers_every_advertised_tool() {
    let advertised: Vec<String> = service().tools().into_iter().map(|t| t.name).collect();
    let probed: Vec<&str> = tool_probes().iter().map(|p| p.0).collect();
    for name in &advertised {
        assert!(
            probed.contains(&name.as_str()),
            "tool {name:?} is advertised by tools() but has no entry in tool_probes()"
        );
    }
    for name in &probed {
        assert!(
            advertised.iter().any(|a| a == name),
            "tool_probes() lists {name:?}, which tools() does not advertise"
        );
    }
}

#[test]
fn probed_calls_start_the_lookup_of_their_tool() {
    for (tool, arguments) in tool_probes() {
        let lookup = mock_service()
            .call_tool(tool, &arguments)
            .expect("an accepted call");
        assert_eq!(lookup.subject.tool(), tool);
    }
}

#[test]
fn probed_calls_count_faults_and_not_declines() {
    for (tool, arguments) in tool_probes() {
        let labels = [("tool", tool), ("reason", "http_error")];
        let mut total = 0;

        let lookup = mock_service().call_tool(tool, &arguments).expect("a lookup");
        let pending = answered(lookup.subject, Ok(200)).expect("a body to read");
        let outcome = pending.decoded(Ok(PhotonResponse { features: Vec::new() }));
        let call = finished(tool, outcome);
        total = counted(total, call.failure, &labels);
        assert_eq!(total, 0, "a 'no results' decline must not be counted for {tool:?}");
        assert!(matches!(call.reply, Err(CallError::Tool(s)) if s.starts_with("Location not found: ")));

        let lookup = mock_service().call_tool(tool, &arguments).expect("a lookup");
        let outcome = answered(lookup.subject, Ok(429)).map(|_| Value::Null);
        let call = finished(tool, outcome);
        total = counted(total, call.failure, &labels);
        assert_eq!(total, 1, "an upstream HTTP error must be counted for {tool:?}");
        assert!(matches!(call.reply, Err(CallError::Tool(s)) if s.ends_with("HTTP 429")));
    }
}

#[test]
fn geocode_call_builds_the_request() {
    let args = json(r#"{"name": "New York", "count": 3, "language": "de"}"#);
    let lookup = mock_service().call_tool("geocode", &args).expect("a lookup");
    assert!(matches!(&lookup.subject, Subject::Name(n, 3) if n == "New York"));
    let request = lookup.request.expect("a request");
    assert_eq!(request.method().as_str(), "GET");
    assert_eq!(
        request.url().as_str(),
        "http://127.0.0.1:9/api/?q=New+York&limit=3&lang=de"
    );
    assert_eq!(
        request.headers().get("User-Agent").expect("a user agent"),
        "geocode-mcp/0.1.0"
    );
}

#[test]
fn reverse_geocode_call_builds_the_request() {
    let args = json(r#"{"latitude": 51, "longitude": -0.1278}"#);
    let lookup = mock_service()
        .call_tool("reverse_geocode", &args)
        .expect("a lookup");
    assert!(matches!(&lookup.subject, Subject::Point(a, b) if a == "51" && b == "-0.1278"));
    assert_eq!(
        url_of(lookup),
        "http://127.0.0.1:9/reverse?lat=51&lon=-0.1278&lang=en"
    );
}

#[test]
fn default_service_asks_the_public_api() {
    let service = service();
    let lookup = service
        .call_tool("geocode", &json(r#"{"name": "London"}"#))
        .expect("a lookup");
    assert_eq!(
        url_of(lookup),
        "https://photon.komoot.io/api/?q=London&limit=5&lang=en"
    );
    let lookup = service
        .call_tool("reverse_geocode", &json(r#"{"latitude": 1.5, "longitude": 2}"#))
        .expect("a lookup");
    assert_eq!(
        url_of(lookup),
        "https://photon.komoot.io/reverse?lat=1.5&lon=2&lang=en"
    );
}

#[test]
fn address_that_is_no_url_leaves_no_request() {
    let service = GeocodeService::with_base_urls("no url".to_string(), "no url".to_string())
        .expect("reqwest client");
    let lookup = service
        .call_tool("geocode", &json(r#"{"name": "London"}"#))
        .expect("a lookup");
    assert!(lookup.request.is_err());
}

#[test]
fn service_stands_or_falls_with_its_client() {
    let url = || "http://127.0.0.1:9/".to_string();
    let service = GeocodeService::from_built(Ok(reqwest::Client::new()), url(), url());
    assert_eq!(service.expect("a service").tools().len(), 2);
    let failed = GeocodeService::from_built(Err(synthetic_reqwest_error()), url(), url());
    assert_eq!(
        failed.unwrap_err().to_string(),
        synthetic_reqwest_error().to_string()
    );
}

#[test]
fn registry_stands_or_falls_with_its_client() {
    let registry = ToolRegistry::from_built(Ok(reqwest::Client::new()));
    assert!(registry.expect("a registry").list_tools().is_array());
    let failed = ToolRegistry::from_built(Err(synthetic_reqwest_error()));
    assert_eq!(
        failed.unwrap_err().to_string(),
        synthetic_reqwest_error().to_string()
    );
}

#[test]
fn arguments_that_are_no_object_lack_everything() {
    let result = service().call_tool("geocode", &json("[\"name\"]"));
    assert!(
        matches!(&result, Err(CallError::InvalidParams(s)) if s == "Missing required parameter: name")
    );
    let result = service().call_tool("reverse_geocode", &Value::Null);
    assert!(
        matches!(&result, Err(CallError::InvalidParams(s)) if s == "Missing required parameter: latitude")
    );
}

#[test]
fn arguments_of_the_wrong_type_are_missing() {
    let result = service().call_tool("geocode", &json(r#"{"name": 7}"#));
    assert!(matches!(&result, Err(CallError::InvalidParams(_))));
    let result = service().call_tool(
        "reverse_geocode",
        &json(r#"{"latitude": "51.5", "longitude": 1}"#),
    );
    assert!(
        matches!(&result, Err(CallError::InvalidParams(s)) if s == "Missing required parameter: latitude")
    );
}

#[test]
fn advertised_schemas_are_the_documented_ones() {
    let tools = service().tools();
    assert_eq!(
        tools[0].input_schema,
        json(
            r#"{
                "type": "object",
                "properties": {
                    "name": {
                        "type": "string",
                        "description": "Location name to search for. Supports city names, addresses, and points of interest. Examples: 'London', '1600 Pennsylvania Avenue', 'Eiffel Tower'."
                    },
                    "count": {
                        "type": "integer",
                        "minimum": 1,
                        "maximum": 10,
                        "default": 5,
                        "description": "Maximum number of results to return. Range: 1-10 (default: 5)."
                    },
                    "language": {
                        "type": "string",
                        "description": "Language for result names (ISO 639-1 code). Default: 'en'. Example: 'de', 'fr', 'es'."
                    }
                },
                "required": ["name"]
            }"#
        )
    );
    assert_eq!(
        tools[1].input_schema,
        json(
            r#"{
                "type": "object",
                "properties": {
                    "latitude": {
                        "type": "number",
                        "description": "Latitude in decimal degrees (e.g. 51.5074 for London)."
                    },
                    "longitude": {
                        "type": "number",
                        "description": "Longitude in decimal degrees (e.g. -0.1278 for London)."
                    },
                    "language": {
                        "type": "string",
                        "description": "Language for result names (ISO 639-1 code). Default: 'en'. Example: 'de', 'fr', 'es'."
                    }
                },
                "required": ["latitude", "longitude"]
            }"#
        )
    );
    assert!(tools[0]
        .description
        .contains("(latitude and longitude) using the Photon geocoding API"));
}

#[test]
fn errors_about_parameters_blame_the_caller() {
    let c = domain_err_to_call_error(GeocodeMcpError::Mcp(McpError::InvalidToolParameters(
        "x".into(),
    )));
    assert!(matches!(c, CallError::InvalidParams(s) if s == "Invalid tool parameters: x"));
    let c = domain_err_to_call_error(GeocodeMcpError::Geocode(GeocodeError::InvalidParameters(
        "x".into(),
    )));
    assert!(matches!(c, CallError::InvalidParams(s) if s == "Invalid parameters: x"));
}

#[test]
fn other_errors_are_those_of_the_tool() {
    let c = domain_err_to_call_error(GeocodeMcpError::Geocode(GeocodeError::LocationNotFound(
        "x".into(),
    )));
    assert!(matches!(c, CallError::Tool(s) if s == "Location not found: x"));
    let c = domain_err_to_call_error(GeocodeMcpError::Geocode(GeocodeError::ApiError("x".into())));
    assert!(matches!(c, CallError::Tool(s) if s == "API error: x"));
    let c = domain_err_to_call_error(GeocodeMcpError::Mcp(McpError::ToolNotFound("x".into())));
    assert!(matches!(c, CallError::Tool(s) if s == "Tool not found: x"));
    let c = domain_err_to_call_error(GeocodeMcpError::Http(synthetic_reqwest_error()));
    assert!(matches!(c, CallError::Tool(s) if s == synthetic_reqwest_error().to_string()));
    let c = domain_err_to_call_error(GeocodeMcpError::Io(std::io::Error::other("broken pipe")));
    assert!(matches!(c, CallError::Tool(s) if s == "broken pipe"));
    let json_err = serde_json::from_str::<Value>("not json").unwrap_err();
    let text = json_err.to_string();
    let c = domain_err_to_call_error(GeocodeMcpError::Json(json_err));
    assert!(matches!(c, CallError::Tool(s) if s == text));
}

#[test]
fn errors_convert_into_the_top_level_error() {
    let e: GeocodeMcpError = GeocodeError::ApiError("x".into()).into();
    assert!(matches!(e, GeocodeMcpError::Geocode(GeocodeError::ApiError(_))));
    let e: GeocodeMcpError = McpError::ToolNotFound("x".into()).into();
    assert!(matches!(e, GeocodeMcpError::Mcp(McpError::ToolNotFound(_))));
    let e: GeocodeMcpError = synthetic_reqwest_error().into();
    assert!(matches!(e, GeocodeMcpError::Http(_)));
    let e: GeocodeMcpError = std::io::Error::other("x").into();
    assert!(matches!(e, GeocodeMcpError::Io(_)));
    let e: GeocodeMcpError = serde_json::from_str::<Value>("not json").unwrap_err().into();
    assert!(matches!(e, GeocodeMcpError::Json(_)));
}

/// A feature with a position.
fn feature(name: &str) -> PhotonFeature {
    PhotonFeature {
        properties: PhotonProperties {
            name: Some(name.to_string()),
            country: None,
            countrycode: None,
            state: None,
            place_type: None,
        },
        geometry: PhotonGeometry {
            coordinates: vec![Value::from(1.5), Value::from(2.5)],
        },
    }
}

#[test]
fn reply_holds_no_more_locations_than_asked_for() {
    for (arguments, expected) in [
        (r#"{"name": "London", "count": 1}"#, 1),
        (r#"{"name": "London", "count": 0}"#, 1),
        (r#"{"name": "London", "count": "2"}"#, 2),
        (r#"{"name": "London"}"#, 5),
        (r#"{"name": "London", "count": 10}"#, 10),
        (r#"{"name": "London", "count": 50}"#, 10),
    ] {
        let lookup = mock_service()
            .call_geocode(&json(arguments))
            .expect("a lookup");
        let pending = answered(lookup.subject, Ok(200)).expect("a body to read");
        let features = (0..12).map(|i| feature(&i.to_string())).collect();
        let outcome = pending.decoded(Ok(PhotonResponse { features }));
        let reply = finished("geocode", outcome).reply.expect("locations");
        let found = reply.as_array().expect("an array");
        assert_eq!(found.len(), expected, "on {arguments}");
        for (i, location) in found.iter().enumerate() {
            assert_eq!(location["name"], i.to_string());
        }
    }
}

#[test]
fn reply_holds_fewer_locations_where_fewer_match() {
    let lookup = mock_service()
        .call_geocode(&json(r#"{"name": "London", "count": 3}"#))
        .expect("a lookup");
    let pending = answered(lookup.subject, Ok(200)).expect("a body to read");
    let features = vec![feature("a"), feature("b")];
    let reply = pending.decoded(Ok(PhotonResponse { features })).expect("locations");
    assert_eq!(reply.as_array().expect("an array").len(), 2);
}

#[test]
fn address_that_is_no_url_is_named_in_the_error() {
    let service = GeocodeService::with_base_urls("no url".to_string(), "no url".to_string())
        .expect("reqwest client");
    let lookup = service
        .call_tool("geocode", &json(r#"{"name": "London"}"#))
        .expect("a lookup");
    let expected = reqwest::Client::new().get("no url").build().unwrap_err();
    assert_eq!(
        format!("{:?}", lookup.request.unwrap_err()),
        format!("{expected:?}")
    );
}

#[test]
fn finished_call_passes_a_result_on() {
    let f = finished("geocode", Ok(Value::from(7)));
    assert!(f.failure.is_none());
    assert_eq!(f.reply.expect("a result"), Value::from(7));
}

#[test]
fn finished_call_counts_a_network_fault() {
    let f = finished(
        "reverse_geocode",
        Err(GeocodeMcpError::Http(synthetic_reqwest_error())),
    );
    let step = f.failure.expect("a step");
    assert_eq!(step.counter, "geocode.upstream_failures");
    assert_eq!(
        step.labels,
        vec![("tool", "reverse_geocode"), ("reason", "network")]
    );
    assert!(matches!(f.reply, Err(CallError::Tool(_))));
}

#[test]
fn counted_labels_hold_nothing_of_the_name() {
    let f = finished(
        "geocode",
        Err(GeocodeMcpError::Geocode(GeocodeError::ApiError(
            SENTINEL_ADDRESS.to_string(),
        ))),
    );
    for (key, value) in f.failure.expect("a step").labels {
        assert!(!key.contains(SENTINEL_ADDRESS));
        assert!(!value.contains(SENTINEL_ADDRESS));
    }
}
