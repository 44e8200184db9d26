//! What holds of what the caller gets, of what is counted, and of what the server says of itself.

use crate::error::ErrorModel;
use crate::http::VERSION;
use crate::json::{Json, JsonNumber};
use crate::mcp::{CallError, ToolModel};
use crate::operations::photon::SubjectModel;
use crate::schema::{geocode_schema_json, reverse_geocode_schema_json};
use crate::service::{
    advertised, answers_error, failure_reason, is_invalid_params, tool_of, upstream_increment,
    IncrementModel, INSTRUCTIONS,
};
use crate::tools::{content_text, listed_tools, text_content};
use vstd::prelude::*;

verus! {

/// An error reads as its kind followed by its text, and one that wraps a cause reads as the cause
/// displays itself.
pub proof fn law_errors_read_as_their_kind(
    text: Seq<char>,
    http: reqwest::Error,
    other: serde_json::Error,
    io: std::io::Error,
    s: String,
)
    ensures
        ErrorModel::LocationNotFound(text).reads(s) <==> s@ == "Location not found: "@ + text,
        ErrorModel::ApiError(text).reads(s) <==> s@ == "API error: "@ + text,
        ErrorModel::InvalidParameters(text).reads(s) <==> s@ == "Invalid parameters: "@ + text,
        ErrorModel::ToolNotFound(text).reads(s) <==> s@ == "Tool not found: "@ + text,
        ErrorModel::InvalidToolParameters(text).reads(s) <==> s@ == "Invalid tool parameters: "@
            + text,
        ErrorModel::Http(http).reads(s) <==> vstd::string::to_string_from_display_ensures(&http, s),
        ErrorModel::Json(other).reads(s) <==> vstd::string::to_string_from_display_ensures(
            &other,
            s,
        ),
        ErrorModel::Io(io).reads(s) <==> vstd::string::to_string_from_display_ensures(&io, s),
{
}

/// The caller gets the text of the error: as one about the arguments for the two kinds that are
/// about them, and as one of the tool for every other.
pub proof fn law_callers_get_the_text_of_the_error(e: ErrorModel, s: String)
    ensures
        is_invalid_params(e) <==> (e matches ErrorModel::InvalidToolParameters(_)) || (
        e matches ErrorModel::InvalidParameters(_)),
        answers_error(CallError::InvalidParams(s), e) <==> e.reads(s) && (e is InvalidParameters
            || e is InvalidToolParameters),
        answers_error(CallError::Tool(s), e) <==> e.reads(s) && (e is LocationNotFound || e
            is ApiError || e is ToolNotFound || e is Http || e is Json || e is Io),
{
}

/// A failure of the API is counted as an HTTP error and a failed exchange as a network fault,
/// each under the tool that met it. Nothing else is counted, and no step says more.
pub proof fn law_steps_name_tool_and_reason(
    tool: Seq<char>,
    v: Json,
    text: Seq<char>,
    http: reqwest::Error,
    other: serde_json::Error,
    io: std::io::Error,
)
    ensures
        failure_reason(ErrorModel::ApiError(text)) == Some("http_error"@),
        failure_reason(ErrorModel::Http(http)) == Some("network"@),
        failure_reason(ErrorModel::LocationNotFound(text)) is None,
        failure_reason(ErrorModel::InvalidParameters(text)) is None,
        failure_reason(ErrorModel::ToolNotFound(text)) is None,
        failure_reason(ErrorModel::InvalidToolParameters(text)) is None,
        failure_reason(ErrorModel::Json(other)) is None,
        failure_reason(ErrorModel::Io(io)) is None,
        upstream_increment(tool, Err(ErrorModel::ApiError(text))) == Some(
            (IncrementModel {
                counter: "geocode.upstream_failures"@,
                labels: seq![("tool"@, tool), ("reason"@, "http_error"@)],
            }),
        ),
        upstream_increment(tool, Err(ErrorModel::Http(http))) == Some(
            (IncrementModel {
                counter: "geocode.upstream_failures"@,
                labels: seq![("tool"@, tool), ("reason"@, "network"@)],
            }),
        ),
        upstream_increment(tool, Ok(v)) is None,
        upstream_increment(tool, Err(ErrorModel::LocationNotFound(text))) is None,
        upstream_increment(tool, Err(ErrorModel::InvalidParameters(text))) is None,
        upstream_increment(tool, Err(ErrorModel::ToolNotFound(text))) is None,
        upstream_increment(tool, Err(ErrorModel::InvalidToolParameters(text))) is None,
        upstream_increment(tool, Err(ErrorModel::Json(other))) is None,
        upstream_increment(tool, Err(ErrorModel::Io(io))) is None,
{
}

/// A name is looked up by `geocode` and a point by `reverse_geocode`.
pub proof fn law_subjects_belong_to_their_tools(
    name: Seq<char>,
    count: u32,
    latitude: Seq<char>,
    longitude: Seq<char>,
)
    ensures
        tool_of(SubjectModel::Name(name, count)) == "geocode"@,
        tool_of(SubjectModel::Point(latitude, longitude)) == "reverse_geocode"@,
{
}

/// A tool result is an object with one block under `content`, of the type `text`, that holds the
/// text, and with nothing else in it or in its block.
pub proof fn law_tool_results_hold_one_text(t: Seq<char>)
    ensures
        content_text(text_content(t)) == Some(t),
        text_content(t) matches Json::Object(m) && {
            &&& m.contains_key("content"@)
            &&& forall|key: Seq<char>| #[trigger] m.contains_key(key) ==> key == "content"@
            &&& m["content"@] matches Json::Array(blocks)
            &&& blocks.len() == 1
            &&& blocks[0] matches Json::Object(block)
            &&& block.contains_key("type"@) && block["type"@] == Json::Text("text"@)
            &&& block.contains_key("text"@) && block["text"@] == Json::Text(t)
            &&& forall|key: Seq<char>| #[trigger]
                block.contains_key(key) ==> key == "type"@ || key == "text"@
        },
{
    reveal_strlit("type");
    reveal_strlit("text");
    assert("type"@[1] != "text"@[1]);
}

/// Whether `v` is the schema of an argument: its type and its description, and nothing else.
pub open spec fn describes(v: Json, kind: Seq<char>, description: Seq<char>) -> bool {
    v matches Json::Object(m) && {
        &&& m.contains_key("type"@) && m["type"@] == Json::Text(kind)
        &&& m.contains_key("description"@) && m["description"@] == Json::Text(description)
        &&& forall|key: Seq<char>| #[trigger]
            m.contains_key(key) ==> key == "type"@ || key == "description"@
    }
}

/// The names in a schema are all different.
proof fn lemma_schema_names_differ()
    ensures
        "type"@ != "description"@,
        "type"@ != "properties"@,
        "type"@ != "required"@,
        "properties"@ != "required"@,
        "name"@ != "count"@,
        "name"@ != "language"@,
        "count"@ != "language"@,
        "latitude"@ != "longitude"@,
        "latitude"@ != "language"@,
        "longitude"@ != "language"@,
        "type"@ != "minimum"@,
        "type"@ != "maximum"@,
        "type"@ != "default"@,
        "description"@ != "minimum"@,
        "description"@ != "maximum"@,
        "description"@ != "default"@,
        "minimum"@ != "maximum"@,
        "minimum"@ != "default"@,
        "maximum"@ != "default"@,
{
    reveal_strlit("type");
    reveal_strlit("description");
    reveal_strlit("properties");
    reveal_strlit("required");
    reveal_strlit("name");
    reveal_strlit("count");
    reveal_strlit("language");
    reveal_strlit("latitude");
    reveal_strlit("longitude");
    reveal_strlit("minimum");
    reveal_strlit("maximum");
    reveal_strlit("default");
    assert("type"@.len() == 4 && "name"@.len() == 4 && "count"@.len() == 5);
    assert("description"@.len() == 11 && "properties"@.len() == 10 && "required"@.len() == 8);
    assert("language"@.len() == 8 && "latitude"@.len() == 8 && "longitude"@.len() == 9);
    assert("minimum"@.len() == 7 && "maximum"@.len() == 7 && "default"@.len() == 7);
    assert("latitude"@[2] != "language"@[2]);
    assert("minimum"@[1] != "maximum"@[1]);
    assert("minimum"@[0] != "default"@[0]);
    assert("maximum"@[0] != "default"@[0]);
}

/// The schema of `geocode` describes a name, a count from one to ten that is five by default,
/// and a language, and requires the name alone.
pub proof fn law_geocode_schema_says_what_is_taken()
    ensures
        geocode_schema_json() matches Json::Object(s) && {
            &&& s.contains_key("type"@) && s["type"@] == Json::Text("object"@)
            &&& s.contains_key("required"@) && s["required"@] == Json::Array(
                seq![Json::Text("name"@)],
            )
            &&& forall|key: Seq<char>| #[trigger]
                s.contains_key(key) ==> key == "type"@ || key == "properties"@ || key
                    == "required"@
            &&& s.contains_key("properties"@)
            &&& s["properties"@] matches Json::Object(p)
            &&& forall|key: Seq<char>| #[trigger]
                p.contains_key(key) ==> key == "name"@ || key == "count"@ || key == "language"@
            &&& p.contains_key("name"@) && describes(
                p["name"@],
                "string"@,
                "Location name to search for. Supports city names, addresses, and points of interest. Examples: 'London', '1600 Pennsylvania Avenue', 'Eiffel Tower'."@,
            )
            &&& p.contains_key("language"@) && describes(
                p["language"@],
                "string"@,
                "Language for result names (ISO 639-1 code). Default: 'en'. Example: 'de', 'fr', 'es'."@,
            )
            &&& p.contains_key("count"@)
            &&& p["count"@] matches Json::Object(c)
            &&& forall|key: Seq<char>| #[trigger]
                c.contains_key(key) ==> key == "type"@ || key == "minimum"@ || key == "maximum"@
                    || key == "default"@ || key == "description"@
            &&& c.contains_key("type"@) && c["type"@] == Json::Text("integer"@)
            &&& c.contains_key("minimum"@) && c["minimum"@] == Json::Number(
                JsonNumber::Unsigned(1),
            )
            &&& c.contains_key("maximum"@) && c["maximum"@] == Json::Number(
                JsonNumber::Unsigned(10),
            )
            &&& c.contains_key("default"@) && c["default"@] == Json::Number(
                JsonNumber::Unsigned(5),
            )
            &&& c.contains_key("description"@) && c["description"@] == Json::Text(
                "Maximum number of results to return. Range: 1-10 (default: 5)."@,
            )
        },
{
    lemma_schema_names_differ();
}

/// The schema of `reverse_geocode` describes a latitude, a longitude and a language, and requires
/// the first two.
pub proof fn law_reverse_geocode_schema_says_what_is_taken()
    ensures
        reverse_geocode_schema_json() matches Json::Object(s) && {
            &&& s.contains_key("type"@) && s["type"@] == Json::Text("object"@)
            &&& s.contains_key("required"@) && s["required"@] == Json::Array(
                seq![Json::Text("latitude"@), Json::Text("longitude"@)],
            )
            &&& forall|key: Seq<char>| #[trigger]
                s.contains_key(key) ==> key == "type"@ || key == "properties"@ || key
                    == "required"@
            &&& s.contains_key("properties"@)
            &&& s["properties"@] matches Json::Object(p)
            &&& forall|key: Seq<char>| #[trigger]
                p.contains_key(key) ==> key == "latitude"@ || key == "longitude"@ || key
                    == "language"@
            &&& p.contains_key("latitude"@) && describes(
                p["latitude"@],
                "number"@,
                "Latitude in decimal degrees (e.g. 51.5074 for London)."@,
            )
            &&& p.contains_key("longitude"@) && describes(
                p["longitude"@],
                "number"@,
                "Longitude in decimal degrees (e.g. -0.1278 for London)."@,
            )
            &&& p.contains_key("language"@) && describes(
                p["language"@],
                "string"@,
                "Language for result names (ISO 639-1 code). Default: 'en'. Example: 'de', 'fr', 'es'."@,
            )
        },
{
    lemma_schema_names_differ();
}

/// The server advertises the two tools, each under its name, with what it does and with the
/// schema of its own arguments.
pub proof fn law_two_tools_are_advertised()
    ensures
        advertised() == seq![
            ToolModel {
                name: "geocode"@,
                description: "Resolve a location name to geographic coordinates (latitude and longitude) using the Photon geocoding API (powered by OpenStreetMap). Returns up to 'count' matching locations with their coordinates, country, country code, region, and place type. Supports cities, addresses, and points of interest."@,
                input_schema: geocode_schema_json(),
            },
            ToolModel {
                name: "reverse_geocode"@,
                description: "Resolve geographic coordinates (latitude and longitude) into the nearest place: its name, country, country code, region, and place type. Use this to identify what is located at a GPS point or to turn a lat/long fix into a human-readable place name. Powered by the Photon reverse geocoding API (OpenStreetMap)."@,
                input_schema: reverse_geocode_schema_json(),
            },
        ],
{
}

/// Whether `v` lists a tool: its name, what it does and its schema, and nothing else.
pub open spec fn lists(v: Json, name: Seq<char>, description: Seq<char>, schema: Json) -> bool {
    v matches Json::Object(m) && {
        &&& m.contains_key("name"@) && m["name"@] == Json::Text(name)
        &&& m.contains_key("description"@) && m["description"@] == Json::Text(description)
        &&& m.contains_key("inputSchema"@) && m["inputSchema"@] == schema
        &&& forall|key: Seq<char>| #[trigger]
            m.contains_key(key) ==> key == "name"@ || key == "description"@ || key
                == "inputSchema"@
    }
}

/// The registry lists the two tools, each under its name, with what it does and with the schema
/// of its own arguments.
pub proof fn law_two_tools_are_listed()
    ensures
        listed_tools() matches Json::Array(tools) && {
            &&& tools.len() == 2
            &&& lists(tools[0], "geocode"@, advertised()[0].description, geocode_schema_json())
            &&& lists(
                tools[1],
                "reverse_geocode"@,
                "Resolve geographic coordinates (latitude and longitude) to a location name and address using the Photon reverse geocoding API (powered by OpenStreetMap). Returns the nearest matching location with its name, country, region, and place type."@,
                reverse_geocode_schema_json(),
            )
        },
{
    reveal_strlit("name");
    reveal_strlit("description");
    reveal_strlit("inputSchema");
    assert("name"@.len() == 4 && "description"@.len() == 11 && "inputSchema"@.len() == 11);
    assert("description"@[0] != "inputSchema"@[0]);
}

/// The server tells its version, and a model what it is for and which tool to reach for.
pub proof fn law_server_says_what_it_is_for()
    ensures
        VERSION@ == "0.1.0"@,
        INSTRUCTIONS@
            == "Convert between place names and geographic coordinates. Reach for this whenever you need the latitude and longitude of a city, street address, landmark, or point of interest (use `geocode`), or need to turn a lat/long pair back into a human-readable place name, country, and region (use `reverse_geocode`) -- for example to supply coordinates to a weather, mapping, or distance lookup, or to identify where a GPS fix is located. Backed by the Photon API (OpenStreetMap) with global coverage and no API key or configuration required; every result is structured (coordinates, country, country code, region, and place type)."@,
{
}

} // verus!
