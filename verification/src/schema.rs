//! The JSON schemas of the arguments of the two tools.

use crate::json::{array, items, json, no_members, object, put, text, unsigned, Json, JsonNumber};
use vstd::prelude::*;

verus! {

/// What the argument `name` of `geocode` is.
pub const NAME_DESCRIPTION: &'static str =
    "Location name to search for. Supports city names, addresses, and points of interest. Examples: 'London', '1600 Pennsylvania Avenue', 'Eiffel Tower'.";

/// What the argument `count` of `geocode` is.
pub const COUNT_DESCRIPTION: &'static str =
    "Maximum number of results to return. Range: 1-10 (default: 5).";

/// What the argument `language` of either tool is.
pub const LANGUAGE_DESCRIPTION: &'static str =
    "Language for result names (ISO 639-1 code). Default: 'en'. Example: 'de', 'fr', 'es'.";

/// What the argument `latitude` of `reverse_geocode` is.
pub const LATITUDE_DESCRIPTION: &'static str =
    "Latitude in decimal degrees (e.g. 51.5074 for London).";

/// What the argument `longitude` of `reverse_geocode` is.
pub const LONGITUDE_DESCRIPTION: &'static str =
    "Longitude in decimal degrees (e.g. -0.1278 for London).";

/// The schema of an argument of the JSON type `kind`.
pub open spec fn property_of(kind: Seq<char>, description: Seq<char>) -> Json {
    Json::Object(map!["type"@ => Json::Text(kind), "description"@ => Json::Text(description)])
}

/// The schema of the argument `count`.
pub open spec fn count_property_json() -> Json {
    Json::Object(
        map![
            "type"@ => Json::Text("integer"@),
            "minimum"@ => Json::Number(JsonNumber::Unsigned(1)),
            "maximum"@ => Json::Number(JsonNumber::Unsigned(10)),
            "default"@ => Json::Number(JsonNumber::Unsigned(5)),
            "description"@ => Json::Text(COUNT_DESCRIPTION@),
        ],
    )
}

/// The schema of arguments with these properties, of which those named in `required` have to
/// be given.
pub open spec fn arguments_of(properties: Map<Seq<char>, Json>, required: Seq<Json>) -> Json {
    Json::Object(
        map![
            "type"@ => Json::Text("object"@),
            "properties"@ => Json::Object(properties),
            "required"@ => Json::Array(required),
        ],
    )
}

/// The schema of the arguments of `geocode`.
pub open spec fn geocode_schema_json() -> Json {
    arguments_of(
        map![
            "name"@ => property_of("string"@, NAME_DESCRIPTION@),
            "count"@ => count_property_json(),
            "language"@ => property_of("string"@, LANGUAGE_DESCRIPTION@),
        ],
        seq![Json::Text("name"@)],
    )
}

/// The schema of the arguments of `reverse_geocode`.
pub open spec fn reverse_geocode_schema_json() -> Json {
    arguments_of(
        map![
            "latitude"@ => property_of("number"@, LATITUDE_DESCRIPTION@),
            "longitude"@ => property_of("number"@, LONGITUDE_DESCRIPTION@),
            "language"@ => property_of("string"@, LANGUAGE_DESCRIPTION@),
        ],
        seq![Json::Text("latitude"@), Json::Text("longitude"@)],
    )
}

/// The schema of an argument of the JSON type `kind`.
fn property(kind: &str, description: &str) -> (v: serde_json::Value)
    ensures
        json(v) == property_of(kind@, description@),
{
    let mut m = no_members();
    put(&mut m, "type", text(kind));
    put(&mut m, "description", text(description));
    object(m)
}

/// The schema of the argument `count`.
fn count_property() -> (v: serde_json::Value)
    ensures
        json(v) == count_property_json(),
{
    let mut m = no_members();
    put(&mut m, "type", text("integer"));
    put(&mut m, "minimum", unsigned(1));
    put(&mut m, "maximum", unsigned(10));
    put(&mut m, "default", unsigned(5));
    put(&mut m, "description", text(COUNT_DESCRIPTION));
    object(m)
}

/// The schema of arguments with these properties, of which those named in `required` have to
/// be given.
fn arguments(
    properties: serde_json::Map<String, serde_json::Value>,
    required: Vec<serde_json::Value>,
) -> (v: serde_json::Value)
    ensures
        json(v) == arguments_of(crate::json::members(properties), items(required@)),
{
    let mut m = no_members();
    put(&mut m, "type", text("object"));
    put(&mut m, "properties", object(properties));
    put(&mut m, "required", array(required));
    object(m)
}

/// The schema of the arguments of `geocode`.
pub fn geocode_schema() -> (v: serde_json::Value)
    ensures
        json(v) == geocode_schema_json(),
{
    let mut properties = no_members();
    put(&mut properties, "name", property("string", NAME_DESCRIPTION));
    put(&mut properties, "count", count_property());
    put(&mut properties, "language", property("string", LANGUAGE_DESCRIPTION));
    let mut required: Vec<serde_json::Value> = Vec::new();
    required.push(text("name"));
    assert(items(required@) =~= seq![Json::Text("name"@)]);
    arguments(properties, required)
}

/// The schema of the arguments of `reverse_geocode`.
pub fn reverse_geocode_schema() -> (v: serde_json::Value)
    ensures
        json(v) == reverse_geocode_schema_json(),
{
    let mut properties = no_members();
    put(&mut properties, "latitude", property("number", LATITUDE_DESCRIPTION));
    put(&mut properties, "longitude", property("number", LONGITUDE_DESCRIPTION));
    put(&mut properties, "language", property("string", LANGUAGE_DESCRIPTION));
    let mut required: Vec<serde_json::Value> = Vec::new();
    required.push(text("latitude"));
    required.push(text("longitude"));
    assert(items(required@) =~= seq![Json::Text("latitude"@), Json::Text("longitude"@)]);
    arguments(properties, required)
}

} // verus!
