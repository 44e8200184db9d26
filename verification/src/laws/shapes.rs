//! What holds of the models: that they show what they are models of, and leave nothing out.

use crate::arguments::started;
use crate::error::{ErrorModel, GeocodeError, GeocodeMcpError, McpError};
use crate::http::pairs;
use crate::json::{
    double_member, double_text, items, json, optional_text, text_member, Json,
};
use crate::mcp::{tools_of, CallError, CallErrorModel, ToolDef};
use crate::operations::photon::{outcome_of, Lookup, LookupModel, Subject, SubjectModel};
use crate::service::{called, increment_of, Increment};
use crate::text::{string_of, text_of};
use crate::tools::executed;
use vstd::prelude::*;
use vstd::std_specs::convert::FromSpec;

verus! {

/// Two subjects look the same exactly when they say the same: neither the kind nor any character
/// nor the count is lost.
pub proof fn law_subjects_are_told_apart(
    name: String,
    count: u32,
    latitude: String,
    longitude: String,
)
    ensures
        Subject::Name(name, count)@ == SubjectModel::Name(name@, count),
        Subject::Point(latitude, longitude)@ == SubjectModel::Point(latitude@, longitude@),
{
}

/// A lookup shows its subject and its request.
pub proof fn law_lookups_show_their_parts(l: Lookup)
    ensures
        l@.subject == l.subject@,
        l@.request == l.request,
{
}

/// What starting a lookup came to shows the lookup that was started, or the text of what was
/// wrong, whichever way it was started.
pub proof fn law_starts_show_their_parts(l: Lookup, text: String, c: CallError, e: GeocodeMcpError)
    ensures
        started(Ok(l)) == Ok::<LookupModel, Seq<char>>(l@),
        started(Err(text)) == Err::<LookupModel, Seq<char>>(text@),
        called(Ok(l)) == Ok::<LookupModel, CallErrorModel>(l@),
        called(Err(c)) == Err::<LookupModel, CallErrorModel>(c@),
        executed(Ok(l)) == Ok::<LookupModel, ErrorModel>(l@),
        executed(Err(e)) == Err::<LookupModel, ErrorModel>(e@),
{
}

/// The outcome of a lookup shows the JSON of its result, or its error.
pub proof fn law_outcomes_show_their_parts(v: serde_json::Value, e: GeocodeMcpError)
    ensures
        outcome_of(Ok(v)) == Ok::<Json, ErrorModel>(json(v)),
        outcome_of(Err(e)) == Err::<Json, ErrorModel>(e@),
{
}

/// An error shows its kind and its text, or its kind and its cause.
pub proof fn law_errors_show_their_parts(
    text: String,
    http: reqwest::Error,
    other: serde_json::Error,
    io: std::io::Error,
)
    ensures
        GeocodeError::LocationNotFound(text)@ == ErrorModel::LocationNotFound(text@),
        GeocodeError::ApiError(text)@ == ErrorModel::ApiError(text@),
        GeocodeError::InvalidParameters(text)@ == ErrorModel::InvalidParameters(text@),
        McpError::ToolNotFound(text)@ == ErrorModel::ToolNotFound(text@),
        McpError::InvalidToolParameters(text)@ == ErrorModel::InvalidToolParameters(text@),
        GeocodeMcpError::Http(http)@ == ErrorModel::Http(http),
        GeocodeMcpError::Json(other)@ == ErrorModel::Json(other),
        GeocodeMcpError::Io(io)@ == ErrorModel::Io(io),
        CallError::InvalidParams(text)@ == CallErrorModel::InvalidParams(text@),
        CallError::Tool(text)@ == CallErrorModel::Tool(text@),
{
}

/// Wrapping an error in the top-level error changes neither its kind nor what it says.
pub proof fn law_wrapped_errors_stay_the_same(
    g: GeocodeError,
    m: McpError,
    http: reqwest::Error,
    other: serde_json::Error,
    io: std::io::Error,
)
    ensures
        GeocodeMcpError::Geocode(g)@ == g@,
        GeocodeMcpError::Mcp(m)@ == m@,
        <GeocodeMcpError as FromSpec<GeocodeError>>::from_spec(g)@ == g@,
        <GeocodeMcpError as FromSpec<McpError>>::from_spec(m)@ == m@,
        <GeocodeMcpError as FromSpec<reqwest::Error>>::from_spec(http)@ == ErrorModel::Http(http),
        <GeocodeMcpError as FromSpec<serde_json::Error>>::from_spec(other)@ == ErrorModel::Json(
            other,
        ),
        <GeocodeMcpError as FromSpec<std::io::Error>>::from_spec(io)@ == ErrorModel::Io(io),
{
}

/// A tool shows its name, its description and its schema, and a row of tools shows each of them
/// in its place.
pub proof fn law_tools_show_their_parts(tools: Seq<ToolDef>, i: int)
    requires
        0 <= i < tools.len(),
    ensures
        tools_of(tools).len() == tools.len(),
        tools_of(tools)[i].name == tools[i].name@,
        tools_of(tools)[i].description == tools[i].description@,
        tools_of(tools)[i].input_schema == json(tools[i].input_schema),
{
}

/// A step of a counter shows the counter and each of its labels in its place.
pub proof fn law_steps_show_their_parts(step: Increment, i: int)
    requires
        0 <= i < step.labels@.len(),
    ensures
        increment_of(None) is None,
        increment_of(Some(step)) matches Some(m) && {
            &&& m.counter == step.counter@
            &&& m.labels.len() == step.labels@.len()
            &&& m.labels[i].0 == step.labels@[i].0@
            &&& m.labels[i].1 == step.labels@[i].1@
        },
{
}

/// A row of query pairs, or of values, shows each of them in its place.
pub proof fn law_rows_show_their_parts(
    query: Seq<(String, String)>,
    values: Seq<serde_json::Value>,
    i: int,
)
    ensures
        pairs(query).len() == query.len(),
        items(values).len() == values.len(),
        0 <= i < query.len() ==> pairs(query)[i].0 == query[i].0@ && pairs(query)[i].1
            == query[i].1@,
        0 <= i < values.len() ==> items(values)[i] == json(values[i]),
{
}

/// An optional text is its text, or nothing; as JSON it is a string, or `null`.
pub proof fn law_optional_texts_are_kept(s: String, t: &str)
    ensures
        string_of(Some(s)) == Some(s@),
        string_of(None) is None,
        text_of(Some(t)) == Some(t@),
        text_of(None) is None,
        optional_text(Some(s@)) == Json::Text(s@),
        optional_text(None) == Json::Null,
{
}

/// An argument is read from the member of its own name, as a text where that is a string and as
/// a number where that is a number, and otherwise it is not there.
pub proof fn law_arguments_are_read_by_name(m: Map<Seq<char>, Json>, key: Seq<char>)
    ensures
        m.contains_key(key) && m[key] is Text ==> text_member(Json::Object(m), key) == Some(
            m[key]->Text_0,
        ),
        m.contains_key(key) && m[key] is Number ==> double_member(Json::Object(m), key) == Some(
            double_text(m[key]->Number_0),
        ),
        !(m.contains_key(key) && m[key] is Text) ==> text_member(Json::Object(m), key) is None,
        !(m.contains_key(key) && m[key] is Number) ==> double_member(Json::Object(m), key) is None,
{
}

/// What is not an object has no arguments.
pub proof fn law_only_objects_have_arguments(v: Json, key: Seq<char>)
    requires
        !(v is Object),
    ensures
        text_member(v, key) is None,
        double_member(v, key) is None,
{
}

} // verus!
