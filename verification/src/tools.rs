//! A registry of the two tools that answers with plain JSON.

use crate::arguments::{
    geocode_call, reverse_geocode_call, start_geocode, start_reverse_geocode,
};
use crate::error::{ErrorModel, GeocodeMcpError, McpError};
use crate::http::{client_limits, CONNECT_TIMEOUT_SECS, REQUEST_TIMEOUT_SECS};
use crate::json::{
    array, is_exact, items, json, member, no_members, object, parsed_text, pretty_text, put,
    string, text, text_member, to_string_pretty, Json, MAX_LEVELS,
};
use crate::operations::geocode::PHOTON_API_URL;
use crate::operations::photon::{Lookup, LookupModel};
use crate::operations::reverse_geocode::PHOTON_REVERSE_URL;
use crate::schema::{
    geocode_schema, geocode_schema_json, reverse_geocode_schema, reverse_geocode_schema_json,
};
use crate::service::GEOCODE_DESCRIPTION;
use crate::text::same_text;
use vstd::prelude::*;

verus! {

/// What the registry says of `reverse_geocode`.
pub const REVERSE_DESCRIPTION: &'static str =
    "Resolve geographic coordinates (latitude and longitude) to a location name and address using the Photon reverse geocoding API (powered by OpenStreetMap). Returns the nearest matching location with its name, country, region, and place type.";

/// Tool registry that manages all available tools.
#[derive(Debug)]
pub struct ToolRegistry {
    client: reqwest::Client,
}

/// A tool in MCP format.
pub open spec fn listed(name: Seq<char>, description: Seq<char>, schema: Json) -> Json {
    Json::Object(
        map![
            "name"@ => Json::Text(name),
            "description"@ => Json::Text(description),
            "inputSchema"@ => schema,
        ],
    )
}

/// The tools of the registry in MCP format.
pub open spec fn listed_tools() -> Json {
    Json::Array(
        seq![
            listed("geocode"@, GEOCODE_DESCRIPTION@, geocode_schema_json()),
            listed("reverse_geocode"@, REVERSE_DESCRIPTION@, reverse_geocode_schema_json()),
        ],
    )
}

/// What starting a lookup for a tool call came to, where wrong arguments are an error of the
/// domain.
pub open spec fn execution_of(r: Result<LookupModel, Seq<char>>) -> Result<
    LookupModel,
    ErrorModel,
> {
    match r {
        Ok(l) => Ok(l),
        Err(s) => Err(ErrorModel::InvalidToolParameters(s)),
    }
}

/// The lookup that a call of the tool `tool_name` starts, or why it starts none.
pub open spec fn tool_execution(tool_name: Seq<char>, arguments: Json) -> Result<
    LookupModel,
    ErrorModel,
> {
    if tool_name == "geocode"@ {
        execution_of(geocode_call(PHOTON_API_URL@, arguments))
    } else if tool_name == "reverse_geocode"@ {
        execution_of(reverse_geocode_call(PHOTON_REVERSE_URL@, arguments))
    } else {
        Err(ErrorModel::ToolNotFound(tool_name))
    }
}

/// What a call came to before its request is sent.
pub open spec fn executed(r: Result<Lookup, GeocodeMcpError>) -> Result<LookupModel, ErrorModel> {
    match r {
        Ok(l) => Ok(l@),
        Err(e) => Err(e@),
    }
}

/// A tool result whose content is one block of text.
pub open spec fn text_content(t: Seq<char>) -> Json {
    Json::Object(
        map![
            "content"@ => Json::Array(
                seq![Json::Object(map!["type"@ => Json::Text("text"@), "text"@ => Json::Text(t)])],
            ),
        ],
    )
}

/// The text that a tool result holds, where its content is one block of text.
pub open spec fn content_text(v: Json) -> Option<Seq<char>> {
    match member(v, "content"@) {
        Some(Json::Array(blocks)) => if blocks.len() == 1 && member(blocks[0], "type"@) == Some(
            Json::Text("text"@),
        ) {
            text_member(blocks[0], "text"@)
        } else {
            None
        },
        _ => None,
    }
}

/// The value that a tool result gives back when its text is read.
pub open spec fn content_value(v: Json) -> Option<Json> {
    match content_text(v) {
        Some(t) => parsed_text(t),
        None => None,
    }
}

/// The text of a tool result is the text that it was made of.
proof fn lemma_content_text(t: Seq<char>)
    ensures
        content_text(text_content(t)) == Some(t),
{
    reveal_strlit("type");
    reveal_strlit("text");
    assert("type"@[1] != "text"@[1]);
}

/// A tool in MCP format.
fn list_entry(name: &str, description: &str, schema: serde_json::Value) -> (v: serde_json::Value)
    ensures
        json(v) == listed(name@, description@, json(schema)),
{
    let mut m = no_members();
    put(&mut m, "name", text(name));
    put(&mut m, "description", text(description));
    put(&mut m, "inputSchema", schema);
    object(m)
}

impl ToolRegistry {
    /// The client that the requests of this registry are sent with.
    pub closed spec fn sender(self) -> reqwest::Client {
        self.client
    }

    /// Create a new tool registry. Fails where no client can be built.
    pub fn new() -> (r: Result<ToolRegistry, reqwest::Error>)
        ensures
            r matches Ok(t) ==> client_limits(t.sender()) == (
                REQUEST_TIMEOUT_SECS,
                CONNECT_TIMEOUT_SECS,
            ),
    {
        Self::from_built(crate::http::client())
    }

    /// The registry with the client that was built, or the error with which building one failed.
    pub fn from_built(built: Result<reqwest::Client, reqwest::Error>) -> (r: Result<
        ToolRegistry,
        reqwest::Error,
    >)
        ensures
            match built {
                Ok(client) => r matches Ok(t) && t.sender() == client,
                Err(e) => r == Err::<ToolRegistry, reqwest::Error>(e),
            },
    {
        match built {
            Ok(client) => Ok(Self::with_client(client)),
            Err(e) => Err(e),
        }
    }

    /// The registry with this client.
    pub fn with_client(client: reqwest::Client) -> (t: ToolRegistry)
        ensures
            t.sender() == client,
    {
        ToolRegistry { client }
    }

    /// The client to send requests with.
    pub fn client(&self) -> (c: &reqwest::Client)
        ensures
            *c == self.sender(),
    {
        &self.client
    }

    /// Get all tools in MCP format.
    pub fn list_tools(&self) -> (v: serde_json::Value)
        ensures
            json(v) == listed_tools(),
    {
        let mut tools: Vec<serde_json::Value> = Vec::new();
        tools.push(list_entry("geocode", GEOCODE_DESCRIPTION, geocode_schema()));
        tools.push(list_entry("reverse_geocode", REVERSE_DESCRIPTION, reverse_geocode_schema()));
        assert(items(tools@) =~= seq![
            listed("geocode"@, GEOCODE_DESCRIPTION@, geocode_schema_json()),
            listed("reverse_geocode"@, REVERSE_DESCRIPTION@, reverse_geocode_schema_json()),
        ]);
        array(tools)
    }

    /// Execute a tool call by name with given arguments: start its lookup. Once it has been
    /// carried out, [`tool_result`] says what the caller gets.
    pub fn execute_tool(&self, tool_name: &str, arguments: &serde_json::Value) -> (r: Result<
        Lookup,
        GeocodeMcpError,
    >)
        ensures
            executed(r) == tool_execution(tool_name@, json(*arguments)),
    {
        if same_text(tool_name, "geocode") {
            self.execute_geocode(arguments)
        } else if same_text(tool_name, "reverse_geocode") {
            self.execute_reverse_geocode(arguments)
        } else {
            Err(GeocodeMcpError::Mcp(McpError::ToolNotFound(tool_name.to_string())))
        }
    }

    /// Starts the lookup of a place name.
    pub fn execute_geocode(&self, arguments: &serde_json::Value) -> (r: Result<
        Lookup,
        GeocodeMcpError,
    >)
        ensures
            executed(r) == execution_of(geocode_call(PHOTON_API_URL@, json(*arguments))),
    {
        match start_geocode(&self.client, PHOTON_API_URL, arguments) {
            Ok(l) => Ok(l),
            Err(s) => Err(GeocodeMcpError::Mcp(McpError::InvalidToolParameters(s))),
        }
    }

    /// Starts the lookup of a point.
    pub fn execute_reverse_geocode(&self, arguments: &serde_json::Value) -> (r: Result<
        Lookup,
        GeocodeMcpError,
    >)
        ensures
            executed(r) == execution_of(reverse_geocode_call(PHOTON_REVERSE_URL@, json(*arguments))),
    {
        match start_reverse_geocode(&self.client, PHOTON_REVERSE_URL, arguments) {
            Ok(l) => Ok(l),
            Err(s) => Err(GeocodeMcpError::Mcp(McpError::InvalidToolParameters(s))),
        }
    }
}

/// Wrap a JSON value in the MCP tool result content format as a `text` content block. Reading
/// the text gives the value back, unless it holds floating-point numbers or is nested deeper
/// than can be read.
pub fn mcp_tool_result_text(value: serde_json::Value) -> (v: serde_json::Value)
    ensures
        json(v) == text_content(pretty_text(json(value))),
        content_text(json(v)) == Some(pretty_text(json(value))),
        is_exact(json(value), MAX_LEVELS as nat) ==> content_value(json(v)) == Some(json(value)),
{
    let t = match to_string_pretty(&value) {
        Ok(t) => t,
        Err(_) => value.to_string(),
    };
    let ghost written_text = t@;
    proof {
        lemma_content_text(written_text);
    }
    let mut block = no_members();
    put(&mut block, "type", text("text"));
    put(&mut block, "text", string(t));
    let mut content: Vec<serde_json::Value> = Vec::new();
    content.push(object(block));
    assert(items(content@) =~= seq![
        Json::Object(map!["type"@ => Json::Text("text"@), "text"@ => Json::Text(written_text)]),
    ]);
    let mut result = no_members();
    put(&mut result, "content", array(content));
    object(result)
}

/// What the caller gets for the outcome of a lookup.
pub fn tool_result(outcome: Result<serde_json::Value, GeocodeMcpError>) -> (r: Result<
    serde_json::Value,
    GeocodeMcpError,
>)
    ensures
        match outcome {
            Ok(value) => r matches Ok(v) && json(v) == text_content(pretty_text(json(value))) && (
            is_exact(json(value), MAX_LEVELS as nat) ==> content_value(json(v)) == Some(
                json(value),
            )),
            Err(e) => r == Err::<serde_json::Value, GeocodeMcpError>(e),
        },
{
    match outcome {
        Ok(value) => Ok(mcp_tool_result_text(value)),
        Err(e) => Err(e),
    }
}

} // verus!
