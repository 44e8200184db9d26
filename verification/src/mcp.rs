//! What the server shows of itself to an MCP host: its tools, its configuration, and the two
//! ways in which a call can fail.

use crate::json::{json, Json};
use vstd::prelude::*;

verus! {

/// A tool as it is advertised.
#[derive(Debug)]
pub struct ToolDef {
    /// The name that the tool is called by.
    pub name: String,
    /// What the tool does.
    pub description: String,
    /// The JSON schema of its arguments.
    pub input_schema: serde_json::Value,
}

/// What an advertised tool says.
pub struct ToolModel {
    /// The name that the tool is called by.
    pub name: Seq<char>,
    /// What the tool does.
    pub description: Seq<char>,
    /// The JSON schema of its arguments.
    pub input_schema: Json,
}

impl View for ToolDef {
    type V = ToolModel;

    open spec fn view(&self) -> ToolModel {
        ToolModel {
            name: self.name@,
            description: self.description@,
            input_schema: json(self.input_schema),
        }
    }
}

/// What each tool of a row says.
pub open spec fn tools_of(tools: Seq<ToolDef>) -> Seq<ToolModel> {
    tools.map_values(|t: ToolDef| t@)
}

/// The server-level configuration.
#[derive(Debug)]
pub struct ServerConfig {
    /// The name of the server.
    pub name: String,
    /// Its version.
    pub version: String,
    /// Whether it offers the WebSocket transport.
    pub websocket: bool,
    /// What it tells a model about itself when a session starts.
    pub instructions: Option<String>,
}

/// Why a call has no result.
#[derive(Debug)]
pub enum CallError {
    /// The arguments are at fault: the caller gets the JSON-RPC error -32602.
    InvalidParams(String),
    /// The tool could not do what was asked: the model gets the text as an error result.
    Tool(String),
}

/// Why a call has no result, and the text that goes with it.
pub enum CallErrorModel {
    /// [`CallError::InvalidParams`].
    InvalidParams(Seq<char>),
    /// [`CallError::Tool`].
    Tool(Seq<char>),
}

impl View for CallError {
    type V = CallErrorModel;

    open spec fn view(&self) -> CallErrorModel {
        match *self {
            CallError::InvalidParams(s) => CallErrorModel::InvalidParams(s@),
            CallError::Tool(s) => CallErrorModel::Tool(s@),
        }
    }
}

} // verus!
