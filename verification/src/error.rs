//! The errors of a lookup and of a tool call.

use crate::text::joined;
use vstd::prelude::*;
use vstd::std_specs::convert::FromSpecImpl;

verus! {

/// `reqwest::Error`, carried as an opaque value.
#[verifier::external_type_specification]
#[verifier::external_body]
pub struct ExHttpError(reqwest::Error);

/// `serde_json::Error`, carried as an opaque value.
#[verifier::external_type_specification]
#[verifier::external_body]
pub struct ExJsonError(serde_json::Error);

/// `std::io::Error`, carried as an opaque value.
#[verifier::external_type_specification]
#[verifier::external_body]
pub struct ExIoError(std::io::Error);

/// Geocode operation errors.
#[derive(Debug)]
pub enum GeocodeError {
    /// Location not found.
    LocationNotFound(String),
    /// The upstream service answered with an error, or with something unusable.
    ApiError(String),
    /// Invalid parameters.
    InvalidParameters(String),
}

/// Errors of a tool call itself.
#[derive(Debug)]
pub enum McpError {
    /// Tool not found.
    ToolNotFound(String),
    /// Invalid tool parameters (missing or malformed arguments).
    InvalidToolParameters(String),
}

/// Top-level error type wrapping all domain errors.
#[derive(Debug)]
pub enum GeocodeMcpError {
    /// A lookup error.
    Geocode(GeocodeError),
    /// A tool call error.
    Mcp(McpError),
    /// The HTTP exchange failed, or its answer could not be decoded.
    Http(reqwest::Error),
    /// JSON could not be read or written.
    Json(serde_json::Error),
    /// Input or output failed.
    Io(std::io::Error),
}

/// Result type alias for convenience.
pub type Result<T> = std::result::Result<T, GeocodeMcpError>;

/// What an error says: its kind, and its text or its cause.
pub enum ErrorModel {
    /// [`GeocodeError::LocationNotFound`].
    LocationNotFound(Seq<char>),
    /// [`GeocodeError::ApiError`].
    ApiError(Seq<char>),
    /// [`GeocodeError::InvalidParameters`].
    InvalidParameters(Seq<char>),
    /// [`McpError::ToolNotFound`].
    ToolNotFound(Seq<char>),
    /// [`McpError::InvalidToolParameters`].
    InvalidToolParameters(Seq<char>),
    /// [`GeocodeMcpError::Http`].
    Http(reqwest::Error),
    /// [`GeocodeMcpError::Json`].
    Json(serde_json::Error),
    /// [`GeocodeMcpError::Io`].
    Io(std::io::Error),
}

impl View for GeocodeError {
    type V = ErrorModel;

    open spec fn view(&self) -> ErrorModel {
        match *self {
            GeocodeError::LocationNotFound(s) => ErrorModel::LocationNotFound(s@),
            GeocodeError::ApiError(s) => ErrorModel::ApiError(s@),
            GeocodeError::InvalidParameters(s) => ErrorModel::InvalidParameters(s@),
        }
    }
}

impl View for McpError {
    type V = ErrorModel;

    open spec fn view(&self) -> ErrorModel {
        match *self {
            McpError::ToolNotFound(s) => ErrorModel::ToolNotFound(s@),
            McpError::InvalidToolParameters(s) => ErrorModel::InvalidToolParameters(s@),
        }
    }
}

impl View for GeocodeMcpError {
    type V = ErrorModel;

    open spec fn view(&self) -> ErrorModel {
        match *self {
            GeocodeMcpError::Geocode(e) => e@,
            GeocodeMcpError::Mcp(e) => e@,
            GeocodeMcpError::Http(e) => ErrorModel::Http(e),
            GeocodeMcpError::Json(e) => ErrorModel::Json(e),
            GeocodeMcpError::Io(e) => ErrorModel::Io(e),
        }
    }
}

impl ErrorModel {
    /// Whether `s` is how the error reads. An error that wraps a cause reads as its cause
    /// displays itself.
    pub open spec fn reads(self, s: String) -> bool {
        match self {
            ErrorModel::LocationNotFound(text) => s@ == "Location not found: "@ + text,
            ErrorModel::ApiError(text) => s@ == "API error: "@ + text,
            ErrorModel::InvalidParameters(text) => s@ == "Invalid parameters: "@ + text,
            ErrorModel::ToolNotFound(text) => s@ == "Tool not found: "@ + text,
            ErrorModel::InvalidToolParameters(text) => s@ == "Invalid tool parameters: "@ + text,
            ErrorModel::Http(e) => vstd::string::to_string_from_display_ensures(&e, s),
            ErrorModel::Json(e) => vstd::string::to_string_from_display_ensures(&e, s),
            ErrorModel::Io(e) => vstd::string::to_string_from_display_ensures(&e, s),
        }
    }
}

impl GeocodeError {
    /// How the error reads.
    pub fn to_string(&self) -> (s: String)
        ensures
            self@.reads(s),
    {
        match self {
            GeocodeError::LocationNotFound(text) => joined("Location not found: ", text.as_str()),
            GeocodeError::ApiError(text) => joined("API error: ", text.as_str()),
            GeocodeError::InvalidParameters(text) => joined("Invalid parameters: ", text.as_str()),
        }
    }
}

impl McpError {
    /// How the error reads.
    pub fn to_string(&self) -> (s: String)
        ensures
            self@.reads(s),
    {
        match self {
            McpError::ToolNotFound(text) => joined("Tool not found: ", text.as_str()),
            McpError::InvalidToolParameters(text) => joined(
                "Invalid tool parameters: ",
                text.as_str(),
            ),
        }
    }
}

impl GeocodeMcpError {
    /// How the error reads. An error that wraps another one reads as that one does.
    pub fn to_string(&self) -> (s: String)
        ensures
            self@.reads(s),
    {
        match self {
            GeocodeMcpError::Geocode(e) => e.to_string(),
            GeocodeMcpError::Mcp(e) => e.to_string(),
            GeocodeMcpError::Http(e) => e.to_string(),
            GeocodeMcpError::Json(e) => e.to_string(),
            GeocodeMcpError::Io(e) => e.to_string(),
        }
    }
}

impl From<GeocodeError> for GeocodeMcpError {
    fn from(e: GeocodeError) -> (r: GeocodeMcpError) {
        GeocodeMcpError::Geocode(e)
    }
}

impl FromSpecImpl<GeocodeError> for GeocodeMcpError {
    open spec fn obeys_from_spec() -> bool {
        true
    }

    open spec fn from_spec(e: GeocodeError) -> GeocodeMcpError {
        GeocodeMcpError::Geocode(e)
    }
}

impl From<McpError> for GeocodeMcpError {
    fn from(e: McpError) -> (r: GeocodeMcpError) {
        GeocodeMcpError::Mcp(e)
    }
}

impl FromSpecImpl<McpError> for GeocodeMcpError {
    open spec fn obeys_from_spec() -> bool {
        true
    }

    open spec fn from_spec(e: McpError) -> GeocodeMcpError {
        GeocodeMcpError::Mcp(e)
    }
}

impl From<reqwest::Error> for GeocodeMcpError {
    fn from(e: reqwest::Error) -> (r: GeocodeMcpError) {
        GeocodeMcpError::Http(e)
    }
}

impl FromSpecImpl<reqwest::Error> for GeocodeMcpError {
    open spec fn obeys_from_spec() -> bool {
        true
    }

    open spec fn from_spec(e: reqwest::Error) -> GeocodeMcpError {
        GeocodeMcpError::Http(e)
    }
}

impl From<serde_json::Error> for GeocodeMcpError {
    fn from(e: serde_json::Error) -> (r: GeocodeMcpError) {
        GeocodeMcpError::Json(e)
    }
}

impl FromSpecImpl<serde_json::Error> for GeocodeMcpError {
    open spec fn obeys_from_spec() -> bool {
        true
    }

    open spec fn from_spec(e: serde_json::Error) -> GeocodeMcpError {
        GeocodeMcpError::Json(e)
    }
}

impl From<std::io::Error> for GeocodeMcpError {
    fn from(e: std::io::Error) -> (r: GeocodeMcpError) {
        GeocodeMcpError::Io(e)
    }
}

impl FromSpecImpl<std::io::Error> for GeocodeMcpError {
    open spec fn obeys_from_spec() -> bool {
        true
    }

    open spec fn from_spec(e: std::io::Error) -> GeocodeMcpError {
        GeocodeMcpError::Io(e)
    }
}

} // verus!
