//! The geocoding service: dispatches tool calls to the lookups, turns what they come to into
//! replies, and defines the server-level configuration.

use crate::arguments::{
    geocode_call, reverse_geocode_call, start_geocode, start_reverse_geocode,
};
use crate::error::{ErrorModel, GeocodeError, GeocodeMcpError, McpError};
use crate::http::{client_limits, CONNECT_TIMEOUT_SECS, REQUEST_TIMEOUT_SECS, VERSION};
use crate::json::{json, Json};
use crate::mcp::{CallError, CallErrorModel, ServerConfig, ToolDef, ToolModel};
use crate::operations::geocode::PHOTON_API_URL;
use crate::operations::photon::{outcome_of, Lookup, LookupModel, Subject, SubjectModel};
use crate::operations::reverse_geocode::PHOTON_REVERSE_URL;
use crate::schema::{
    geocode_schema, geocode_schema_json, reverse_geocode_schema, reverse_geocode_schema_json,
};
use crate::text::{joined, same_text, text_of};
use vstd::prelude::*;

verus! {

/// What `geocode` does.
pub const GEOCODE_DESCRIPTION: &'static str =
    "Resolve a location name to geographic coordinates (latitude and longitude) \
     using the Photon geocoding API (powered by OpenStreetMap). Returns up to \
     'count' matching locations with their coordinates, country, country code, \
     region, and place type. Supports cities, addresses, and points of interest.";

/// What `reverse_geocode` does.
pub const REVERSE_GEOCODE_DESCRIPTION: &'static str =
    "Resolve geographic coordinates (latitude and longitude) into the nearest place: \
     its name, country, country code, region, and place type. Use this to identify \
     what is located at a GPS point or to turn a lat/long fix into a human-readable \
     place name. Powered by the Photon reverse geocoding API (OpenStreetMap).";

/// What the server tells a model about itself: it leads with its purpose and names the tools.
pub const INSTRUCTIONS: &'static str =
    "Convert between place names and geographic coordinates. Reach for this \
     whenever you need the latitude and longitude of a city, street address, \
     landmark, or point of interest (use `geocode`), or need to turn a lat/long \
     pair back into a human-readable place name, country, and region (use \
     `reverse_geocode`) -- for example to supply coordinates to a weather, \
     mapping, or distance lookup, or to identify where a GPS fix is located. \
     Backed by the Photon API (OpenStreetMap) with global coverage and no API \
     key or configuration required; every result is structured (coordinates, \
     country, country code, region, and place type).";

/// The counter of failures that reach outward.
pub const UPSTREAM_FAILURES: &'static str = "geocode.upstream_failures";

/// The geocoding service: the HTTP client that all lookups share, and the address that each
/// tool sends its request to.
#[derive(Debug)]
pub struct GeocodeService {
    client: reqwest::Client,
    geocode_base_url: String,
    reverse_geocode_base_url: String,
}

/// The addresses that a service sends its requests to, and the limits that it sends them with.
pub struct ServiceModel {
    /// Seconds that an exchange as a whole, and connecting, may take.
    pub limits: (u64, u64),
    /// Where `geocode` looks names up.
    pub geocode_base_url: Seq<char>,
    /// Where `reverse_geocode` looks points up.
    pub reverse_geocode_base_url: Seq<char>,
}

impl View for GeocodeService {
    type V = ServiceModel;

    closed spec fn view(&self) -> ServiceModel {
        ServiceModel {
            limits: client_limits(self.client),
            geocode_base_url: self.geocode_base_url@,
            reverse_geocode_base_url: self.reverse_geocode_base_url@,
        }
    }
}

/// A service at the public Photon API.
pub open spec fn public_service() -> ServiceModel {
    ServiceModel {
        limits: (REQUEST_TIMEOUT_SECS, CONNECT_TIMEOUT_SECS),
        geocode_base_url: PHOTON_API_URL@,
        reverse_geocode_base_url: PHOTON_REVERSE_URL@,
    }
}

/// The tools that the server advertises.
pub open spec fn advertised() -> Seq<ToolModel> {
    seq![
        ToolModel {
            name: "geocode"@,
            description: GEOCODE_DESCRIPTION@,
            input_schema: geocode_schema_json(),
        },
        ToolModel {
            name: "reverse_geocode"@,
            description: REVERSE_GEOCODE_DESCRIPTION@,
            input_schema: reverse_geocode_schema_json(),
        },
    ]
}

/// What starting a lookup for a tool call came to, where wrong arguments are an error of the
/// call.
pub open spec fn call_of(r: Result<LookupModel, Seq<char>>) -> Result<
    LookupModel,
    CallErrorModel,
> {
    match r {
        Ok(l) => Ok(l),
        Err(s) => Err(CallErrorModel::InvalidParams(s)),
    }
}

/// The lookup that a call of the tool `name` starts, or why it starts none.
pub open spec fn tool_call(service: ServiceModel, name: Seq<char>, args: Json) -> Result<
    LookupModel,
    CallErrorModel,
> {
    if name == "geocode"@ {
        call_of(geocode_call(service.geocode_base_url, args))
    } else if name == "reverse_geocode"@ {
        call_of(reverse_geocode_call(service.reverse_geocode_base_url, args))
    } else {
        Err(CallErrorModel::Tool("tool not found: "@ + name))
    }
}

/// What a call came to before its request is sent.
pub open spec fn called(r: Result<Lookup, CallError>) -> Result<LookupModel, CallErrorModel> {
    match r {
        Ok(l) => Ok(l@),
        Err(e) => Err(e@),
    }
}

/// Whether an error is about what the caller gave.
pub open spec fn is_invalid_params(e: ErrorModel) -> bool {
    e is InvalidToolParameters || e is InvalidParameters
}

/// Whether `c` is what the caller gets for the error `e`: the text of `e`, as an error about
/// the arguments or as one of the tool.
pub open spec fn answers_error(c: CallError, e: ErrorModel) -> bool {
    match c {
        CallError::InvalidParams(s) => is_invalid_params(e) && e.reads(s),
        CallError::Tool(s) => !is_invalid_params(e) && e.reads(s),
    }
}

/// The reason under which a failure is counted, or `None` for one that is not: an answer
/// without results, a mistake of the caller, or a fault that did not come from outside.
pub open spec fn failure_reason(e: ErrorModel) -> Option<Seq<char>> {
    match e {
        ErrorModel::ApiError(_) => Some("http_error"@),
        ErrorModel::Http(_) => Some("network"@),
        _ => None,
    }
}

/// One step of a counter, with its labels.
#[derive(Debug)]
pub struct Increment {
    /// The name of the counter.
    pub counter: &'static str,
    /// The labels of the step, each a name and a value.
    pub labels: Vec<(&'static str, &'static str)>,
}

/// The text of one step of a counter.
pub struct IncrementModel {
    /// The name of the counter.
    pub counter: Seq<char>,
    /// The labels of the step.
    pub labels: Seq<(Seq<char>, Seq<char>)>,
}

impl View for Increment {
    type V = IncrementModel;

    open spec fn view(&self) -> IncrementModel {
        IncrementModel {
            counter: self.counter@,
            labels: self.labels@.map_values(|l: (&'static str, &'static str)| (l.0@, l.1@)),
        }
    }
}

/// The step of the failure counter that the outcome of a lookup for `tool` makes, if it makes
/// one.
pub open spec fn upstream_increment(
    tool: Seq<char>,
    outcome: Result<Json, ErrorModel>,
) -> Option<IncrementModel> {
    match outcome {
        Ok(_) => None,
        Err(e) => match failure_reason(e) {
            Some(reason) => Some(
                IncrementModel {
                    counter: UPSTREAM_FAILURES@,
                    labels: seq![("tool"@, tool), ("reason"@, reason)],
                },
            ),
            None => None,
        },
    }
}

/// The text of an optional step.
pub open spec fn increment_of(i: Option<Increment>) -> Option<IncrementModel> {
    match i {
        Some(i) => Some(i@),
        None => None,
    }
}

/// The name of the tool that looks up such a subject.
pub open spec fn tool_of(subject: SubjectModel) -> Seq<char> {
    match subject {
        SubjectModel::Name(_, _) => "geocode"@,
        SubjectModel::Point(_, _) => "reverse_geocode"@,
    }
}

/// A tool call that is over.
#[derive(Debug)]
pub struct Finished {
    /// What the caller gets.
    pub reply: Result<serde_json::Value, CallError>,
    /// What is to be counted.
    pub failure: Option<Increment>,
}

impl GeocodeService {
    /// The client that the requests of this service are sent with.
    pub closed spec fn sender(self) -> reqwest::Client {
        self.client
    }

    /// Construct a service with the built-in defaults: a client with a 10s request timeout and
    /// 5s connect timeout, talking to the public Photon endpoint (no API key required). Fails
    /// where no client can be built.
    pub fn new() -> (r: Result<GeocodeService, reqwest::Error>)
        ensures
            r matches Ok(s) ==> s@ == public_service(),
    {
        Self::with_base_urls(PHOTON_API_URL.to_string(), PHOTON_REVERSE_URL.to_string())
    }

    /// Construct a service pointed at custom Photon endpoints. Fails where no client can be
    /// built.
    pub fn with_base_urls(geocode_base_url: String, reverse_geocode_base_url: String) -> (r: Result<
        GeocodeService,
        reqwest::Error,
    >)
        ensures
            r matches Ok(s) ==> s@ == (ServiceModel {
                limits: (REQUEST_TIMEOUT_SECS, CONNECT_TIMEOUT_SECS),
                geocode_base_url: geocode_base_url@,
                reverse_geocode_base_url: reverse_geocode_base_url@,
            }),
    {
        Self::from_built(crate::http::client(), geocode_base_url, reverse_geocode_base_url)
    }

    /// The service with these endpoints and the client that was built, or the error with which
    /// building one failed.
    pub fn from_built(
        built: Result<reqwest::Client, reqwest::Error>,
        geocode_base_url: String,
        reverse_geocode_base_url: String,
    ) -> (r: Result<GeocodeService, reqwest::Error>)
        ensures
            match built {
                Ok(client) => r matches Ok(s) && s.sender() == client && s@ == (ServiceModel {
                    limits: client_limits(client),
                    geocode_base_url: geocode_base_url@,
                    reverse_geocode_base_url: reverse_geocode_base_url@,
                }),
                Err(e) => r == Err::<GeocodeService, reqwest::Error>(e),
            },
    {
        match built {
            Ok(client) => Ok(Self::with_client(client, geocode_base_url, reverse_geocode_base_url)),
            Err(e) => Err(e),
        }
    }

    /// The service with this client and these endpoints.
    pub fn with_client(
        client: reqwest::Client,
        geocode_base_url: String,
        reverse_geocode_base_url: String,
    ) -> (s: GeocodeService)
        ensures
            s.sender() == client,
            s@ == (ServiceModel {
                limits: client_limits(client),
                geocode_base_url: geocode_base_url@,
                reverse_geocode_base_url: reverse_geocode_base_url@,
            }),
    {
        GeocodeService { client, geocode_base_url, reverse_geocode_base_url }
    }

    /// The client to send requests with.
    pub fn client(&self) -> (c: &reqwest::Client)
        ensures
            *c == self.sender(),
            client_limits(*c) == self@.limits,
    {
        &self.client
    }

    /// The tools that the server advertises.
    pub fn tools(&self) -> (tools: Vec<ToolDef>)
        ensures
            crate::mcp::tools_of(tools@) == advertised(),
    {
        let mut tools: Vec<ToolDef> = Vec::new();
        tools.push(
            ToolDef {
                name: "geocode".to_string(),
                description: GEOCODE_DESCRIPTION.to_string(),
                input_schema: geocode_schema(),
            },
        );
        tools.push(
            ToolDef {
                name: "reverse_geocode".to_string(),
                description: REVERSE_GEOCODE_DESCRIPTION.to_string(),
                input_schema: reverse_geocode_schema(),
            },
        );
        assert(crate::mcp::tools_of(tools@) =~= advertised());
        tools
    }

    /// Starts the lookup that a call of the tool `name` asks for. Once it has been carried out,
    /// [`finished`] says what the caller gets.
    pub fn call_tool(&self, name: &str, args: &serde_json::Value) -> (r: Result<Lookup, CallError>)
        ensures
            called(r) == tool_call(self@, name@, json(*args)),
    {
        if same_text(name, "geocode") {
            self.call_geocode(args)
        } else if same_text(name, "reverse_geocode") {
            self.call_reverse_geocode(args)
        } else {
            Err(CallError::Tool(joined("tool not found: ", name)))
        }
    }

    /// Starts the lookup of a place name.
    pub fn call_geocode(&self, args: &serde_json::Value) -> (r: Result<Lookup, CallError>)
        ensures
            called(r) == call_of(geocode_call(self@.geocode_base_url, json(*args))),
    {
        match start_geocode(&self.client, self.geocode_base_url.as_str(), args) {
            Ok(l) => Ok(l),
            Err(s) => Err(CallError::InvalidParams(s)),
        }
    }

    /// Starts the lookup of a point.
    pub fn call_reverse_geocode(&self, args: &serde_json::Value) -> (r: Result<Lookup, CallError>)
        ensures
            called(r) == call_of(reverse_geocode_call(self@.reverse_geocode_base_url, json(*args))),
    {
        match start_reverse_geocode(&self.client, self.reverse_geocode_base_url.as_str(), args) {
            Ok(l) => Ok(l),
            Err(s) => Err(CallError::InvalidParams(s)),
        }
    }
}

impl Subject {
    /// The name of the tool that looks up such a subject.
    pub fn tool(&self) -> (tool: &'static str)
        ensures
            tool@ == tool_of(self@),
    {
        match self {
            Subject::Name(_, _) => "geocode",
            Subject::Point(_, _) => "reverse_geocode",
        }
    }
}

/// Map a domain error to a `CallError`: invalid parameters are the caller's fault; everything
/// else (not found, API errors, network) is surfaced as an error of the tool, so that the model
/// can react.
pub fn domain_err_to_call_error(e: GeocodeMcpError) -> (c: CallError)
    ensures
        answers_error(c, e@),
{
    let text = e.to_string();
    match e {
        GeocodeMcpError::Mcp(McpError::InvalidToolParameters(_)) => CallError::InvalidParams(text),
        GeocodeMcpError::Geocode(GeocodeError::InvalidParameters(_)) => CallError::InvalidParams(
            text,
        ),
        _ => CallError::Tool(text),
    }
}

/// Classify a lookup failure as an upstream fault worth counting, or `None` for a decline (no
/// matching location) or a caller mistake (bad parameters).
pub fn upstream_failure_reason(err: &GeocodeMcpError) -> (reason: Option<&'static str>)
    ensures
        text_of(reason) == failure_reason(err@),
{
    match err {
        GeocodeMcpError::Geocode(GeocodeError::ApiError(_)) => Some("http_error"),
        GeocodeMcpError::Http(_) => Some("network"),
        GeocodeMcpError::Geocode(GeocodeError::LocationNotFound(_))
        | GeocodeMcpError::Geocode(GeocodeError::InvalidParameters(_))
        | GeocodeMcpError::Mcp(_)
        | GeocodeMcpError::Json(_)
        | GeocodeMcpError::Io(_) => None,
    }
}

/// The step of [`UPSTREAM_FAILURES`] that an outcome is to be counted with: one for an
/// upstream-reaching failure, and none for anything else.
pub fn record_upstream_failure(
    tool: &'static str,
    outcome: &Result<serde_json::Value, GeocodeMcpError>,
) -> (i: Option<Increment>)
    ensures
        increment_of(i) == upstream_increment(tool@, outcome_of(*outcome)),
{
    match outcome {
        Ok(_) => None,
        Err(err) => match upstream_failure_reason(err) {
            Some(reason) => {
                let mut labels: Vec<(&'static str, &'static str)> = Vec::new();
                labels.push(("tool", tool));
                labels.push(("reason", reason));
                let i = Increment { counter: UPSTREAM_FAILURES, labels };
                assert(i@.labels =~= seq![("tool"@, tool@), ("reason"@, reason@)]);
                Some(i)
            },
            None => None,
        },
    }
}

/// What the caller of `tool` gets for the outcome of its lookup, and what is to be counted.
pub fn finished(tool: &'static str, outcome: Result<serde_json::Value, GeocodeMcpError>) -> (f:
    Finished)
    ensures
        increment_of(f.failure) == upstream_increment(tool@, outcome_of(outcome)),
        match outcome {
            Ok(v) => f.reply == Ok::<serde_json::Value, CallError>(v),
            Err(e) => f.reply matches Err(c) && answers_error(c, e@),
        },
{
    let failure = record_upstream_failure(tool, &outcome);
    let reply = match outcome {
        Ok(v) => Ok(v),
        Err(e) => Err(domain_err_to_call_error(e)),
    };
    Finished { reply, failure }
}

/// Build the MCP server configuration.
pub fn server_config() -> (c: ServerConfig)
    ensures
        c.name@ == "geocode-mcp"@,
        c.version@ == VERSION@,
        !c.websocket,
        c.instructions matches Some(s) && s@ == INSTRUCTIONS@,
{
    ServerConfig {
        name: "geocode-mcp".to_string(),
        version: VERSION.to_string(),
        websocket: false,
        instructions: Some(INSTRUCTIONS.to_string()),
    }
}

} // verus!
