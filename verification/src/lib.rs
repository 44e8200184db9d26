//! Converts between place names and geographic coordinates, for hosts that speak the Model
//! Context Protocol. All lookups go through the Photon API.

pub mod arguments;
pub mod error;
pub mod http;
pub mod json;
pub mod laws;
pub mod mcp;
pub mod operations;
pub mod schema;
pub mod service;
pub mod text;
pub mod tools;

pub use service::{server_config, GeocodeService};

use vstd::prelude::*;

verus! {

/// Construct the geocode service with built-in defaults (Photon, no API key), for in-process
/// (compiled-in) hosting: the service that the standalone binary runs. Fails where no HTTP
/// client can be built.
pub fn build_service() -> (r: Result<GeocodeService, reqwest::Error>)
    ensures
        r matches Ok(s) ==> s@ == service::public_service(),
{
    GeocodeService::new()
}

} // verus!
