//! The HTTP client, and the requests that it is given to send.

use crate::text::joined;
use vstd::prelude::*;

verus! {

/// `reqwest::Client`, carried as an opaque value.
#[verifier::external_type_specification]
#[verifier::external_body]
pub struct ExClient(reqwest::Client);

/// `reqwest::Request`, carried as an opaque value.
#[verifier::external_type_specification]
#[verifier::external_body]
pub struct ExRequest(reqwest::Request);

/// Seconds that an exchange may take from the first attempt to connect to the end of the body.
pub const REQUEST_TIMEOUT_SECS: u64 = 10;

/// Seconds that connecting may take.
pub const CONNECT_TIMEOUT_SECS: u64 = 5;

/// The version of this package.
pub const VERSION: &'static str = "0.1.0";

/// The `User-Agent` that every request carries: the name of this package and its version.
pub open spec fn user_agent() -> Seq<char> {
    "geocode-mcp/"@ + VERSION@
}

/// The limits in seconds that a client was made with: on an exchange as a whole, and on
/// connecting.
pub uninterp spec fn client_limits(c: reqwest::Client) -> (u64, u64);

/// The `GET` request for `base_url` with the pairs of `query` added to its query string, and
/// with the header `User-Agent`, or the error that stands in its place: an address that is no
/// URL with a host, or a header value that is not allowed, has no request.
pub uninterp spec fn get_request(
    base_url: Seq<char>,
    query: Seq<(Seq<char>, Seq<char>)>,
    user_agent: Seq<char>,
) -> Result<reqwest::Request, reqwest::Error>;

/// The text of the names and values of query pairs.
pub open spec fn pairs(query: Seq<(String, String)>) -> Seq<(Seq<char>, Seq<char>)> {
    query.map_values(|p: (String, String)| (p.0@, p.1@))
}

/// `Client::builder`, `timeout`, `connect_timeout` and `build`: a client with these two limits.
/// Left unsaid is when one can be built: that depends on the TLS provider that the process has
/// installed, which has to support some TLS version.
#[verifier::external_body]
fn build_client(timeout_secs: u64, connect_timeout_secs: u64) -> (c: Result<
    reqwest::Client,
    reqwest::Error,
>)
    ensures
        c matches Ok(c) ==> client_limits(c) == (timeout_secs, connect_timeout_secs),
{
    reqwest::Client::builder()
        .timeout(std::time::Duration::from_secs(timeout_secs))
        .connect_timeout(std::time::Duration::from_secs(connect_timeout_secs))
        .build()
}

/// `Client::get`, then `query`, `header` and `build` of the `RequestBuilder`. The request, or
/// the error where there is none, depends on the address, the pairs and the header alone, and
/// not on the client.
#[verifier::external_body]
fn build_get(
    client: &reqwest::Client,
    base_url: &str,
    query: &Vec<(String, String)>,
    user_agent: &str,
) -> (r: Result<reqwest::Request, reqwest::Error>)
    ensures
        r == get_request(base_url@, pairs(query@), user_agent@),
{
    client.get(base_url).query(query).header("User-Agent", user_agent).build()
}

/// A client with the limits of this package.
pub fn client() -> (c: Result<reqwest::Client, reqwest::Error>)
    ensures
        c matches Ok(c) ==> client_limits(c) == (REQUEST_TIMEOUT_SECS, CONNECT_TIMEOUT_SECS),
{
    build_client(REQUEST_TIMEOUT_SECS, CONNECT_TIMEOUT_SECS)
}

/// The request for `base_url` with the pairs of `query`, under the name of this package.
pub fn get(client: &reqwest::Client, base_url: &str, query: &Vec<(String, String)>) -> (r: Result<
    reqwest::Request,
    reqwest::Error,
>)
    ensures
        r == get_request(base_url@, pairs(query@), user_agent()),
{
    build_get(client, base_url, query, joined("geocode-mcp/", VERSION).as_str())
}

} // verus!
