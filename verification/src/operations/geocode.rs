//! Geocoding: resolve a location name to latitude and longitude using the Photon (Komoot)
//! geocoding API, <https://photon.komoot.io>, powered by OpenStreetMap data.

use crate::error::{ErrorModel, GeocodeError, GeocodeMcpError};
use crate::http::{get, get_request, pairs, user_agent};
use crate::json::{array, items, Json};
use crate::operations::photon::{
    locations, locations_of, outcome_of, Lookup, LookupModel, PhotonFeature, PhotonResponse,
    Subject, SubjectModel,
};
use crate::text::{decimal, decimal_text, joined, text_of};
use vstd::prelude::*;

verus! {

/// The address of the Photon geocoding API.
pub const PHOTON_API_URL: &'static str = "https://photon.komoot.io/api/";

/// The most results that there are to be when `count` are wanted: at least one and at most ten.
pub open spec fn clamped(count: u32) -> u32 {
    if count < 1 {
        1
    } else if count > 10 {
        10
    } else {
        count
    }
}

/// The language to ask for: English where none is wanted.
pub open spec fn wanted_language(language: Option<Seq<char>>) -> Seq<char> {
    match language {
        Some(language) => language,
        None => "en"@,
    }
}

/// The query of a lookup of `name`.
pub open spec fn geocode_pairs(
    name: Seq<char>,
    count: u32,
    language: Option<Seq<char>>,
) -> Seq<(Seq<char>, Seq<char>)> {
    seq![
        ("q"@, name),
        ("limit"@, decimal(clamped(count) as nat)),
        ("lang"@, wanted_language(language)),
    ]
}

/// The lookup of `name` at `base_url`.
pub open spec fn geocode_lookup(
    base_url: Seq<char>,
    name: Seq<char>,
    count: u32,
    language: Option<Seq<char>>,
) -> LookupModel {
    LookupModel {
        subject: SubjectModel::Name(name, count),
        request: get_request(base_url, geocode_pairs(name, count, language), user_agent()),
    }
}

/// The error of a lookup of `name` that no location matches.
pub open spec fn name_not_found(name: Seq<char>) -> ErrorModel {
    ErrorModel::LocationNotFound("No locations found for: "@ + name)
}

/// The first of `found`, as many as there are to be when `count` are wanted.
pub open spec fn cut(found: Seq<Json>, count: u32) -> Seq<Json> {
    if found.len() <= clamped(count) {
        found
    } else {
        found.take(clamped(count) as int)
    }
}

/// What a lookup of `name` for `count` results comes to when these features are its answer.
pub open spec fn geocode_outcome(
    name: Seq<char>,
    count: u32,
    features: Seq<PhotonFeature>,
) -> Result<Json, ErrorModel> {
    let found = locations_of(features);
    if found.len() == 0 {
        Err(name_not_found(name))
    } else {
        Ok(Json::Array(cut(found, count)))
    }
}

/// The most results that there are to be when `count` are wanted.
fn clamp_count(count: u32) -> (n: u32)
    ensures
        n == clamped(count),
{
    if count < 1 {
        1
    } else if count > 10 {
        10
    } else {
        count
    }
}

/// The query of a lookup of `name`.
pub fn geocode_query(name: &str, count: u32, language: Option<&str>) -> (q: Vec<(String, String)>)
    ensures
        pairs(q@) == geocode_pairs(name@, count, text_of(language)),
{
    let limit = decimal_text(clamp_count(count) as u64);
    let language = language.unwrap_or("en");
    let mut q: Vec<(String, String)> = Vec::new();
    q.push(("q".to_string(), name.to_string()));
    q.push(("limit".to_string(), limit));
    q.push(("lang".to_string(), language.to_string()));
    q
}

/// Geocode a location name: start the lookup at the public Photon API.
pub fn geocode_location(
    client: &reqwest::Client,
    name: &str,
    count: u32,
    language: Option<&str>,
) -> (l: Lookup)
    ensures
        l@ == geocode_lookup(PHOTON_API_URL@, name@, count, text_of(language)),
{
    geocode_location_with_base(client, PHOTON_API_URL, name, count, language)
}

/// Geocode against a configurable base URL: start the lookup of `name`. It is finished by
/// [`crate::operations::photon::answered`] and what that returns.
pub fn geocode_location_with_base(
    client: &reqwest::Client,
    base_url: &str,
    name: &str,
    count: u32,
    language: Option<&str>,
) -> (l: Lookup)
    ensures
        l@ == geocode_lookup(base_url@, name@, count, text_of(language)),
{
    let query = geocode_query(name, count, language);
    let request = get(client, base_url, &query);
    Lookup { subject: Subject::Name(name.to_string(), count), request }
}

/// The matching locations for `name` in the answer `response`: the first of them, up to the
/// `count` that were wanted.
pub fn geocode_found(name: &str, count: u32, response: PhotonResponse) -> (r: Result<
    serde_json::Value,
    GeocodeMcpError,
>)
    ensures
        outcome_of(r) == geocode_outcome(name@, count, response.features@),
{
    let mut found = locations(response.features);
    if found.len() == 0 {
        return Err(
            GeocodeMcpError::Geocode(
                GeocodeError::LocationNotFound(joined("No locations found for: ", name)),
            ),
        );
    }
    let ghost all = found@;
    found.truncate(clamp_count(count) as usize);
    assert(items(found@) =~= cut(items(all), count));
    Ok(array(found))
}

} // verus!
