//! Reverse geocoding: resolve latitude and longitude to a location using the Photon (Komoot)
//! reverse geocoding API, <https://photon.komoot.io>, powered by OpenStreetMap data.

use crate::error::{ErrorModel, GeocodeError, GeocodeMcpError};
use crate::http::{get, get_request, pairs, user_agent};
use crate::json::Json;
use crate::operations::geocode::wanted_language;
use crate::operations::photon::{
    has_position, location, location_of, outcome_of, Lookup, LookupModel, PhotonFeature,
    PhotonResponse, Subject, SubjectModel,
};
use crate::text::{joined, text_of};
use vstd::prelude::*;

verus! {

/// The address of the Photon reverse geocoding API.
pub const PHOTON_REVERSE_URL: &'static str = "https://photon.komoot.io/reverse";

/// The query of a lookup of the point at `latitude` and `longitude`.
pub open spec fn reverse_geocode_pairs(
    latitude: Seq<char>,
    longitude: Seq<char>,
    language: Option<Seq<char>>,
) -> Seq<(Seq<char>, Seq<char>)> {
    seq![("lat"@, latitude), ("lon"@, longitude), ("lang"@, wanted_language(language))]
}

/// The lookup of the point at `latitude` and `longitude` at `base_url`.
pub open spec fn reverse_geocode_lookup(
    base_url: Seq<char>,
    latitude: Seq<char>,
    longitude: Seq<char>,
    language: Option<Seq<char>>,
) -> LookupModel {
    LookupModel {
        subject: SubjectModel::Point(latitude, longitude),
        request: get_request(
            base_url,
            reverse_geocode_pairs(latitude, longitude, language),
            user_agent(),
        ),
    }
}

/// The error of a lookup of a point at which nothing was found.
pub open spec fn point_not_found(latitude: Seq<char>, longitude: Seq<char>) -> ErrorModel {
    ErrorModel::LocationNotFound(
        "No location found for coordinates: "@ + latitude + ", "@ + longitude,
    )
}

/// What a lookup of a point comes to when these features are its answer: the first of them is
/// the nearest.
pub open spec fn reverse_geocode_outcome(
    latitude: Seq<char>,
    longitude: Seq<char>,
    features: Seq<PhotonFeature>,
) -> Result<Json, ErrorModel> {
    if features.len() == 0 {
        Err(point_not_found(latitude, longitude))
    } else if !has_position(features[0]) {
        Err(ErrorModel::ApiError("Photon reverse API returned feature without coordinates"@))
    } else {
        Ok(location_of(features[0]))
    }
}

/// The query of a lookup of the point at `latitude` and `longitude`.
pub fn reverse_geocode_query(latitude: &str, longitude: &str, language: Option<&str>) -> (q: Vec<
    (String, String),
>)
    ensures
        pairs(q@) == reverse_geocode_pairs(latitude@, longitude@, text_of(language)),
{
    let language = language.unwrap_or("en");
    let mut q: Vec<(String, String)> = Vec::new();
    q.push(("lat".to_string(), latitude.to_string()));
    q.push(("lon".to_string(), longitude.to_string()));
    q.push(("lang".to_string(), language.to_string()));
    q
}

/// Reverse-geocode a latitude/longitude pair: start the lookup at the public Photon API. The
/// two coordinates are given as the text of decimal numbers.
pub fn reverse_geocode_location(
    client: &reqwest::Client,
    latitude: &str,
    longitude: &str,
    language: Option<&str>,
) -> (l: Lookup)
    ensures
        l@ == reverse_geocode_lookup(
            PHOTON_REVERSE_URL@,
            latitude@,
            longitude@,
            text_of(language),
        ),
{
    reverse_geocode_location_with_base(client, PHOTON_REVERSE_URL, latitude, longitude, language)
}

/// Reverse-geocode against a configurable base URL: start the lookup of a point. It is finished
/// by [`crate::operations::photon::answered`] and what that returns.
pub fn reverse_geocode_location_with_base(
    client: &reqwest::Client,
    base_url: &str,
    latitude: &str,
    longitude: &str,
    language: Option<&str>,
) -> (l: Lookup)
    ensures
        l@ == reverse_geocode_lookup(base_url@, latitude@, longitude@, text_of(language)),
{
    let query = reverse_geocode_query(latitude, longitude, language);
    let request = get(client, base_url, &query);
    Lookup { subject: Subject::Point(latitude.to_string(), longitude.to_string()), request }
}

/// The nearest location to a point in the answer `response`.
pub fn reverse_geocode_found(latitude: &str, longitude: &str, response: PhotonResponse) -> (r:
    Result<serde_json::Value, GeocodeMcpError>)
    ensures
        outcome_of(r) == reverse_geocode_outcome(latitude@, longitude@, response.features@),
{
    let mut features = response.features;
    if features.len() == 0 {
        let mut message = joined("No location found for coordinates: ", latitude);
        message.append(", ");
        message.append(longitude);
        return Err(GeocodeMcpError::Geocode(GeocodeError::LocationNotFound(message)));
    }
    let nearest = features.swap_remove(0);
    match location(nearest) {
        Some(v) => Ok(v),
        None => Err(
            GeocodeMcpError::Geocode(
                GeocodeError::ApiError(
                    "Photon reverse API returned feature without coordinates".to_string(),
                ),
            ),
        ),
    }
}

} // verus!
