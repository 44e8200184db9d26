//! What the two Photon endpoints have in common: what they answer, and how an exchange with
//! them goes.

use crate::error::{ErrorModel, GeocodeError, GeocodeMcpError};
use crate::json::{
    items, json, no_members, object, optional_string, optional_text, put, Json,
};
use crate::operations::{geocode, reverse_geocode};
use crate::text::{decimal, decimal_text, joined, string_of};
use vstd::prelude::*;

verus! {

/// The body of an answer.
#[derive(Debug)]
pub struct PhotonResponse {
    /// The matches, best first.
    pub features: Vec<PhotonFeature>,
}

/// One match.
#[derive(Debug)]
pub struct PhotonFeature {
    /// What is at the place.
    pub properties: PhotonProperties,
    /// Where the place is.
    pub geometry: PhotonGeometry,
}

/// What is at a place.
#[derive(Debug)]
pub struct PhotonProperties {
    /// The name of the place.
    pub name: Option<String>,
    /// The country that it lies in.
    pub country: Option<String>,
    /// The code of that country.
    pub countrycode: Option<String>,
    /// The state or region that it lies in.
    pub state: Option<String>,
    /// The kind of place that it is.
    pub place_type: Option<String>,
}

/// Where a place is.
#[derive(Debug)]
pub struct PhotonGeometry {
    /// Longitude and latitude in GeoJSON order, each as the JSON of a decimal number.
    pub coordinates: Vec<serde_json::Value>,
}

/// What a lookup is about.
#[derive(Debug)]
pub enum Subject {
    /// A place name, to be resolved to coordinates, and the number of results that are wanted.
    Name(String, u32),
    /// A latitude and a longitude, to be resolved to a place.
    Point(String, String),
}

/// What a lookup is about, as text.
pub enum SubjectModel {
    /// A place name, and the number of results that are wanted.
    Name(Seq<char>, u32),
    /// A latitude and a longitude.
    Point(Seq<char>, Seq<char>),
}

impl View for Subject {
    type V = SubjectModel;

    open spec fn view(&self) -> SubjectModel {
        match *self {
            Subject::Name(name, count) => SubjectModel::Name(name@, count),
            Subject::Point(latitude, longitude) => SubjectModel::Point(latitude@, longitude@),
        }
    }
}

/// A lookup that has been started: what it is about, and the request to send for it. Where no
/// request could be built, sending it fails with the error that stands in its place.
#[derive(Debug)]
pub struct Lookup {
    /// What the lookup is about.
    pub subject: Subject,
    /// The request to send.
    pub request: Result<reqwest::Request, reqwest::Error>,
}

/// What a started lookup is about, and the request to send for it or the error in its place.
pub struct LookupModel {
    /// What the lookup is about.
    pub subject: SubjectModel,
    /// The request to send.
    pub request: Result<reqwest::Request, reqwest::Error>,
}

impl View for Lookup {
    type V = LookupModel;

    open spec fn view(&self) -> LookupModel {
        LookupModel { subject: self.subject@, request: self.request }
    }
}

/// A lookup whose request was answered with success, so that the body is to be read next.
#[derive(Debug)]
pub struct Answered {
    subject: Subject,
}

impl View for Answered {
    type V = SubjectModel;

    closed spec fn view(&self) -> SubjectModel {
        self.subject@
    }
}

/// Whether a feature says where it is: whether it has a longitude and a latitude.
pub open spec fn has_position(f: PhotonFeature) -> bool {
    f.geometry.coordinates@.len() >= 2
}

/// The location that a feature with a position describes.
pub open spec fn location_of(f: PhotonFeature) -> Json {
    Json::Object(
        map![
            "name"@ => optional_text(string_of(f.properties.name)),
            "latitude"@ => json(f.geometry.coordinates@[1]),
            "longitude"@ => json(f.geometry.coordinates@[0]),
            "country"@ => optional_text(string_of(f.properties.country)),
            "country_code"@ => optional_text(string_of(f.properties.countrycode)),
            "region"@ => optional_text(string_of(f.properties.state)),
            "type"@ => optional_text(string_of(f.properties.place_type)),
        ],
    )
}

/// The locations of the features that have a position, in the order of the features.
pub open spec fn locations_of(features: Seq<PhotonFeature>) -> Seq<Json> {
    features.filter(|f: PhotonFeature| has_position(f)).map_values(
        |f: PhotonFeature| location_of(f),
    )
}

/// Whether an HTTP status reports success.
pub open spec fn is_success(status: u16) -> bool {
    200 <= status < 300
}

/// What a lookup comes to: the JSON of its result, or its error.
pub open spec fn outcome_of(r: Result<serde_json::Value, GeocodeMcpError>) -> Result<
    Json,
    ErrorModel,
> {
    match r {
        Ok(v) => Ok(json(v)),
        Err(e) => Err(e@),
    }
}

/// One more feature adds its location at the end if it has a position, and else nothing.
pub(crate) proof fn lemma_one_more_feature(features: Seq<PhotonFeature>, f: PhotonFeature)
    ensures
        locations_of(features.push(f)) == if has_position(f) {
            locations_of(features).push(location_of(f))
        } else {
            locations_of(features)
        },
{
    reveal(Seq::filter);
    let kept = |f: PhotonFeature| has_position(f);
    let one_more = features.push(f);
    assert(one_more.drop_last() =~= features);
    assert(one_more.last() == f);
    if has_position(f) {
        assert(one_more.filter(kept) == features.filter(kept).push(f));
        assert(locations_of(one_more) =~= locations_of(features).push(location_of(f)));
    } else {
        assert(one_more.filter(kept) == features.filter(kept));
    }
}

/// What precedes the status in the error of a lookup that was not answered with success.
pub open spec fn refusal(subject: SubjectModel) -> Seq<char> {
    match subject {
        SubjectModel::Name(_, _) => "Photon API returned HTTP "@,
        SubjectModel::Point(_, _) => "Photon reverse API returned HTTP "@,
    }
}

/// The error with which an answer ends a lookup, or `None` where its body is to be read: a
/// request that failed, or a status that does not report success.
pub open spec fn answer_error(
    subject: SubjectModel,
    answer: Result<u16, reqwest::Error>,
) -> Option<ErrorModel> {
    match answer {
        Err(e) => Some(ErrorModel::Http(e)),
        Ok(status) => if is_success(status) {
            None
        } else {
            Some(ErrorModel::ApiError(refusal(subject) + decimal(status as nat)))
        },
    }
}

/// What a lookup comes to when its body reads as these features, or could not be read.
pub open spec fn body_outcome(
    subject: SubjectModel,
    body: Result<PhotonResponse, reqwest::Error>,
) -> Result<Json, ErrorModel> {
    match body {
        Err(e) => Err(ErrorModel::Http(e)),
        Ok(response) => match subject {
            SubjectModel::Name(name, count) => geocode::geocode_outcome(
                name,
                count,
                response.features@,
            ),
            SubjectModel::Point(latitude, longitude) => reverse_geocode::reverse_geocode_outcome(
                latitude,
                longitude,
                response.features@,
            ),
        },
    }
}

/// The location that `f` describes, or `None` where `f` has no position.
pub fn location(f: PhotonFeature) -> (v: Option<serde_json::Value>)
    ensures
        match v {
            Some(v) => has_position(f) && json(v) == location_of(f),
            None => !has_position(f),
        },
        v is Some <==> f.geometry.coordinates@.len() >= 2,
{
    let PhotonFeature { properties, geometry } = f;
    let mut coordinates = geometry.coordinates;
    if coordinates.len() < 2 {
        return None;
    }
    let latitude = coordinates.swap_remove(1);
    let longitude = coordinates.swap_remove(0);
    let mut m = no_members();
    put(&mut m, "name", optional_string(properties.name));
    put(&mut m, "latitude", latitude);
    put(&mut m, "longitude", longitude);
    put(&mut m, "country", optional_string(properties.country));
    put(&mut m, "country_code", optional_string(properties.countrycode));
    put(&mut m, "region", optional_string(properties.state));
    put(&mut m, "type", optional_string(properties.place_type));
    Some(object(m))
}

/// The locations of the features that have a position, in the order of the features.
pub fn locations(features: Vec<PhotonFeature>) -> (found: Vec<serde_json::Value>)
    ensures
        items(found@) == locations_of(features@),
{
    let ghost all = features@;
    let mut found: Vec<serde_json::Value> = Vec::new();
    assert(items(found@) =~= locations_of(all.take(0))) by {
        reveal(Seq::filter);
    }
    for f in it: features
        invariant
            it.seq() == all,
            items(found@) == locations_of(all.take(it.index())),
    {
        let ghost before = found@;
        match location(f) {
            Some(v) => {
                found.push(v);
            },
            None => {},
        }
        proof {
            let k = it.index();
            lemma_one_more_feature(all.take(k), f);
            assert(all.take(k + 1) =~= all.take(k).push(f));
            if has_position(f) {
                assert(items(found@) =~= items(before).push(location_of(f)));
            }
        }
    }
    assert(all.take(all.len() as int) =~= all);
    found
}

/// Takes the answer to the request of a lookup: the HTTP status, or the error with which
/// sending failed. Only a status that reports success leaves a body to be read.
pub fn answered(subject: Subject, answer: Result<u16, reqwest::Error>) -> (r: Result<
    Answered,
    GeocodeMcpError,
>)
    ensures
        match r {
            Ok(a) => answer_error(subject@, answer) is None && a@ == subject@,
            Err(e) => answer_error(subject@, answer) == Some(e@),
        },
{
    match answer {
        Err(e) => Err(GeocodeMcpError::Http(e)),
        Ok(status) => {
            if 200 <= status && status < 300 {
                return Ok(Answered { subject });
            }
            let code = decimal_text(status as u64);
            let message = match subject {
                Subject::Name(_, _) => joined("Photon API returned HTTP ", code.as_str()),
                Subject::Point(_, _) => joined("Photon reverse API returned HTTP ", code.as_str()),
            };
            Err(GeocodeMcpError::Geocode(GeocodeError::ApiError(message)))
        },
    }
}

impl Answered {
    /// Takes the body of the answer, or the error with which reading or decoding it failed:
    /// what the lookup comes to.
    pub fn decoded(self, body: Result<PhotonResponse, reqwest::Error>) -> (r: Result<
        serde_json::Value,
        GeocodeMcpError,
    >)
        ensures
            outcome_of(r) == body_outcome(self@, body),
    {
        match body {
            Err(e) => Err(GeocodeMcpError::Http(e)),
            Ok(response) => match self.subject {
                Subject::Name(name, count) => geocode::geocode_found(
                    name.as_str(),
                    count,
                    response,
                ),
                Subject::Point(latitude, longitude) => reverse_geocode::reverse_geocode_found(
                    latitude.as_str(),
                    longitude.as_str(),
                    response,
                ),
            },
        }
    }
}

} // verus!
