//! What holds of the result of a lookup, given what Photon answers.

use crate::error::ErrorModel;
use crate::json::{json, Json};
use crate::laws::{law_location_shows_its_feature, lookup_outcome};
use crate::operations::geocode::geocode_outcome;
use crate::operations::photon::{
    answer_error, body_outcome, has_position, is_success, lemma_one_more_feature, location_of,
    locations_of, PhotonFeature, PhotonResponse, SubjectModel,
};
use crate::operations::reverse_geocode::reverse_geocode_outcome;
use crate::text::decimal;
use vstd::prelude::*;

verus! {

/// Whether `v` says what an optional property says: its text, or `null`.
pub open spec fn says(v: Json, property: Option<String>) -> bool {
    match property {
        Some(s) => v == Json::Text(s@),
        None => v == Json::Null,
    }
}

/// Whether `v` is an object that shows the feature `f`: each of its properties and both of its
/// coordinates under the name of that member, the first coordinate being the longitude, and
/// nothing else.
pub open spec fn shows(v: Json, f: PhotonFeature) -> bool {
    v matches Json::Object(m) && {
        &&& m.contains_key("name"@) && says(m["name"@], f.properties.name)
        &&& m.contains_key("latitude"@) && m["latitude"@] == json(f.geometry.coordinates@[1])
        &&& m.contains_key("longitude"@) && m["longitude"@] == json(f.geometry.coordinates@[0])
        &&& m.contains_key("country"@) && says(m["country"@], f.properties.country)
        &&& m.contains_key("country_code"@) && says(m["country_code"@], f.properties.countrycode)
        &&& m.contains_key("region"@) && says(m["region"@], f.properties.state)
        &&& m.contains_key("type"@) && says(m["type"@], f.properties.place_type)
        &&& forall|key: Seq<char>| #[trigger]
            m.contains_key(key) ==> key == "name"@ || key == "latitude"@ || key == "longitude"@
                || key == "country"@ || key == "country_code"@ || key == "region"@ || key
                == "type"@
    }
}

/// Which features have a location depends on their coordinates alone: those with two or more.
/// The location shows the feature, whatever its properties are.
pub proof fn law_coordinates_alone_decide(f: PhotonFeature)
    ensures
        has_position(f) <==> f.geometry.coordinates@.len() >= 2,
        f.geometry.coordinates@.len() >= 2 ==> shows(location_of(f), f),
{
    if f.geometry.coordinates@.len() >= 2 {
        law_location_shows_its_feature(f);
    }
}

/// The positions of the features that have a location are those with two or more coordinates.
/// The locations stand in the same order and are as many.
pub proof fn law_every_match_with_coordinates_is_found(features: Seq<PhotonFeature>) -> (kept: Seq<
    int,
>)
    ensures
        forall|a: int, b: int| 0 <= a < b < kept.len() ==> kept[a] < kept[b],
        forall|k: int|
            0 <= k < kept.len() ==> 0 <= #[trigger] kept[k] < features.len()
                && features[kept[k]].geometry.coordinates@.len() >= 2,
        forall|i: int|
            0 <= i < features.len() && #[trigger] features[i].geometry.coordinates@.len() >= 2
                ==> kept.contains(i),
        locations_of(features).len() == kept.len(),
        forall|k: int|
            0 <= k < kept.len() ==> shows(
                #[trigger] locations_of(features)[k],
                features[kept[k]],
            ),
    decreases features.len(),
{
    if features.len() == 0 {
        reveal(Seq::filter);
        assert(features.filter(|f: PhotonFeature| has_position(f)).len() == 0);
        Seq::<int>::empty()
    } else {
        let front = features.drop_last();
        let last = features.last();
        let n = front.len() as int;
        let before = law_every_match_with_coordinates_is_found(front);
        lemma_one_more_feature(front, last);
        assert(front.push(last) =~= features);
        law_coordinates_alone_decide(last);
        let kept = if last.geometry.coordinates@.len() >= 2 {
            before.push(n)
        } else {
            before
        };
        assert forall|k: int| 0 <= k < kept.len() implies 0 <= #[trigger] kept[k] < features.len()
            && features[kept[k]].geometry.coordinates@.len() >= 2 by {
            if k < before.len() {
                assert(features[before[k]] == front[before[k]]);
            }
        }
        assert forall|i: int|
            0 <= i < features.len()
                && #[trigger] features[i].geometry.coordinates@.len() >= 2 implies kept.contains(
            i,
        ) by {
            if i == n {
                assert(kept[before.len() as int] == n);
            } else {
                assert(front[i] == features[i]);
                let k = choose|k: int| 0 <= k < before.len() && before[k] == i;
                assert(kept[k] == i);
            }
        }
        assert forall|k: int| 0 <= k < kept.len() implies shows(
            #[trigger] locations_of(features)[k],
            features[kept[k]],
        ) by {
            if k < before.len() {
                assert(locations_of(features)[k] == locations_of(front)[k]);
                assert(features[before[k]] == front[before[k]]);
            } else {
                assert(locations_of(features)[k] == location_of(last));
            }
        }
        kept
    }
}

/// What a place name comes to when its request is answered with success. The matches with two or
/// more coordinates stand at the positions that are given back. Without any, the name was not
/// found. Otherwise the result shows the first of them in their order, one location for each:
/// never more than ten, never more than were wanted (one, where none were), and none is left out
/// before that many are there.
pub proof fn law_names_resolve_to_their_matches(
    name: Seq<char>,
    count: u32,
    status: u16,
    response: PhotonResponse,
) -> (kept: Seq<int>)
    requires
        200 <= status <= 299,
    ensures
        forall|a: int, b: int| 0 <= a < b < kept.len() ==> kept[a] < kept[b],
        forall|k: int|
            0 <= k < kept.len() ==> 0 <= #[trigger] kept[k] < response.features@.len()
                && response.features@[kept[k]].geometry.coordinates@.len() >= 2,
        forall|i: int|
            0 <= i < response.features@.len()
                && #[trigger] response.features@[i].geometry.coordinates@.len() >= 2
                ==> kept.contains(i),
        kept.len() == 0 ==> lookup_outcome(
            SubjectModel::Name(name, count),
            Ok(status),
            Ok(response),
        ) == Err::<Json, ErrorModel>(
            ErrorModel::LocationNotFound("No locations found for: "@ + name),
        ),
        kept.len() > 0 ==> (lookup_outcome(
            SubjectModel::Name(name, count),
            Ok(status),
            Ok(response),
        ) matches Ok(Json::Array(found)) && {
            &&& 1 <= found.len() <= 10
            &&& found.len() <= kept.len()
            &&& count == 0 ==> found.len() == 1
            &&& count > 0 ==> found.len() <= count
            &&& count > 0 && found.len() < kept.len() ==> found.len() == 10 || found.len() == count
            &&& forall|k: int|
                0 <= k < found.len() ==> shows(#[trigger] found[k], response.features@[kept[k]])
        }),
{
    let kept = law_every_match_with_coordinates_is_found(response.features@);
    if let Ok(Json::Array(found)) = lookup_outcome(
        SubjectModel::Name(name, count),
        Ok(status),
        Ok(response),
    ) {
        assert forall|k: int| 0 <= k < found.len() implies shows(
            #[trigger] found[k],
            response.features@[kept[k]],
        ) by {
            assert(found[k] == locations_of(response.features@)[k]);
        }
    }
    kept
}

/// What a point comes to when its request is answered with success: the location that shows the
/// first match, which is the nearest, whatever the others are. Without a match nothing was
/// found there, and a first match with fewer than two coordinates is an error of the API.
pub proof fn law_points_resolve_to_the_nearest_match(
    latitude: Seq<char>,
    longitude: Seq<char>,
    status: u16,
    response: PhotonResponse,
)
    requires
        200 <= status <= 299,
    ensures
        response.features@.len() > 0 && response.features@[0].geometry.coordinates@.len() >= 2
            ==> (lookup_outcome(
            SubjectModel::Point(latitude, longitude),
            Ok(status),
            Ok(response),
        ) matches Ok(v) && shows(v, response.features@[0])),
        response.features@.len() > 0 && response.features@[0].geometry.coordinates@.len() < 2
            ==> lookup_outcome(
            SubjectModel::Point(latitude, longitude),
            Ok(status),
            Ok(response),
        ) == Err::<Json, ErrorModel>(
            ErrorModel::ApiError("Photon reverse API returned feature without coordinates"@),
        ),
        response.features@.len() == 0 ==> lookup_outcome(
            SubjectModel::Point(latitude, longitude),
            Ok(status),
            Ok(response),
        ) == Err::<Json, ErrorModel>(
            ErrorModel::LocationNotFound(
                "No location found for coordinates: "@ + latitude + ", "@ + longitude,
            ),
        ),
{
    if response.features@.len() > 0 {
        law_coordinates_alone_decide(response.features@[0]);
    }
}

/// A status from 200 to 299, and no other, leaves the body to be read. Any other ends the lookup
/// with an error of the API that says which endpoint it was and gives the status.
pub proof fn law_other_statuses_end_a_lookup(
    name: Seq<char>,
    count: u32,
    latitude: Seq<char>,
    longitude: Seq<char>,
    status: u16,
)
    ensures
        is_success(status) <==> 200 <= status <= 299,
        200 <= status <= 299 ==> answer_error(SubjectModel::Name(name, count), Ok(status)) is None,
        200 <= status <= 299 ==> answer_error(
            SubjectModel::Point(latitude, longitude),
            Ok(status),
        ) is None,
        !(200 <= status <= 299) ==> answer_error(SubjectModel::Name(name, count), Ok(status))
            == Some(
            ErrorModel::ApiError("Photon API returned HTTP "@ + decimal(status as nat)),
        ),
        !(200 <= status <= 299) ==> answer_error(
            SubjectModel::Point(latitude, longitude),
            Ok(status),
        ) == Some(
            ErrorModel::ApiError("Photon reverse API returned HTTP "@ + decimal(status as nat)),
        ),
{
}

/// An exchange that fails ends the lookup with just that fault, whether the request could not be
/// sent or the body could not be read. What was not sent successfully has no body to speak of.
pub proof fn law_faults_end_a_lookup(
    subject: SubjectModel,
    fault: reqwest::Error,
    status: u16,
    body: Result<PhotonResponse, reqwest::Error>,
)
    ensures
        answer_error(subject, Err(fault)) == Some(ErrorModel::Http(fault)),
        body_outcome(subject, Err(fault)) == Err::<Json, ErrorModel>(ErrorModel::Http(fault)),
        lookup_outcome(subject, Err(fault), body) == Err::<Json, ErrorModel>(
            ErrorModel::Http(fault),
        ),
        200 <= status <= 299 ==> lookup_outcome(subject, Ok(status), Err(fault)) == Err::<
            Json,
            ErrorModel,
        >(ErrorModel::Http(fault)),
        200 <= status <= 299 ==> lookup_outcome(subject, Ok(status), body) == body_outcome(
            subject,
            body,
        ),
{
}

/// What a body comes to is what its matches come to for the subject of the lookup.
pub proof fn law_bodies_are_read_for_their_subject(
    name: Seq<char>,
    count: u32,
    latitude: Seq<char>,
    longitude: Seq<char>,
    response: PhotonResponse,
)
    ensures
        body_outcome(SubjectModel::Name(name, count), Ok(response)) == geocode_outcome(
            name,
            count,
            response.features@,
        ),
        body_outcome(SubjectModel::Point(latitude, longitude), Ok(response))
            == reverse_geocode_outcome(latitude, longitude, response.features@),
{
}

/// One more match behind the others changes nothing for a point that has a match already.
pub proof fn law_farther_matches_do_not_matter(
    latitude: Seq<char>,
    longitude: Seq<char>,
    features: Seq<PhotonFeature>,
    farther: PhotonFeature,
)
    requires
        features.len() > 0,
    ensures
        reverse_geocode_outcome(latitude, longitude, features.push(farther))
            == reverse_geocode_outcome(latitude, longitude, features),
{
    assert(features.push(farther)[0] == features[0]);
}

} // verus!
