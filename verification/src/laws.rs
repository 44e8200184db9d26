//! What holds of the library as a whole.

pub mod numbers;
pub mod replies;
pub mod requests;
pub mod results;
pub mod shapes;

use crate::arguments::{low_bits, requested_count, DEFAULT_COUNT};
use crate::error::ErrorModel;
use crate::json::{
    as_count, double_member, json, member, optional_text, text_member, Json, JsonNumber,
};
use crate::mcp::{CallErrorModel, ToolModel};
use crate::operations::geocode::{clamped, geocode_lookup};
use crate::operations::photon::{
    answer_error, body_outcome, has_position, is_success, lemma_one_more_feature, location_of,
    locations_of, refusal, LookupModel, PhotonFeature, PhotonResponse, SubjectModel,
};
use crate::operations::reverse_geocode::reverse_geocode_lookup;
use crate::schema::{count_property_json, geocode_schema_json, reverse_geocode_schema_json};
use crate::service::{
    advertised, failure_reason, is_invalid_params, public_service, tool_call, tool_of,
    upstream_increment, ServiceModel, UPSTREAM_FAILURES,
};
use crate::text::{blank, decimal, law_decimal_reads_back, string_of};
use crate::tools::{listed_tools, tool_execution};
use vstd::prelude::*;

verus! {

/// What a lookup comes to: an answer that ends it, or else what its body gives.
pub open spec fn lookup_outcome(
    subject: SubjectModel,
    answer: Result<u16, reqwest::Error>,
    body: Result<PhotonResponse, reqwest::Error>,
) -> Result<Json, ErrorModel> {
    match answer_error(subject, answer) {
        Some(e) => Err(e),
        None => body_outcome(subject, body),
    }
}

/// Whether an answer holds what a lookup of such a subject is for: a name needs some match with
/// a position, and a point needs its nearest match to have one.
pub open spec fn resolves(subject: SubjectModel, features: Seq<PhotonFeature>) -> bool {
    match subject {
        SubjectModel::Name(_, _) => exists|i: int|
            0 <= i < features.len() && has_position(#[trigger] features[i]),
        SubjectModel::Point(_, _) => features.len() > 0 && has_position(features[0]),
    }
}

/// Whether `key` is one of the arguments that a schema requires.
pub open spec fn requires_argument(schema: Json, key: Seq<char>) -> bool {
    member(schema, "required"@) matches Some(Json::Array(keys)) && keys.contains(Json::Text(key))
}

/// The name of a tool is not the name of the other.
proof fn lemma_tool_names_differ()
    ensures
        "geocode"@ != "reverse_geocode"@,
{
    reveal_strlit("geocode");
    reveal_strlit("reverse_geocode");
    assert("geocode"@.len() != "reverse_geocode"@.len());
}

/// The names of the members of a location.
pub open spec fn location_members() -> Seq<Seq<char>> {
    seq!["name"@, "latitude"@, "longitude"@, "country"@, "country_code"@, "region"@, "type"@]
}

/// The member names of a location are all different.
proof fn lemma_location_members_differ()
    ensures
        location_members().no_duplicates(),
{
    reveal_strlit("name");
    reveal_strlit("latitude");
    reveal_strlit("longitude");
    reveal_strlit("country");
    reveal_strlit("country_code");
    reveal_strlit("region");
    reveal_strlit("type");
    assert("name"@[0] != "type"@[0]);
    assert("name"@.len() == 4 && "latitude"@.len() == 8 && "longitude"@.len() == 9);
    assert("country"@.len() == 7 && "country_code"@.len() == 12);
    assert("region"@.len() == 6 && "type"@.len() == 4);
}

/// A location has the position of its feature, Photon giving the longitude first and the
/// latitude second, and the properties of its feature, each under its own name. It has no
/// other member.
pub proof fn law_location_shows_its_feature(f: PhotonFeature)
    requires
        has_position(f),
    ensures
        member(location_of(f), "longitude"@) == Some(json(f.geometry.coordinates@[0])),
        member(location_of(f), "latitude"@) == Some(json(f.geometry.coordinates@[1])),
        member(location_of(f), "name"@) == Some(optional_text(string_of(f.properties.name))),
        member(location_of(f), "country"@) == Some(optional_text(string_of(f.properties.country))),
        member(location_of(f), "country_code"@) == Some(
            optional_text(string_of(f.properties.countrycode)),
        ),
        member(location_of(f), "region"@) == Some(optional_text(string_of(f.properties.state))),
        member(location_of(f), "type"@) == Some(optional_text(string_of(f.properties.place_type))),
        forall|key: Seq<char>|
            member(location_of(f), key) is Some ==> #[trigger] location_members().contains(key),
{
    lemma_location_members_differ();
    let names = location_members();
    assert(forall|i: int, j: int| 0 <= i < j < 7 ==> names[i] != names[j]);
    assert(names[0] == "name"@ && names[1] == "latitude"@ && names[2] == "longitude"@);
    assert(names[3] == "country"@ && names[4] == "country_code"@);
    assert(names[5] == "region"@ && names[6] == "type"@);
    assert forall|key: Seq<char>| member(location_of(f), key) is Some implies
        #[trigger] location_members().contains(key) by {
        assert(key == names[0] || key == names[1] || key == names[2] || key == names[3] || key
            == names[4] || key == names[5] || key == names[6]);
    }
}

/// The locations that are found are no more than there are features. Each is the location of a
/// feature with a position, and every feature with a position has its location among them.
pub proof fn law_locations_are_those_with_a_position(features: Seq<PhotonFeature>)
    ensures
        locations_of(features).len() <= features.len(),
        forall|i: int|
            0 <= i < features.len() && has_position(#[trigger] features[i])
                ==> locations_of(features).contains(location_of(features[i])),
        forall|k: int|
            0 <= k < locations_of(features).len() ==> exists|i: int|
                0 <= i < features.len() && has_position(features[i])
                    && #[trigger] locations_of(features)[k] == location_of(
                    #[trigger] features[i],
                ),
    decreases features.len(),
{
    let all = locations_of(features);
    if features.len() == 0 {
        reveal(Seq::filter);
        assert(features.filter(|f: PhotonFeature| has_position(f)).len() == 0);
    } else {
        let front = features.drop_last();
        let last = features.last();
        law_locations_are_those_with_a_position(front);
        lemma_one_more_feature(front, last);
        assert(front.push(last) =~= features);
        assert forall|i: int|
            0 <= i < features.len() && has_position(#[trigger] features[i]) implies all.contains(
            location_of(features[i]),
        ) by {
            if i == features.len() - 1 {
                assert(all.last() == location_of(last));
            } else {
                assert(front[i] == features[i]);
                let k = choose|k: int|
                    0 <= k < locations_of(front).len() && locations_of(front)[k] == location_of(
                        front[i],
                    );
                assert(all[k] == location_of(features[i]));
            }
        }
        assert forall|k: int| 0 <= k < all.len() implies exists|i: int|
            0 <= i < features.len() && has_position(features[i]) && #[trigger] all[k]
                == location_of(#[trigger] features[i]) by {
            if k < locations_of(front).len() {
                let i = choose|i: int|
                    0 <= i < front.len() && has_position(front[i]) && locations_of(front)[k]
                        == location_of(#[trigger] front[i]);
                assert(features[i] == front[i]);
            } else {
                assert(all[k] == location_of(features[features.len() - 1]));
            }
        }
    }
}

/// A lookup has a result exactly when its request was answered with success and with a body
/// that holds what was looked for. Every other lookup ends in an error.
pub proof fn law_lookup_succeeds_when_it_resolves(
    subject: SubjectModel,
    answer: Result<u16, reqwest::Error>,
    body: Result<PhotonResponse, reqwest::Error>,
)
    ensures
        lookup_outcome(subject, answer, body) is Ok <==> {
            &&& answer matches Ok(status)
            &&& is_success(status)
            &&& body matches Ok(response)
            &&& resolves(subject, response.features@)
        },
{
    if let Ok(response) = body {
        let features = response.features@;
        law_locations_are_those_with_a_position(features);
        if locations_of(features).len() > 0 {
            let first = locations_of(features)[0];
            assert(exists|i: int| 0 <= i < features.len() && has_position(#[trigger] features[i]));
        }
    }
}

/// A place name that resolves gives an array with at least one location.
pub proof fn law_found_names_have_locations(
    name: Seq<char>,
    count: u32,
    answer: Result<u16, reqwest::Error>,
    body: Result<PhotonResponse, reqwest::Error>,
)
    ensures
        lookup_outcome(SubjectModel::Name(name, count), answer, body) matches Ok(v) ==> (v matches
            Json::Array(found) && found.len() > 0),
{
}

/// However many matches an answer holds, a place name gives no more locations than were asked
/// for.
pub proof fn law_no_more_than_asked_for(
    name: Seq<char>,
    count: u32,
    answer: Result<u16, reqwest::Error>,
    body: Result<PhotonResponse, reqwest::Error>,
)
    ensures
        lookup_outcome(SubjectModel::Name(name, count), answer, body) matches Ok(v) ==> (v matches
            Json::Array(found) && found.len() <= clamped(count)),
{
}

/// The locations that a place name gives are the first of those with a position, in their
/// order, and none of them is left out unless as many as were asked for have been given.
pub proof fn law_best_matches_are_given(
    name: Seq<char>,
    count: u32,
    status: u16,
    response: PhotonResponse,
)
    requires
        is_success(status),
        locations_of(response.features@).len() > 0,
    ensures
        lookup_outcome(SubjectModel::Name(name, count), Ok(status), Ok(response)) matches Ok(
            Json::Array(found),
        ) && {
            &&& found.is_prefix_of(locations_of(response.features@))
            &&& found.len() == clamped(count) || found == locations_of(response.features@)
        },
{
}

/// However many results are asked for, the request asks for at least one and at most ten, and
/// for just as many as that where it can.
pub proof fn law_limit_stays_in_range(count: u32)
    ensures
        1 <= clamped(count) <= 10,
        1 <= count <= 10 ==> clamped(count) == count,
        clamped(clamped(count)) == clamped(count),
{
}

/// A count that is given as a string of digits asks for as many results as the number does.
pub proof fn law_count_may_be_spelled_out(n: u64)
    ensures
        as_count(Json::Text(decimal(n as nat))) == Some(n),
        as_count(Json::Number(JsonNumber::Unsigned(n))) == Some(n),
{
    law_decimal_reads_back(n);
}

/// A count that is out of range asks for the nearest count in range, and arguments without a
/// usable count ask for five results. A count that does not fit in 32 bits and whose lowest 32
/// bits are below ten asks for what those bits say, and is left out here.
pub proof fn law_count_is_brought_into_range(args: Json)
    requires
        member(args, "count"@) matches Some(v) && as_count(v) matches Some(n) ==> n <= u32::MAX
            || low_bits(n) >= 10,
    ensures
        match member(args, "count"@) {
            Some(v) => match as_count(v) {
                Some(n) => {
                    &&& n < 1 ==> clamped(requested_count(args)) == 1
                    &&& n > 10 ==> clamped(requested_count(args)) == 10
                    &&& 1 <= n <= 10 ==> clamped(requested_count(args)) == n
                },
                None => clamped(requested_count(args)) == 5,
            },
            None => clamped(requested_count(args)) == 5,
        },
{
}

/// A lookup for which no language is wanted is the lookup for which English is.
pub proof fn law_language_defaults_to_english(
    base_url: Seq<char>,
    name: Seq<char>,
    count: u32,
    latitude: Seq<char>,
    longitude: Seq<char>,
)
    ensures
        geocode_lookup(base_url, name, count, None) == geocode_lookup(
            base_url,
            name,
            count,
            Some("en"@),
        ),
        reverse_geocode_lookup(base_url, latitude, longitude, None) == reverse_geocode_lookup(
            base_url,
            latitude,
            longitude,
            Some("en"@),
        ),
{
}

/// The advertised schema of the count says what the lookup does: its bounds are those that a
/// count is brought into, and its default is the count of arguments that name none.
pub proof fn law_schema_states_the_range()
    ensures
        member(count_property_json(), "minimum"@) == Some(
            Json::Number(JsonNumber::Unsigned(clamped(0) as u64)),
        ),
        member(count_property_json(), "maximum"@) == Some(
            Json::Number(JsonNumber::Unsigned(clamped(u32::MAX) as u64)),
        ),
        member(count_property_json(), "default"@) == Some(
            Json::Number(JsonNumber::Unsigned(DEFAULT_COUNT as u64)),
        ),
{
    reveal_strlit("minimum");
    reveal_strlit("maximum");
    reveal_strlit("default");
    reveal_strlit("description");
    assert("minimum"@[1] != "maximum"@[1]);
    assert("minimum"@[0] != "default"@[0]);
    assert("maximum"@[0] != "default"@[0]);
    assert("description"@.len() == 11 && "minimum"@.len() == 7);
    assert("maximum"@.len() == 7 && "default"@.len() == 7);
}

/// The tools that are advertised are the tools that can be called: a call is answered as one of
/// an unknown tool exactly when no advertised tool has that name.
pub proof fn law_advertised_tools_can_be_called(
    service: ServiceModel,
    name: Seq<char>,
    args: Json,
)
    ensures
        (exists|i: int| 0 <= i < advertised().len() && #[trigger] advertised()[i].name == name)
            <==> !(tool_call(service, name, args) matches Err(CallErrorModel::Tool(_))),
{
    lemma_tool_names_differ();
    assert(advertised()[0].name == "geocode"@);
    assert(advertised()[1].name == "reverse_geocode"@);
}

/// A call of a tool that is not advertised is answered with an error of the tool that names it,
/// and not with one about the arguments.
pub proof fn law_unknown_tool_is_named(service: ServiceModel, name: Seq<char>, args: Json)
    requires
        forall|i: int| 0 <= i < advertised().len() ==> #[trigger] advertised()[i].name != name,
    ensures
        tool_call(service, name, args) == Err::<LookupModel, CallErrorModel>(
            CallErrorModel::Tool("tool not found: "@ + name),
        ),
{
    assert(advertised()[0].name == "geocode"@);
    assert(advertised()[1].name == "reverse_geocode"@);
}

/// The schemas require what is named here, and nothing else.
proof fn lemma_required_arguments(key: Seq<char>)
    ensures
        requires_argument(geocode_schema_json(), key) <==> key == "name"@,
        requires_argument(reverse_geocode_schema_json(), key) <==> key == "latitude"@ || key
            == "longitude"@,
{
    let one = seq![Json::Text("name"@)];
    let two = seq![Json::Text("latitude"@), Json::Text("longitude"@)];
    assert(member(geocode_schema_json(), "required"@) == Some(Json::Array(one)));
    assert(member(reverse_geocode_schema_json(), "required"@) == Some(Json::Array(two)));
    assert(one[0] == Json::Text("name"@));
    assert(two[0] == Json::Text("latitude"@) && two[1] == Json::Text("longitude"@));
    assert(one.contains(Json::Text(key)) <==> key == "name"@);
    assert(two.contains(Json::Text(key)) <==> key == "latitude"@ || key == "longitude"@);
}

/// A call without an argument that the advertised schema requires is refused as one with wrong
/// arguments, before anything is sent.
pub proof fn law_required_arguments_are_required(
    service: ServiceModel,
    tool: ToolModel,
    key: Seq<char>,
    args: Json,
)
    requires
        advertised().contains(tool),
        requires_argument(tool.input_schema, key),
        member(args, key) is None,
    ensures
        tool_call(service, tool.name, args) matches Err(CallErrorModel::InvalidParams(_)),
{
    lemma_tool_names_differ();
    lemma_required_arguments(key);
    let i = choose|i: int| 0 <= i < advertised().len() && advertised()[i] == tool;
    assert(i == 0 || i == 1);
}

/// A place name that is empty or all white space is refused as a wrong argument, before
/// anything is sent.
pub proof fn law_blank_names_are_refused(service: ServiceModel, args: Json)
    requires
        text_member(args, "name"@) matches Some(name) && blank(name),
    ensures
        tool_call(service, "geocode"@, args) == Err::<LookupModel, CallErrorModel>(
            CallErrorModel::InvalidParams(
                "Parameter 'name' must not be empty or whitespace-only"@,
            ),
        ),
{
}

/// A call with the arguments that the advertised schema requires, of the types that it gives
/// them, is never refused, unless its place name is blank.
pub proof fn law_sufficient_arguments_are_accepted(service: ServiceModel, args: Json)
    ensures
        text_member(args, "name"@) matches Some(name) && !blank(name) ==> tool_call(
            service,
            "geocode"@,
            args,
        ) is Ok,
        double_member(args, "latitude"@) is Some && double_member(args, "longitude"@) is Some
            ==> tool_call(service, "reverse_geocode"@, args) is Ok,
{
    lemma_tool_names_differ();
}

/// An HTTP status that does not report success is counted as an HTTP error and answered with an
/// error of the tool that names the status.
pub proof fn law_refused_requests_are_counted(subject: SubjectModel, status: u16)
    requires
        !is_success(status),
    ensures
        answer_error(subject, Ok(status)) matches Some(e) && {
            &&& failure_reason(e) == Some("http_error"@)
            &&& !is_invalid_params(e)
            &&& e == ErrorModel::ApiError(refusal(subject) + decimal(status as nat))
        },
{
}

/// A request that could not be sent, or whose body could not be read, is counted as a network
/// fault and answered with an error of the tool.
pub proof fn law_failed_exchanges_are_counted(subject: SubjectModel, fault: reqwest::Error)
    ensures
        answer_error(subject, Err(fault)) matches Some(e) && failure_reason(e) == Some("network"@)
            && !is_invalid_params(e),
        body_outcome(subject, Err(fault)) matches Err(e) && failure_reason(e) == Some("network"@)
            && !is_invalid_params(e),
{
}

/// An answer without a match is a decline and not a fault: it is answered with an error of the
/// tool that reads as not found, and it is not counted.
pub proof fn law_no_match_is_not_counted(subject: SubjectModel, response: PhotonResponse)
    requires
        response.features@.len() == 0,
    ensures
        body_outcome(subject, Ok(response)) matches Err(e) && {
            &&& e is LocationNotFound
            &&& failure_reason(e) is None
            &&& !is_invalid_params(e)
        },
{
    law_locations_are_those_with_a_position(response.features@);
}

/// A failure is counted exactly when it reaches outward: an error that the upstream service
/// answered with, or an exchange that failed. A result, an answer without a match and a mistake
/// of the caller are not counted.
pub proof fn law_only_upstream_faults_are_counted(
    tool: Seq<char>,
    outcome: Result<Json, ErrorModel>,
)
    ensures
        upstream_increment(tool, outcome) is Some <==> (outcome matches Err(e) && (e is ApiError
            || e is Http)),
        outcome matches Err(e) && is_invalid_params(e) ==> upstream_increment(tool, outcome)
            is None,
        outcome matches Err(e) && e is LocationNotFound ==> upstream_increment(tool, outcome)
            is None,
{
}

/// No lookup fails over its arguments: they have been looked at before it started.
pub proof fn law_lookups_do_not_blame_the_caller(
    subject: SubjectModel,
    answer: Result<u16, reqwest::Error>,
    body: Result<PhotonResponse, reqwest::Error>,
)
    ensures
        lookup_outcome(subject, answer, body) matches Err(e) ==> !is_invalid_params(e),
{
}

/// Whatever was looked up and however it ended, a step of the failure counter carries one of
/// two tool names and one of two reasons, and nothing of what the caller gave.
pub proof fn law_counted_labels_hold_no_content(
    subject: SubjectModel,
    outcome: Result<Json, ErrorModel>,
)
    ensures
        upstream_increment(tool_of(subject), outcome) matches Some(i) ==> {
            &&& i.counter == UPSTREAM_FAILURES@
            &&& i.labels.len() == 2
            &&& i.labels[0] == ("tool"@, "geocode"@) || i.labels[0] == (
                "tool"@,
                "reverse_geocode"@,
            )
            &&& i.labels[1] == ("reason"@, "http_error"@) || i.labels[1] == (
                "reason"@,
                "network"@,
            )
        },
{
}

/// The registry and the service take the same calls: for each they start the same lookup, or
/// refuse it for the same reason.
pub proof fn law_registry_takes_the_same_calls(name: Seq<char>, args: Json)
    ensures
        match tool_call(public_service(), name, args) {
            Ok(l) => tool_execution(name, args) == Ok::<LookupModel, ErrorModel>(l),
            Err(CallErrorModel::InvalidParams(s)) => tool_execution(name, args) == Err::<
                LookupModel,
                ErrorModel,
            >(ErrorModel::InvalidToolParameters(s)),
            Err(CallErrorModel::Tool(_)) => tool_execution(name, args) == Err::<
                LookupModel,
                ErrorModel,
            >(ErrorModel::ToolNotFound(name)),
        },
{
}

/// The registry lists the tools that the service advertises, with the same schemas.
pub proof fn law_registry_lists_the_advertised_tools()
    ensures
        listed_tools() matches Json::Array(tools) && {
            &&& tools.len() == advertised().len()
            &&& forall|i: int|
                0 <= i < tools.len() ==> {
                    &&& member(#[trigger] tools[i], "name"@) == Some(
                        Json::Text(advertised()[i].name),
                    )
                    &&& member(tools[i], "inputSchema"@) == Some(advertised()[i].input_schema)
                }
        },
{
    reveal_strlit("name");
    reveal_strlit("description");
    reveal_strlit("inputSchema");
    assert("name"@.len() == 4 && "description"@.len() == 11 && "inputSchema"@.len() == 11);
    assert("description"@[0] != "inputSchema"@[0]);
}

} // verus!
