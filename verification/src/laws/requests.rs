//! What holds of the requests that a tool call leads to, and of the calls that lead to none.

use crate::arguments::{geocode_call, requested_count, reverse_geocode_call};
use crate::http::{get_request, user_agent, CONNECT_TIMEOUT_SECS, REQUEST_TIMEOUT_SECS};
use crate::json::{double_text, Json, JsonNumber};
use crate::laws::numbers::{
    law_one_other_character_is_not_blank, law_white_space_alone_is_blank, listed_white,
};
use crate::mcp::CallErrorModel;
use crate::operations::geocode::{geocode_lookup, geocode_pairs, wanted_language};
use crate::operations::photon::{LookupModel, SubjectModel};
use crate::operations::reverse_geocode::{reverse_geocode_lookup, reverse_geocode_pairs};
use crate::service::{call_of, public_service, tool_call, ServiceModel};
use crate::text::{decimal, parsed_u64};
use crate::tools::{execution_of, tool_execution};
use vstd::prelude::*;

verus! {

/// Whether `limit` is what a query asks for when `count` results are wanted: the number itself
/// in decimal digits, or the bound that it lies beyond.
pub open spec fn asks_for(limit: Seq<char>, count: u32) -> bool {
    &&& count == 0 ==> limit == "1"@
    &&& count == 1 ==> limit == "1"@
    &&& count == 2 ==> limit == "2"@
    &&& count == 3 ==> limit == "3"@
    &&& count == 4 ==> limit == "4"@
    &&& count == 5 ==> limit == "5"@
    &&& count == 6 ==> limit == "6"@
    &&& count == 7 ==> limit == "7"@
    &&& count == 8 ==> limit == "8"@
    &&& count == 9 ==> limit == "9"@
    &&& count >= 10 ==> limit == "10"@
}

/// The digits of the numbers from one to ten.
proof fn lemma_small_decimals()
    ensures
        decimal(1) == "1"@,
        decimal(2) == "2"@,
        decimal(3) == "3"@,
        decimal(4) == "4"@,
        decimal(5) == "5"@,
        decimal(6) == "6"@,
        decimal(7) == "7"@,
        decimal(8) == "8"@,
        decimal(9) == "9"@,
        decimal(10) == "10"@,
{
    reveal_strlit("1");
    reveal_strlit("2");
    reveal_strlit("3");
    reveal_strlit("4");
    reveal_strlit("5");
    reveal_strlit("6");
    reveal_strlit("7");
    reveal_strlit("8");
    reveal_strlit("9");
    reveal_strlit("10");
    reveal_with_fuel(decimal, 2);
    assert(decimal(1) =~= "1"@);
    assert(decimal(2) =~= "2"@);
    assert(decimal(3) =~= "3"@);
    assert(decimal(4) =~= "4"@);
    assert(decimal(5) =~= "5"@);
    assert(decimal(6) =~= "6"@);
    assert(decimal(7) =~= "7"@);
    assert(decimal(8) =~= "8"@);
    assert(decimal(9) =~= "9"@);
    assert(decimal(10) =~= "10"@);
}

/// Every request goes out under the name and version of this package.
pub proof fn law_requests_say_who_asks()
    ensures
        user_agent() == "geocode-mcp/0.1.0"@,
{
    reveal_strlit("geocode-mcp/");
    reveal_strlit("0.1.0");
    reveal_strlit("geocode-mcp/0.1.0");
    assert(user_agent() =~= "geocode-mcp/0.1.0"@);
}

/// The query for a place name is the whole name as it was given, the number of results, and the
/// language that was given or English, in this order and with nothing else.
pub proof fn law_query_holds_the_whole_name(
    name: Seq<char>,
    count: u32,
    language: Option<Seq<char>>,
)
    ensures
        geocode_pairs(name, count, language).len() == 3,
        geocode_pairs(name, count, language)[0] == ("q"@, name),
        geocode_pairs(name, count, language)[1].0 == "limit"@,
        asks_for(geocode_pairs(name, count, language)[1].1, count),
        geocode_pairs(name, count, language)[2].0 == "lang"@,
        language matches Some(l) ==> geocode_pairs(name, count, language)[2].1 == l,
        language is None ==> geocode_pairs(name, count, language)[2].1 == "en"@,
{
    lemma_small_decimals();
}

/// Lookups of different names, for different languages, or for numbers of results that differ
/// within the range, have different queries.
pub proof fn law_different_names_are_asked_for_differently(
    name: Seq<char>,
    count: u32,
    language: Seq<char>,
    other_name: Seq<char>,
    other_count: u32,
    other_language: Seq<char>,
)
    requires
        geocode_pairs(name, count, Some(language)) == geocode_pairs(
            other_name,
            other_count,
            Some(other_language),
        ),
    ensures
        name == other_name,
        language == other_language,
        1 <= count <= 10 && 1 <= other_count <= 10 ==> count == other_count,
{
    let q = geocode_pairs(name, count, Some(language));
    let p = geocode_pairs(other_name, other_count, Some(other_language));
    assert(q[0].1 == p[0].1 && q[1].1 == p[1].1 && q[2].1 == p[2].1);
    if 1 <= count <= 10 && 1 <= other_count <= 10 {
        crate::text::law_decimal_reads_back(count as u64);
        crate::text::law_decimal_reads_back(other_count as u64);
    }
}

/// The query for a point is its latitude, its longitude, and the language that was given or
/// English, in this order and with nothing else.
pub proof fn law_query_holds_the_point(
    latitude: Seq<char>,
    longitude: Seq<char>,
    language: Option<Seq<char>>,
)
    ensures
        reverse_geocode_pairs(latitude, longitude, language).len() == 3,
        reverse_geocode_pairs(latitude, longitude, language)[0] == ("lat"@, latitude),
        reverse_geocode_pairs(latitude, longitude, language)[1] == ("lon"@, longitude),
        reverse_geocode_pairs(latitude, longitude, language)[2].0 == "lang"@,
        language matches Some(l) ==> reverse_geocode_pairs(latitude, longitude, language)[2].1 == l,
        language is None ==> reverse_geocode_pairs(latitude, longitude, language)[2].1 == "en"@,
        language matches Some(l) ==> wanted_language(language) == l,
        language is None ==> wanted_language(language) == "en"@,
{
}

/// A started lookup is about what it was started for, and its request is the one for the given
/// address, with the query of that subject and under the name of this package.
pub proof fn law_lookups_ask_for_their_subject(
    base_url: Seq<char>,
    name: Seq<char>,
    count: u32,
    latitude: Seq<char>,
    longitude: Seq<char>,
    language: Option<Seq<char>>,
)
    ensures
        geocode_lookup(base_url, name, count, language) == (LookupModel {
            subject: SubjectModel::Name(name, count),
            request: get_request(
                base_url,
                geocode_pairs(name, count, language),
                "geocode-mcp/0.1.0"@,
            ),
        }),
        reverse_geocode_lookup(base_url, latitude, longitude, language) == (LookupModel {
            subject: SubjectModel::Point(latitude, longitude),
            request: get_request(
                base_url,
                reverse_geocode_pairs(latitude, longitude, language),
                "geocode-mcp/0.1.0"@,
            ),
        }),
{
    law_requests_say_who_asks();
}

/// The number of results that the arguments ask for is the number under `count`, cut to 32 bits,
/// whether it is given as a number or as a text that reads as one. Without either it is five.
pub proof fn law_count_is_the_one_given(
    m: Map<Seq<char>, Json>,
    n: u64,
    text: Seq<char>,
    other: Json,
)
    ensures
        !(other is Object) ==> requested_count(other) == 5,
        m.contains_key("count"@) && m["count"@] == Json::Number(JsonNumber::Unsigned(n))
            ==> requested_count(Json::Object(m)) == n % 4294967296,
        m.contains_key("count"@) && m["count"@] == Json::Text(text) && parsed_u64(text) == Some(n)
            ==> requested_count(Json::Object(m)) == n % 4294967296,
        m.contains_key("count"@) && m["count"@] == Json::Text(text) && parsed_u64(text) is None
            ==> requested_count(Json::Object(m)) == 5,
        m.contains_key("count"@) && !(m["count"@] is Text) && !(m["count"@] matches Json::Number(
            JsonNumber::Unsigned(_),
        )) ==> requested_count(Json::Object(m)) == 5,
        !m.contains_key("count"@) ==> requested_count(Json::Object(m)) == 5,
{
}

/// A name with at least one character that is not white space is accepted, whatever the other
/// characters and arguments are. The lookup that is started is about that name and sends the
/// query that is given back: the whole name, the number of results that the arguments ask for,
/// and their language, or English where they name none as a text.
pub proof fn law_names_are_looked_up(
    service: ServiceModel,
    m: Map<Seq<char>, Json>,
    name: Seq<char>,
    i: int,
) -> (q: Seq<(Seq<char>, Seq<char>)>)
    requires
        m.contains_key("name"@),
        m["name"@] == Json::Text(name),
        0 <= i < name.len(),
        !listed_white(name[i]),
    ensures
        tool_call(service, "geocode"@, Json::Object(m)) == Ok::<LookupModel, CallErrorModel>(
            (LookupModel {
                subject: SubjectModel::Name(name, requested_count(Json::Object(m))),
                request: get_request(service.geocode_base_url, q, "geocode-mcp/0.1.0"@),
            }),
        ),
        q.len() == 3,
        q[0] == ("q"@, name),
        q[1].0 == "limit"@,
        asks_for(q[1].1, requested_count(Json::Object(m))),
        q[2].0 == "lang"@,
        m.contains_key("language"@) && m["language"@] is Text ==> Json::Text(q[2].1)
            == m["language"@],
        !(m.contains_key("language"@) && m["language"@] is Text) ==> q[2].1 == "en"@,
{
    law_one_other_character_is_not_blank(name, i);
    law_requests_say_who_asks();
    let language = crate::json::text_member(Json::Object(m), "language"@);
    let count = requested_count(Json::Object(m));
    law_query_holds_the_whole_name(name, count, language);
    geocode_pairs(name, count, language)
}

/// A geocode call is refused, and nothing is sent, where its arguments are no object, where they
/// hold no text under `name`, and where every character of that text is white space. The
/// error says which.
pub proof fn law_names_are_refused(service: ServiceModel, args: Json)
    ensures
        !(args is Object) ==> tool_call(service, "geocode"@, args) == Err::<
            LookupModel,
            CallErrorModel,
        >(CallErrorModel::InvalidParams("Missing required parameter: name"@)),
        args matches Json::Object(m) && !(m.contains_key("name"@) && m["name"@] is Text)
            ==> tool_call(service, "geocode"@, args) == Err::<LookupModel, CallErrorModel>(
            CallErrorModel::InvalidParams("Missing required parameter: name"@),
        ),
        args matches Json::Object(m) && m.contains_key("name"@) && m["name"@] is Text && (forall|
            i: int,
        |
            0 <= i < m["name"@]->Text_0.len() ==> listed_white(#[trigger] m["name"@]->Text_0[i]))
            ==> tool_call(service, "geocode"@, args) == Err::<LookupModel, CallErrorModel>(
            CallErrorModel::InvalidParams(
                "Parameter 'name' must not be empty or whitespace-only"@,
            ),
        ),
{
    if let Json::Object(m) = args {
        if m.contains_key("name"@) {
            if let Json::Text(name) = m["name"@] {
                if forall|i: int| 0 <= i < name.len() ==> listed_white(#[trigger] name[i]) {
                    law_white_space_alone_is_blank(name);
                }
            }
        }
    }
}

/// Numbers under `latitude` and `longitude` are accepted, whatever they are. The lookup that is
/// started is about that point and sends the query that is given back: the texts of the two
/// numbers, each under its own name, and the language of the arguments, or English where they
/// name none as a text.
pub proof fn law_points_are_looked_up(
    service: ServiceModel,
    m: Map<Seq<char>, Json>,
    latitude: JsonNumber,
    longitude: JsonNumber,
) -> (q: Seq<(Seq<char>, Seq<char>)>)
    requires
        m.contains_key("latitude"@),
        m["latitude"@] == Json::Number(latitude),
        m.contains_key("longitude"@),
        m["longitude"@] == Json::Number(longitude),
    ensures
        tool_call(service, "reverse_geocode"@, Json::Object(m)) == Ok::<
            LookupModel,
            CallErrorModel,
        >(
            (LookupModel {
                subject: SubjectModel::Point(double_text(latitude), double_text(longitude)),
                request: get_request(service.reverse_geocode_base_url, q, "geocode-mcp/0.1.0"@),
            }),
        ),
        q.len() == 3,
        q[0] == ("lat"@, double_text(latitude)),
        q[1] == ("lon"@, double_text(longitude)),
        q[2].0 == "lang"@,
        m.contains_key("language"@) && m["language"@] is Text ==> Json::Text(q[2].1)
            == m["language"@],
        !(m.contains_key("language"@) && m["language"@] is Text) ==> q[2].1 == "en"@,
{
    crate::laws::lemma_tool_names_differ();
    law_requests_say_who_asks();
    let language = crate::json::text_member(Json::Object(m), "language"@);
    reverse_geocode_pairs(double_text(latitude), double_text(longitude), language)
}

/// A reverse geocode call is refused, and nothing is sent, where its arguments are no object and
/// where they hold no number under `latitude` or under `longitude`. The error names the one that
/// is missing, and the latitude where both are.
pub proof fn law_points_are_refused(service: ServiceModel, args: Json)
    ensures
        !(args is Object) ==> tool_call(service, "reverse_geocode"@, args) == Err::<
            LookupModel,
            CallErrorModel,
        >(CallErrorModel::InvalidParams("Missing required parameter: latitude"@)),
        args matches Json::Object(m) && !(m.contains_key("latitude"@) && m["latitude"@] is Number)
            ==> tool_call(service, "reverse_geocode"@, args) == Err::<LookupModel, CallErrorModel>(
            CallErrorModel::InvalidParams("Missing required parameter: latitude"@),
        ),
        args matches Json::Object(m) && m.contains_key("latitude"@) && m["latitude"@] is Number
            && !(m.contains_key("longitude"@) && m["longitude"@] is Number) ==> tool_call(
            service,
            "reverse_geocode"@,
            args,
        ) == Err::<LookupModel, CallErrorModel>(
            CallErrorModel::InvalidParams("Missing required parameter: longitude"@),
        ),
{
    crate::laws::lemma_tool_names_differ();
}

/// Any name but those of the two tools is answered with an error of the tool that repeats it.
pub proof fn law_other_names_are_no_tools(service: ServiceModel, name: Seq<char>, args: Json)
    requires
        name != "geocode"@,
        name != "reverse_geocode"@,
    ensures
        tool_call(service, name, args) == Err::<LookupModel, CallErrorModel>(
            CallErrorModel::Tool("tool not found: "@ + name),
        ),
        tool_execution(name, args) == Err::<LookupModel, crate::error::ErrorModel>(
            crate::error::ErrorModel::ToolNotFound(name),
        ),
{
}

/// However a tool is reached, by name or directly, by the service or by the registry, the same
/// arguments start the same lookup or are refused with the same text.
pub proof fn law_tools_start_the_same_either_way(service: ServiceModel, args: Json)
    ensures
        match geocode_call(service.geocode_base_url, args) {
            Ok(l) => {
                &&& tool_call(service, "geocode"@, args) == Ok::<LookupModel, CallErrorModel>(l)
                &&& call_of(geocode_call(service.geocode_base_url, args)) == Ok::<
                    LookupModel,
                    CallErrorModel,
                >(l)
                &&& execution_of(geocode_call(service.geocode_base_url, args)) == Ok::<
                    LookupModel,
                    crate::error::ErrorModel,
                >(l)
            },
            Err(s) => {
                &&& tool_call(service, "geocode"@, args) == Err::<LookupModel, CallErrorModel>(
                    CallErrorModel::InvalidParams(s),
                )
                &&& call_of(geocode_call(service.geocode_base_url, args)) == Err::<
                    LookupModel,
                    CallErrorModel,
                >(CallErrorModel::InvalidParams(s))
                &&& execution_of(geocode_call(service.geocode_base_url, args)) == Err::<
                    LookupModel,
                    crate::error::ErrorModel,
                >(crate::error::ErrorModel::InvalidToolParameters(s))
            },
        },
        match reverse_geocode_call(service.reverse_geocode_base_url, args) {
            Ok(l) => {
                &&& tool_call(service, "reverse_geocode"@, args) == Ok::<
                    LookupModel,
                    CallErrorModel,
                >(l)
                &&& call_of(reverse_geocode_call(service.reverse_geocode_base_url, args)) == Ok::<
                    LookupModel,
                    CallErrorModel,
                >(l)
                &&& execution_of(reverse_geocode_call(service.reverse_geocode_base_url, args))
                    == Ok::<LookupModel, crate::error::ErrorModel>(l)
            },
            Err(s) => {
                &&& tool_call(service, "reverse_geocode"@, args) == Err::<
                    LookupModel,
                    CallErrorModel,
                >(CallErrorModel::InvalidParams(s))
                &&& call_of(reverse_geocode_call(service.reverse_geocode_base_url, args)) == Err::<
                    LookupModel,
                    CallErrorModel,
                >(CallErrorModel::InvalidParams(s))
                &&& execution_of(reverse_geocode_call(service.reverse_geocode_base_url, args))
                    == Err::<LookupModel, crate::error::ErrorModel>(
                    crate::error::ErrorModel::InvalidToolParameters(s),
                )
            },
        },
{
    crate::laws::lemma_tool_names_differ();
}

/// Built with its defaults, a service asks the public Photon API and gives an exchange ten
/// seconds, of which five for connecting.
pub proof fn law_defaults_are_the_public_ones()
    ensures
        REQUEST_TIMEOUT_SECS == 10,
        CONNECT_TIMEOUT_SECS == 5,
        public_service() == (ServiceModel {
            limits: (10, 5),
            geocode_base_url: "https://photon.komoot.io/api/"@,
            reverse_geocode_base_url: "https://photon.komoot.io/reverse"@,
        }),
        crate::operations::geocode::PHOTON_API_URL@ == "https://photon.komoot.io/api/"@,
        crate::operations::reverse_geocode::PHOTON_REVERSE_URL@
            == "https://photon.komoot.io/reverse"@,
{
}

} // verus!
