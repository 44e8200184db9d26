//! The arguments of the two tools: from the JSON that a caller gives to a lookup.

use crate::json::{
    as_count, double_argument, double_member, get, json, member, string_argument, text_member,
    value_as_u64, Json,
};
use crate::operations::geocode::{geocode_location_with_base, geocode_lookup};
use crate::operations::photon::{Lookup, LookupModel};
use crate::operations::reverse_geocode::{
    reverse_geocode_location_with_base, reverse_geocode_lookup,
};
use crate::text::{blank, is_blank};
use vstd::prelude::*;

verus! {

/// The number of results that a caller who names no usable number gets.
pub const DEFAULT_COUNT: u32 = 5;

/// `n` cut to its lowest 32 bits.
pub open spec fn low_bits(n: u64) -> u32 {
    (n % 0x1_0000_0000) as u32
}

/// The number of results that the arguments ask for.
pub open spec fn requested_count(args: Json) -> u32 {
    match member(args, "count"@) {
        Some(v) => match as_count(v) {
            Some(n) => low_bits(n),
            None => DEFAULT_COUNT,
        },
        None => DEFAULT_COUNT,
    }
}

/// The lookup that `geocode` starts for these arguments, or what is wrong with them.
pub open spec fn geocode_call(base_url: Seq<char>, args: Json) -> Result<LookupModel, Seq<char>> {
    match text_member(args, "name"@) {
        None => Err("Missing required parameter: name"@),
        Some(name) => if blank(name) {
            Err("Parameter 'name' must not be empty or whitespace-only"@)
        } else {
            Ok(
                geocode_lookup(
                    base_url,
                    name,
                    requested_count(args),
                    text_member(args, "language"@),
                ),
            )
        },
    }
}

/// The lookup that `reverse_geocode` starts for these arguments, or what is wrong with them.
pub open spec fn reverse_geocode_call(base_url: Seq<char>, args: Json) -> Result<
    LookupModel,
    Seq<char>,
> {
    match (double_member(args, "latitude"@), double_member(args, "longitude"@)) {
        (None, _) => Err("Missing required parameter: latitude"@),
        (_, None) => Err("Missing required parameter: longitude"@),
        (Some(latitude), Some(longitude)) => Ok(
            reverse_geocode_lookup(
                base_url,
                latitude,
                longitude,
                text_member(args, "language"@),
            ),
        ),
    }
}

/// What starting a lookup came to: the lookup, or what is wrong with the arguments.
pub open spec fn started(r: Result<Lookup, String>) -> Result<LookupModel, Seq<char>> {
    match r {
        Ok(l) => Ok(l@),
        Err(s) => Err(s@),
    }
}

/// The number of results that the arguments ask for.
pub fn count_argument(args: &serde_json::Value) -> (count: u32)
    ensures
        count == requested_count(json(*args)),
{
    match get(args, "count") {
        Some(v) => match value_as_u64(v) {
            Some(n) => {
                assert(n as u32 == (n % 0x1_0000_0000) as u32) by (bit_vector);
                #[verifier::truncate]
                (n as u32)
            },
            None => DEFAULT_COUNT,
        },
        None => DEFAULT_COUNT,
    }
}

/// Starts the lookup that `geocode` makes for these arguments, or says what is wrong with them.
pub fn start_geocode(client: &reqwest::Client, base_url: &str, args: &serde_json::Value) -> (r:
    Result<Lookup, String>)
    ensures
        started(r) == geocode_call(base_url@, json(*args)),
{
    let name = match string_argument(args, "name") {
        Some(name) => name,
        None => return Err("Missing required parameter: name".to_string()),
    };
    if is_blank(name) {
        return Err("Parameter 'name' must not be empty or whitespace-only".to_string());
    }
    let count = count_argument(args);
    let language = string_argument(args, "language");
    Ok(geocode_location_with_base(client, base_url, name, count, language))
}

/// Starts the lookup that `reverse_geocode` makes for these arguments, or says what is wrong
/// with them.
pub fn start_reverse_geocode(
    client: &reqwest::Client,
    base_url: &str,
    args: &serde_json::Value,
) -> (r: Result<Lookup, String>)
    ensures
        started(r) == reverse_geocode_call(base_url@, json(*args)),
{
    let latitude = match double_argument(args, "latitude") {
        Some(latitude) => latitude,
        None => return Err("Missing required parameter: latitude".to_string()),
    };
    let longitude = match double_argument(args, "longitude") {
        Some(longitude) => longitude,
        None => return Err("Missing required parameter: longitude".to_string()),
    };
    let language = string_argument(args, "language");
    Ok(
        reverse_geocode_location_with_base(
            client,
            base_url,
            latitude.as_str(),
            longitude.as_str(),
            language,
        ),
    )
}

} // verus!
