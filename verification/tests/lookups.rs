use geocode_mcp::error::{GeocodeError, GeocodeMcpError};
use geocode_mcp::operations::geocode::{
    geocode_found, geocode_location, geocode_location_with_base, geocode_query,
};
use geocode_mcp::operations::photon::{
    answered, location, locations, PhotonFeature, PhotonGeometry, PhotonProperties, PhotonResponse,
    Subject,
};
use geocode_mcp::operations::reverse_geocode::{
    reverse_geocode_found, reverse_geocode_location, reverse_geocode_location_with_base,
    reverse_geocode_query,
};
use serde_json::Value;

const LONDON: &str = r#"{
    "features": [{
        "properties": {
            "name": "London",
            "country": "United Kingdom",
            "countrycode": "GB",
            "state": "England",
            "type": "city"
        },
        "geometry": {"coordinates": [-0.1278, 51.5074]}
    }]
}"#;

fn text(v: &Value, key: &str) -> Option<String> {
    v.get(key).and_then(Value::as_str).map(str::to_string)
}

/// Reads the body of an answer.
fn photon(body: &str) -> PhotonResponse {
    let body: Value = serde_json::from_str(body).expect("valid JSON");
    let features = body["features"].as_array().expect("features");
    PhotonResponse {
        features: features
            .iter()
            .map(|f| PhotonFeature {
                properties: PhotonProperties {
                    name: text(&f["properties"], "name"),
                    country: text(&f["properties"], "country"),
                    countrycode: text(&f["properties"], "countrycode"),
                    state: text(&f["properties"], "state"),
                    place_type: text(&f["properties"], "type"),
                },
                geometry: PhotonGeometry {
                    coordinates: f["geometry"]["coordinates"]
                        .as_array()
                        .expect("coordinates")
                        .clone(),
                },
            })
            .collect(),
    }
}

/// Carries a lookup out against an upstream that answers with `status` and `body`.
fn carry_out(subject: Subject, status: u16, body: &str) -> Result<Value, GeocodeMcpError> {
    let pending = answered(subject, Ok(status))?;
    pending.decoded(Ok(photon(body)))
}

fn name(n: &str) -> Subject {
    let client = reqwest::Client::new();
    let lookup = geocode_location_with_base(&client, "http://127.0.0.1:9/api/", n, 5, None);
    assert!(lookup.request.is_ok());
    lookup.subject
}

fn point() -> Subject {
    let client = reqwest::Client::new();
    let (latitude, longitude) = (51.5074f64.to_string(), (-0.1278f64).to_string());
    let base = "http://127.0.0.1:9/reverse";
    let lookup = reverse_geocode_location_with_base(&client, base, &latitude, &longitude, None);
    assert!(lookup.request.is_ok());
    lookup.subject
}

fn synthetic_reqwest_error() -> reqwest::Error {
    reqwest::Client::new()
        .get("not a valid url")
        .build()
        .expect_err("a malformed url must fail to build, with no network access")
}

/// Zero-feature response must produce a LocationNotFound error.
#[test]
fn test_geocode_empty_features_is_location_not_found() {
    let result = carry_out(name("Atlantis"), 200, r#"{"features":[]}"#);
    assert!(result.is_err(), "expected LocationNotFound error");
    let err = result.unwrap_err().to_string();
    assert!(
        err.to_lowercase().contains("not found"),
        "expected 'not found' in error, got: {err}"
    );
    assert_eq!(err, "Location not found: No locations found for: Atlantis");
}

/// A feature with too few coordinates is left out, which leaves no location here.
#[test]
fn test_geocode_missing_coordinates_filtered_out() {
    let result = carry_out(
        name("Broken"),
        200,
        r#"{
            "features": [
                {
                    "properties": {"name": "Broken", "country": "Nowhere"},
                    "geometry": {"coordinates": []}
                }
            ]
        }"#,
    );
    assert!(result.is_err(), "expected error for missing coordinates");
}

/// HTTP 429 from Photon must surface as an ApiError.
#[test]
fn test_geocode_http_429_propagates() {
    let result = answered(name("London"), Ok(429));
    assert!(result.is_err(), "expected error for HTTP 429");
    let err = result.unwrap_err().to_string();
    assert!(
        err.contains("429"),
        "expected 429 in error message, got: {err}"
    );
    assert_eq!(err, "API error: Photon API returned HTTP 429");
}

/// HTTP 503 from Photon must surface as an ApiError.
#[test]
fn test_geocode_http_503_propagates() {
    let result = answered(name("London"), Ok(503));
    assert!(result.is_err(), "expected error for HTTP 503");
    let err = result.unwrap_err().to_string();
    assert!(
        err.contains("503"),
        "expected 503 in error message, got: {err}"
    );
}

/// count must be clamped: 0 → 1, 11 → 10.
#[test]
fn test_geocode_count_clamping() {
    let client = reqwest::Client::new();
    let base = "http://127.0.0.1:9/api/";
    let lookup = geocode_location_with_base(&client, base, "London", 0, None);
    assert_eq!(
        lookup.request.expect("a request").url().query(),
        Some("q=London&limit=1&lang=en")
    );
    let r0 = carry_out(lookup.subject, 200, LONDON);
    assert!(r0.is_ok(), "count=0 clamped to 1 should succeed: {r0:?}");

    let lookup = geocode_location_with_base(&client, base, "London", 11, None);
    assert_eq!(
        lookup.request.expect("a request").url().query(),
        Some("q=London&limit=10&lang=en")
    );
    let r11 = carry_out(lookup.subject, 200, LONDON);
    assert!(
        r11.is_ok(),
        "count=11 clamped to 10 should succeed: {r11:?}"
    );
}

/// A valid Photon response must parse into expected fields.
#[test]
fn test_geocode_valid_response_parsed() {
    let result = carry_out(name("London"), 200, LONDON).expect("geocode should succeed");
    let arr = result.as_array().expect("result should be array");
    assert_eq!(arr.len(), 1);
    let loc = &arr[0];
    assert_eq!(loc["name"], "London");
    assert_eq!(loc["country_code"], "GB");
    // GeoJSON [lon, lat] → mapped correctly
    assert!((loc["latitude"].as_f64().unwrap() - 51.5074).abs() < 0.001);
    assert!((loc["longitude"].as_f64().unwrap() - (-0.1278)).abs() < 0.001);
}

/// reverse_geocode: HTTP 429 must propagate as an error.
#[test]
fn test_reverse_geocode_http_429_propagates() {
    let result = answered(point(), Ok(429));
    assert!(result.is_err(), "expected error for HTTP 429");
    let err = result.unwrap_err().to_string();
    assert!(
        err.contains("429"),
        "expected 429 in error message, got: {err}"
    );
    assert_eq!(err, "API error: Photon reverse API returned HTTP 429");
}

/// reverse_geocode: empty features must produce LocationNotFound.
#[test]
fn test_reverse_geocode_empty_features_is_location_not_found() {
    let result = carry_out(point(), 200, r#"{"features":[]}"#);
    assert!(result.is_err(), "expected LocationNotFound");
    let err = result.unwrap_err().to_string();
    assert!(
        err.to_lowercase().contains("not found"),
        "expected 'not found', got: {err}"
    );
    assert_eq!(
        err,
        "Location not found: No location found for coordinates: 51.5074, -0.1278"
    );
}

/// reverse_geocode: valid response must parse correctly.
#[test]
fn test_reverse_geocode_valid_response_parsed() {
    let result = carry_out(point(), 200, LONDON).expect("reverse geocode should succeed");
    assert_eq!(result["name"], "London");
    assert_eq!(result["country_code"], "GB");
    assert!((result["latitude"].as_f64().unwrap() - 51.5074).abs() < 0.001);
    assert!((result["longitude"].as_f64().unwrap() - (-0.1278)).abs() < 0.001);
}

#[test]
fn location_shows_every_property_of_its_feature() {
    let mut features = photon(LONDON).features;
    let v = location(features.remove(0)).expect("a location");
    let expected: Value = serde_json::from_str(
        r#"{
            "name": "London",
            "latitude": 51.5074,
            "longitude": -0.1278,
            "country": "United Kingdom",
            "country_code": "GB",
            "region": "England",
            "type": "city"
        }"#,
    )
    .expect("valid JSON");
    assert_eq!(v, expected);
}

#[test]
fn absent_properties_are_null() {
    let v = location(PhotonFeature {
        properties: PhotonProperties {
            name: None,
            country: None,
            countrycode: None,
            state: None,
            place_type: None,
        },
        geometry: PhotonGeometry {
            coordinates: vec![Value::from(1.0), Value::from(2.0), Value::from(3.0)],
        },
    })
    .expect("a location");
    assert_eq!(v["name"], Value::Null);
    assert_eq!(v["region"], Value::Null);
    assert_eq!(v["longitude"], Value::from(1.0));
    assert_eq!(v["latitude"], Value::from(2.0));
    assert_eq!(v.as_object().expect("an object").len(), 7);
}

#[test]
fn feature_with_one_coordinate_has_no_location() {
    let body = r#"{"features": [{"properties": {}, "geometry": {"coordinates": [1.0]}}]}"#;
    assert!(location(photon(body).features.remove(0)).is_none());
}

#[test]
fn locations_keep_the_order_of_their_features() {
    let body = r#"{"features": [
        {"properties": {"name": "a"}, "geometry": {"coordinates": [1.0, 2.0]}},
        {"properties": {"name": "b"}, "geometry": {"coordinates": [1.0]}},
        {"properties": {"name": "c"}, "geometry": {"coordinates": [3.0, 4.0]}}
    ]}"#;
    let found = locations(photon(body).features);
    assert_eq!(found.len(), 2);
    assert_eq!(found[0]["name"], "a");
    assert_eq!(found[1]["name"], "c");
    let v = geocode_found("x", 10, photon(body)).expect("locations");
    assert_eq!(v.as_array().expect("an array").len(), 2);
    let v = geocode_found("x", 1, photon(body)).expect("locations");
    assert_eq!(v.as_array().expect("an array").len(), 1);
    assert_eq!(v[0]["name"], "a");
}

#[test]
fn nearest_feature_is_the_first() {
    let body = r#"{"features": [
        {"properties": {"name": "near"}, "geometry": {"coordinates": [1.0, 2.0]}},
        {"properties": {"name": "far"}, "geometry": {"coordinates": [3.0, 4.0]}}
    ]}"#;
    let v = reverse_geocode_found("2", "1", photon(body)).expect("a location");
    assert_eq!(v["name"], "near");
}

#[test]
fn nearest_feature_without_coordinates_is_an_api_error() {
    let body = r#"{"features": [
        {"properties": {"name": "near"}, "geometry": {"coordinates": []}},
        {"properties": {"name": "far"}, "geometry": {"coordinates": [3.0, 4.0]}}
    ]}"#;
    let e = reverse_geocode_found("2", "1", photon(body)).unwrap_err();
    assert!(matches!(&e, GeocodeMcpError::Geocode(GeocodeError::ApiError(_))));
    assert_eq!(
        e.to_string(),
        "API error: Photon reverse API returned feature without coordinates"
    );
}

#[test]
fn success_is_any_status_in_the_two_hundreds() {
    for status in [200, 201, 204, 299] {
        assert!(answered(name("x"), Ok(status)).is_ok());
    }
    for status in [100, 199, 300, 301, 404, 500, 999] {
        assert!(answered(name("x"), Ok(status)).is_err());
    }
}

#[test]
fn failed_exchanges_pass_their_error_on() {
    let e = answered(name("x"), Err(synthetic_reqwest_error())).unwrap_err();
    assert!(matches!(e, GeocodeMcpError::Http(_)));
    let pending = answered(point(), Ok(200)).expect("a body to read");
    let e = pending.decoded(Err(synthetic_reqwest_error())).unwrap_err();
    assert!(matches!(&e, GeocodeMcpError::Http(_)));
    assert_eq!(e.to_string(), synthetic_reqwest_error().to_string());
}

#[test]
fn queries_hold_what_is_asked_for() {
    let q = geocode_query("Paris", 7, Some("fr"));
    assert_eq!(
        q,
        vec![
            ("q".to_string(), "Paris".to_string()),
            ("limit".to_string(), "7".to_string()),
            ("lang".to_string(), "fr".to_string()),
        ]
    );
    let q = reverse_geocode_query("1.5", "-2", None);
    assert_eq!(
        q,
        vec![
            ("lat".to_string(), "1.5".to_string()),
            ("lon".to_string(), "-2".to_string()),
            ("lang".to_string(), "en".to_string()),
        ]
    );
}

#[test]
fn english_is_asked_for_by_default() {
    assert_eq!(geocode_query("x", 5, None), geocode_query("x", 5, Some("en")));
    assert_eq!(
        reverse_geocode_query("1", "2", None),
        reverse_geocode_query("1", "2", Some("en"))
    );
}

#[test]
fn lookups_start_at_the_public_api() {
    let client = reqwest::Client::new();
    let lookup = geocode_location(&client, "Köln", 4294967295, None);
    assert_eq!(
        lookup.request.expect("a request").url().as_str(),
        "https://photon.komoot.io/api/?q=K%C3%B6ln&limit=10&lang=en"
    );
    let lookup = reverse_geocode_location(&client, "1", "2", Some("es"));
    assert_eq!(
        lookup.request.expect("a request").url().as_str(),
        "https://photon.komoot.io/reverse?lat=1&lon=2&lang=es"
    );
    let lookup =
        reverse_geocode_location_with_base(&client, "http://127.0.0.1:9/r?key=1", "1", "2", None);
    assert_eq!(
        lookup.request.expect("a request").url().as_str(),
        "http://127.0.0.1:9/r?key=1&lat=1&lon=2&lang=en"
    );
}
