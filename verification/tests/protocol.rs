use timeline_plugin_location::errors::ApiError;
use timeline_plugin_location::plugin::ConfigData;
use timeline_plugin_location::plugin::Plugin;
use timeline_plugin_location::responses::availability_from_fields;
use timeline_plugin_location::responses::handle_availability;
use timeline_plugin_location::responses::handle_signature;
use timeline_plugin_location::time::TimeRange;

fn plugin() -> Plugin {
    Plugin::new(
        ConfigData {
            password: String::from("p\"w"),
            url: String::from("https://example.com/"),
        },
        true,
    )
}

#[test]
fn timespan_body_quotes_the_password() {
    let body = plugin().timespan_request_body();
    assert_eq!(
        body,
        "{\"export\":\"timespan\",\"module\":\"public/locations.js\",\"arguments\":[\"p\\\"w\"]}"
    );
    // The body is the JSON the remote service expects.
    let doc: serde_json::Value = serde_json::from_str(&body).unwrap();
    assert_eq!(doc["export"], "timespan");
    assert_eq!(doc["module"], "public/locations.js");
    assert_eq!(doc["arguments"][0], "p\"w");
}

#[test]
fn signature_body_carries_the_query_bounds() {
    let range = TimeRange::new(-3_600_000, 1_700_000_000_000);
    let body = plugin().signature_request_body(&range);
    assert_eq!(
        body,
        "{\"export\":\"signLocations\",\"module\":\"public/locations.js\",\"arguments\":[\"p\\\"w\",-3600000,1700000000000]}"
    );
    let doc: serde_json::Value = serde_json::from_str(&body).unwrap();
    assert_eq!(doc["arguments"][1], -3_600_000i64);
    assert_eq!(doc["arguments"][2], 1_700_000_000_000i64);
}

#[test]
fn availability_response_parses() {
    let text = String::from("{\"data\":{\"start\":1000,\"end\":5000},\"success\":true}");
    let window = handle_availability(Ok(text)).unwrap();
    assert_eq!(window, TimeRange::new(1000, 5000));
}

#[test]
fn availability_transport_failure_is_a_fetch_error() {
    let r = handle_availability(Err(String::from("connection refused")));
    match r {
        Err(ApiError::FetchError(m)) => {
            assert_eq!(
                m,
                "Location Plugin: Unable to get timespan: Request Error: connection refused"
            );
        }
        _ => panic!("expected a fetch error"),
    }
}

#[test]
fn availability_parse_failures_are_fetch_errors() {
    for text in [
        "not json at all",
        "{}",
        "{\"data\":{}}",
        "{\"data\":{\"start\":1000}}",
        "{\"data\":{\"start\":\"x\",\"end\":5000}}",
        "{\"data\":{\"start\":-4,\"end\":5000}}",
    ] {
        let r = handle_availability(Ok(String::from(text)));
        match r {
            Err(ApiError::FetchError(m)) => {
                assert_eq!(
                    m,
                    "Location Plugin: Unable to get timespan: Parse Error: invalid timespan"
                );
            }
            _ => panic!("accepted: {text}"),
        }
    }
}

#[test]
fn availability_window_must_be_usable() {
    assert_eq!(
        availability_from_fields(1000, 5000).unwrap(),
        TimeRange::new(1000, 5000)
    );
    // Inverted window.
    assert!(matches!(
        availability_from_fields(5000, 1000),
        Err(ApiError::FetchError(_))
    ));
    // Does not fit a signed millisecond count.
    assert!(matches!(
        availability_from_fields(u64::MAX, u64::MAX),
        Err(ApiError::FetchError(_))
    ));
    // Fits i64 but denotes no representable instant.
    assert!(matches!(
        availability_from_fields(0, 9_000_000_000_000_000_000),
        Err(ApiError::FetchError(_))
    ));
}

#[test]
fn signature_response_yields_the_data_field() {
    let token = handle_signature(Ok(String::from("{\"data\":\"sig-123\"}"))).unwrap();
    assert_eq!(token, "sig-123");
}

#[test]
fn signature_failures_are_sign_errors() {
    let r = handle_signature(Err(String::from("timed out")));
    match r {
        Err(ApiError::SignError(m)) => {
            assert_eq!(m, "Location Plugin: Unable to sign range: Request Error: timed out");
        }
        _ => panic!("expected a sign error"),
    }
    for text in ["nope", "{\"data\":7}", "{}"] {
        let r = handle_signature(Ok(String::from(text)));
        match r {
            Err(ApiError::SignError(m)) => {
                assert_eq!(
                    m,
                    "Location Plugin: Unable to sign range: Parse Error: invalid signature response"
                );
            }
            _ => panic!("accepted: {text}"),
        }
    }
}

#[test]
fn error_messages_are_carried() {
    let e = ApiError::ConfigError(String::from("no config"));
    assert_eq!(e.message(), "no config");
}
