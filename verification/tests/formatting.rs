use timeline_plugin_location::text::i64_to_string;
use timeline_plugin_location::text::u64_to_string;
use timeline_plugin_location::time::TimeRange;
use timeline_plugin_location::urlenc::encode_url_component;
use timeline_plugin_location::viewer::viewer_query;
use timeline_plugin_location::API_PATH;
use timeline_plugin_location::viewer::OBSERVE_PATH;

#[test]
fn decimal_formatting() {
    assert_eq!(u64_to_string(0), "0");
    assert_eq!(u64_to_string(7), "7");
    assert_eq!(u64_to_string(1_700_000_000_000), "1700000000000");
    assert_eq!(u64_to_string(u64::MAX), "18446744073709551615");
    assert_eq!(i64_to_string(0), "0");
    assert_eq!(i64_to_string(-1), "-1");
    assert_eq!(i64_to_string(-1_234_567), "-1234567");
    assert_eq!(i64_to_string(i64::MIN), "-9223372036854775808");
    assert_eq!(i64_to_string(i64::MAX), "9223372036854775807");
}

#[test]
fn component_encoding_keeps_unreserved_characters() {
    assert_eq!(
        encode_url_component("AZaz09-_.!~*'()"),
        "AZaz09-_.!~*'()"
    );
}

#[test]
fn component_encoding_escapes_the_rest() {
    assert_eq!(encode_url_component("a b"), "a%20b");
    assert_eq!(encode_url_component("a/b=c&d"), "a%2Fb%3Dc%26d");
    assert_eq!(encode_url_component("+%"), "%2B%25");
    // A non-ASCII character is escaped byte by byte of its UTF-8 form.
    assert_eq!(encode_url_component("\u{00e4}"), "%C3%A4");
}

#[test]
fn viewer_query_strings() {
    let range = TimeRange::new(1000, 4_600_000);
    assert_eq!(
        viewer_query(&range, Some("a b/c")),
        "skipWelcome=true&start=1000&end=4600000&signature=a%20b%2Fc"
    );
    assert_eq!(
        viewer_query(&range, None),
        "skipWelcome=true&start=1000&end=4600000"
    );
}

#[test]
fn fixed_paths() {
    assert_eq!(API_PATH, "/api/data");
    assert_eq!(OBSERVE_PATH, "/observe/");
}
