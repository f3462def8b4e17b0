use ratatai::text::{last_segment, trailing_id, u32_to_string};
use ratatai::transport::{HTTPClient, ReqwestClient};

#[test]
fn test_u32_to_string_renders_decimal() {
    assert_eq!(u32_to_string(0), "0");
    assert_eq!(u32_to_string(666), "666");
    assert_eq!(u32_to_string(u32::MAX), "4294967295");
}

#[test]
fn test_trailing_id_reads_the_number_a_url_ends_in() {
    assert_eq!(
        trailing_id("https://api.launchpad.net/1.0/bugs/2093869"),
        Some(2093869)
    );
    assert_eq!(trailing_id("bugs/0"), Some(0));
    assert_eq!(trailing_id("123"), Some(123));
}

#[test]
fn test_trailing_id_without_digits() {
    assert_eq!(trailing_id("http://truc/bidule"), None);
    assert_eq!(trailing_id(""), None);
    assert_eq!(trailing_id("12a"), None);
}

#[test]
fn test_last_segment() {
    assert_eq!(last_segment("http://truc/bidule"), "bidule");
    assert_eq!(last_segment("https://api.launchpad.net/1.0/bugs/666"), "666");
    assert_eq!(last_segment("plain"), "plain");
    assert_eq!(last_segment("ends/in/slash/"), "");
}

#[test]
fn test_trailing_id_overflow() {
    assert_eq!(trailing_id("bugs/4294967295"), Some(u32::MAX));
    assert_eq!(trailing_id("bugs/4294967296"), None);
    assert_eq!(trailing_id("bugs/99999999999999999999"), None);
}

#[test]
fn test_transport_error_is_http_request() {
    let client = ReqwestClient::new().expect("building the offline-capable client");
    let result = client.get("this is not a valid url");

    assert!(result.is_err());
    assert!(matches!(
        result.unwrap_err(),
        ratatai::model::LaunchpadError::HttpRequest(_)
    ));
}
