use bingmaps::client::{response_error, should_wait, url_for_query, url_from_encoded};
use bingmaps::{ApiError, Client, ConversionError, Params, RequestError};

#[test]
fn not_found_with_wait_header_asks_to_wait() {
    let e = response_error(404, Some("1")).unwrap();
    assert_eq!(e.http_status, 404);
    assert!(e.should_wait);
}

#[test]
fn not_found_without_header_does_not_ask_to_wait() {
    let e = response_error(404, None).unwrap();
    assert_eq!(e.http_status, 404);
    assert!(!e.should_wait);
}

#[test]
fn success_statuses_carry_no_error() {
    assert!(response_error(200, Some("1")).is_none());
    assert!(response_error(204, None).is_none());
    assert!(response_error(299, None).is_none());
    assert_eq!(
        response_error(300, None),
        Some(RequestError { http_status: 300, should_wait: false })
    );
    assert_eq!(
        response_error(199, Some("1")),
        Some(RequestError { http_status: 199, should_wait: true })
    );
}

#[test]
fn wait_header_segments() {
    assert!(should_wait("1"));
    assert!(should_wait("0,1"));
    assert!(should_wait("1,0"));
    assert!(!should_wait("0"));
    assert!(!should_wait(""));
    assert!(!should_wait("11"));
    assert!(!should_wait("10,01"));
}

#[test]
fn key_is_added_to_the_parameters() {
    let client = Client::new((), "abc");
    assert_eq!(client.key(), "abc");
    let mut params = Params::new();
    params.insert("q", "a b");
    let url = client.request_url("/Locations", &mut params);
    assert_eq!(url, "https://dev.virtualearth.net/REST/v1//Locations?q=a+b&key=abc");
    assert_eq!(params.len(), 2);
    assert_eq!(params.get("key"), Some("abc".to_string()));
}

#[test]
fn callers_key_is_overwritten() {
    let client = Client::new((), "secret");
    let mut params = Params::new();
    params.insert("key", "mine");
    params.insert("q", "x");
    let url = client.request_url("/Locations", &mut params);
    assert_eq!(params.len(), 2);
    assert_eq!(params.get("key"), Some("secret".to_string()));
    assert_eq!(params.get("q"), Some("x".to_string()));
    assert_eq!(url, "https://dev.virtualearth.net/REST/v1//Locations?key=secret&q=x");
    let keys: Vec<&String> = params.entries().iter().filter(|e| e.0 == "key").map(|e| &e.0).collect();
    assert_eq!(keys.len(), 1);
}

#[test]
fn query_values_are_encoded() {
    let client = Client::new((), "k");
    let mut params = Params::new();
    params.insert("ul", "47.6,-122.3");
    let url = client.request_url("/Locations", &mut params);
    assert_eq!(url, "https://dev.virtualearth.net/REST/v1//Locations?ul=47.6%2C-122.3&key=k");
}

#[test]
fn url_joins_root_path_and_query() {
    assert_eq!(
        url_for_query("/Locations/1,2", "key=k"),
        "https://dev.virtualearth.net/REST/v1//Locations/1,2?key=k"
    );
}

#[test]
fn failed_encoding_leaves_the_query_empty() {
    let failed = serde_urlencoded::to_string("not a map");
    assert!(failed.is_err());
    assert_eq!(
        url_from_encoded("/Locations", failed),
        "https://dev.virtualearth.net/REST/v1//Locations?"
    );
    assert_eq!(
        url_from_encoded("/Locations", Ok("q=x".to_string())),
        "https://dev.virtualearth.net/REST/v1//Locations?q=x"
    );
}

#[test]
fn request_error_text() {
    let e = RequestError { http_status: 404, should_wait: false };
    assert_eq!(e.message(), "RequestError(404)");
    assert_eq!(e.description(), "error reported by bing maps");
    let e = ApiError::from(e);
    assert_eq!(e.description(), "error reported by bing maps");
    assert_eq!(e.message(), "error reported by bing maps: RequestError(404)");
}

#[test]
fn decode_failures_are_conversion_errors() {
    let json_err = serde_json::from_str::<u32>("x").unwrap_err();
    let text = json_err.to_string();
    let e = ApiError::from(json_err);
    assert!(matches!(e, ApiError::Conversion(ConversionError::Decode(_))));
    assert_eq!(e.description(), "error converting between wire format and Rust types");
    assert_eq!(
        e.message(),
        format!("error converting between wire format and Rust types: {}", text)
    );
}

#[test]
fn encode_failures_are_conversion_errors() {
    let enc_err = serde_urlencoded::to_string("x").unwrap_err();
    let e = ApiError::from(enc_err);
    assert!(matches!(e, ApiError::Conversion(ConversionError::Encode(_))));
}

#[test]
fn io_failures_keep_their_kind() {
    let io = std::io::Error::new(std::io::ErrorKind::Other, "broken");
    let e = ApiError::from(io);
    assert!(matches!(e, ApiError::Io(_)));
    assert_eq!(e.message(), "error reading response from bing maps: broken");
}
