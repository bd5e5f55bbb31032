use jobsuche::client::{
    check_response, decode_failure, probe_search_params, resolve_api_key, ApiError,
};
use jobsuche::status::{connection_status_text, server_status};
use jobsuche::text::{join_strings, prefix_of, u64_to_decimal};

#[test]
fn success_status_keeps_body() {
    match check_response(200, "{}".to_string()) {
        Ok(b) => assert_eq!(b, "{}"),
        Err(_) => panic!("expected success"),
    }
}

#[test]
fn failure_status_is_an_error() {
    match check_response(404, "nope".to_string()) {
        Err(e) => assert_eq!(e.message(), "API error: 404"),
        Ok(_) => panic!("expected an error"),
    }
    assert!(check_response(302, String::new()).is_err());
    assert!(check_response(299, String::new()).is_ok());
}

#[test]
fn decode_error_carries_bounded_excerpt() {
    let body = "x".repeat(800);
    match decode_failure("expected value".to_string(), &body) {
        ApiError::Decode { message, body_excerpt } => {
            assert_eq!(message, "expected value");
            assert_eq!(body_excerpt.chars().count(), 500);
        }
        _ => panic!("expected a decode error"),
    }
    let e = decode_failure("bad".to_string(), "{oops");
    assert_eq!(
        e.message(),
        "Failed to parse API response: bad; response body starts with: {oops"
    );
}

#[test]
fn transport_error_message() {
    let e = ApiError::Transport { message: "timed out".to_string() };
    assert_eq!(e.message(), "Request failed: timed out");
}

#[test]
fn api_key_default() {
    assert_eq!(resolve_api_key(None), "jobboerse-jobsuche");
    assert_eq!(resolve_api_key(Some("k")), "k");
}

#[test]
fn probe_query() {
    let q = probe_search_params();
    assert_eq!(q.wo, Some("Berlin".to_string()));
    assert_eq!(q.size, Some(1));
    assert_eq!(q.was, None);
}

#[test]
fn connection_texts() {
    assert_eq!(connection_status_text(Ok(())), "Connected");
    assert_eq!(
        connection_status_text(Err("API error: 500".to_string())),
        "Connection Error: API error: 500"
    );
}

#[test]
fn status_report() {
    let st = server_status(42, "https://api.example", "Connected".to_string());
    assert_eq!(st.server_name, "Jobsuche MCP Server");
    assert_eq!(st.version, "0.3.1");
    assert_eq!(st.uptime_seconds, 42);
    assert_eq!(st.api_url, "https://api.example");
    assert_eq!(st.tools_count, 4);
}

#[test]
fn decimal_rendering() {
    assert_eq!(u64_to_decimal(0), "0");
    assert_eq!(u64_to_decimal(1205), "1205");
    assert_eq!(u64_to_decimal(u64::MAX), "18446744073709551615");
}

#[test]
fn joining_and_prefix() {
    let parts = vec!["a".to_string(), "b".to_string(), "c".to_string()];
    assert_eq!(join_strings(&parts, "&"), "a&b&c");
    assert_eq!(join_strings(&Vec::new(), "&"), "");
    assert_eq!(prefix_of("äöü", 2), "äö");
    assert_eq!(prefix_of("ab", 5), "ab");
}
