use upper_echo::dispatch::{dispatch, Routed};
use upper_echo::handshake::{
    bad_request, negotiate, switching_protocols, valid_client_key, HandshakeError,
};
use upper_echo::header::{lookup, Header};
use upper_echo::request::{Method, Request, Version};
use upper_echo::response::{Response, StaticPage, BAD_REQUEST, OK, SWITCHING_PROTOCOLS};

const PAGE: &str = "<!DOCTYPE html><html><body><h1>echo</h1></body></html>";
const SAMPLE_KEY: &str = "dGhlIHNhbXBsZSBub25jZQ==";
const SAMPLE_ACCEPT: &str = "s3pPLMBiTxaQ9kYGzzhZRbK+xOo=";

fn page() -> StaticPage {
    StaticPage::new(PAGE.to_string())
}

fn request(method: Method, minor: u8, headers: &[(&str, &str)]) -> Request {
    Request {
        method,
        target: "/".to_string(),
        version: Version { major: 1, minor },
        headers: headers.iter().map(|(name, value)| Header::new(name, value)).collect(),
    }
}

fn upgrade_request(key: &str) -> Request {
    request(
        Method::Get,
        1,
        &[
            ("Host", "localhost:7777"),
            ("Upgrade", "websocket"),
            ("Connection", "Upgrade"),
            ("Sec-WebSocket-Key", key),
            ("Sec-WebSocket-Version", "13"),
        ],
    )
}

fn page_response() -> Response {
    Response {
        status: 200,
        headers: vec![Header { name: b"Content-Type".to_vec(), value: b"text/html".to_vec() }],
        body: PAGE.to_string(),
    }
}

fn switching(accept: &str) -> Response {
    Response {
        status: 101,
        headers: vec![
            Header { name: b"Connection".to_vec(), value: b"Upgrade".to_vec() },
            Header { name: b"Upgrade".to_vec(), value: b"websocket".to_vec() },
            Header { name: b"Sec-WebSocket-Accept".to_vec(), value: accept.as_bytes().to_vec() },
        ],
        body: String::new(),
    }
}

fn refused() -> Response {
    Response {
        status: 400,
        headers: vec![Header { name: b"Connection".to_vec(), value: b"close".to_vec() }],
        body: String::new(),
    }
}

#[test]
fn status_codes_have_their_values() {
    assert_eq!(OK, 200);
    assert_eq!(SWITCHING_PROTOCOLS, 101);
    assert_eq!(BAD_REQUEST, 400);
}

#[test]
fn header_from_text_holds_the_bytes() {
    let header = Header::new("Content-Type", "text/html");
    assert_eq!(header.name, b"Content-Type".to_vec());
    assert_eq!(header.value, b"text/html".to_vec());
    let header = Header::with_value("X-Raw", vec![0xff, 0x00]);
    assert_eq!(header.name, b"X-Raw".to_vec());
    assert_eq!(header.value, vec![0xff, 0x00]);
}

#[test]
fn lookup_ignores_the_case_of_names() {
    let headers = vec![Header::new("Host", "a"), Header::new("uPgRaDe", "websocket")];
    assert_eq!(lookup(&headers, b"Upgrade"), Some(&b"websocket".to_vec()));
    assert_eq!(lookup(&headers, b"UPGRADE"), Some(&b"websocket".to_vec()));
    assert_eq!(lookup(&headers, b"host"), Some(&b"a".to_vec()));
}

#[test]
fn lookup_takes_the_first_of_several() {
    let headers = vec![
        Header::new("Connection", "close"),
        Header::new("connection", "Upgrade"),
    ];
    assert_eq!(lookup(&headers, b"Connection"), Some(&b"close".to_vec()));
}

#[test]
fn lookup_of_an_absent_name_finds_nothing() {
    let headers = vec![Header::new("Host", "a")];
    assert_eq!(lookup(&headers, b"Upgrade"), None);
    assert_eq!(lookup(&headers, b"Hos"), None);
    assert_eq!(lookup(&Vec::new(), b"Host"), None);
}

#[test]
fn request_header_is_looked_up_by_text() {
    let req = upgrade_request(SAMPLE_KEY);
    assert_eq!(req.header("sec-websocket-key"), Some(&SAMPLE_KEY.as_bytes().to_vec()));
    assert_eq!(req.header("Origin"), None);
}

#[test]
fn versions_from_one_one_on_qualify() {
    assert!(!Version { major: 0, minor: 9 }.is_at_least_1_1());
    assert!(!Version { major: 1, minor: 0 }.is_at_least_1_1());
    assert!(Version { major: 1, minor: 1 }.is_at_least_1_1());
    assert!(Version { major: 1, minor: 2 }.is_at_least_1_1());
    assert!(Version { major: 2, minor: 0 }.is_at_least_1_1());
    assert!(Version { major: 3, minor: 0 }.is_at_least_1_1());
}

#[test]
fn full_upgrade_request_is_recognised() {
    assert!(upgrade_request(SAMPLE_KEY).is_upgrade());
}

#[test]
fn upgrade_headers_are_matched_without_case() {
    let req = request(
        Method::Get,
        1,
        &[("UPGRADE", "WebSocket"), ("connection", "keep-alive, upgrade")],
    );
    assert!(req.is_upgrade());
}

#[test]
fn key_is_not_needed_to_be_an_upgrade_request() {
    let req = request(Method::Get, 1, &[("Upgrade", "websocket"), ("Connection", "Upgrade")]);
    assert!(req.is_upgrade());
}

#[test]
fn request_without_headers_is_plain() {
    assert!(!request(Method::Get, 1, &[]).is_upgrade());
}

#[test]
fn request_with_one_upgrade_header_is_plain() {
    assert!(!request(Method::Get, 1, &[("Upgrade", "websocket")]).is_upgrade());
    assert!(!request(Method::Get, 1, &[("Connection", "Upgrade")]).is_upgrade());
    let req =
        request(Method::Get, 1, &[("Upgrade", "websocket"), ("Connection", "keep-alive")]);
    assert!(!req.is_upgrade());
}

#[test]
fn upgrade_to_another_protocol_is_plain() {
    let req = request(Method::Get, 1, &[("Upgrade", "h2c"), ("Connection", "Upgrade")]);
    assert!(!req.is_upgrade());
    let req =
        request(Method::Get, 1, &[("Upgrade", "websocket, h2c"), ("Connection", "Upgrade")]);
    assert!(!req.is_upgrade());
}

#[test]
fn upgrade_with_another_method_is_plain() {
    let headers = [("Upgrade", "websocket"), ("Connection", "Upgrade")];
    for method in [
        Method::Head,
        Method::Post,
        Method::Put,
        Method::Delete,
        Method::Connect,
        Method::Options,
        Method::Trace,
        Method::Patch,
        Method::Other,
    ] {
        assert!(!request(method, 1, &headers).is_upgrade());
    }
}

#[test]
fn upgrade_over_an_old_version_is_plain() {
    let req = request(Method::Get, 0, &[("Upgrade", "websocket"), ("Connection", "Upgrade")]);
    assert!(!req.is_upgrade());
}

#[test]
fn page_keeps_its_html() {
    assert_eq!(page().html(), PAGE);
}

#[test]
fn page_responds_with_status_type_and_body() {
    assert_eq!(page().respond(), page_response());
}

#[test]
fn plain_get_receives_the_page() {
    let route = dispatch(&page(), &request(Method::Get, 1, &[("Host", "localhost")]));
    assert_eq!(route, Routed::Plain(page_response()));
    assert!(!route.starts_session());
    assert_eq!(route.response().status, 200);
    assert_eq!(lookup(&route.response().headers, b"content-type"), Some(&b"text/html".to_vec()));
    assert_eq!(route.response().body, PAGE);
}

#[test]
fn repeated_plain_requests_receive_the_same_response() {
    let page = page();
    let first = dispatch(&page, &request(Method::Get, 1, &[]));
    let second = dispatch(&page, &request(Method::Get, 1, &[]));
    let third = Request {
        method: Method::Get,
        target: "/some/other/path?x=1".to_string(),
        version: Version { major: 1, minor: 0 },
        headers: vec![Header::new("Accept", "*/*")],
    };
    let third = dispatch(&page, &third);
    assert_eq!(first, second);
    assert_eq!(first, third);
}

#[test]
fn plain_post_receives_the_page() {
    let route = dispatch(&page(), &request(Method::Post, 1, &[]));
    assert_eq!(route, Routed::Plain(page_response()));
}

#[test]
fn post_with_upgrade_headers_receives_the_page() {
    let mut req = upgrade_request(SAMPLE_KEY);
    req.method = Method::Post;
    assert_eq!(dispatch(&page(), &req), Routed::Plain(page_response()));
}

#[test]
fn empty_page_is_served_too() {
    let route = dispatch(&StaticPage::new(String::new()), &request(Method::Get, 1, &[]));
    assert_eq!(route.response().status, 200);
    assert_eq!(route.response().body, "");
}

#[test]
fn sample_key_gives_the_sample_accept_value() {
    let route = dispatch(&page(), &upgrade_request(SAMPLE_KEY));
    assert_eq!(route, Routed::Upgrade(switching(SAMPLE_ACCEPT)));
    assert!(route.starts_session());
    assert_eq!(route.response().status, 101);
    assert_eq!(
        lookup(&route.response().headers, b"Sec-WebSocket-Accept"),
        Some(&SAMPLE_ACCEPT.as_bytes().to_vec())
    );
}

#[test]
fn another_key_gives_another_accept_value() {
    let outcome = negotiate(&upgrade_request("x3JJHMbDL1EzLkh9GBhXDw=="));
    assert_eq!(outcome, Ok(switching("HSmrc0sMlYUkAGmm5OPpG2HaGWk=")));
}

#[test]
fn same_key_gives_the_same_accept_value() {
    let first = negotiate(&upgrade_request(SAMPLE_KEY));
    let second = negotiate(&upgrade_request(SAMPLE_KEY));
    assert_eq!(first, second);
    assert_eq!(first, Ok(switching(SAMPLE_ACCEPT)));
}

#[test]
fn version_header_is_not_required() {
    let req = request(
        Method::Get,
        1,
        &[("Upgrade", "websocket"), ("Connection", "Upgrade"), ("Sec-WebSocket-Key", SAMPLE_KEY)],
    );
    assert_eq!(negotiate(&req), Ok(switching(SAMPLE_ACCEPT)));
}

#[test]
fn upgrade_without_key_is_refused() {
    let req = request(Method::Get, 1, &[("Upgrade", "websocket"), ("Connection", "Upgrade")]);
    assert_eq!(negotiate(&req), Err(HandshakeError::MissingKey));
    let route = dispatch(&page(), &req);
    assert_eq!(route, Routed::Refused(HandshakeError::MissingKey, refused()));
    assert!(!route.starts_session());
    assert_eq!(route.response().status, 400);
}

#[test]
fn upgrade_with_malformed_key_is_refused() {
    for key in ["", "abc", "dGhlIHNhbXBsZSBub25jZQ", "dGhlIHNhbXBsZSBub25jZQ=!", "not base64 at all!!!!=="] {
        let req = upgrade_request(key);
        assert_eq!(negotiate(&req), Err(HandshakeError::MalformedKey));
        assert_eq!(
            dispatch(&page(), &req),
            Routed::Refused(HandshakeError::MalformedKey, refused())
        );
    }
}

#[test]
fn plain_request_is_no_handshake() {
    let req = request(Method::Get, 1, &[("Sec-WebSocket-Key", SAMPLE_KEY)]);
    assert_eq!(negotiate(&req), Err(HandshakeError::NotAnUpgrade));
}

#[test]
fn well_formed_keys_are_valid() {
    assert!(valid_client_key(SAMPLE_KEY.as_bytes()));
    assert!(valid_client_key(b"x3JJHMbDL1EzLkh9GBhXDw=="));
    assert!(valid_client_key(b"AAAAAAAAAAAAAAAAAAAAAA=="));
    assert!(valid_client_key(b"++++/////0123456789zZg=="));
}

#[test]
fn keys_of_wrong_length_are_invalid() {
    assert!(!valid_client_key(b""));
    assert!(!valid_client_key(b"dGhlIHNhbXBsZSBub25jZQ="));
    assert!(!valid_client_key(b"dGhlIHNhbXBsZSBub25jZQ==="));
    assert!(!valid_client_key(b"dGhlIHNhbXBsZSBub25jZQ==dGhlIHNhbXBsZSBub25jZQ=="));
}

#[test]
fn keys_with_foreign_bytes_are_invalid() {
    assert!(!valid_client_key(b"dGhlIHNhbXBs-SBub25jZQ=="));
    assert!(!valid_client_key(b" GhlIHNhbXBsZSBub25jZQ=="));
    assert!(!valid_client_key(b"dGhlIHNhbXBsZSBub25j=Q=="));
    assert!(!valid_client_key(b"dGhlIHNhbXBsZSBub25j_Q=="));
}

#[test]
fn keys_with_wrong_padding_are_invalid() {
    assert!(!valid_client_key(b"dGhlIHNhbXBsZSBub25jZQAA"));
    assert!(!valid_client_key(b"dGhlIHNhbXBsZSBub25jZQ=A"));
    assert!(!valid_client_key(b"dGhlIHNhbXBsZSBub25jZQA="));
}

#[test]
fn keys_with_stray_bits_are_invalid() {
    assert!(!valid_client_key(b"dGhlIHNhbXBsZSBub25jZR=="));
    assert!(!valid_client_key(b"dGhlIHNhbXBsZSBub25jZB=="));
    assert!(!valid_client_key(b"dGhlIHNhbXBsZSBub25jZ/=="));
    assert!(valid_client_key(b"dGhlIHNhbXBsZSBub25jZA=="));
    assert!(valid_client_key(b"dGhlIHNhbXBsZSBub25jZg=="));
    assert!(valid_client_key(b"dGhlIHNhbXBsZSBub25jZw=="));
}

#[test]
fn switching_response_carries_the_accept_value() {
    let response = switching_protocols(SAMPLE_ACCEPT.as_bytes().to_vec());
    assert_eq!(response, switching(SAMPLE_ACCEPT));
    let response = switching_protocols(Vec::new());
    assert_eq!(response, switching(""));
}

#[test]
fn refusal_is_a_bad_request_that_closes() {
    assert_eq!(bad_request(), refused());
}
