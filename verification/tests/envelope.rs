use socket_tunnel::TunnelError;
use socket_tunnel::codec::base64_round_trip;
use socket_tunnel::request::RequestWarpper;
use socket_tunnel::response::{ResponseWarpper, response_round_trip};

fn basic_headers() -> Vec<(String, String)> {
    vec![
        ("X-CONNECT-ID".to_string(), "a1".to_string()),
        ("X-CONNECT-HOST".to_string(), "example.test".to_string()),
        ("Accept".to_string(), "*/*".to_string()),
    ]
}

fn encode(method: &str, url: &str, headers: Vec<(String, String)>, body: Vec<u8>) -> RequestWarpper {
    RequestWarpper::from_request(method.to_string(), url.to_string(), headers, body, None).unwrap()
}

#[test]
fn encode_reads_control_headers() {
    let w = encode("GET", "/foo?x=1", basic_headers(), Vec::new());
    assert_eq!(w.connect_id(), "a1");
    assert_eq!(w.host, "example.test");
    assert_eq!(w.scheme, "http");
    assert_eq!(w.url, "/foo?x=1");
    assert_eq!(w.method, "GET");
    assert_eq!(w.tunnel_id(), None);
    assert_eq!(w.headers, basic_headers());
    assert_eq!(w.body.as_deref(), Some(""));
}

#[test]
fn encode_missing_routing_header() {
    let headers = vec![("X-CONNECT-HOST".to_string(), "example.test".to_string())];
    let r = RequestWarpper::from_request(
        "GET".to_string(),
        "/".to_string(),
        headers,
        Vec::new(),
        None,
    );
    assert!(matches!(r, Err(TunnelError::MissingRoutingHeader)));
}

#[test]
fn encode_missing_target_host() {
    let headers = vec![("X-CONNECT-ID".to_string(), "a1".to_string())];
    let r = RequestWarpper::from_request(
        "GET".to_string(),
        "/".to_string(),
        headers,
        Vec::new(),
        None,
    );
    assert!(matches!(r, Err(TunnelError::MissingTargetHost)));
}

#[test]
fn encode_control_headers_case_insensitive() {
    let headers = vec![
        ("x-connect-id".to_string(), "a1".to_string()),
        ("X-Connect-Host".to_string(), "example.test".to_string()),
        ("x-CONNECT-scheme".to_string(), "https".to_string()),
    ];
    let w = encode("GET", "/", headers, Vec::new());
    assert_eq!(w.connect_id(), "a1");
    assert_eq!(w.host, "example.test");
    assert_eq!(w.scheme, "https");
}

#[test]
fn encode_body_cap() {
    let body = vec![0u8; 10];
    let r = RequestWarpper::from_request(
        "POST".to_string(),
        "/".to_string(),
        basic_headers(),
        body.clone(),
        Some(5),
    );
    assert!(matches!(r, Err(TunnelError::BodyTooLarge)));
    let r = RequestWarpper::from_request(
        "POST".to_string(),
        "/".to_string(),
        basic_headers(),
        body,
        Some(10),
    );
    assert!(r.is_ok());
}

#[test]
fn encode_body_is_standard_base64() {
    let w = encode("POST", "/", basic_headers(), b"hi".to_vec());
    assert_eq!(w.body.as_deref(), Some("aGk="));
}

#[test]
fn set_tunnel_id_stamps() {
    let mut w = encode("GET", "/", basic_headers(), Vec::new());
    w.set_tunnel_id("t-123");
    assert_eq!(w.tunnel_id(), Some("t-123"));
    assert_eq!(w.connect_id(), "a1");
}

#[test]
fn decode_reconstructs_target() {
    let w = encode("GET", "/foo?x=1", basic_headers(), b"payload".to_vec());
    assert_eq!(w.target(), "http://example.test/foo?x=1");
    let d = w.to_request().unwrap();
    assert_eq!(d.target, "http://example.test/foo?x=1");
    assert_eq!(d.method, "GET");
    assert_eq!(d.headers, basic_headers());
    assert_eq!(d.body, b"payload".to_vec());
}

#[test]
fn decode_malformed_target() {
    let w = RequestWarpper {
        request_id: "a1".to_string(),
        tunnel_id: None,
        scheme: "ht tp".to_string(),
        host: "example.test".to_string(),
        url: "/".to_string(),
        headers: Vec::new(),
        body: None,
        method: "GET".to_string(),
    };
    assert!(matches!(w.to_request(), Err(TunnelError::MalformedTarget)));
}

#[test]
fn decode_unknown_method() {
    let w = RequestWarpper {
        request_id: "a1".to_string(),
        tunnel_id: None,
        scheme: "http".to_string(),
        host: "example.test".to_string(),
        url: "/".to_string(),
        headers: Vec::new(),
        body: None,
        method: "BAD METHOD".to_string(),
    };
    assert!(matches!(w.to_request(), Err(TunnelError::UnknownMethod)));
}

#[test]
fn decode_corrupt_body() {
    let w = RequestWarpper {
        request_id: "a1".to_string(),
        tunnel_id: None,
        scheme: "http".to_string(),
        host: "example.test".to_string(),
        url: "/".to_string(),
        headers: Vec::new(),
        body: Some("%%%not-base64%%%".to_string()),
        method: "GET".to_string(),
    };
    assert!(matches!(w.to_request(), Err(TunnelError::CorruptBody)));
}

#[test]
fn decode_absent_body_is_empty() {
    let w = RequestWarpper {
        request_id: "a1".to_string(),
        tunnel_id: None,
        scheme: "http".to_string(),
        host: "example.test".to_string(),
        url: "/".to_string(),
        headers: Vec::new(),
        body: None,
        method: "GET".to_string(),
    };
    let d = w.to_request().unwrap();
    assert!(d.body.is_empty());
}

#[test]
fn first_matching_control_header_wins() {
    let headers = vec![
        ("X-CONNECT-ID".to_string(), "first".to_string()),
        ("x-connect-id".to_string(), "second".to_string()),
        ("X-CONNECT-HOST".to_string(), "example.test".to_string()),
    ];
    let w = encode("GET", "/", headers, Vec::new());
    assert_eq!(w.connect_id(), "first");
}

#[test]
fn multi_valued_header_order_is_kept() {
    let headers = vec![
        ("X-CONNECT-ID".to_string(), "a1".to_string()),
        ("X-CONNECT-HOST".to_string(), "example.test".to_string()),
        ("Set-Cookie".to_string(), "a=1".to_string()),
        ("Set-Cookie".to_string(), "b=2".to_string()),
    ];
    let w = encode("GET", "/", headers.clone(), Vec::new());
    assert_eq!(w.headers, headers);
    let d = w.to_request().unwrap();
    assert_eq!(d.headers, headers);
}

fn pseudo_random_bytes(len: usize, mut seed: u64) -> Vec<u8> {
    let mut out = Vec::with_capacity(len);
    for _ in 0..len {
        seed = seed.wrapping_mul(6364136223846793005).wrapping_add(1442695040888963407);
        out.push((seed >> 33) as u8);
    }
    out
}

#[test]
fn base64_round_trip_many_sizes() {
    for (i, len) in [0usize, 1, 2, 3, 4, 5, 57, 58, 4096, 65536, 1048576]
        .iter()
        .enumerate()
    {
        let data = pseudo_random_bytes(*len, 0x5eed + i as u64);
        assert_eq!(base64_round_trip(&data), data);
    }
}

#[test]
fn request_round_trip_binary_body() {
    let mut body = Vec::with_capacity(65536);
    for i in 0..65536usize {
        body.push((i % 256) as u8);
    }
    let r = socket_tunnel::request::request_round_trip(
        "POST".to_string(),
        "/echo".to_string(),
        basic_headers(),
        body.clone(),
    );
    let d = r.unwrap();
    assert_eq!(d.method, "POST");
    assert_eq!(d.headers, basic_headers());
    assert_eq!(d.body, body);
    assert_eq!(d.target, "http://example.test/echo");
}

#[test]
fn response_round_trip_exact() {
    let headers = vec![("Content-Type".to_string(), "text/plain".to_string())];
    let d = response_round_trip(
        "a1".to_string(),
        Some("t-1".to_string()),
        200,
        headers.clone(),
        b"hi".to_vec(),
    );
    assert_eq!(d.status, 200);
    assert_eq!(d.headers, headers);
    assert_eq!(d.body, b"hi".to_vec());
}

#[test]
fn response_encode_decode() {
    let headers = vec![("Content-Type".to_string(), "text/plain".to_string())];
    let w = ResponseWarpper::from_response(
        "a1".to_string(),
        Some("t-1".to_string()),
        204,
        headers.clone(),
        Vec::new(),
    );
    assert_eq!(w.tunnel_id(), Some("t-1"));
    assert_eq!(w.status, 204);
    assert_eq!(w.body.as_deref(), Some(""));
    let d = w.to_response().unwrap();
    assert_eq!(d.status, 204);
    assert_eq!(d.headers, headers);
    assert!(d.body.is_empty());
}

#[test]
fn response_corrupt_body() {
    let w = ResponseWarpper {
        request_id: "a1".to_string(),
        tunnel_id: Some("t-1".to_string()),
        status: 200,
        headers: Vec::new(),
        body: Some("@@@".to_string()),
    };
    assert!(matches!(w.to_response(), Err(TunnelError::CorruptBody)));
}

#[test]
fn bad_response_shape() {
    let w = ResponseWarpper::new_bad_response("a1".to_string(), Some("t-9".to_string()));
    assert_eq!(w.status, 400);
    assert!(w.headers.is_empty());
    assert!(w.body.is_none());
    assert_eq!(w.tunnel_id(), Some("t-9"));
}
