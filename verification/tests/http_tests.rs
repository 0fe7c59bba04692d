use proxy_core::addr::SockAddr;
use proxy_core::detect::Protocol;
use proxy_core::discovery::Profile;
use proxy_core::http::{is_grpc, Header, Request, Response, Uri, Version};
use proxy_core::orig_proto::prepare_upstream_request;
use proxy_core::server::{plan_connection, respond, Accept, ConnectionPlan, UpstreamEvent};
use proxy_core::switch::Selection;

fn header(name: &[u8], value: &[u8]) -> Header {
    Header::new(name.to_vec(), value.to_vec())
}

fn accept(protocol: Protocol) -> Accept {
    Accept {
        protocol,
        orig_dst: SockAddr::new(127, 0, 0, 1, 5550),
        client: SockAddr::new(10, 0, 0, 41, 6894),
        tls_client_id: None,
    }
}

fn hello_world_response() -> Response {
    Response {
        status: 200,
        headers: Vec::new(),
        body: b"Hello world!".to_vec(),
    }
}

fn find_header_value(rsp: &Response, name: &[u8]) -> Option<Vec<u8>> {
    rsp.headers
        .iter()
        .find(|h| h.name == name.to_vec())
        .map(|h| h.value.clone())
}

#[test]
fn unmeshed_http1_hello_world() {
    // An unmeshed HTTP/1 request: a resolvable but empty profile routes to
    // the forwarding endpoint, the request passes through untouched, and
    // the upstream's response comes back unchanged.
    let acc = accept(Protocol::Http1);
    let profile = Profile::new(None, None, false);
    match plan_connection(&acc, Some(profile)) {
        ConnectionPlan::Http(Version::Http1, Selection::Endpoint(ep)) => {
            assert_eq!(ep.addr, SockAddr::new(127, 0, 0, 1, 5550));
        }
        _ => panic!("expected the HTTP/1 endpoint plan"),
    }

    let req = Request {
        version: Version::Http1,
        method: b"GET".to_vec(),
        uri: Uri {
            scheme: Some(b"http".to_vec()),
            authority: Some(b"foo.svc.cluster.local:5550".to_vec()),
            path: b"/".to_vec(),
        },
        headers: Vec::new(),
        body: Vec::new(),
    };
    let upstream_req = prepare_upstream_request(req).expect("request must pass through");
    assert_eq!(upstream_req.version, Version::Http1);
    assert_eq!(upstream_req.method, b"GET".to_vec());
    assert_eq!(
        upstream_req.uri.authority,
        Some(b"foo.svc.cluster.local:5550".to_vec())
    );

    let grpc = is_grpc(&upstream_req);
    let rsp = respond(grpc, UpstreamEvent::Responded(hello_world_response()));
    assert_eq!(rsp.status, 200);
    assert_eq!(rsp.body, b"Hello world!".to_vec());
    assert!(find_header_value(&rsp, b"l5d-proxy-error").is_none());
}

#[test]
fn downgrade_origin_form() {
    // An HTTP/2 caller reaches an HTTP/1-only upstream: the marker makes
    // the switch rebuild an origin-form HTTP/1 request with the same Host.
    let req = Request {
        version: Version::H2,
        method: b"GET".to_vec(),
        uri: Uri {
            scheme: None,
            authority: None,
            path: b"/".to_vec(),
        },
        headers: vec![
            header(b"host", b"foo.svc.cluster.local"),
            header(b"l5d-orig-proto", b"HTTP/1.1"),
        ],
        body: Vec::new(),
    };
    let upstream_req = prepare_upstream_request(req).expect("marker must be honored");
    assert_eq!(upstream_req.version, Version::Http1);
    assert_eq!(upstream_req.method, b"GET".to_vec());
    assert!(upstream_req.uri.scheme.is_none());
    assert!(upstream_req.uri.authority.is_none());
    assert_eq!(upstream_req.uri.path, b"/".to_vec());
    assert_eq!(upstream_req.headers.len(), 1);
    assert_eq!(upstream_req.headers[0].name, b"host".to_vec());
    assert_eq!(upstream_req.headers[0].value, b"foo.svc.cluster.local".to_vec());

    let rsp = respond(false, UpstreamEvent::Responded(hello_world_response()));
    assert_eq!(rsp.status, 200);
    assert_eq!(rsp.body, b"Hello world!".to_vec());
}

#[test]
fn downgrade_absolute_form() {
    let req = Request {
        version: Version::H2,
        method: b"GET".to_vec(),
        uri: Uri {
            scheme: Some(b"http".to_vec()),
            authority: Some(b"foo.svc.cluster.local:5550".to_vec()),
            path: b"/".to_vec(),
        },
        headers: vec![
            header(b"host", b"foo.svc.cluster.local"),
            header(b"l5d-orig-proto", b"HTTP/1.1; absolute-form"),
        ],
        body: Vec::new(),
    };
    let upstream_req = prepare_upstream_request(req).expect("marker must be honored");
    assert_eq!(upstream_req.version, Version::Http1);
    assert_eq!(upstream_req.uri.scheme, Some(b"http".to_vec()));
    // The absolute form is rebuilt from the Host header.
    assert_eq!(
        upstream_req.uri.authority,
        Some(b"foo.svc.cluster.local".to_vec())
    );
    assert_eq!(upstream_req.uri.path, b"/".to_vec());
    assert_eq!(upstream_req.headers.len(), 1);
    assert_eq!(upstream_req.headers[0].name, b"host".to_vec());

    let rsp = respond(false, UpstreamEvent::Responded(hello_world_response()));
    assert_eq!(rsp.status, 200);
    assert_eq!(rsp.body, b"Hello world!".to_vec());
}

#[test]
fn http1_bad_gateway_response_error_header() {
    // The upstream refuses every connection: the HTTP/1 caller gets a 502
    // with the diagnostic header.
    let rsp = respond(false, UpstreamEvent::ExchangeFailed);
    assert_eq!(rsp.status, 502);
    let message = find_header_value(&rsp, b"l5d-proxy-error")
        .expect("response did not contain the proxy error header");
    assert_eq!(message, b"proxy received invalid response".to_vec());
}

#[test]
fn http1_connect_timeout_response_error_header() {
    // The upstream dial sleeps past the connect timeout: the caller gets a
    // 504 with the diagnostic header.
    let rsp = respond(false, UpstreamEvent::DialTimedOut);
    assert_eq!(rsp.status, 504);
    let message = find_header_value(&rsp, b"l5d-proxy-error")
        .expect("response did not contain the proxy error header");
    assert_eq!(message, b"failed to connect".to_vec());
}

#[test]
fn h2_response_error_header() {
    // A logical destination in fail-fast, seen by a non-gRPC HTTP/2 caller.
    let req = Request {
        version: Version::H2,
        method: b"GET".to_vec(),
        uri: Uri {
            scheme: Some(b"http".to_vec()),
            authority: Some(b"foo.svc.cluster.local:5550".to_vec()),
            path: b"/".to_vec(),
        },
        headers: Vec::new(),
        body: Vec::new(),
    };
    assert!(!is_grpc(&req));
    let rsp = respond(is_grpc(&req), UpstreamEvent::FailedFast);
    assert_eq!(rsp.status, 503);
    let message = find_header_value(&rsp, b"l5d-proxy-error")
        .expect("response did not contain the proxy error header");
    assert_eq!(message, b"HTTP Logical service in fail-fast".to_vec());
}

#[test]
fn grpc_response_error_header() {
    // The same fail-fast, but the request is gRPC: the framing stays 200
    // and the diagnostic header still names the failure.
    let req = Request {
        version: Version::H2,
        method: b"GET".to_vec(),
        uri: Uri {
            scheme: Some(b"http".to_vec()),
            authority: Some(b"foo.svc.cluster.local:5550".to_vec()),
            path: b"/".to_vec(),
        },
        headers: vec![header(b"content-type", b"application/grpc")],
        body: Vec::new(),
    };
    assert!(is_grpc(&req));
    let rsp = respond(is_grpc(&req), UpstreamEvent::FailedFast);
    assert_eq!(rsp.status, 200);
    let message = find_header_value(&rsp, b"l5d-proxy-error")
        .expect("response did not contain the proxy error header");
    assert_eq!(message, b"HTTP Logical service in fail-fast".to_vec());
}

#[test]
fn marker_name_is_case_insensitive() {
    let req = Request {
        version: Version::H2,
        method: b"GET".to_vec(),
        uri: Uri {
            scheme: None,
            authority: None,
            path: b"/metrics".to_vec(),
        },
        headers: vec![
            header(b"Host", b"foo.svc.cluster.local"),
            header(b"L5D-Orig-Proto", b"HTTP/1.1"),
        ],
        body: Vec::new(),
    };
    let upstream_req = prepare_upstream_request(req).expect("marker must be honored");
    assert_eq!(upstream_req.version, Version::Http1);
    assert_eq!(upstream_req.headers.len(), 1);
    assert_eq!(upstream_req.headers[0].name, b"Host".to_vec());
    assert_eq!(upstream_req.uri.path, b"/metrics".to_vec());
}

#[test]
fn unknown_marker_value_is_rejected() {
    let req = Request {
        version: Version::H2,
        method: b"GET".to_vec(),
        uri: Uri {
            scheme: None,
            authority: None,
            path: b"/".to_vec(),
        },
        headers: vec![
            header(b"host", b"foo.svc.cluster.local"),
            header(b"l5d-orig-proto", b"HTTP/3"),
        ],
        body: Vec::new(),
    };
    assert!(prepare_upstream_request(req).is_none());
}

#[test]
fn absolute_form_needs_a_host() {
    let req = Request {
        version: Version::H2,
        method: b"GET".to_vec(),
        uri: Uri {
            scheme: Some(b"http".to_vec()),
            authority: Some(b"foo.svc.cluster.local:5550".to_vec()),
            path: b"/".to_vec(),
        },
        headers: vec![header(b"l5d-orig-proto", b"HTTP/1.1; absolute-form")],
        body: Vec::new(),
    };
    assert!(prepare_upstream_request(req).is_none());
}

#[test]
fn downgrade_defaults_the_scheme() {
    // An absolute-form rebuild of a request that arrived without a scheme
    // spells out plain HTTP.
    let req = Request {
        version: Version::H2,
        method: b"POST".to_vec(),
        uri: Uri {
            scheme: None,
            authority: None,
            path: b"/upload".to_vec(),
        },
        headers: vec![
            header(b"host", b"foo.svc.cluster.local"),
            header(b"l5d-orig-proto", b"HTTP/1.1; absolute-form"),
            header(b"content-length", b"4"),
        ],
        body: b"data".to_vec(),
    };
    let upstream_req = prepare_upstream_request(req).expect("marker must be honored");
    assert_eq!(upstream_req.uri.scheme, Some(b"http".to_vec()));
    assert_eq!(
        upstream_req.uri.authority,
        Some(b"foo.svc.cluster.local".to_vec())
    );
    assert_eq!(upstream_req.method, b"POST".to_vec());
    assert_eq!(upstream_req.body, b"data".to_vec());
    assert_eq!(upstream_req.headers.len(), 2);
    assert_eq!(upstream_req.headers[0].name, b"host".to_vec());
    assert_eq!(upstream_req.headers[1].name, b"content-length".to_vec());
}
