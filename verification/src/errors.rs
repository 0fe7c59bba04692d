//! The proxy's failure taxonomy and its translation into terminal HTTP
//! responses.

use crate::bytes::bytes_of;
use crate::http::{Header, Response};
use vstd::prelude::*;
use vstd::string::StringSliceAdditionalSpecFns;

verus! {

/// A failure raised while setting up or running a proxied connection.
#[derive(Clone, Copy, Debug, PartialEq, Eq, Structural)]
pub enum ProxyError {
    /// The connection would have dialed the proxy's own listening port.
    Loop(u16),
    /// The upstream dial did not complete within the configured timeout.
    ConnectTimeout,
    /// The upstream refused or reset the connection attempt.
    ConnectFailed,
    /// The logical destination has no admissible member to route to.
    FailFast,
    /// No protocol was recognized within the detection budget.
    DetectionTimeout,
}

impl ProxyError {
    /// A detection timeout is not a hard error: the connection is treated
    /// as successfully classified opaque and forwarded as raw TCP.
    pub fn is_hard_error(&self) -> (r: bool)
        ensures
            r == !(*self is DetectionTimeout),
    {
        !matches!(self, ProxyError::DetectionTimeout)
    }
}

/// The failures the translator maps on the HTTP path. `Loop` fails
/// connection setup synchronously and `DetectionTimeout` is a successful
/// opaque classification; neither reaches a response.
pub open spec fn http_surfaced(e: ProxyError) -> bool {
    e is ConnectTimeout || e is ConnectFailed || e is FailFast
}

/// The diagnostic header set on every proxy-generated terminal response,
/// and never on a successfully proxied one.
pub open spec fn spec_proxy_error_header() -> Seq<u8> {
    "l5d-proxy-error".spec_bytes()
}

pub fn proxy_error_header() -> (r: Vec<u8>)
    ensures
        r@ == spec_proxy_error_header(),
{
    bytes_of("l5d-proxy-error")
}

/// The fixed, short diagnostic put on the wire for each surfaced failure;
/// no internal detail ever joins it.
pub open spec fn spec_diagnostic(e: ProxyError) -> Seq<u8> {
    if e is ConnectTimeout {
        "failed to connect".spec_bytes()
    } else if e is FailFast {
        "HTTP Logical service in fail-fast".spec_bytes()
    } else {
        "proxy received invalid response".spec_bytes()
    }
}

/// The terminal status for a surfaced failure. gRPC requests keep 200 for
/// fail-fast because gRPC conveys status out of band, in trailers, and a
/// non-200 HTTP status would read as a transport failure.
pub open spec fn spec_error_status(e: ProxyError, is_grpc: bool) -> u16 {
    if e is ConnectTimeout {
        504u16
    } else if e is FailFast {
        if is_grpc {
            200u16
        } else {
            503u16
        }
    } else {
        502u16
    }
}

/// How a proxy-generated terminal response relates to the failure it
/// reports: the mapped status, exactly the one diagnostic header, and an
/// empty body.
pub open spec fn spec_terminal_response(e: ProxyError, is_grpc: bool, r: Response) -> bool {
    &&& r.status == spec_error_status(e, is_grpc)
    &&& r.headers@.len() == 1
    &&& r.headers@[0].name@ == spec_proxy_error_header()
    &&& r.headers@[0].value@ == spec_diagnostic(e)
    &&& r.body@.len() == 0
}

/// gRPC-ness moves only the fail-fast status, from 503 to 200: every
/// other surfaced failure keeps its status, and the diagnostic — which
/// never depends on the content type — is attached either way.
pub proof fn lemma_grpc_moves_only_failfast()
    ensures
        spec_error_status(ProxyError::FailFast, true) == 200,
        spec_error_status(ProxyError::FailFast, false) == 503,
        forall|e: ProxyError|
            http_surfaced(e) && !(e is FailFast) ==> spec_error_status(e, true)
                == spec_error_status(e, false),
{
}

/// Translates a surfaced failure into the terminal response put on the
/// wire: 504 for a connect timeout, 502 for a refused or malformed
/// upstream exchange, 503 for fail-fast — kept at 200 for gRPC traffic —
/// each carrying its fixed diagnostic header.
pub fn synthesize_response(e: ProxyError, is_grpc: bool) -> (r: Response)
    requires
        http_surfaced(e),
    ensures
        spec_terminal_response(e, is_grpc, r),
{
    let status: u16 = match e {
        ProxyError::ConnectTimeout => 504,
        ProxyError::FailFast => if is_grpc {
            200
        } else {
            503
        },
        _ => 502,
    };
    let value: Vec<u8> = match e {
        ProxyError::ConnectTimeout => bytes_of("failed to connect"),
        ProxyError::FailFast => bytes_of("HTTP Logical service in fail-fast"),
        _ => bytes_of("proxy received invalid response"),
    };
    let mut headers: Vec<Header> = Vec::new();
    headers.push(Header { name: proxy_error_header(), value });
    Response { status, headers, body: Vec::new() }
}

} // verus!
