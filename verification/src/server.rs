//! Per-connection decisions around the pipeline: what an accepted
//! connection is routed into, and what goes back on the wire for each
//! outcome of the proxied exchange.
//!
//! The caller performs the I/O (the dial, the request exchange) and hands
//! the observed outcome back as a plain value; the functions here decide,
//! for every possible outcome, what the connection does next.

use crate::addr::SockAddr;
use crate::detect::Protocol;
use crate::discovery::{Profile, Target};
use crate::errors::{spec_terminal_response, synthesize_response, ProxyError};
use crate::http::{Response, Version};
use crate::stack::{Layer, Stack};
use crate::switch::{select, spec_select, Selection};
use vstd::prelude::*;

verus! {

/// The per-connection record fixed at acceptance: the detected protocol,
/// the socket addresses, and the client's TLS identity if the handshake
/// presented one. It is never revised once set.
#[derive(Clone, Debug)]
pub struct Accept {
    pub protocol: Protocol,
    pub orig_dst: SockAddr,
    pub client: SockAddr,
    pub tls_client_id: Option<Vec<u8>>,
}

/// The pipeline an accepted connection is handed to. Exactly one branch
/// is ever constructed per connection.
#[derive(Clone, Debug)]
pub enum ConnectionPlan {
    /// Opaque traffic: forward raw bytes toward the original destination.
    TcpForward(Target),
    /// HTTP traffic at the given version, into the selected branch.
    Http(Version, Selection),
}

pub open spec fn spec_plan(accept: Accept, profile: Option<Profile>) -> ConnectionPlan {
    match accept.protocol {
        Protocol::Opaque => ConnectionPlan::TcpForward(Target { orig_dst: accept.orig_dst }),
        Protocol::Http1 => ConnectionPlan::Http(
            Version::Http1,
            spec_select(profile, Target { orig_dst: accept.orig_dst }),
        ),
        Protocol::H2 => ConnectionPlan::Http(
            Version::H2,
            spec_select(profile, Target { orig_dst: accept.orig_dst }),
        ),
    }
}

/// Routes an accepted connection: opaque traffic goes straight to TCP
/// forwarding, HTTP-capable traffic goes through the routing switch with
/// the profile snapshot current at accept time. Only the chosen branch's
/// pipeline is ever built.
pub fn plan_connection(accept: &Accept, profile: Option<Profile>) -> (r: ConnectionPlan)
    ensures
        r == spec_plan(*accept, profile),
{
    let target = Target { orig_dst: accept.orig_dst };
    match accept.protocol {
        Protocol::Opaque => ConnectionPlan::TcpForward(target),
        Protocol::Http1 => ConnectionPlan::Http(Version::Http1, select(profile, target)),
        Protocol::H2 => ConnectionPlan::Http(Version::H2, select(profile, target)),
    }
}

/// The wrapping order of the chosen branch's pipeline, built with the
/// pipeline builder once the branch is known. Both branches dial through
/// the same connector — loop prevention, then the bounded dial — under
/// the shared metrics hook, and are retained by the drain coordinator for
/// as long as they run; only the HTTP branch translates failures into
/// terminal responses.
pub fn build_pipeline(plan: &ConnectionPlan) -> (r: Stack)
    ensures
        plan is TcpForward ==> r.layers@ =~= seq![
            Layer::RetainOnDrain,
            Layer::Metrics,
            Layer::LoopPrevention,
            Layer::ConnectTimeout,
        ],
        plan is Http ==> r.layers@ =~= seq![
            Layer::RetainOnDrain,
            Layer::ErrorTranslation,
            Layer::Metrics,
            Layer::LoopPrevention,
            Layer::ConnectTimeout,
        ],
{
    let connector = Stack::new().push(Layer::ConnectTimeout).push(Layer::LoopPrevention);
    match plan {
        ConnectionPlan::TcpForward(_) => connector.push(Layer::Metrics).push(
            Layer::RetainOnDrain,
        ),
        ConnectionPlan::Http(_, _) => connector.push(Layer::Metrics).push(
            Layer::ErrorTranslation,
        ).push(Layer::RetainOnDrain),
    }
}

/// What the caller observed of one proxied request's upstream exchange.
#[derive(Clone, Debug)]
pub enum UpstreamEvent {
    /// The upstream answered; here is its response.
    Responded(Response),
    /// The upstream refused or reset the dial, or its response could not
    /// be read as HTTP.
    ExchangeFailed,
    /// The dial was abandoned at the connect timeout.
    DialTimedOut,
    /// The logical destination was in fail-fast: no admissible member.
    FailedFast,
}

/// What goes back to the original caller for each outcome: an upstream
/// response passes back unchanged — the diagnostic header is never added
/// to it — and each failure becomes its terminal response, with the
/// request's gRPC-ness deciding the fail-fast status.
pub fn respond(is_grpc: bool, event: UpstreamEvent) -> (r: Response)
    ensures
        event matches UpstreamEvent::Responded(resp) ==> r == resp,
        event is ExchangeFailed ==> spec_terminal_response(ProxyError::ConnectFailed, is_grpc, r),
        event is DialTimedOut ==> spec_terminal_response(ProxyError::ConnectTimeout, is_grpc, r),
        event is FailedFast ==> spec_terminal_response(ProxyError::FailFast, is_grpc, r),
{
    match event {
        UpstreamEvent::Responded(resp) => resp,
        UpstreamEvent::ExchangeFailed => synthesize_response(ProxyError::ConnectFailed, is_grpc),
        UpstreamEvent::DialTimedOut => synthesize_response(ProxyError::ConnectTimeout, is_grpc),
        UpstreamEvent::FailedFast => synthesize_response(ProxyError::FailFast, is_grpc),
    }
}

} // verus!
