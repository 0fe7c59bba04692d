//! The connector's decisions: loop prevention before any dial, and
//! classification of a pending dial against the configured timeout.
//!
//! The caller owns the socket work: it asks `dial_target` where to dial (or
//! learns that the dial must be refused), performs the dial, and reports
//! back through `poll_dial` what it has observed so far.

use crate::addr::SockAddr;
use crate::errors::ProxyError;
use vstd::prelude::*;

verus! {

/// The connector's read-only configuration: the proxy's own listening port
/// and the dial timeout.
#[derive(Clone, Copy, Debug, PartialEq, Eq, Structural)]
pub struct ConnectConfig {
    /// The port this proxy itself listens on; dialing it would loop.
    pub proxy_port: u16,
    /// How long a dial may stay pending before it is abandoned.
    pub timeout_ms: u64,
}

/// Where a dial for `port` must go, or why it must not happen at all.
pub open spec fn spec_dial_target(cfg: ConnectConfig, port: u16) -> Result<SockAddr, ProxyError> {
    if port == cfg.proxy_port {
        Err(ProxyError::Loop(port))
    } else {
        Ok(SockAddr::spec_localhost(port))
    }
}

/// Loop prevention. A connection that targets the proxy's own listening
/// port fails synchronously with `Loop`, before any network attempt; any
/// other port yields the loopback address to dial, where the local
/// application listens.
pub fn dial_target(cfg: &ConnectConfig, port: u16) -> (r: Result<SockAddr, ProxyError>)
    ensures
        r == spec_dial_target(*cfg, port),
        port == cfg.proxy_port <==> r is Err,
{
    if port == cfg.proxy_port {
        Err(ProxyError::Loop(port))
    } else {
        Ok(SockAddr::localhost(port))
    }
}

/// What the caller has observed of an in-flight dial.
#[derive(Clone, Copy, Debug, PartialEq, Eq, Structural)]
pub enum DialObservation {
    /// The peer accepted the connection.
    Connected,
    /// The peer refused or reset the connection attempt.
    Refused,
    /// Nothing has happened yet.
    Pending,
}

/// What the connector decides about an in-flight dial.
#[derive(Clone, Copy, Debug, PartialEq, Eq, Structural)]
pub enum DialDecision {
    /// The dial succeeded: hand the byte stream to the pipeline.
    Established,
    /// The dial failed terminally with the given error.
    Fail(ProxyError),
    /// Keep waiting; the timeout has not elapsed.
    Wait,
}

pub open spec fn spec_poll_dial(obs: DialObservation, elapsed_ms: u64, timeout_ms: u64) -> DialDecision {
    match obs {
        DialObservation::Connected => DialDecision::Established,
        DialObservation::Refused => DialDecision::Fail(ProxyError::ConnectFailed),
        DialObservation::Pending => if elapsed_ms >= timeout_ms {
            DialDecision::Fail(ProxyError::ConnectTimeout)
        } else {
            DialDecision::Wait
        },
    }
}

/// Classifies an in-flight dial: success is taken as soon as it is
/// observed, a refusal or reset is `ConnectFailed`, and a dial still
/// pending once the configured timeout has elapsed is abandoned as
/// `ConnectTimeout` — no retry happens at this layer.
pub fn poll_dial(obs: DialObservation, elapsed_ms: u64, timeout_ms: u64) -> (r: DialDecision)
    ensures
        r == spec_poll_dial(obs, elapsed_ms, timeout_ms),
{
    match obs {
        DialObservation::Connected => DialDecision::Established,
        DialObservation::Refused => DialDecision::Fail(ProxyError::ConnectFailed),
        DialObservation::Pending => {
            if elapsed_ms >= timeout_ms {
                DialDecision::Fail(ProxyError::ConnectTimeout)
            } else {
                DialDecision::Wait
            }
        },
    }
}

/// Loop prevention is decided before the network is ever touched: for a
/// target port equal to the proxy's own listening port the dial fails with
/// `Loop(port)` and no dial address is ever produced, whatever the dial
/// would later have observed.
pub proof fn lemma_loop_prevented(cfg: ConnectConfig, port: u16)
    requires
        port == cfg.proxy_port,
    ensures
        spec_dial_target(cfg, port) == Result::<SockAddr, ProxyError>::Err(ProxyError::Loop(port)),
{
}

} // verus!
