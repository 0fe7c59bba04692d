//! The discovery snapshot (profile) that routing decisions read.
//!
//! A profile is the latest value of a single-writer, multiple-reader
//! subscription owned by the discovery subsystem. The core only ever reads a
//! whole snapshot; it never edits one in place.

use crate::addr::{NameAddr, SockAddr};
use vstd::prelude::*;

verus! {

/// Discovery metadata attached to a single endpoint: the TLS server
/// identity the endpoint requires, if any.
#[derive(Clone, Debug)]
pub struct Metadata {
    pub identity: Option<Vec<u8>>,
}

impl Metadata {
    pub fn new(identity: Option<Vec<u8>>) -> (r: Metadata)
        ensures
            r == (Metadata { identity }),
    {
        Metadata { identity }
    }
}

/// One discovery snapshot for a destination name.
#[derive(Clone, Debug)]
pub struct Profile {
    /// A concrete single endpoint, when the destination is not load-balanced.
    pub endpoint: Option<(SockAddr, Metadata)>,
    /// The logical (named) address, when the destination is policy-routed.
    pub logical_addr: Option<NameAddr>,
    /// Whether the destination speaks an opaque (non-HTTP) protocol.
    pub opaque_protocol: bool,
}

impl Profile {
    pub fn new(
        endpoint: Option<(SockAddr, Metadata)>,
        logical_addr: Option<NameAddr>,
        opaque_protocol: bool,
    ) -> (r: Profile)
        ensures
            r == (Profile { endpoint, logical_addr, opaque_protocol }),
    {
        Profile { endpoint, logical_addr, opaque_protocol }
    }

    pub open spec fn has_endpoint(self) -> bool {
        self.endpoint is Some
    }

    pub open spec fn has_logical_addr(self) -> bool {
        self.logical_addr is Some
    }
}

/// A read handle on one destination's discovery subscription: the latest
/// snapshot, and nothing else. The writer replaces the value wholesale —
/// a reader always sees one complete snapshot, never a partial edit, and
/// no superseded value is retained.
#[derive(Clone, Debug)]
pub struct Subscription {
    pub latest: Option<Profile>,
}

pub open spec fn spec_publish(s: Subscription, p: Profile) -> Subscription {
    Subscription { latest: Some(p) }
}

impl Subscription {
    /// A subscription that has not yielded a snapshot yet.
    pub fn new() -> (r: Subscription)
        ensures
            r.latest is None,
    {
        Subscription { latest: None }
    }

    /// The discovery side publishes a new snapshot, replacing whatever
    /// was visible before.
    pub fn publish(&mut self, p: Profile)
        ensures
            *final(self) == spec_publish(*old(self), p),
    {
        self.latest = Some(p);
    }

    /// The snapshot a reader observes right now; routing reads this once,
    /// at accept time.
    pub fn latest(&self) -> (r: &Option<Profile>)
        ensures
            *r == self.latest,
    {
        &self.latest
    }
}

/// Only the latest snapshot is ever visible: of two ordered updates the
/// second wins, whole, and the first is gone.
pub proof fn lemma_subscription_keeps_latest_only(s: Subscription, a: Profile, b: Profile)
    ensures
        spec_publish(spec_publish(s, a), b).latest == Some(b),
        spec_publish(s, a).latest == Some(a),
{
}

/// What a connection is nominally addressed to, taken from the accepted
/// transport's metadata before any routing policy is applied.
#[derive(Clone, Copy, Debug, PartialEq, Eq, Structural)]
pub struct Target {
    /// The connection's original destination address.
    pub orig_dst: SockAddr,
}

impl Target {
    pub fn new(orig_dst: SockAddr) -> (r: Target)
        ensures
            r == (Target { orig_dst }),
    {
        Target { orig_dst }
    }
}

} // verus!
