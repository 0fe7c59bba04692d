//! The routing switch: choose, once per connection, between a direct
//! endpoint pipeline and a logical (discovery-driven) pipeline.

use crate::addr::{NameAddr, SockAddr};
use crate::discovery::{Metadata, Profile, Target};
use vstd::prelude::*;

verus! {

/// A concrete single destination with its TLS requirement and
/// opaque-protocol flag.
#[derive(Clone, Debug)]
pub struct Endpoint {
    pub addr: SockAddr,
    /// The TLS server identity the endpoint requires, if discovery supplied
    /// one; `None` means no TLS override.
    pub tls_server_id: Option<Vec<u8>>,
    pub opaque_protocol: bool,
}

impl Endpoint {
    /// An endpoint built from a profile's endpoint metadata.
    pub fn from_metadata(addr: SockAddr, metadata: Metadata, opaque_protocol: bool) -> (r:
        Endpoint)
        ensures
            r == Endpoint::spec_from_metadata(addr, metadata, opaque_protocol),
    {
        Endpoint { addr, tls_server_id: metadata.identity, opaque_protocol }
    }

    pub open spec fn spec_from_metadata(
        addr: SockAddr,
        metadata: Metadata,
        opaque_protocol: bool,
    ) -> Endpoint {
        Endpoint { addr, tls_server_id: metadata.identity, opaque_protocol }
    }

    /// A bare endpoint for a destination about which discovery knows
    /// nothing: forward to the original destination, no TLS override,
    /// not opaque.
    pub fn forward(addr: SockAddr) -> (r: Endpoint)
        ensures
            r == Endpoint::spec_forward(addr),
    {
        Endpoint { addr, tls_server_id: None, opaque_protocol: false }
    }

    pub open spec fn spec_forward(addr: SockAddr) -> Endpoint {
        Endpoint { addr, tls_server_id: None, opaque_protocol: false }
    }
}

/// A named destination bound to the discovery snapshot that described it;
/// it drives an externally supplied load-balancing sub-pipeline that keeps
/// reacting to later snapshots of the same subscription.
#[derive(Clone, Debug)]
pub struct Logical {
    pub profile: Profile,
}

impl Logical {
    /// A logical destination is only ever built from a profile that names
    /// one.
    pub open spec fn wf(self) -> bool {
        self.profile.logical_addr is Some
    }

    pub open spec fn spec_addr(self) -> NameAddr {
        self.profile.logical_addr->Some_0
    }

    /// The name this destination routes by.
    pub fn logical_addr(&self) -> (r: &NameAddr)
        requires
            self.wf(),
        ensures
            *r == self.spec_addr(),
    {
        match &self.profile.logical_addr {
            Some(a) => a,
            None => unreached(),
        }
    }
}

/// The routing switch's verdict. Exactly one variant is ever built for a
/// connection; the unselected branch's pipeline is never constructed.
#[derive(Clone, Debug)]
pub enum Selection {
    Endpoint(Endpoint),
    Logical(Logical),
}

/// What `select` returns, as a function of the profile snapshot and the
/// target alone.
pub open spec fn spec_select(profile: Option<Profile>, target: Target) -> Selection {
    match profile {
        Some(p) => {
            if p.endpoint is Some {
                Selection::Endpoint(
                    Endpoint::spec_from_metadata(
                        p.endpoint->Some_0.0,
                        p.endpoint->Some_0.1,
                        p.opaque_protocol,
                    ),
                )
            } else if p.logical_addr is Some {
                Selection::Logical(Logical { profile: p })
            } else {
                Selection::Endpoint(Endpoint::spec_forward(target.orig_dst))
            }
        },
        None => Selection::Endpoint(Endpoint::spec_forward(target.orig_dst)),
    }
}

/// Selects the pipeline for a connection from the most recent profile
/// snapshot available at accept time:
///
/// - a profile with endpoint metadata yields that endpoint, tagged opaque
///   iff the profile says so;
/// - otherwise a profile with a logical address yields a logical
///   destination bound to that profile;
/// - otherwise traffic is forwarded to the original destination.
///
/// The choice is exhaustive and deterministic, and is not revisited for
/// the life of the connection.
pub fn select(profile: Option<Profile>, target: Target) -> (r: Selection)
    ensures
        r == spec_select(profile, target),
{
    match profile {
        Some(p) => {
            match p.endpoint {
                Some((addr, metadata)) => Selection::Endpoint(
                    Endpoint::from_metadata(addr, metadata, p.opaque_protocol),
                ),
                None => {
                    if p.logical_addr.is_some() {
                        Selection::Logical(Logical { profile: p })
                    } else {
                        Selection::Endpoint(Endpoint::forward(target.orig_dst))
                    }
                },
            }
        },
        None => Selection::Endpoint(Endpoint::forward(target.orig_dst)),
    }
}

/// The switch is exhaustive and deterministic: an endpoint profile always
/// wins (a logical address never overrides a present endpoint), a logical
/// address is used only when no endpoint is given, and absent or empty
/// discovery degrades to forwarding the original destination.
pub proof fn lemma_select_exhaustive(profile: Option<Profile>, target: Target)
    ensures
        (profile is Some && profile->0.has_endpoint()) ==> spec_select(profile, target)
            == Selection::Endpoint(
            Endpoint::spec_from_metadata(
                profile->0.endpoint->Some_0.0,
                profile->0.endpoint->Some_0.1,
                profile->0.opaque_protocol,
            ),
        ),
        (profile is Some && !profile->0.has_endpoint() && profile->0.has_logical_addr())
            ==> spec_select(profile, target) == Selection::Logical(Logical { profile: profile->0 }),
        (profile is None || (!profile->0.has_endpoint() && !profile->0.has_logical_addr()))
            ==> spec_select(profile, target) == Selection::Endpoint(
            Endpoint::spec_forward(target.orig_dst),
        ),
        spec_select(profile, target) is Logical <==> (profile is Some
            && !profile->0.has_endpoint() && profile->0.has_logical_addr()),
        spec_select(profile, target) is Logical ==> spec_select(
            profile,
            target,
        )->Logical_0.wf(),
{
}

} // verus!
