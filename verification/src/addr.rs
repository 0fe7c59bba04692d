//! Plain-value addresses: IPv4 socket addresses and named (logical) addresses.

use vstd::prelude::*;

verus! {

/// An IPv4 socket address, held as plain octets and a port.
#[derive(Clone, Copy, Debug, PartialEq, Eq, Structural)]
pub struct SockAddr {
    pub o0: u8,
    pub o1: u8,
    pub o2: u8,
    pub o3: u8,
    pub port: u16,
}

impl SockAddr {
    pub fn new(o0: u8, o1: u8, o2: u8, o3: u8, port: u16) -> (r: SockAddr)
        ensures
            r == (SockAddr { o0, o1, o2, o3, port }),
    {
        SockAddr { o0, o1, o2, o3, port }
    }

    /// The loopback address on the given port, where the proxy forwards
    /// inbound connections to the local application.
    pub fn localhost(port: u16) -> (r: SockAddr)
        ensures
            r == SockAddr::spec_localhost(port),
    {
        SockAddr { o0: 127, o1: 0, o2: 0, o3: 1, port }
    }

    pub open spec fn spec_localhost(port: u16) -> SockAddr {
        SockAddr { o0: 127u8, o1: 0u8, o2: 0u8, o3: 1u8, port }
    }
}

/// A named destination: a DNS-like name together with a port.
#[derive(Clone, Debug)]
pub struct NameAddr {
    pub name: Vec<u8>,
    pub port: u16,
}

impl NameAddr {
    pub fn new(name: Vec<u8>, port: u16) -> (r: NameAddr)
        ensures
            r.name@ == name@,
            r.port == port,
    {
        NameAddr { name, port }
    }
}

} // verus!
