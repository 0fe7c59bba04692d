//! The protocol detector: classify an accepted connection from its first
//! bytes, within a bounded time and byte budget.
//!
//! The caller reads what it can within the budget and hands the prefix
//! over; if the budget ran out first it says so. Ambiguity defaults to
//! forwarding: anything not recognized as HTTP is opaque TCP, never
//! blocked.

use crate::bytes::{bytes_of, spec_starts_with, starts_with};
use vstd::prelude::*;
use vstd::string::StringSliceAdditionalSpecFns;

verus! {

/// What a connection's traffic was classified as. The classification is
/// made once, at acceptance, and governs the connection's whole pipeline.
#[derive(Clone, Copy, Debug, PartialEq, Eq, Structural)]
pub enum Protocol {
    /// Not recognized as HTTP within the budget: forwarded as raw TCP.
    Opaque,
    Http1,
    H2,
}

/// The fixed preface every HTTP/2 connection opens with.
pub open spec fn spec_h2_preface() -> Seq<u8> {
    "PRI * HTTP/2.0\r\n\r\nSM\r\n\r\n".spec_bytes()
}

pub fn h2_preface() -> (r: Vec<u8>)
    ensures
        r@ == spec_h2_preface(),
{
    bytes_of("PRI * HTTP/2.0\r\n\r\nSM\r\n\r\n")
}

/// The HTTP/1 request-line openings the detector recognizes: each method
/// token with its trailing space.
pub open spec fn spec_method_prefixes() -> Seq<Seq<u8>> {
    seq![
        "GET ".spec_bytes(),
        "HEAD ".spec_bytes(),
        "POST ".spec_bytes(),
        "PUT ".spec_bytes(),
        "DELETE ".spec_bytes(),
        "CONNECT ".spec_bytes(),
        "OPTIONS ".spec_bytes(),
        "TRACE ".spec_bytes(),
        "PATCH ".spec_bytes(),
    ]
}

pub fn method_prefixes() -> (r: Vec<Vec<u8>>)
    ensures
        r.deep_view() == spec_method_prefixes(),
{
    let mut r: Vec<Vec<u8>> = Vec::new();
    r.push(bytes_of("GET "));
    r.push(bytes_of("HEAD "));
    r.push(bytes_of("POST "));
    r.push(bytes_of("PUT "));
    r.push(bytes_of("DELETE "));
    r.push(bytes_of("CONNECT "));
    r.push(bytes_of("OPTIONS "));
    r.push(bytes_of("TRACE "));
    r.push(bytes_of("PATCH "));
    proof {
        assert(r.deep_view() =~~= spec_method_prefixes());
    }
    r
}

/// Whether the first bytes read as the start of an HTTP/1 request line.
pub open spec fn spec_is_http1_start(bytes: Seq<u8>) -> bool {
    exists|k: int|
        0 <= k < spec_method_prefixes().len() && spec_starts_with(
            bytes,
            spec_method_prefixes()[k],
        )
}

pub fn is_http1_start(bytes: &Vec<u8>) -> (r: bool)
    ensures
        r == spec_is_http1_start(bytes@),
{
    let prefixes = method_prefixes();
    let mut k: usize = 0;
    while k < prefixes.len()
        invariant
            k <= prefixes@.len(),
            prefixes.deep_view() == spec_method_prefixes(),
            prefixes@.len() == spec_method_prefixes().len(),
            forall|j: int|
                0 <= j < k ==> !spec_starts_with(bytes@, spec_method_prefixes()[j]),
        decreases prefixes@.len() - k,
    {
        assert(prefixes@[k as int]@ == spec_method_prefixes()[k as int]);
        if starts_with(bytes, &prefixes[k]) {
            return true;
        }
        k = k + 1;
    }
    false
}

/// What classification the first bytes force, once the caller stops
/// reading: a timed-out detection is a successful classification of
/// opaque, the HTTP/2 preface wins over any request-line reading, and
/// everything unrecognized is opaque.
pub open spec fn spec_detect(bytes: Seq<u8>, timed_out: bool) -> Protocol {
    if timed_out {
        Protocol::Opaque
    } else if spec_starts_with(bytes, spec_h2_preface()) {
        Protocol::H2
    } else if spec_is_http1_start(bytes) {
        Protocol::Http1
    } else {
        Protocol::Opaque
    }
}

/// Classifies a connection from the prefix read within the budget;
/// `timed_out` says the time budget ran out before the bytes sufficed.
pub fn detect(bytes: &Vec<u8>, timed_out: bool) -> (r: Protocol)
    ensures
        r == spec_detect(bytes@, timed_out),
{
    if timed_out {
        return Protocol::Opaque;
    }
    let preface = h2_preface();
    if starts_with(bytes, &preface) {
        Protocol::H2
    } else if is_http1_start(bytes) {
        Protocol::Http1
    } else {
        Protocol::Opaque
    }
}

/// Failure to recognize HTTP within the time budget never blocks traffic:
/// it classifies the connection as opaque, whatever was read.
pub proof fn lemma_detection_timeout_is_opaque(bytes: Seq<u8>)
    ensures
        spec_detect(bytes, true) == Protocol::Opaque,
{
}

} // verus!
