//! A plain-value model of the HTTP messages the core inspects: enough of a
//! request and a response to decide routing, downgrading, and failure
//! translation. Header names compare case-insensitively.

use crate::bytes::{bytes_eq, bytes_of, lower, spec_starts_with, starts_with, to_lower};
use vstd::prelude::*;
use vstd::string::StringSliceAdditionalSpecFns;

verus! {

/// The application protocol version a connection was classified as, or
/// that a message travels on.
#[derive(Clone, Copy, Debug, PartialEq, Eq, Structural)]
pub enum Version {
    Http1,
    H2,
}

/// One header: a case-insensitive name and its value.
#[derive(Clone, Debug)]
pub struct Header {
    pub name: Vec<u8>,
    pub value: Vec<u8>,
}

impl Header {
    pub fn new(name: Vec<u8>, value: Vec<u8>) -> (r: Header)
        ensures
            r == (Header { name, value }),
    {
        Header { name, value }
    }
}

/// A request target. Origin form carries only a path (and query);
/// absolute form also names the scheme and authority.
#[derive(Clone, Debug)]
pub struct Uri {
    pub scheme: Option<Vec<u8>>,
    pub authority: Option<Vec<u8>>,
    pub path: Vec<u8>,
}

#[derive(Clone, Debug)]
pub struct Request {
    pub version: Version,
    pub method: Vec<u8>,
    pub uri: Uri,
    pub headers: Vec<Header>,
    pub body: Vec<u8>,
}

#[derive(Clone, Debug)]
pub struct Response {
    pub status: u16,
    pub headers: Vec<Header>,
    pub body: Vec<u8>,
}

/// The request-scoped marker a mesh peer sets when it translated the
/// request across protocol versions.
pub open spec fn spec_marker_name() -> Seq<u8> {
    "l5d-orig-proto".spec_bytes()
}

pub fn marker_name() -> (r: Vec<u8>)
    ensures
        r@ == spec_marker_name(),
{
    bytes_of("l5d-orig-proto")
}

/// The marker value for a downgrade of an origin-form request.
pub open spec fn spec_marker_http1() -> Seq<u8> {
    "HTTP/1.1".spec_bytes()
}

pub fn marker_http1() -> (r: Vec<u8>)
    ensures
        r@ == spec_marker_http1(),
{
    bytes_of("HTTP/1.1")
}

/// The marker value for a downgrade of an absolute-form request.
pub open spec fn spec_marker_http1_absolute() -> Seq<u8> {
    "HTTP/1.1; absolute-form".spec_bytes()
}

pub fn marker_http1_absolute() -> (r: Vec<u8>)
    ensures
        r@ == spec_marker_http1_absolute(),
{
    bytes_of("HTTP/1.1; absolute-form")
}

pub open spec fn spec_host_name() -> Seq<u8> {
    "host".spec_bytes()
}

pub fn host_name() -> (r: Vec<u8>)
    ensures
        r@ == spec_host_name(),
{
    bytes_of("host")
}

pub open spec fn spec_content_type_name() -> Seq<u8> {
    "content-type".spec_bytes()
}

pub fn content_type_name() -> (r: Vec<u8>)
    ensures
        r@ == spec_content_type_name(),
{
    bytes_of("content-type")
}

/// A request is treated as gRPC iff its content type indicates the gRPC
/// wire format.
pub open spec fn spec_grpc_prefix() -> Seq<u8> {
    "application/grpc".spec_bytes()
}

pub fn grpc_prefix() -> (r: Vec<u8>)
    ensures
        r@ == spec_grpc_prefix(),
{
    bytes_of("application/grpc")
}

pub open spec fn spec_http_scheme() -> Seq<u8> {
    "http".spec_bytes()
}

pub fn http_scheme() -> (r: Vec<u8>)
    ensures
        r@ == spec_http_scheme(),
{
    bytes_of("http")
}

/// Whether a header's name, folded to lower case, is `name`.
pub open spec fn header_matches(h: Header, name: Seq<u8>) -> bool {
    lower(h.name@) == name
}

/// The index of the first header whose folded name is `name`.
pub open spec fn spec_find(headers: Seq<Header>, name: Seq<u8>) -> Option<int>
    decreases headers.len(),
{
    if headers.len() == 0 {
        None
    } else if header_matches(headers[0], name) {
        Some(0)
    } else {
        match spec_find(headers.drop_first(), name) {
            Some(i) => Some(i + 1),
            None => None,
        }
    }
}

/// The value of the first header whose folded name is `name`.
pub open spec fn spec_header_value(headers: Seq<Header>, name: Seq<u8>) -> Option<Seq<u8>> {
    match spec_find(headers, name) {
        Some(i) => Some(headers[i].value@),
        None => None,
    }
}

pub proof fn lemma_find_none(headers: Seq<Header>, name: Seq<u8>)
    requires
        forall|j: int| 0 <= j < headers.len() ==> !header_matches(headers[j], name),
    ensures
        spec_find(headers, name) is None,
    decreases headers.len(),
{
    if headers.len() > 0 {
        assert(forall|j: int|
            0 <= j < headers.drop_first().len() ==> headers.drop_first()[j] == headers[j + 1]);
        lemma_find_none(headers.drop_first(), name);
    }
}

pub proof fn lemma_find_first(headers: Seq<Header>, name: Seq<u8>, k: int)
    requires
        0 <= k < headers.len(),
        header_matches(headers[k], name),
        forall|j: int| 0 <= j < k ==> !header_matches(headers[j], name),
    ensures
        spec_find(headers, name) == Some(k),
    decreases k,
{
    if k > 0 {
        assert(forall|j: int|
            0 <= j < headers.drop_first().len() ==> headers.drop_first()[j] == headers[j + 1]);
        lemma_find_first(headers.drop_first(), name, k - 1);
    }
}

/// Finds the first header whose name folds to `name`.
pub fn find_header(headers: &Vec<Header>, name: &Vec<u8>) -> (r: Option<usize>)
    ensures
        match r {
            Some(i) => i < headers@.len() && spec_find(headers@, name@) == Some(i as int),
            None => spec_find(headers@, name@) is None,
        },
{
    let mut i: usize = 0;
    while i < headers.len()
        invariant
            i <= headers@.len(),
            forall|j: int| 0 <= j < i ==> !header_matches(headers@[j], name@),
        decreases headers@.len() - i,
    {
        let folded = to_lower(&headers[i].name);
        if bytes_eq(&folded, name) {
            proof {
                lemma_find_first(headers@, name@, i as int);
            }
            return Some(i);
        }
        i = i + 1;
    }
    proof {
        lemma_find_none(headers@, name@);
    }
    None
}

/// The value of the first header whose name folds to `name`.
pub fn header_value<'a>(headers: &'a Vec<Header>, name: &Vec<u8>) -> (r: Option<&'a Vec<u8>>)
    ensures
        match r {
            Some(v) => spec_header_value(headers@, name@) == Some(v@),
            None => spec_header_value(headers@, name@) is None,
        },
{
    match find_header(headers, name) {
        Some(i) => Some(&headers[i].value),
        None => None,
    }
}

/// Whether a request carries gRPC traffic: its content type starts with
/// the gRPC wire-format type.
pub open spec fn spec_is_grpc(req: Request) -> bool {
    match spec_header_value(req.headers@, spec_content_type_name()) {
        Some(v) => spec_starts_with(v, spec_grpc_prefix()),
        None => false,
    }
}

pub fn is_grpc(req: &Request) -> (r: bool)
    ensures
        r == spec_is_grpc(*req),
{
    let name = content_type_name();
    match header_value(&req.headers, &name) {
        Some(v) => {
            let prefix = grpc_prefix();
            starts_with(v, &prefix)
        },
        None => false,
    }
}

} // verus!
