//! The version switch's downgrade rewrite.
//!
//! A mesh peer that translated a request across protocol versions tags it
//! with a request-scoped marker. Before such a request is forwarded to an
//! HTTP/1-only upstream, its original form is rebuilt from the marker and
//! the `Host` header: method, body and the remaining headers pass through
//! unchanged, and the marker itself is consumed.

use crate::bytes::{bytes_eq, copy_bytes};
use crate::http::{
    header_value, find_header, host_name, marker_http1, marker_http1_absolute, marker_name,
    http_scheme, spec_find, spec_header_value, spec_host_name, spec_http_scheme,
    spec_marker_http1, spec_marker_http1_absolute, spec_marker_name, Request, Uri, Version,
};
use vstd::prelude::*;

verus! {

/// Whether a request's downgrade marker, if any, can be acted on: its
/// value names one of the two downgrade forms, and the absolute form has
/// the `Host` header it is rebuilt from.
pub open spec fn spec_marker_ok(req: Request) -> bool {
    match spec_header_value(req.headers@, spec_marker_name()) {
        None => true,
        Some(v) => v == spec_marker_http1() || (v == spec_marker_http1_absolute()
            && spec_header_value(req.headers@, spec_host_name()) is Some),
    }
}

/// How a downgraded request relates to the tagged request it was rebuilt
/// from: same method and body, HTTP/1, the marker header consumed and
/// every other header kept in order, and the request target rebuilt in the
/// form the marker named.
pub open spec fn spec_downgraded(req: Request, r: Request) -> bool {
    &&& spec_find(req.headers@, spec_marker_name()) matches Some(i) && r.headers@
        == req.headers@.remove(i)
    &&& r.method@ == req.method@
    &&& r.body@ == req.body@
    &&& r.version == Version::Http1
    &&& r.uri.path@ == req.uri.path@
    &&& {
        let v = spec_header_value(req.headers@, spec_marker_name())->Some_0;
        if v == spec_marker_http1() {
            // Origin form: path and query only; the `Host` header that
            // passes through does the addressing.
            r.uri.scheme is None && r.uri.authority is None
        } else {
            // Absolute form: scheme and authority are spelled out, the
            // authority taken from the `Host` header.
            &&& (req.uri.scheme is Some ==> r.uri.scheme == req.uri.scheme)
            &&& (req.uri.scheme is None ==> (r.uri.scheme matches Some(sc) && sc@
                == spec_http_scheme()))
            &&& r.uri.authority matches Some(a) && a@ == spec_header_value(
                req.headers@,
                spec_host_name(),
            )->Some_0
        }
    }
}

/// Rebuilds the original form of a request tagged with the downgrade
/// marker.
pub fn downgrade(req: Request) -> (r: Request)
    requires
        spec_find(req.headers@, spec_marker_name()) is Some,
        spec_marker_ok(req),
    ensures
        spec_downgraded(req, r),
{
    let name = marker_name();
    let i = match find_header(&req.headers, &name) {
        Some(i) => i,
        None => unreached(),
    };
    let origin_form = {
        let v1 = marker_http1();
        bytes_eq(&req.headers[i].value, &v1)
    };
    let uri = if origin_form {
        Uri { scheme: None, authority: None, path: req.uri.path }
    } else {
        let hname = host_name();
        let authority = match header_value(&req.headers, &hname) {
            Some(h) => copy_bytes(h),
            None => unreached(),
        };
        let scheme = match req.uri.scheme {
            Some(s) => Some(s),
            None => Some(http_scheme()),
        };
        Uri { scheme, authority: Some(authority), path: req.uri.path }
    };
    let mut headers = req.headers;
    headers.remove(i);
    Request { version: Version::Http1, method: req.method, uri, headers, body: req.body }
}

/// The version switch's inbound rewrite, total over every request: a
/// request without the marker passes through unchanged; a tagged request
/// is rebuilt in the form its marker names; a tagged request whose marker
/// cannot be acted on is rejected.
pub fn prepare_upstream_request(req: Request) -> (r: Option<Request>)
    ensures
        spec_find(req.headers@, spec_marker_name()) is None ==> r == Some(req),
        (spec_find(req.headers@, spec_marker_name()) is Some && spec_marker_ok(req)) ==> (
        r matches Some(d) && spec_downgraded(req, d)),
        r is None <==> (spec_find(req.headers@, spec_marker_name()) is Some && !spec_marker_ok(
            req,
        )),
{
    let name = marker_name();
    match find_header(&req.headers, &name) {
        None => Some(req),
        Some(i) => {
            let well_formed = {
                let v1 = marker_http1();
                if bytes_eq(&req.headers[i].value, &v1) {
                    true
                } else {
                    let vabs = marker_http1_absolute();
                    if bytes_eq(&req.headers[i].value, &vabs) {
                        let hname = host_name();
                        find_header(&req.headers, &hname).is_some()
                    } else {
                        false
                    }
                }
            };
            if well_formed {
                Some(downgrade(req))
            } else {
                None
            }
        },
    }
}

} // verus!
