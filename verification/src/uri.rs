//! Reading a request's destination out of a `hyper::Uri`.
//!
//! The URI is parsed and held by the `http` crate, which `hyper` re-exports.
//! This module states what is taken on trust about the three accessors the
//! connector needs, and builds the `ConnectionRequest` from what they return.

use vstd::prelude::*;
use hyper::Uri;
use crate::request::optional_str_view;
use crate::request::ConnectionRequest;
use crate::request::RequestView;

verus! {

/// `hyper::Uri`, taken as an opaque value: nothing in this library looks
/// inside one, it only hands it to the accessors below.
#[verifier::external_type_specification]
#[verifier::external_body]
pub struct ExUri(Uri);

/// The scheme name that `Uri::scheme_str` reports for a URI, if it has one.
pub uninterp spec fn uri_scheme_str(uri: &Uri) -> Option<Seq<char>>;

/// The host that `Uri::host` reports for a URI, if it has an authority.
pub uninterp spec fn uri_host(uri: &Uri) -> Option<Seq<char>>;

/// The port that `Uri::port_u16` reports for a URI, if its authority names one.
pub uninterp spec fn uri_port_u16(uri: &Uri) -> Option<u16>;

/// `Uri::scheme_str` returns the scheme of the URI as text, or `None` for a
/// URI without a scheme. Taken on trust: the result is a function of the URI
/// alone, and the call returns for every URI.
pub assume_specification<'a>[ Uri::scheme_str ](uri: &'a Uri) -> (scheme: Option<&'a str>)
    ensures
        optional_str_view(scheme) == uri_scheme_str(uri),
;

/// `Uri::host` returns the host part of the URI's authority, in the case it
/// was written in, or `None` for a URI without an authority. Taken on trust:
/// the result is a function of the URI alone, and the call returns for every
/// URI.
pub assume_specification<'a>[ Uri::host ](uri: &'a Uri) -> (host: Option<&'a str>)
    ensures
        optional_str_view(host) == uri_host(uri),
;

/// `Uri::port_u16` returns the port that the URI's authority names, or `None`
/// where it names none. Taken on trust: the result is a function of the URI
/// alone, and the call returns for every URI.
pub assume_specification[ Uri::port_u16 ](uri: &Uri) -> (port: Option<u16>)
    ensures
        port == uri_port_u16(uri),
;

/// The request that a URI describes: its host, or the empty host if it has
/// none; its explicit port, if it has one; and the scheme its scheme name
/// stands for.
pub open spec fn request_of_uri(uri: &Uri) -> RequestView {
    RequestView::of_parts(uri_scheme_str(uri), uri_host(uri), uri_port_u16(uri))
}

impl ConnectionRequest {
    /// Reads the destination of a request out of its URI.
    pub fn from_uri(uri: &Uri) -> (request: ConnectionRequest)
        ensures
            request@ == request_of_uri(uri),
    {
        ConnectionRequest::from_parts(uri.scheme_str(), uri.host(), uri.port_u16())
    }
}

} // verus!
