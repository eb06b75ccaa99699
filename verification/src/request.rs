//! The destination of one outbound connection, and the port it resolves to.

use vstd::prelude::*;
use crate::ascii::str_eq;

verus! {

/// The port of a destination whose scheme runs over TLS.
pub const SECURE_PORT: u16 = 443;

/// The port of any other destination.
pub const PLAIN_PORT: u16 = 80;

/// The scheme of a request, as far as routing cares about it.
#[derive(Clone, Copy, Debug, PartialEq, Eq, Structural)]
pub enum Scheme {
    Http,
    Https,
    Ws,
    Wss,
    /// Any other scheme, or none.
    Other,
}

impl Scheme {
    /// The scheme that a scheme name stands for. Names are matched exactly.
    pub open spec fn of_name(name: Seq<char>) -> Scheme {
        if name == "http"@ {
            Scheme::Http
        } else if name == "https"@ {
            Scheme::Https
        } else if name == "ws"@ {
            Scheme::Ws
        } else if name == "wss"@ {
            Scheme::Wss
        } else {
            Scheme::Other
        }
    }

    /// The scheme of an optional scheme name; a missing name is `Other`.
    pub open spec fn of_optional_name(name: Option<Seq<char>>) -> Scheme {
        match name {
            Some(name) => Scheme::of_name(name),
            None => Scheme::Other,
        }
    }

    /// Whether connections of this scheme run over TLS.
    pub open spec fn spec_is_secure(self) -> bool {
        self == Scheme::Https || self == Scheme::Wss
    }

    /// The port that a request of this scheme goes to when it names none.
    pub open spec fn spec_default_port(self) -> u16 {
        if self.spec_is_secure() {
            SECURE_PORT
        } else {
            PLAIN_PORT
        }
    }

    /// Reads a scheme name.
    pub fn parse(name: &str) -> (scheme: Scheme)
        ensures
            scheme == Scheme::of_name(name@),
    {
        if str_eq(name, "http") {
            Scheme::Http
        } else if str_eq(name, "https") {
            Scheme::Https
        } else if str_eq(name, "ws") {
            Scheme::Ws
        } else if str_eq(name, "wss") {
            Scheme::Wss
        } else {
            Scheme::Other
        }
    }

    #[verifier::when_used_as_spec(spec_is_secure)]
    pub fn is_secure(self) -> (secure: bool)
        ensures
            secure == self.spec_is_secure(),
    {
        match self {
            Scheme::Https | Scheme::Wss => true,
            _ => false,
        }
    }

    #[verifier::when_used_as_spec(spec_default_port)]
    pub fn default_port(self) -> (port: u16)
        ensures
            port == self.spec_default_port(),
            port == SECURE_PORT || port == PLAIN_PORT,
    {
        if self.is_secure() {
            SECURE_PORT
        } else {
            PLAIN_PORT
        }
    }
}

/// The port a connection is made to: the explicit one where there is one,
/// else the default of the scheme.
pub open spec fn resolve_port(scheme: Scheme, port: Option<u16>) -> u16 {
    match port {
        Some(port) => port,
        None => scheme.spec_default_port(),
    }
}

/// What a `ConnectionRequest` holds.
pub struct RequestView {
    pub host: Seq<char>,
    pub port: Option<u16>,
    pub scheme: Scheme,
}

impl RequestView {
    /// The port this request resolves to.
    pub open spec fn resolved_port(self) -> u16 {
        resolve_port(self.scheme, self.port)
    }

    /// The request that the parts of a URI describe. A URI without a host
    /// gives the empty host; one without a scheme gives `Scheme::Other`.
    pub open spec fn of_parts(
        scheme: Option<Seq<char>>,
        host: Option<Seq<char>>,
        port: Option<u16>,
    ) -> RequestView {
        RequestView {
            host: match host {
                Some(host) => host,
                None => Seq::empty(),
            },
            port,
            scheme: Scheme::of_optional_name(scheme),
        }
    }
}

/// The view of an optional string.
pub open spec fn optional_str_view(s: Option<&str>) -> Option<Seq<char>> {
    match s {
        Some(s) => Some(s@),
        None => None,
    }
}

/// The destination of one outbound connection. It does not change once made.
#[derive(Clone, Debug, PartialEq, Eq)]
pub struct ConnectionRequest {
    host: String,
    port: Option<u16>,
    scheme: Scheme,
}

impl View for ConnectionRequest {
    type V = RequestView;

    closed spec fn view(&self) -> RequestView {
        RequestView { host: self.host@, port: self.port, scheme: self.scheme }
    }
}

impl ConnectionRequest {
    /// A request for `host`, with the port it names, if any, and its scheme.
    pub fn new(host: String, port: Option<u16>, scheme: Scheme) -> (request: ConnectionRequest)
        ensures
            request@ == (RequestView { host: host@, port, scheme }),
    {
        ConnectionRequest { host, port, scheme }
    }

    /// Builds the request from the scheme name, host and port of a URI, each
    /// of which may be missing.
    pub fn from_parts(scheme: Option<&str>, host: Option<&str>, port: Option<u16>) -> (request:
        ConnectionRequest)
        ensures
            request@ == RequestView::of_parts(
                optional_str_view(scheme),
                optional_str_view(host),
                port,
            ),
    {
        let scheme = match scheme {
            Some(name) => Scheme::parse(name),
            None => Scheme::Other,
        };
        let host = match host {
            Some(host) => host.to_owned(),
            None => String::new(),
        };
        ConnectionRequest { host, port, scheme }
    }

    /// The host, as it was given: case is kept, and a missing host is empty.
    pub fn host(&self) -> (host: &str)
        ensures
            host@ == self@.host,
    {
        self.host.as_str()
    }

    /// The port that the request names, if it names one.
    pub fn port(&self) -> (port: Option<u16>)
        ensures
            port == self@.port,
    {
        self.port
    }

    pub fn scheme(&self) -> (scheme: Scheme)
        ensures
            scheme == self@.scheme,
    {
        self.scheme
    }

    /// The port to connect to: the explicit port if the request has one,
    /// else 443 for `https` and `wss`, else 80.
    pub fn resolved_port(&self) -> (port: u16)
        ensures
            port == self@.resolved_port(),
            self@.port matches Some(explicit) ==> port == explicit,
            self@.port is None ==> port == (if self@.scheme.spec_is_secure() {
                SECURE_PORT
            } else {
                PLAIN_PORT
            }),
    {
        match self.port {
            Some(port) => port,
            None => self.scheme.default_port(),
        }
    }

    /// The host and port that a connector is called with.
    pub fn target(&self) -> (target: (&str, u16))
        ensures
            target.0@ == self@.host,
            target.1 == self@.resolved_port(),
    {
        (self.host.as_str(), self.resolved_port())
    }
}

/// The four scheme names are told apart, and each stands for its own scheme.
pub proof fn lemma_scheme_names()
    ensures
        Scheme::of_name("http"@) == Scheme::Http,
        Scheme::of_name("https"@) == Scheme::Https,
        Scheme::of_name("ws"@) == Scheme::Ws,
        Scheme::of_name("wss"@) == Scheme::Wss,
        Scheme::of_name(Seq::empty()) == Scheme::Other,
{
    reveal_strlit("http");
    reveal_strlit("https");
    reveal_strlit("ws");
    reveal_strlit("wss");
    assert("http"@.len() == 4);
    assert("https"@.len() == 5);
    assert("ws"@.len() == 2);
    assert("wss"@.len() == 3);
}

/// An explicit port is the resolved port, whatever the scheme.
pub proof fn lemma_explicit_port_wins(a: Scheme, b: Scheme, port: u16)
    ensures
        resolve_port(a, Some(port)) == port,
        resolve_port(a, Some(port)) == resolve_port(b, Some(port)),
{
}

/// Without an explicit port, the resolved port is 443 for `https` and `wss`
/// and 80 for every other scheme.
pub proof fn lemma_default_port_by_scheme(scheme: Scheme)
    ensures
        resolve_port(scheme, None) == (if scheme == Scheme::Https || scheme == Scheme::Wss {
            443u16
        } else {
            80u16
        }),
{
}

} // verus!
