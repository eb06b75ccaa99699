//! The transport service, which hands each request to the clearnet connector
//! or to the overlay connector, and the stream that a connection yields.
//!
//! Nothing here connects. A caller asks the service which connector a request
//! goes to, makes the connection with it, and hands the outcome back to be
//! concluded. The contracts say that the connector is chosen by the mode and
//! the host alone, and that an attempt on one path is never answered on the
//! other.

use vstd::prelude::*;
use crate::classify::classify;
use crate::classify::is_onion_host;
use crate::classify::spec_classify;
use crate::classify::RoutingDomain;
use crate::request::ConnectionRequest;

verus! {

/// How a service routes: through one fixed connector, or by destination.
#[derive(Clone, Copy, Debug, PartialEq, Eq, Structural)]
pub enum TransportMode {
    /// Every request goes over the public network.
    ClearnetOnly,
    /// A request goes where its host name belongs.
    Hybrid,
    /// Every request goes through the overlay network.
    TorOnly,
}

/// The routing domain of a request for `host` under `mode`. Only `Hybrid`
/// looks at the host.
pub open spec fn route_of(mode: TransportMode, host: Seq<char>) -> RoutingDomain {
    match mode {
        TransportMode::ClearnetOnly => RoutingDomain::Clearnet,
        TransportMode::Hybrid => spec_classify(host),
        TransportMode::TorOnly => RoutingDomain::Overlay,
    }
}

/// A transport service over a clearnet connector `C` and an overlay
/// connector `T`. Its mode is fixed when it is built.
#[derive(Clone, Debug)]
pub enum MaybeTorConnector<C, T> {
    ClearnetOnly(C),
    Hybrid { clearnet: C, tor: T },
    TorOnly(T),
}

/// The one connector that a request is handed to.
#[derive(Debug)]
pub enum Selected<'a, C, T> {
    Clearnet(&'a mut C),
    Tor(&'a mut T),
}

/// A connected transport of one of the two routing domains.
///
/// The variant is fixed when the connection is made. Every operation on the
/// stream goes to the transport it holds; none looks at the destination again.
#[derive(Debug)]
pub enum MaybeTorStream<C, T> {
    Clearnet(C),
    Tor(T),
}

/// Why a connection attempt failed, and on which path it was made.
///
/// The cause is whatever the connector of that path reported, unchanged: a
/// failed handshake, a timeout, a failed bootstrap, an unreachable
/// destination, a breach of the proxy protocol, an I/O error. The service
/// adds the path and nothing else.
#[derive(Debug)]
pub enum TransportError<EC, ET> {
    Clearnet(EC),
    Tor(ET),
}

impl<C, T> MaybeTorConnector<C, T> {
    /// The mode that the variant stands for.
    pub open spec fn spec_mode(&self) -> TransportMode {
        match *self {
            MaybeTorConnector::ClearnetOnly(_) => TransportMode::ClearnetOnly,
            MaybeTorConnector::Hybrid { .. } => TransportMode::Hybrid,
            MaybeTorConnector::TorOnly(_) => TransportMode::TorOnly,
        }
    }

    #[verifier::when_used_as_spec(spec_mode)]
    pub fn mode(&self) -> (mode: TransportMode)
        ensures
            mode == self.spec_mode(),
    {
        match self {
            MaybeTorConnector::ClearnetOnly(_) => TransportMode::ClearnetOnly,
            MaybeTorConnector::Hybrid { .. } => TransportMode::Hybrid,
            MaybeTorConnector::TorOnly(_) => TransportMode::TorOnly,
        }
    }

    /// The routing domain that `request` is connected over. A service with
    /// one connector answers without looking at the host; a hybrid service
    /// classifies it.
    pub fn route(&self, request: &ConnectionRequest) -> (domain: RoutingDomain)
        ensures
            domain == route_of(self.spec_mode(), request@.host),
            self.spec_mode() == TransportMode::ClearnetOnly ==> domain == RoutingDomain::Clearnet,
            self.spec_mode() == TransportMode::TorOnly ==> domain == RoutingDomain::Overlay,
            self.spec_mode() == TransportMode::Hybrid ==> (domain == RoutingDomain::Overlay
                <==> is_onion_host(request@.host)),
    {
        match self {
            MaybeTorConnector::ClearnetOnly(_) => RoutingDomain::Clearnet,
            MaybeTorConnector::Hybrid { .. } => classify(request.host()),
            MaybeTorConnector::TorOnly(_) => RoutingDomain::Overlay,
        }
    }

    /// Hands out the connector that `request` is routed to, and only that
    /// one. The service keeps its mode, and holds afterwards whatever the
    /// caller leaves the connector as; in a hybrid service the connector
    /// that was not selected stays as it was.
    pub fn select(&mut self, request: &ConnectionRequest) -> (selected: Selected<'_, C, T>)
        ensures
            selected.spec_domain() == route_of(old(self).spec_mode(), request@.host),
            final(self).spec_mode() == old(self).spec_mode(),
            match *old(self) {
                MaybeTorConnector::ClearnetOnly(clearnet) => {
                    &&& selected matches Selected::Clearnet(connector)
                    &&& *connector == clearnet
                    &&& *final(self) == MaybeTorConnector::<C, T>::ClearnetOnly(*final(connector))
                },
                MaybeTorConnector::TorOnly(tor) => {
                    &&& selected matches Selected::Tor(connector)
                    &&& *connector == tor
                    &&& *final(self) == MaybeTorConnector::<C, T>::TorOnly(*final(connector))
                },
                MaybeTorConnector::Hybrid { clearnet, tor } => if is_onion_host(request@.host) {
                    &&& selected matches Selected::Tor(connector)
                    &&& *connector == tor
                    &&& *final(self) == (MaybeTorConnector::<C, T>::Hybrid {
                        clearnet,
                        tor: *final(connector),
                    })
                } else {
                    &&& selected matches Selected::Clearnet(connector)
                    &&& *connector == clearnet
                    &&& *final(self) == (MaybeTorConnector::<C, T>::Hybrid {
                        clearnet: *final(connector),
                        tor,
                    })
                },
            },
    {
        match self {
            MaybeTorConnector::ClearnetOnly(clearnet) => Selected::Clearnet(clearnet),
            MaybeTorConnector::TorOnly(tor) => Selected::Tor(tor),
            MaybeTorConnector::Hybrid { clearnet, tor } => match classify(request.host()) {
                RoutingDomain::Overlay => Selected::Tor(tor),
                RoutingDomain::Clearnet => Selected::Clearnet(clearnet),
            },
        }
    }
}

impl<'a, C, T> Selected<'a, C, T> {
    /// The routing domain of the selected connector.
    pub open spec fn spec_domain(&self) -> RoutingDomain {
        match *self {
            Selected::Clearnet(_) => RoutingDomain::Clearnet,
            Selected::Tor(_) => RoutingDomain::Overlay,
        }
    }

    #[verifier::when_used_as_spec(spec_domain)]
    pub fn domain(&self) -> (domain: RoutingDomain)
        ensures
            domain == self.spec_domain(),
    {
        match self {
            Selected::Clearnet(_) => RoutingDomain::Clearnet,
            Selected::Tor(_) => RoutingDomain::Overlay,
        }
    }
}

impl<C, T> MaybeTorStream<C, T> {
    /// The routing domain that the stream was connected over.
    pub open spec fn spec_domain(&self) -> RoutingDomain {
        match *self {
            MaybeTorStream::Clearnet(_) => RoutingDomain::Clearnet,
            MaybeTorStream::Tor(_) => RoutingDomain::Overlay,
        }
    }

    /// What a clearnet attempt that ended in `outcome` hands to the caller.
    pub open spec fn of_clearnet<EC, ET>(outcome: Result<C, EC>) -> Result<
        MaybeTorStream<C, T>,
        TransportError<EC, ET>,
    > {
        match outcome {
            Ok(transport) => Ok(MaybeTorStream::Clearnet(transport)),
            Err(cause) => Err(TransportError::Clearnet(cause)),
        }
    }

    /// What an overlay attempt that ended in `outcome` hands to the caller.
    pub open spec fn of_tor<EC, ET>(outcome: Result<T, ET>) -> Result<
        MaybeTorStream<C, T>,
        TransportError<EC, ET>,
    > {
        match outcome {
            Ok(transport) => Ok(MaybeTorStream::Tor(transport)),
            Err(cause) => Err(TransportError::Tor(cause)),
        }
    }

    #[verifier::when_used_as_spec(spec_domain)]
    pub fn domain(&self) -> (domain: RoutingDomain)
        ensures
            domain == self.spec_domain(),
    {
        match self {
            MaybeTorStream::Clearnet(_) => RoutingDomain::Clearnet,
            MaybeTorStream::Tor(_) => RoutingDomain::Overlay,
        }
    }

    /// Concludes a clearnet attempt: the transport becomes a clearnet stream,
    /// a failure is reported as a clearnet failure with its cause.
    pub fn from_clearnet<EC, ET>(outcome: Result<C, EC>) -> (handled: Result<
        MaybeTorStream<C, T>,
        TransportError<EC, ET>,
    >)
        ensures
            handled == MaybeTorStream::<C, T>::of_clearnet::<EC, ET>(outcome),
            handled is Ok <==> outcome is Ok,
            handled matches Ok(stream) ==> stream.spec_domain() == RoutingDomain::Clearnet,
            handled matches Err(error) ==> error.spec_origin() == RoutingDomain::Clearnet,
    {
        match outcome {
            Ok(transport) => Ok(MaybeTorStream::Clearnet(transport)),
            Err(cause) => Err(TransportError::Clearnet(cause)),
        }
    }

    /// Concludes an overlay attempt: the transport becomes an overlay stream,
    /// a failure is reported as an overlay failure with its cause. A failed
    /// overlay attempt is never answered with a clearnet stream.
    pub fn from_tor<EC, ET>(outcome: Result<T, ET>) -> (handled: Result<
        MaybeTorStream<C, T>,
        TransportError<EC, ET>,
    >)
        ensures
            handled == MaybeTorStream::<C, T>::of_tor::<EC, ET>(outcome),
            handled is Ok <==> outcome is Ok,
            handled matches Ok(stream) ==> stream.spec_domain() == RoutingDomain::Overlay,
            handled matches Err(error) ==> error.spec_origin() == RoutingDomain::Overlay,
    {
        match outcome {
            Ok(transport) => Ok(MaybeTorStream::Tor(transport)),
            Err(cause) => Err(TransportError::Tor(cause)),
        }
    }

    /// Borrows the transport, keeping the variant.
    pub fn as_ref(&self) -> (borrowed: MaybeTorStream<&C, &T>)
        ensures
            match *self {
                MaybeTorStream::Clearnet(transport) => borrowed == MaybeTorStream::<
                    &C,
                    &T,
                >::Clearnet(&transport),
                MaybeTorStream::Tor(transport) => borrowed == MaybeTorStream::<&C, &T>::Tor(
                    &transport,
                ),
            },
    {
        match self {
            MaybeTorStream::Clearnet(transport) => MaybeTorStream::Clearnet(transport),
            MaybeTorStream::Tor(transport) => MaybeTorStream::Tor(transport),
        }
    }

    /// Borrows the transport for writing, keeping the variant. The stream
    /// ends up holding whatever the borrowed transport ends up as.
    pub fn as_mut(&mut self) -> (borrowed: MaybeTorStream<&mut C, &mut T>)
        ensures
            match *old(self) {
                MaybeTorStream::Clearnet(transport) => {
                    &&& borrowed matches MaybeTorStream::Clearnet(reference)
                    &&& *reference == transport
                    &&& *final(self) == MaybeTorStream::<C, T>::Clearnet(*final(reference))
                },
                MaybeTorStream::Tor(transport) => {
                    &&& borrowed matches MaybeTorStream::Tor(reference)
                    &&& *reference == transport
                    &&& *final(self) == MaybeTorStream::<C, T>::Tor(*final(reference))
                },
            },
    {
        match self {
            MaybeTorStream::Clearnet(transport) => MaybeTorStream::Clearnet(transport),
            MaybeTorStream::Tor(transport) => MaybeTorStream::Tor(transport),
        }
    }

    /// Performs one operation on the transport: `on_clearnet` on that of a
    /// clearnet stream, `on_tor` on that of an overlay stream. The operation
    /// is given `context` as it came, and what it returns is returned as it
    /// is, be it a count of bytes, a signal to wait, or an error.
    pub fn either_with<X, R, F: FnOnce(X, C) -> R, G: FnOnce(X, T) -> R>(
        self,
        context: X,
        on_clearnet: F,
        on_tor: G,
    ) -> (result: R)
        requires
            self matches MaybeTorStream::Clearnet(transport) ==> call_requires(
                on_clearnet,
                (context, transport),
            ),
            self matches MaybeTorStream::Tor(transport) ==> call_requires(
                on_tor,
                (context, transport),
            ),
        ensures
            self matches MaybeTorStream::Clearnet(transport) ==> call_ensures(
                on_clearnet,
                (context, transport),
                result,
            ),
            self matches MaybeTorStream::Tor(transport) ==> call_ensures(
                on_tor,
                (context, transport),
                result,
            ),
    {
        match self {
            MaybeTorStream::Clearnet(transport) => on_clearnet(context, transport),
            MaybeTorStream::Tor(transport) => on_tor(context, transport),
        }
    }
}

impl<EC, ET> TransportError<EC, ET> {
    /// The path on which the attempt was made.
    pub open spec fn spec_origin(&self) -> RoutingDomain {
        match *self {
            TransportError::Clearnet(_) => RoutingDomain::Clearnet,
            TransportError::Tor(_) => RoutingDomain::Overlay,
        }
    }

    #[verifier::when_used_as_spec(spec_origin)]
    pub fn origin(&self) -> (origin: RoutingDomain)
        ensures
            origin == self.spec_origin(),
    {
        match self {
            TransportError::Clearnet(_) => RoutingDomain::Clearnet,
            TransportError::Tor(_) => RoutingDomain::Overlay,
        }
    }
}

/// A hybrid service routes every host of the overlay's private name space,
/// in whatever case it is written, to the overlay connector.
pub proof fn lemma_hybrid_routes_private_hosts_to_overlay(host: Seq<char>)
    requires
        is_onion_host(host),
    ensures
        route_of(TransportMode::Hybrid, host) == RoutingDomain::Overlay,
{
}

/// A hybrid service routes every other host to the clearnet connector.
pub proof fn lemma_hybrid_routes_public_hosts_to_clearnet(host: Seq<char>)
    requires
        !is_onion_host(host),
    ensures
        route_of(TransportMode::Hybrid, host) == RoutingDomain::Clearnet,
{
}

/// A service with a single connector routes any two hosts alike:
/// clearnet-only to clearnet, overlay-only to the overlay.
pub proof fn lemma_fixed_modes_ignore_host(mode: TransportMode, a: Seq<char>, b: Seq<char>)
    requires
        mode != TransportMode::Hybrid,
    ensures
        route_of(mode, a) == route_of(mode, b),
        mode == TransportMode::ClearnetOnly ==> route_of(mode, a) == RoutingDomain::Clearnet,
        mode == TransportMode::TorOnly ==> route_of(mode, a) == RoutingDomain::Overlay,
{
}

/// No fallback: in a hybrid service, a request for a private host is routed
/// to the overlay, and however the overlay attempt ends, with a transport or
/// with a failure, the caller gets an overlay stream or an overlay failure,
/// never anything of the clearnet path.
pub proof fn lemma_private_host_never_leaves_overlay<C, T, EC, ET>(
    host: Seq<char>,
    outcome: Result<T, ET>,
)
    requires
        is_onion_host(host),
    ensures
        route_of(TransportMode::Hybrid, host) == RoutingDomain::Overlay,
        match MaybeTorStream::<C, T>::of_tor::<EC, ET>(outcome) {
            Ok(stream) => stream.spec_domain() == RoutingDomain::Overlay,
            Err(error) => error.spec_origin() == RoutingDomain::Overlay,
        },
{
}

} // verus!
