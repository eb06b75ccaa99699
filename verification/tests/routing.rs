use hyper::Uri;
use hyper_tor_connector::classify::RoutingDomain;
use hyper_tor_connector::maybe::MaybeTorConnector;
use hyper_tor_connector::maybe::Selected;
use hyper_tor_connector::maybe::TransportMode;
use hyper_tor_connector::request::ConnectionRequest;
use hyper_tor_connector::request::Scheme;
use hyper_tor_connector::maybe::TransportError;
use hyper_tor_connector::maybe::MaybeTorStream;

const ONION_HOST: &str = "2gzyxa5ihm7nsggfxnu52rck2vv4rvmdlkiu3zzui5du4xyclen53wid.onion";

/// A connector that records what it is called with and answers as it was told to.
#[derive(Clone, Debug, PartialEq)]
struct FakeConnector {
    name: &'static str,
    fails: bool,
    calls: Vec<(String, u16)>,
}

#[derive(Debug, PartialEq)]
struct FakeTransport {
    via: &'static str,
    host: String,
    port: u16,
}

#[derive(Debug, PartialEq)]
struct FakeFailure {
    via: &'static str,
}

impl FakeConnector {
    fn new(name: &'static str) -> Self {
        FakeConnector { name, fails: false, calls: Vec::new() }
    }

    fn failing(name: &'static str) -> Self {
        FakeConnector { name, fails: true, calls: Vec::new() }
    }

    fn connect(&mut self, host: &str, port: u16) -> Result<FakeTransport, FakeFailure> {
        self.calls.push((host.to_string(), port));
        if self.fails {
            Err(FakeFailure { via: self.name })
        } else {
            Ok(FakeTransport { via: self.name, host: host.to_string(), port })
        }
    }
}

type Service = MaybeTorConnector<FakeConnector, FakeConnector>;
type Handled = Result<
    MaybeTorStream<FakeTransport, FakeTransport>,
    TransportError<FakeFailure, FakeFailure>,
>;

fn hybrid() -> Service {
    MaybeTorConnector::Hybrid {
        clearnet: FakeConnector::new("clearnet"),
        tor: FakeConnector::new("tor"),
    }
}

/// Handles one request the way a service does: select, connect, conclude.
fn handle(service: &mut Service, request: &ConnectionRequest) -> Handled {
    let (host, port) = request.target();
    match service.select(request) {
        Selected::Clearnet(connector) => MaybeTorStream::from_clearnet(connector.connect(host, port)),
        Selected::Tor(connector) => MaybeTorStream::from_tor(connector.connect(host, port)),
    }
}

fn calls(service: &Service) -> (Vec<(String, u16)>, Vec<(String, u16)>) {
    match service {
        MaybeTorConnector::ClearnetOnly(clearnet) => (clearnet.calls.clone(), Vec::new()),
        MaybeTorConnector::Hybrid { clearnet, tor } => (clearnet.calls.clone(), tor.calls.clone()),
        MaybeTorConnector::TorOnly(tor) => (Vec::new(), tor.calls.clone()),
    }
}

fn request_for(uri: &str) -> ConnectionRequest {
    ConnectionRequest::from_uri(&uri.parse::<Uri>().unwrap())
}

#[test]
fn hybrid_onion_host_goes_to_overlay_connector_on_port_80() {
    let mut service = hybrid();
    let request = request_for("http://2gzyxa5ihm7nsggfxnu52rck2vv4rvmdlkiu3zzui5du4xyclen53wid.onion");
    let handled = handle(&mut service, &request);
    let (clearnet_calls, tor_calls) = calls(&service);
    assert_eq!(tor_calls, vec![(ONION_HOST.to_string(), 80)]);
    assert!(clearnet_calls.is_empty());
    match handled {
        Ok(MaybeTorStream::Tor(transport)) => {
            assert_eq!(transport, FakeTransport { via: "tor", host: ONION_HOST.to_string(), port: 80 })
        }
        other => panic!("not an overlay stream: {:?}", other),
    }
}

#[test]
fn hybrid_public_host_goes_to_clearnet_connector_on_explicit_port() {
    let mut service = hybrid();
    let request = request_for("https://example.org:8443");
    let handled = handle(&mut service, &request);
    let (clearnet_calls, tor_calls) = calls(&service);
    assert_eq!(clearnet_calls, vec![("example.org".to_string(), 8443)]);
    assert!(tor_calls.is_empty());
    match handled {
        Ok(MaybeTorStream::Clearnet(transport)) => assert_eq!(
            transport,
            FakeTransport { via: "clearnet", host: "example.org".to_string(), port: 8443 }
        ),
        other => panic!("not a clearnet stream: {:?}", other),
    }
}

#[test]
fn hybrid_takes_one_client_to_both_networks() {
    let mut service = hybrid();
    let onion = request_for("http://2gzyxa5ihm7nsggfxnu52rck2vv4rvmdlkiu3zzui5du4xyclen53wid.onion");
    let public = request_for("http://torproject.org");
    assert!(matches!(handle(&mut service, &onion), Ok(MaybeTorStream::Tor(_))));
    assert!(matches!(handle(&mut service, &public), Ok(MaybeTorStream::Clearnet(_))));
    let (clearnet_calls, tor_calls) = calls(&service);
    assert_eq!(tor_calls, vec![(ONION_HOST.to_string(), 80)]);
    assert_eq!(clearnet_calls, vec![("torproject.org".to_string(), 80)]);
}

#[test]
fn tor_only_public_host_still_goes_to_overlay_connector() {
    let mut service: Service = MaybeTorConnector::TorOnly(FakeConnector::new("tor"));
    let request = request_for("http://example.org");
    let handled = handle(&mut service, &request);
    let (clearnet_calls, tor_calls) = calls(&service);
    assert_eq!(tor_calls, vec![("example.org".to_string(), 80)]);
    assert!(clearnet_calls.is_empty());
    assert!(matches!(handled, Ok(MaybeTorStream::Tor(_))));
}

#[test]
fn clearnet_only_onion_host_still_goes_to_clearnet_connector() {
    let mut service: Service = MaybeTorConnector::ClearnetOnly(FakeConnector::new("clearnet"));
    let request = request_for("http://example.onion");
    let handled = handle(&mut service, &request);
    let (clearnet_calls, tor_calls) = calls(&service);
    assert_eq!(clearnet_calls, vec![("example.onion".to_string(), 80)]);
    assert!(tor_calls.is_empty());
    assert!(matches!(handled, Ok(MaybeTorStream::Clearnet(_))));
}

#[test]
fn hybrid_routes_every_onion_host_to_overlay_only() {
    let hosts = [
        "example.onion",
        "EXAMPLE.ONION",
        "Example.Onion",
        "a.b.c.onion",
        ".onion",
        ONION_HOST,
    ];
    for host in hosts {
        let mut service = hybrid();
        let request = ConnectionRequest::new(host.to_string(), None, Scheme::Http);
        assert_eq!(service.route(&request), RoutingDomain::Overlay);
        assert!(matches!(handle(&mut service, &request), Ok(MaybeTorStream::Tor(_))));
        let (clearnet_calls, tor_calls) = calls(&service);
        assert_eq!(tor_calls, vec![(host.to_string(), 80)]);
        assert!(clearnet_calls.is_empty());
    }
}

#[test]
fn hybrid_routes_every_other_host_to_clearnet_only() {
    let hosts = ["example.org", "torproject.org", "onion", "example.onion.org", "", "127.0.0.1"];
    for host in hosts {
        let mut service = hybrid();
        let request = ConnectionRequest::new(host.to_string(), None, Scheme::Https);
        assert_eq!(service.route(&request), RoutingDomain::Clearnet);
        assert!(matches!(handle(&mut service, &request), Ok(MaybeTorStream::Clearnet(_))));
        let (clearnet_calls, tor_calls) = calls(&service);
        assert_eq!(clearnet_calls, vec![(host.to_string(), 443)]);
        assert!(tor_calls.is_empty());
    }
}

#[test]
fn single_connector_services_route_every_host_alike() {
    let hosts = ["example.org", "example.onion", "EXAMPLE.ONION", "", ".onion"];
    let clearnet_only: Service = MaybeTorConnector::ClearnetOnly(FakeConnector::new("clearnet"));
    let tor_only: Service = MaybeTorConnector::TorOnly(FakeConnector::new("tor"));
    for host in hosts {
        let request = ConnectionRequest::new(host.to_string(), None, Scheme::Http);
        assert_eq!(clearnet_only.route(&request), RoutingDomain::Clearnet);
        assert_eq!(tor_only.route(&request), RoutingDomain::Overlay);
    }
}

#[test]
fn failed_overlay_attempt_is_not_retried_on_clearnet() {
    let mut service: Service = MaybeTorConnector::Hybrid {
        clearnet: FakeConnector::new("clearnet"),
        tor: FakeConnector::failing("tor"),
    };
    let request = request_for("http://example.onion");
    let handled = handle(&mut service, &request);
    let (clearnet_calls, tor_calls) = calls(&service);
    assert_eq!(tor_calls, vec![("example.onion".to_string(), 80)]);
    assert!(clearnet_calls.is_empty());
    match handled {
        Err(error) => {
            assert_eq!(error.origin(), RoutingDomain::Overlay);
            assert!(matches!(error, TransportError::Tor(FakeFailure { via: "tor" })));
        }
        Ok(stream) => panic!("a stream after a failed attempt: {:?}", stream),
    }
}

#[test]
fn failed_clearnet_attempt_is_not_retried_on_overlay() {
    let mut service: Service = MaybeTorConnector::Hybrid {
        clearnet: FakeConnector::failing("clearnet"),
        tor: FakeConnector::new("tor"),
    };
    let request = request_for("https://example.org");
    let handled = handle(&mut service, &request);
    let (clearnet_calls, tor_calls) = calls(&service);
    assert_eq!(clearnet_calls, vec![("example.org".to_string(), 443)]);
    assert!(tor_calls.is_empty());
    match handled {
        Err(error) => {
            assert_eq!(error.origin(), RoutingDomain::Clearnet);
            assert!(matches!(error, TransportError::Clearnet(FakeFailure { via: "clearnet" })));
        }
        Ok(stream) => panic!("a stream after a failed attempt: {:?}", stream),
    }
}

#[test]
fn requests_are_independent_of_each_other() {
    let mut service = hybrid();
    let first = request_for("http://example.onion");
    let second = request_for("https://example.org");
    let third = request_for("wss://other.onion:9001/socket");
    assert!(handle(&mut service, &first).is_ok());
    assert!(handle(&mut service, &second).is_ok());
    assert!(handle(&mut service, &third).is_ok());
    let (clearnet_calls, tor_calls) = calls(&service);
    assert_eq!(clearnet_calls, vec![("example.org".to_string(), 443)]);
    assert_eq!(
        tor_calls,
        vec![("example.onion".to_string(), 80), ("other.onion".to_string(), 9001)]
    );
}

#[test]
fn empty_host_is_routed_to_clearnet_in_hybrid_mode() {
    let mut service = hybrid();
    let request = request_for("/no/authority");
    assert_eq!(service.route(&request), RoutingDomain::Clearnet);
    assert!(matches!(service.select(&request), Selected::Clearnet(_)));
}

#[test]
fn mode_is_the_variant() {
    let clearnet_only: Service = MaybeTorConnector::ClearnetOnly(FakeConnector::new("clearnet"));
    let tor_only: Service = MaybeTorConnector::TorOnly(FakeConnector::new("tor"));
    assert_eq!(clearnet_only.mode(), TransportMode::ClearnetOnly);
    assert_eq!(hybrid().mode(), TransportMode::Hybrid);
    assert_eq!(tor_only.mode(), TransportMode::TorOnly);
}

#[test]
fn selection_hands_out_the_connector_itself() {
    let mut service = hybrid();
    let request = request_for("http://example.onion");
    match service.select(&request) {
        Selected::Tor(connector) => {
            assert_eq!(connector.name, "tor");
            connector.fails = true;
        }
        Selected::Clearnet(_) => panic!("clearnet connector selected for an onion host"),
    }
    assert_eq!(
        service.clone().mode(),
        TransportMode::Hybrid
    );
    match service {
        MaybeTorConnector::Hybrid { clearnet, tor } => {
            assert!(tor.fails);
            assert_eq!(clearnet, FakeConnector::new("clearnet"));
        }
        other => panic!("the mode changed: {:?}", other),
    }
}

#[test]
fn selected_connector_knows_its_domain() {
    let mut service = hybrid();
    assert_eq!(service.select(&request_for("http://example.onion")).domain(), RoutingDomain::Overlay);
    assert_eq!(service.select(&request_for("http://example.org")).domain(), RoutingDomain::Clearnet);
}

/// A connector whose transports record when they are opened and released.
struct TracingConnector {
    name: &'static str,
    events: std::rc::Rc<std::cell::RefCell<Vec<String>>>,
}

struct TracedTransport {
    name: &'static str,
    events: std::rc::Rc<std::cell::RefCell<Vec<String>>>,
}

impl TracingConnector {
    /// Starts an attempt: the transport is open, the connection not yet made.
    fn begin(&mut self, _host: &str, _port: u16) -> TracedTransport {
        self.events.borrow_mut().push(format!("opened {}", self.name));
        TracedTransport { name: self.name, events: self.events.clone() }
    }
}

impl Drop for TracedTransport {
    fn drop(&mut self) {
        self.events.borrow_mut().push(format!("closed {}", self.name));
    }
}

#[test]
fn abandoned_attempt_leaves_nothing_open() {
    let events = std::rc::Rc::new(std::cell::RefCell::new(Vec::new()));
    let mut service = MaybeTorConnector::Hybrid {
        clearnet: TracingConnector { name: "socket", events: events.clone() },
        tor: TracingConnector { name: "circuit", events: events.clone() },
    };
    for uri in ["http://example.onion", "https://example.org", "http://other.onion:81"] {
        let request = request_for(uri);
        let (host, port) = request.target();
        let pending = match service.select(&request) {
            Selected::Clearnet(connector) => connector.begin(host, port),
            Selected::Tor(connector) => connector.begin(host, port),
        };
        // The caller gives the attempt up before it completes.
        drop(pending);
    }
    assert_eq!(
        *events.borrow(),
        vec![
            "opened circuit",
            "closed circuit",
            "opened socket",
            "closed socket",
            "opened circuit",
            "closed circuit",
        ]
    );
    assert_eq!(service.mode(), TransportMode::Hybrid);
}
