//! Routing for an HTTP client that may reach its destinations through Tor.
//!
//! A connector that sits beneath `hyper` gets the URI of each request and has
//! to open a stream to its host. This library decides where that stream is
//! opened: directly over the public network, or through the Tor overlay
//! network, which alone can reach `.onion` hosts and must be the only path
//! that ever sees them.
//!
//! * [`request`] reads the destination of a request and resolves its port.
//! * [`uri`] takes the destination out of a `hyper::Uri`.
//! * [`classify`] tells overlay hosts from public ones.
//! * [`maybe`] holds the service that selects a connector, and the stream
//!   and error that a connection attempt ends in.
//! * [`ascii`] holds the string comparisons the rest is stated over.
//!
//! The library opens no socket and awaits nothing. What it decides is stated
//! in the contract of each function and proved there.

pub mod ascii;
pub mod classify;
pub mod maybe;
pub mod request;
pub mod uri;
