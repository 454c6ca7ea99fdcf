//! Local authorization bridge.
//!
//! A loopback HTTP listener accepts an authorization callback from an
//! external process and relays its JSON payload, exactly once per request,
//! to the running application through a write-once handle registry.  A DNS
//! TXT-record decoder supports domain-ownership verification in the same
//! workflow.  This crate holds the decision logic of that bridge: request
//! routing, the registry's one-shot state machine, TXT chunk decoding and
//! error shaping.  Binding the socket, running the server and issuing the
//! DNS query are left to the surrounding application.

pub mod dns;
pub mod listener;
pub mod platform;
pub mod registry;
pub mod text;
