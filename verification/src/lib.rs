//! Verified core of an SMTP relay proxy.
//!
//! The crate models the two protocol endpoints of the proxy — an inbound
//! listener that relays mail toward a local MTA and an outbound listener that
//! relays mail toward remote MX hosts — as explicit session state machines.
//! All protocol decisions (reply framing, command parsing, TLS policy, MX
//! selection, status mapping) are verified; the embedding program performs the
//! socket I/O and feeds events back into the state machines.

pub mod address;
pub mod command;
pub mod config;
pub mod inbound;
pub mod mx;
pub mod outbound;
pub mod reply;
pub mod session;
pub mod status;
pub mod text;
