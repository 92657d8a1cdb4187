//! Verified core of a forward HTTP proxy: request-line parsing, routing
//! between the CONNECT tunnel and the HTTP relay, and the framing decisions
//! (header forwarding, content-length body framing, pipelined re-parsing)
//! that both relays rest on.
pub mod dispatch;
pub mod headers;
pub mod pump;
pub mod relay;
pub mod target;
pub mod text;
pub mod tunnel;
