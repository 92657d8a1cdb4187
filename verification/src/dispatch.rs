//! The Connection Dispatcher's decision: which relay a freshly resolved
//! target is handed to.
use vstd::prelude::*;

use crate::target::{connect_method, Target, TargetSpec};
use crate::text::str_eq;

verus! {

/// The two relay strategies a connection can be routed to.
#[derive(Clone, Copy, Debug, PartialEq, Eq, Structural)]
pub enum Route {
    /// The opaque CONNECT byte tunnel.
    Tunnel,
    /// The framed HTTP relay with pipelining.
    HttpRelay,
}

/// Where a target is routed: CONNECT opens a tunnel, every other method goes
/// through the HTTP relay.
pub open spec fn route_spec(t: TargetSpec) -> Route {
    if t.method == connect_method() {
        Route::Tunnel
    } else {
        Route::HttpRelay
    }
}

/// Routes a resolved target to its relay.
pub fn route_for(t: &Target) -> (r: Route)
    ensures
        r == route_spec(t@),
{
    if str_eq(t.method.as_str(), "CONNECT") {
        Route::Tunnel
    } else {
        Route::HttpRelay
    }
}

} // verus!
