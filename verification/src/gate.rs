//! The access-control gate: the first stage, and the only one that can refuse.

use vstd::prelude::*;
use crate::addr::{IpAddr, SocketAddr};
use crate::config::Config;

verus! {

/// The status of the response to a refused peer. That response has no body.
pub const FORBIDDEN: u16 = 403;

/// What access control decides of a connection.
#[derive(Clone, Copy, Debug, PartialEq, Eq, Structural)]
pub enum GateDecision {
    /// The request goes on, unchanged, to the next stage.
    Pass,
    /// The request ends here: the peer is answered `FORBIDDEN` and a warning
    /// that names `peer` is logged.
    Reject { peer: IpAddr },
}

/// A peer passes exactly when its address is on the allow-list.
pub open spec fn gate_decision(whitelist: Seq<IpAddr>, peer: IpAddr) -> GateDecision {
    if whitelist.contains(peer) {
        GateDecision::Pass
    } else {
        GateDecision::Reject { peer }
    }
}

/// Decides whether the peer at `addr` may reach the upstream.
///
/// Only the address counts, not the port, and nothing of the request.
pub fn check_ip_whitelist(config: &Config, addr: SocketAddr) -> (decision: GateDecision)
    ensures
        decision == gate_decision(config.server.whitelist@, addr.ip),
{
    let ip = addr.ip();
    if config.server.is_allowed(ip) {
        GateDecision::Pass
    } else {
        GateDecision::Reject { peer: ip }
    }
}

} // verus!
