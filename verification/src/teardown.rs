//! The teardown chain. Tearing a tunnel down must delete its routes first,
//! stop the device second, and announce `Down` last. The functions here make
//! that order binding through dataflow: [`stop_tunnel`] can only be called
//! with the witness that `RouteManager::delete_routes` returned, and
//! [`notify_down`] only with the witness that `stop_tunnel` returned. The
//! witnesses are plain values with private fields, created nowhere else, so
//! a teardown that produces a [`TeardownComplete`] value performed the three
//! steps in exactly that order, each exactly once.

use crate::error::Error;
use crate::events::EventHandler;
use crate::events::TunnelEvent;
use crate::monitor::Tunnel;
use crate::routing::RoutesCleared;
use vstd::prelude::*;

verus! {

/// Evidence that the tunnel device was stopped, after the route deletion
/// whose count it carries.
pub struct TunnelHalted {
    after_deletions: Ghost<nat>,
    verdict: Ghost<Result<(), Error>>,
}

impl TunnelHalted {
    /// The route manager's deletion count after the deletion that preceded
    /// the device stop.
    pub closed spec fn after_deletions(&self) -> nat {
        self.after_deletions@
    }

    /// What stopping the device reported.
    pub closed spec fn verdict(&self) -> Result<(), Error> {
        self.verdict@
    }
}

/// Evidence that a whole teardown ran: routes deleted, then the device
/// stopped, then `Down` announced, each exactly once.
pub struct TeardownComplete {
    after_deletions: Ghost<nat>,
    device_verdict: Ghost<Result<(), Error>>,
}

impl TeardownComplete {
    /// The route manager's deletion count after the teardown's deletion.
    pub closed spec fn after_deletions(&self) -> nat {
        self.after_deletions@
    }

    /// What stopping the device reported during the teardown.
    pub closed spec fn device_verdict(&self) -> Result<(), Error> {
        self.device_verdict@
    }
}

/// Stops the device. Demands the witness of a completed route deletion, so
/// the device provably outlives its routes; the result is the device's own
/// verdict, whatever it is — a refusal does not undo the stop.
pub fn stop_tunnel<T: Tunnel>(tunnel: T, routes_cleared: RoutesCleared) -> (r: (
    Result<(), Error>,
    TunnelHalted,
))
    ensures
        r.0 == tunnel.spec_stop(),
        r.1.after_deletions() == routes_cleared.deletions(),
        r.1.verdict() == tunnel.spec_stop(),
{
    let verdict = tunnel.stop();
    let halted = TunnelHalted {
        after_deletions: Ghost(routes_cleared.deletions()),
        verdict: Ghost(verdict),
    };
    (verdict, halted)
}

/// Announces `Down`, exactly once, as the final step: it demands the witness
/// that the device was already stopped (which itself demanded the route
/// deletion), and returns the witness of the finished teardown.
pub fn notify_down<H: EventHandler>(handler: &mut H, halted: TunnelHalted) -> (w:
    TeardownComplete)
    ensures
        final(handler).history() == old(handler).history().push(TunnelEvent::Down),
        w.after_deletions() == halted.after_deletions(),
        w.device_verdict() == halted.verdict(),
{
    handler.on_event(TunnelEvent::Down);
    TeardownComplete {
        after_deletions: Ghost(halted.after_deletions()),
        device_verdict: Ghost(halted.verdict()),
    }
}

} // verus!
