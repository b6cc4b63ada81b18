use vstd::prelude::*;

verus! {

/// Failure reported by the routing collaborator.
#[derive(Clone, Copy, Debug, PartialEq, Eq, Structural)]
pub enum RoutingError {
    /// No default route is known, so the peer endpoints cannot be routed
    /// around the tunnel.
    NoDefaultRoute,
    /// The routing collaborator refused the submitted route batch.
    SubmissionFailed,
}

/// Everything that can go wrong while bringing a tunnel up, keeping it up, or
/// tearing it down.
#[derive(Clone, Copy, Debug, PartialEq, Eq, Structural)]
pub enum Error {
    /// Failed to create the tunnel device.
    SetupTunnelDeviceError,
    /// The tunnel backend refused to start, with its status code.
    StartWireguardError { status: i32 },
    /// The tunnel backend refused to stop, with its status code.
    StopWireguardError { status: i32 },
    /// Failed to set up routing.
    SetupRoutingError(RoutingError),
    /// Failed to move or create a log file.
    PrepareLogFileError,
    /// The tunnel interface name is unusable.
    InterfaceNameError,
    /// A liveness probe of the tunnel gateway timed out.
    PingTimeoutError,
}

} // verus!
