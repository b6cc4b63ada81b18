//! Tunnel-lifecycle core of a VPN client: starts a tunnel device, derives and
//! installs the routes that direct traffic through it, watches liveness of the
//! tunnel gateway, and tears everything down in a fixed order on shutdown.
//!
//! [`net`] and [`config`] model addresses and the tunnel configuration;
//! [`routing`] derives the required route set and keeps the route manager's
//! state; [`events`] defines the outward events and their handlers; and
//! [`monitor`] ties device, routes, liveness probing and shutdown signaling
//! together in the tunnel monitor's start/wait/close state machine.

mod channel;
pub mod config;
pub mod error;
pub mod events;
pub mod monitor;
pub mod net;
pub mod routing;
pub mod teardown;

pub use config::Config;
pub use config::Peer;
pub use error::Error;
pub use error::RoutingError;
pub use events::EventHandler;
pub use events::EventLog;
pub use events::EventSender;
pub use events::TunnelEvent;
pub use events::TunnelMetadata;
pub use monitor::wait_verdict;
pub use monitor::CloseHandle;
pub use monitor::CloseMsg;
pub use monitor::ContinuousMonitor;
pub use monitor::LivenessExit;
pub use monitor::LivenessMonitor;
pub use monitor::ScriptedTunnel;
pub use monitor::TeardownReport;
pub use monitor::TeardownStep;
pub use monitor::Tunnel;
pub use monitor::WireguardMonitor;
pub use monitor::PING_TIMEOUT;
pub use net::host_network;
pub use net::IpAddress;
pub use net::IpNetwork;
pub use net::SocketAddress;
pub use routing::RoutesCleared;
pub use teardown::TeardownComplete;
pub use teardown::TunnelHalted;
