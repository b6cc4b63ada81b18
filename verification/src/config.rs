use crate::net::IpAddress;
use crate::net::IpNetwork;
use crate::net::SocketAddress;
use vstd::prelude::*;

verus! {

/// A remote tunnel peer: where to reach it, and which ranges it may route.
#[derive(Clone, Debug, PartialEq)]
pub struct Peer {
    /// The peer's publicly reachable endpoint.
    pub endpoint: SocketAddress,
    /// The address ranges whose traffic is sent through this peer.
    pub allowed_ips: Vec<IpNetwork>,
}

/// Static parameters needed to bring a tunnel up. Immutable for the lifetime
/// of a monitor.
#[derive(Clone, Debug, PartialEq)]
pub struct Config {
    /// The remote peers of the tunnel.
    pub peers: Vec<Peer>,
    /// The local addresses assigned to the tunnel interface.
    pub addresses: Vec<IpAddress>,
    /// The IPv4 gateway inside the tunnel, target of the liveness probes.
    pub ipv4_gateway: IpAddress,
    /// The IPv6 gateway inside the tunnel, if one exists.
    pub ipv6_gateway: Option<IpAddress>,
}

impl Peer {
    /// Every allowed range is well formed.
    pub open spec fn wf(self) -> bool {
        forall|i: int|
            0 <= i < self.allowed_ips@.len() ==> (#[trigger] self.allowed_ips@[i]).wf()
    }
}

impl Config {
    /// The gateways have the family their name claims and all peers are well
    /// formed.
    pub open spec fn wf(self) -> bool {
        &&& self.ipv4_gateway is V4
        &&& (self.ipv6_gateway matches Some(g) ==> g is V6)
        &&& forall|i: int| 0 <= i < self.peers@.len() ==> (#[trigger] self.peers@[i]).wf()
    }
}

} // verus!
