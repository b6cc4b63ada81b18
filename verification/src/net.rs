use vstd::prelude::*;

verus! {

/// An IP address: IPv4 as its 32-bit value, IPv6 as its 128-bit value.
#[derive(Clone, Copy, Debug, PartialEq, Eq, Structural)]
pub enum IpAddress {
    V4(u32),
    V6(u128),
}

/// An IP range in prefix notation: the addresses that share the first
/// `prefix` bits of `address`.
#[derive(Clone, Copy, Debug, PartialEq, Eq, Structural)]
pub struct IpNetwork {
    pub address: IpAddress,
    pub prefix: u8,
}

/// A peer endpoint: an IP address together with a port.
#[derive(Clone, Copy, Debug, PartialEq, Eq, Structural)]
pub struct SocketAddress {
    pub address: IpAddress,
    pub port: u16,
}

impl IpNetwork {
    /// The prefix length fits the address family.
    pub open spec fn wf(self) -> bool {
        match self.address {
            IpAddress::V4(_) => self.prefix <= 32,
            IpAddress::V6(_) => self.prefix <= 128,
        }
    }
}

/// The network that contains exactly the one address `addr`.
pub open spec fn host_network_of(addr: IpAddress) -> IpNetwork {
    IpNetwork {
        address: addr,
        prefix: match addr {
            IpAddress::V4(_) => 32,
            IpAddress::V6(_) => 128,
        },
    }
}

/// Builds the single-address network for `addr`.
pub fn host_network(addr: IpAddress) -> (r: IpNetwork)
    ensures
        r == host_network_of(addr),
        r.wf(),
{
    match addr {
        IpAddress::V4(_) => IpNetwork { address: addr, prefix: 32 },
        IpAddress::V6(_) => IpNetwork { address: addr, prefix: 128 },
    }
}

} // verus!
