use crate::config::Config;
use crate::config::Peer;
use crate::error::RoutingError;
use crate::net::host_network;
use crate::net::host_network_of;
use crate::net::IpAddress;
use crate::net::IpNetwork;
use vstd::prelude::*;

verus! {

/// Where a route sends its traffic: into a device by interface name, or to a
/// concrete next-hop address.
#[derive(Clone, Debug, PartialEq)]
pub enum NetNode {
    Device(String),
    Address(IpAddress),
}

/// One routing-table entry: a destination range and its next hop.
#[derive(Clone, Debug, PartialEq)]
pub struct Route {
    pub network: IpNetwork,
    pub node: NetNode,
}

/// The full batch of routes a tunnel needs, submitted atomically.
#[derive(Clone, Debug, PartialEq)]
pub struct RequiredRoutes {
    pub routes: Vec<Route>,
}

/// How many allowed-IP ranges the peers carry in total.
pub open spec fn allowed_ip_count(peers: Seq<Peer>) -> nat
    decreases peers.len(),
{
    if peers.len() == 0 {
        0
    } else {
        peers.first().allowed_ips@.len() + allowed_ip_count(peers.drop_first())
    }
}

/// Every allowed-IP range of every peer, in peer order.
pub open spec fn all_allowed_ips(peers: Seq<Peer>) -> Seq<IpNetwork>
    decreases peers.len(),
{
    if peers.len() == 0 {
        Seq::empty()
    } else {
        peers.first().allowed_ips@ + all_allowed_ips(peers.drop_first())
    }
}

/// `r` directs the range `dest` into the device named `iface`.
pub open spec fn is_device_route(r: Route, dest: IpNetwork, iface: Seq<char>) -> bool {
    &&& r.network == dest
    &&& r.node matches NetNode::Device(name) && name@ == iface
}

/// `r` directs exactly the address `endpoint` to the next hop `node`.
pub open spec fn is_endpoint_route(r: Route, endpoint: IpAddress, node: IpAddress) -> bool {
    &&& r.network == host_network_of(endpoint)
    &&& r.node == NetNode::Address(node)
}

/// The route set a tunnel needs: first one device route per allowed-IP range
/// of every peer, then one bypass route per peer sending its endpoint via the
/// pre-tunnel default route's next hop, so the tunnel's own encrypted traffic
/// does not loop back into the tunnel.
pub open spec fn routes_match_plan(
    routes: Seq<Route>,
    peers: Seq<Peer>,
    iface: Seq<char>,
    node: IpAddress,
) -> bool {
    let m = all_allowed_ips(peers).len();
    &&& routes.len() == m + peers.len()
    &&& forall|k: int|
        0 <= k < m ==> is_device_route(#[trigger] routes[k], all_allowed_ips(peers)[k], iface)
    &&& forall|k: int|
        m <= k < routes.len() ==> is_endpoint_route(
            #[trigger] routes[k],
            peers[k - m].endpoint.address,
            node,
        )
}

/// Appending one peer appends exactly its allowed ranges.
proof fn lemma_all_allowed_ips_push(peers: Seq<Peer>, p: Peer)
    ensures
        all_allowed_ips(peers.push(p)) == all_allowed_ips(peers) + p.allowed_ips@,
    decreases peers.len(),
{
    if peers.len() == 0 {
        assert(peers.push(p).first() == p);
        assert(peers.push(p).drop_first() =~= Seq::<Peer>::empty());
        assert(all_allowed_ips(peers.push(p)) == p.allowed_ips@ + all_allowed_ips(
            Seq::<Peer>::empty(),
        ));
        assert(all_allowed_ips(peers.push(p)) =~= p.allowed_ips@);
        assert(all_allowed_ips(peers) + p.allowed_ips@ =~= p.allowed_ips@);
    } else {
        assert(peers.push(p).first() == peers.first());
        assert(peers.push(p).drop_first() =~= peers.drop_first().push(p));
        lemma_all_allowed_ips_push(peers.drop_first(), p);
        assert(all_allowed_ips(peers.push(p)) =~= all_allowed_ips(peers) + p.allowed_ips@);
    }
}

/// The flattened range list is exactly `allowed_ip_count` long.
pub proof fn lemma_allowed_ip_count(peers: Seq<Peer>)
    ensures
        all_allowed_ips(peers).len() == allowed_ip_count(peers),
    decreases peers.len(),
{
    if peers.len() > 0 {
        lemma_allowed_ip_count(peers.drop_first());
    }
}

/// Every route set that matches the plan for `peers` holds exactly one route
/// per allowed-IP range plus one route per peer: M + N routes in all.
pub proof fn lemma_route_count(
    routes: Seq<Route>,
    peers: Seq<Peer>,
    iface: Seq<char>,
    node: IpAddress,
)
    requires
        routes_match_plan(routes, peers, iface, node),
    ensures
        routes.len() == allowed_ip_count(peers) + peers.len(),
{
    lemma_allowed_ip_count(peers);
}

/// Derives the required route batch from the configuration, the tunnel's
/// interface name and the discovered default-route next hop.
pub fn derive_routes(config: &Config, interface_name: &str, default_node: IpAddress) -> (r:
    RequiredRoutes)
    ensures
        routes_match_plan(r.routes@, config.peers@, interface_name@, default_node),
{
    let ghost peers = config.peers@;
    let mut routes: Vec<Route> = Vec::new();
    let mut i: usize = 0;
    while i < config.peers.len()
        invariant
            0 <= i <= peers.len(),
            peers == config.peers@,
            routes@.len() == all_allowed_ips(peers.take(i as int)).len(),
            forall|k: int|
                0 <= k < routes@.len() ==> is_device_route(
                    #[trigger] routes@[k],
                    all_allowed_ips(peers.take(i as int))[k],
                    interface_name@,
                ),
        decreases peers.len() - i,
    {
        let peer = &config.peers[i];
        let mut j: usize = 0;
        while j < peer.allowed_ips.len()
            invariant
                0 <= i < peers.len(),
                0 <= j <= peer.allowed_ips@.len(),
                peers == config.peers@,
                peer == peers[i as int],
                routes@.len() == all_allowed_ips(peers.take(i as int)).len() + j,
                forall|k: int|
                    0 <= k < routes@.len() ==> is_device_route(
                        #[trigger] routes@[k],
                        (all_allowed_ips(peers.take(i as int)) + peer.allowed_ips@.take(j as int))[k],
                        interface_name@,
                    ),
            decreases peer.allowed_ips@.len() - j,
        {
            let dest = peer.allowed_ips[j];
            routes.push(Route { network: dest, node: NetNode::Device(interface_name.to_owned()) });
            assert(peer.allowed_ips@.take(j + 1) =~= peer.allowed_ips@.take(j as int).push(dest));
            assert(all_allowed_ips(peers.take(i as int)) + peer.allowed_ips@.take(j + 1)
                =~= (all_allowed_ips(peers.take(i as int)) + peer.allowed_ips@.take(j as int)).push(
                dest,
            ));
            j = j + 1;
        }
        proof {
            assert(peer.allowed_ips@.take(peer.allowed_ips@.len() as int) =~= peer.allowed_ips@);
            assert(peers.take(i + 1) =~= peers.take(i as int).push(peers[i as int]));
            lemma_all_allowed_ips_push(peers.take(i as int), peers[i as int]);
        }
        i = i + 1;
    }
    proof {
        assert(peers.take(peers.len() as int) =~= peers);
    }
    let ghost m: nat = all_allowed_ips(peers).len();
    let mut i: usize = 0;
    while i < config.peers.len()
        invariant
            0 <= i <= peers.len(),
            peers == config.peers@,
            m == all_allowed_ips(peers).len(),
            routes@.len() == m + i,
            forall|k: int|
                0 <= k < m ==> is_device_route(
                    #[trigger] routes@[k],
                    all_allowed_ips(peers)[k],
                    interface_name@,
                ),
            forall|k: int|
                m <= k < routes@.len() ==> is_endpoint_route(
                    #[trigger] routes@[k],
                    peers[k - m].endpoint.address,
                    default_node,
                ),
        decreases peers.len() - i,
    {
        let endpoint_net = host_network(config.peers[i].endpoint.address);
        routes.push(Route { network: endpoint_net, node: NetNode::Address(default_node) });
        i = i + 1;
    }
    RequiredRoutes { routes }
}

/// The routing collaborator as the monitor consumes it: it knows the default
/// route's next hop, accepts one batch of routes, and deletes what it
/// installed on request. The platform mechanism behind the table is outside
/// this crate; this manager keeps the authoritative model of what it was
/// asked to install.
#[derive(Clone, Debug, PartialEq)]
pub struct RouteManager {
    default_node: Option<IpAddress>,
    accepts_batches: bool,
    installed: Vec<Route>,
    deletions: u64,
}

/// Evidence that a route deletion has completed: the only way to obtain one
/// is for `RouteManager::delete_routes` to return, so holding the witness
/// proves the deletion already happened. The teardown chain consumes it
/// before the device may be stopped.
pub struct RoutesCleared {
    deletions: Ghost<nat>,
}

impl RoutesCleared {
    /// The manager's deletion count right after the recorded deletion.
    pub closed spec fn deletions(&self) -> nat {
        self.deletions@
    }
}

impl RouteManager {
    /// The next hop of the pre-tunnel default route, if one was discovered.
    pub closed spec fn spec_default_node(&self) -> Option<IpAddress> {
        self.default_node
    }

    /// Whether the routing collaborator accepts submitted batches.
    pub closed spec fn accepts_batches(&self) -> bool {
        self.accepts_batches
    }

    /// The routes currently installed through this manager.
    pub closed spec fn installed(&self) -> Seq<Route> {
        self.installed@
    }

    /// How many times deletion has been requested.
    pub closed spec fn deletions(&self) -> nat {
        self.deletions as nat
    }

    /// A fresh manager. `default_node` is the next hop discovered for the
    /// pre-tunnel default route; `None` means discovery failed, and routing
    /// setup will be refused.
    pub fn new(default_node: Option<IpAddress>) -> (r: RouteManager)
        ensures
            r.spec_default_node() == default_node,
            r.accepts_batches(),
            r.installed() == Seq::<Route>::empty(),
            r.deletions() == 0,
    {
        RouteManager { default_node, accepts_batches: true, installed: Vec::new(), deletions: 0 }
    }

    /// A manager whose collaborator refuses every submitted batch, for
    /// driving the abort path of tunnel setup.
    pub fn with_failing_submission(default_node: Option<IpAddress>) -> (r: RouteManager)
        ensures
            r.spec_default_node() == default_node,
            !r.accepts_batches(),
            r.installed() == Seq::<Route>::empty(),
            r.deletions() == 0,
    {
        RouteManager { default_node, accepts_batches: false, installed: Vec::new(), deletions: 0 }
    }

    /// The next hop of the default route, or the error when none is known.
    pub fn get_default_route_node(&self) -> (r: Result<IpAddress, RoutingError>)
        ensures
            match self.spec_default_node() {
                Some(node) => r == Ok::<IpAddress, RoutingError>(node),
                None => r == Err::<IpAddress, RoutingError>(RoutingError::NoDefaultRoute),
            },
    {
        match self.default_node {
            Some(node) => Ok(node),
            None => Err(RoutingError::NoDefaultRoute),
        }
    }

    /// Installs one batch of routes, keeping whatever was installed before;
    /// fails, leaving the table untouched, when the collaborator refuses
    /// submissions.
    pub fn add_routes(&mut self, required: RequiredRoutes) -> (r: Result<(), RoutingError>)
        ensures
            r is Ok <==> old(self).accepts_batches(),
            old(self).accepts_batches() ==> final(self).installed() == old(self).installed()
                + required.routes@,
            !old(self).accepts_batches() ==> (r == Err::<(), RoutingError>(
                RoutingError::SubmissionFailed,
            ) && final(self).installed() == old(self).installed()),
            final(self).deletions() == old(self).deletions(),
            final(self).spec_default_node() == old(self).spec_default_node(),
            final(self).accepts_batches() == old(self).accepts_batches(),
    {
        if !self.accepts_batches {
            return Err(RoutingError::SubmissionFailed);
        }
        let mut batch = required.routes;
        self.installed.append(&mut batch);
        Ok(())
    }

    /// The routes currently installed, oldest batch first.
    pub fn installed_routes(&self) -> (r: &Vec<Route>)
        ensures
            r@ == self.installed(),
    {
        &self.installed
    }

    /// How many times deletion has been requested so far.
    pub fn deletion_count(&self) -> (r: u64)
        ensures
            r == self.deletions(),
    {
        self.deletions
    }

    /// Deletes every route this manager installed, and hands back the
    /// witness that the deletion completed. Idempotent and safe to call when
    /// nothing was installed; every call is counted.
    pub fn delete_routes(&mut self) -> (r: (Result<(), RoutingError>, RoutesCleared))
        requires
            old(self).deletions() < u64::MAX,
        ensures
            r.0 is Ok,
            final(self).installed() == Seq::<Route>::empty(),
            final(self).deletions() == old(self).deletions() + 1,
            final(self).spec_default_node() == old(self).spec_default_node(),
            final(self).accepts_batches() == old(self).accepts_batches(),
            r.1.deletions() == final(self).deletions(),
    {
        self.installed.clear();
        self.deletions = self.deletions + 1;
        (Ok(()), RoutesCleared { deletions: Ghost(self.deletions as nat) })
    }
}

} // verus!
