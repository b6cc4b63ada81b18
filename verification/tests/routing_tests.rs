use tunnel_monitor::host_network;
use tunnel_monitor::routing::derive_routes;
use tunnel_monitor::routing::NetNode;
use tunnel_monitor::routing::RequiredRoutes;
use tunnel_monitor::routing::Route;
use tunnel_monitor::routing::RouteManager;
use tunnel_monitor::Config;
use tunnel_monitor::IpAddress;
use tunnel_monitor::IpNetwork;
use tunnel_monitor::Peer;
use tunnel_monitor::RoutingError;
use tunnel_monitor::SocketAddress;

fn sample_config() -> Config {
    Config {
        peers: vec![
            Peer {
                endpoint: SocketAddress { address: IpAddress::V4(0xc633_6401), port: 51820 },
                allowed_ips: vec![
                    IpNetwork { address: IpAddress::V4(0x0a00_0000), prefix: 8 },
                    IpNetwork { address: IpAddress::V4(0xac10_0000), prefix: 12 },
                ],
            },
            Peer {
                endpoint: SocketAddress { address: IpAddress::V6(0x2001_0db8), port: 51821 },
                allowed_ips: vec![IpNetwork { address: IpAddress::V4(0), prefix: 0 }],
            },
        ],
        addresses: vec![IpAddress::V4(0x0a40_0001)],
        ipv4_gateway: IpAddress::V4(0x0a40_0002),
        ipv6_gateway: Some(IpAddress::V6(0xfd00_0001)),
    }
}

#[test]
fn derive_routes_counts_device_and_endpoint_routes() {
    // Two peers with three allowed ranges in all: M + N = 3 + 2 = 5 routes.
    let config = sample_config();
    let node = IpAddress::V4(0xc0a8_0101);
    let required = derive_routes(&config, "wg0", node);
    assert_eq!(required.routes.len(), 5);
}

#[test]
fn derive_routes_device_routes_come_first() {
    let config = sample_config();
    let node = IpAddress::V4(0xc0a8_0101);
    let required = derive_routes(&config, "wg0", node);
    let expected_destinations = vec![
        IpNetwork { address: IpAddress::V4(0x0a00_0000), prefix: 8 },
        IpNetwork { address: IpAddress::V4(0xac10_0000), prefix: 12 },
        IpNetwork { address: IpAddress::V4(0), prefix: 0 },
    ];
    for (route, destination) in required.routes.iter().take(3).zip(expected_destinations) {
        assert_eq!(route.network, destination);
        assert_eq!(route.node, NetNode::Device(String::from("wg0")));
    }
}

#[test]
fn derive_routes_endpoint_routes_bypass_the_tunnel() {
    let config = sample_config();
    let node = IpAddress::V4(0xc0a8_0101);
    let required = derive_routes(&config, "wg0", node);
    let endpoint_routes = &required.routes[3..];
    assert_eq!(
        endpoint_routes[0],
        Route {
            network: IpNetwork { address: IpAddress::V4(0xc633_6401), prefix: 32 },
            node: NetNode::Address(node),
        }
    );
    assert_eq!(
        endpoint_routes[1],
        Route {
            network: IpNetwork { address: IpAddress::V6(0x2001_0db8), prefix: 128 },
            node: NetNode::Address(node),
        }
    );
}

#[test]
fn derive_routes_without_peers_is_empty() {
    let config = Config {
        peers: vec![],
        addresses: vec![],
        ipv4_gateway: IpAddress::V4(1),
        ipv6_gateway: None,
    };
    let required = derive_routes(&config, "wg0", IpAddress::V4(2));
    assert!(required.routes.is_empty());
}

#[test]
fn host_network_uses_the_full_prefix() {
    assert_eq!(
        host_network(IpAddress::V4(7)),
        IpNetwork { address: IpAddress::V4(7), prefix: 32 }
    );
    assert_eq!(
        host_network(IpAddress::V6(7)),
        IpNetwork { address: IpAddress::V6(7), prefix: 128 }
    );
}

#[test]
fn route_manager_reports_its_default_node() {
    let manager = RouteManager::new(Some(IpAddress::V4(9)));
    assert_eq!(manager.get_default_route_node(), Ok(IpAddress::V4(9)));

    let blind = RouteManager::new(None);
    assert_eq!(blind.get_default_route_node(), Err(RoutingError::NoDefaultRoute));
}

#[test]
fn route_manager_installs_and_deletes_batches() {
    let mut manager = RouteManager::new(Some(IpAddress::V4(9)));
    assert_eq!(manager.deletion_count(), 0);
    let batch = RequiredRoutes {
        routes: vec![Route {
            network: IpNetwork { address: IpAddress::V4(0x0a00_0000), prefix: 8 },
            node: NetNode::Device(String::from("wg0")),
        }],
    };
    assert!(manager.add_routes(batch).is_ok());
    assert_eq!(manager.installed_routes().len(), 1);

    assert!(manager.delete_routes().0.is_ok());
    assert!(manager.installed_routes().is_empty());
    assert_eq!(manager.deletion_count(), 1);

    // Deleting with nothing installed is safe, and still counted.
    assert!(manager.delete_routes().0.is_ok());
    assert_eq!(manager.deletion_count(), 2);
}

#[test]
fn route_manager_can_refuse_submissions() {
    let mut manager = RouteManager::with_failing_submission(Some(IpAddress::V4(9)));
    let batch = RequiredRoutes {
        routes: vec![Route {
            network: IpNetwork { address: IpAddress::V4(0x0a00_0000), prefix: 8 },
            node: NetNode::Device(String::from("wg0")),
        }],
    };
    assert_eq!(manager.add_routes(batch), Err(RoutingError::SubmissionFailed));
    assert!(manager.installed_routes().is_empty());
}
