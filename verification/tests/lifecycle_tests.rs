use tunnel_monitor::routing::RouteManager;
use tunnel_monitor::CloseMsg;
use tunnel_monitor::Config;
use tunnel_monitor::Error;
use tunnel_monitor::EventLog;
use tunnel_monitor::EventSender;
use tunnel_monitor::IpAddress;
use tunnel_monitor::IpNetwork;
use tunnel_monitor::Peer;
use tunnel_monitor::RoutingError;
use tunnel_monitor::ScriptedTunnel;
use tunnel_monitor::SocketAddress;
use tunnel_monitor::TeardownStep;
use tunnel_monitor::Tunnel;
use tunnel_monitor::TunnelEvent;
use tunnel_monitor::WireguardMonitor;
use tunnel_monitor::PING_TIMEOUT;

fn sample_config() -> Config {
    Config {
        peers: vec![Peer {
            endpoint: SocketAddress { address: IpAddress::V4(0xc633_6401), port: 51820 },
            allowed_ips: vec![IpNetwork { address: IpAddress::V4(0), prefix: 0 }],
        }],
        addresses: vec![IpAddress::V4(0x0a40_0001)],
        ipv4_gateway: IpAddress::V4(0x0a40_0002),
        ipv6_gateway: Some(IpAddress::V6(0xfd00_0001)),
    }
}

fn default_node() -> Option<IpAddress> {
    Some(IpAddress::V4(0xc0a8_0101))
}

#[test]
fn probe_timeout_is_seven_time_units() {
    assert_eq!(PING_TIMEOUT, 7);
}

#[test]
fn up_then_explicit_close() {
    // Initial probe succeeds, continuous probing never fails, the caller
    // closes: Up fires once, then Down once, and wait reports success.
    let config = sample_config();
    let (event_handler, events) = EventSender::new();
    let probe_handler = event_handler.duplicate();
    let tunnel = ScriptedTunnel::new(String::from("wg0"));
    let router = RouteManager::new(default_node());
    let (monitor, liveness) =
        WireguardMonitor::start(tunnel, router, &config, event_handler, probe_handler).unwrap();

    assert_eq!(liveness.gateway(), IpAddress::V4(0x0a40_0002));
    assert_eq!(liveness.interface_name(), "wg0");
    let continuous = liveness.report_initial_probe(true).ok().unwrap();

    let mut handle = monitor.close_handle();
    handle.close();
    let (verdict, report) = monitor.wait();
    assert!(verdict.is_ok());
    assert_eq!(report.cause, Some(CloseMsg::Stop));

    match events.receive().unwrap() {
        TunnelEvent::Up(metadata) => {
            assert_eq!(metadata.interface, "wg0");
            assert_eq!(metadata.ips, vec![IpAddress::V4(0x0a40_0001)]);
            assert_eq!(metadata.ipv4_gateway, IpAddress::V4(0x0a40_0002));
            assert_eq!(metadata.ipv6_gateway, Some(IpAddress::V6(0xfd00_0001)));
        }
        TunnelEvent::Down => panic!("Down arrived before Up"),
    }
    assert_eq!(events.receive().unwrap(), TunnelEvent::Down);

    drop(report);
    drop(continuous);
    assert!(events.receive().is_none());
}

#[test]
fn initial_probe_timeout_means_no_up_event() {
    // The initial probe times out: no Up, teardown proceeds, Down fires,
    // and wait returns the liveness-timeout error.
    let config = sample_config();
    let (event_handler, events) = EventSender::new();
    let probe_handler = event_handler.duplicate();
    let tunnel = ScriptedTunnel::new(String::from("wg0"));
    let router = RouteManager::new(default_node());
    let (monitor, liveness) =
        WireguardMonitor::start(tunnel, router, &config, event_handler, probe_handler).unwrap();

    assert!(liveness.report_initial_probe(false).is_err());

    let (verdict, report) = monitor.wait();
    assert_eq!(verdict, Err(Error::PingTimeoutError));
    assert_eq!(report.cause, Some(CloseMsg::PingErr));

    assert_eq!(events.receive().unwrap(), TunnelEvent::Down);
    drop(report);
    assert!(events.receive().is_none());
}

#[test]
fn continuous_probe_failure_after_up() {
    // The tunnel comes up, then the continuous probe fails: Up fired
    // earlier, Down fires on failure, wait returns the liveness-timeout
    // error.
    let config = sample_config();
    let (event_handler, events) = EventSender::new();
    let probe_handler = event_handler.duplicate();
    let tunnel = ScriptedTunnel::new(String::from("wg0"));
    let router = RouteManager::new(default_node());
    let (monitor, liveness) =
        WireguardMonitor::start(tunnel, router, &config, event_handler, probe_handler).unwrap();

    let continuous = liveness.report_initial_probe(true).ok().unwrap();
    let probe_exit = continuous.report_probe_failure();

    let (verdict, report) = monitor.wait();
    assert_eq!(verdict, Err(Error::PingTimeoutError));
    assert_eq!(report.cause, Some(CloseMsg::PingErr));

    assert!(matches!(events.receive().unwrap(), TunnelEvent::Up(_)));
    assert_eq!(events.receive().unwrap(), TunnelEvent::Down);
    drop(report);
    drop(probe_exit);
    assert!(events.receive().is_none());
}

#[test]
fn two_close_handles_one_down_event() {
    // Two independent close handles both ask for shutdown: exactly one Down
    // fires, the second signal is never read, and no double-teardown
    // happens.
    let config = sample_config();
    let (event_handler, events) = EventSender::new();
    let probe_handler = event_handler.duplicate();
    let tunnel = ScriptedTunnel::new(String::from("wg0"));
    let router = RouteManager::new(default_node());
    let (monitor, liveness) =
        WireguardMonitor::start(tunnel, router, &config, event_handler, probe_handler).unwrap();

    let continuous = liveness.report_initial_probe(true).ok().unwrap();

    let mut first = monitor.close_handle();
    let mut second = first.duplicate();
    first.close();
    second.close();

    let (verdict, report) = monitor.wait();
    assert!(verdict.is_ok());
    assert_eq!(report.cause, Some(CloseMsg::Stop));

    assert!(matches!(events.receive().unwrap(), TunnelEvent::Up(_)));
    assert_eq!(events.receive().unwrap(), TunnelEvent::Down);
    drop(report);
    drop(continuous);
    assert!(events.receive().is_none());
}

#[test]
fn close_after_teardown_is_harmless() {
    // A close handle used after the monitor has torn down neither panics
    // nor fires another event.
    let config = sample_config();
    let (event_handler, events) = EventSender::new();
    let probe_handler = event_handler.duplicate();
    let tunnel = ScriptedTunnel::new(String::from("wg0"));
    let router = RouteManager::new(default_node());
    let (monitor, liveness) =
        WireguardMonitor::start(tunnel, router, &config, event_handler, probe_handler).unwrap();

    let mut handle = monitor.close_handle();
    handle.close();
    let (verdict, report) = monitor.wait();
    assert!(verdict.is_ok());

    handle.close();
    handle.close();

    assert_eq!(events.receive().unwrap(), TunnelEvent::Down);
    drop(report);
    drop(liveness);
    assert!(events.receive().is_none());
}

#[test]
fn start_rejects_an_empty_interface_name() {
    let config = sample_config();
    let tunnel = ScriptedTunnel::new(String::new());
    let router = RouteManager::new(default_node());
    let result =
        WireguardMonitor::start(tunnel, router, &config, EventLog::new(), EventLog::new());
    assert!(matches!(result, Err(Error::InterfaceNameError)));
}

#[test]
fn start_aborts_when_route_submission_fails() {
    let config = sample_config();
    let tunnel = ScriptedTunnel::new(String::from("wg0"));
    let router = RouteManager::with_failing_submission(default_node());
    let result =
        WireguardMonitor::start(tunnel, router, &config, EventLog::new(), EventLog::new());
    assert!(matches!(
        result,
        Err(Error::SetupRoutingError(RoutingError::SubmissionFailed))
    ));
}

#[test]
fn start_needs_a_default_route() {
    let config = sample_config();
    let tunnel = ScriptedTunnel::new(String::from("wg0"));
    let router = RouteManager::new(None);
    let result =
        WireguardMonitor::start(tunnel, router, &config, EventLog::new(), EventLog::new());
    assert!(matches!(
        result,
        Err(Error::SetupRoutingError(RoutingError::NoDefaultRoute))
    ));
}

#[test]
fn teardown_runs_its_steps_in_order() {
    let config = sample_config();
    let tunnel = ScriptedTunnel::new(String::from("wg0"));
    let router = RouteManager::new(default_node());
    let (monitor, liveness) =
        WireguardMonitor::start(tunnel, router, &config, EventLog::new(), EventLog::new())
            .unwrap();
    drop(liveness);

    let (verdict, report) = monitor.shutdown(Some(CloseMsg::Stop));
    assert_eq!(verdict, Ok(()));
    assert_eq!(
        report.steps,
        vec![
            TeardownStep::RoutesDeleted,
            TeardownStep::DeviceStopped,
            TeardownStep::DownNotified,
        ]
    );
    assert_eq!(report.router.deletion_count(), 1);
    assert!(report.router.installed_routes().is_empty());
    assert_eq!(report.device_stop, Ok(()));
    assert_eq!(report.handler.into_events(), vec![TunnelEvent::Down]);
}

#[test]
fn teardown_continues_when_the_device_refuses_to_stop() {
    // A device-stop failure is logged, not escalated: routes are still
    // deleted first, Down still fires, and the verdict follows the cause.
    let config = sample_config();
    let tunnel = ScriptedTunnel::with_failing_stop(String::from("wg0"), 11);
    let router = RouteManager::new(default_node());
    let (monitor, liveness) =
        WireguardMonitor::start(tunnel, router, &config, EventLog::new(), EventLog::new())
            .unwrap();
    drop(liveness);

    let (verdict, report) = monitor.shutdown(Some(CloseMsg::PingErr));
    assert_eq!(verdict, Err(Error::PingTimeoutError));
    assert_eq!(report.device_stop, Err(Error::StopWireguardError { status: 11 }));
    assert_eq!(report.router.deletion_count(), 1);
    assert_eq!(report.handler.into_events(), vec![TunnelEvent::Down]);
}

#[test]
fn teardown_without_a_cause_is_a_clean_stop() {
    // The channel closing without a signal counts as a clean stop.
    let config = sample_config();
    let tunnel = ScriptedTunnel::new(String::from("wg0"));
    let router = RouteManager::new(default_node());
    let (monitor, liveness) =
        WireguardMonitor::start(tunnel, router, &config, EventLog::new(), EventLog::new())
            .unwrap();
    drop(liveness);

    let (verdict, report) = monitor.shutdown(None);
    assert_eq!(verdict, Ok(()));
    assert_eq!(report.cause, None);
    assert_eq!(report.handler.into_events(), vec![TunnelEvent::Down]);
}

#[test]
fn tunnel_metadata_snapshots_the_configuration() {
    let config = sample_config();
    let tunnel = ScriptedTunnel::new(String::from("wg7"));
    let router = RouteManager::new(default_node());
    let (monitor, liveness) =
        WireguardMonitor::start(tunnel, router, &config, EventLog::new(), EventLog::new())
            .unwrap();
    drop(liveness);

    let metadata = monitor.tunnel_metadata(&config);
    assert_eq!(metadata.interface, "wg7");
    assert_eq!(metadata.ips, vec![IpAddress::V4(0x0a40_0001)]);
    assert_eq!(metadata.ipv4_gateway, IpAddress::V4(0x0a40_0002));
    assert_eq!(metadata.ipv6_gateway, Some(IpAddress::V6(0xfd00_0001)));

    let (_, report) = monitor.shutdown(Some(CloseMsg::Stop));
    drop(report);
}

#[test]
fn interface_name_is_stable_and_non_empty() {
    let tunnel = ScriptedTunnel::new(String::from("wg0"));
    let first_read = String::from(tunnel.get_interface_name());
    let second_read = String::from(tunnel.get_interface_name());
    assert!(!first_read.is_empty());
    assert_eq!(first_read, second_read);
    assert_eq!(tunnel.stop(), Ok(()));
}
