use crate::channel::channel_pair;
use crate::channel::ChannelReceiver;
use crate::channel::ChannelSender;
use crate::config::Config;
use crate::error::Error;
use crate::events::EventHandler;
use crate::events::TunnelEvent;
use crate::events::TunnelMetadata;
use crate::net::IpAddress;
use crate::routing::derive_routes;
use crate::routing::routes_match_plan;
use crate::routing::Route;
use crate::routing::RouteManager;
use crate::teardown::notify_down;
use crate::teardown::stop_tunnel;
use crate::teardown::TeardownComplete;
use vstd::prelude::*;

verus! {

/// Time units a single liveness probe may take before it counts as failed.
pub const PING_TIMEOUT: u16 = 7;

/// A termination cause, produced by the liveness monitor or by a close
/// handle and consumed exactly once by the monitor's wait loop.
#[derive(Clone, Copy, Debug, PartialEq, Eq, Structural)]
pub enum CloseMsg {
    /// A holder of a close handle asked for shutdown.
    Stop,
    /// A liveness probe failed or timed out.
    PingErr,
}

/// A live tunnel device. Any backend that can name its interface and stop
/// itself can be monitored; stopping consumes the device, so it happens at
/// most once. Both answers are pinned to spec functions of the device, so
/// the name is stable for the device's lifetime and the shutdown verdict is
/// the one the implementation models.
pub trait Tunnel: Sized {
    /// The name of the network interface this device backs.
    spec fn spec_interface_name(&self) -> Seq<char>;

    /// The verdict this device reports when stopped.
    spec fn spec_stop(&self) -> Result<(), Error>;

    /// Names the tunnel interface.
    fn get_interface_name(&self) -> (r: &str)
        ensures
            r@ == self.spec_interface_name(),
    ;

    /// Stops the device, consuming it.
    fn stop(self) -> (r: Result<(), Error>)
        ensures
            r == self.spec_stop(),
    ;
}

/// A tunnel device whose behaviour is fixed at construction: it carries a
/// name, and stopping it reports a chosen verdict. It stands in where no
/// platform backend is wired up, and drives the teardown paths in tests.
pub struct ScriptedTunnel {
    pub interface_name: String,
    pub stop_status: Option<i32>,
}

impl ScriptedTunnel {
    /// A device whose shutdown succeeds.
    pub fn new(interface_name: String) -> (r: ScriptedTunnel)
        ensures
            r.spec_interface_name() == interface_name@,
            r.spec_stop() == Ok::<(), Error>(()),
    {
        ScriptedTunnel { interface_name, stop_status: None }
    }

    /// A device whose shutdown fails with the given backend status code.
    pub fn with_failing_stop(interface_name: String, status: i32) -> (r: ScriptedTunnel)
        ensures
            r.spec_interface_name() == interface_name@,
            r.spec_stop() == Err::<(), Error>(Error::StopWireguardError { status }),
    {
        ScriptedTunnel { interface_name, stop_status: Some(status) }
    }
}

impl Tunnel for ScriptedTunnel {
    open spec fn spec_interface_name(&self) -> Seq<char> {
        self.interface_name@
    }

    open spec fn spec_stop(&self) -> Result<(), Error> {
        match self.stop_status {
            None => Ok(()),
            Some(status) => Err(Error::StopWireguardError { status }),
        }
    }

    fn get_interface_name(&self) -> (r: &str) {
        self.interface_name.as_str()
    }

    fn stop(self) -> (r: Result<(), Error>) {
        match self.stop_status {
            None => Ok(()),
            Some(status) => Err(Error::StopWireguardError { status }),
        }
    }
}

/// A shareable capability to request shutdown of a running monitor. Each
/// duplicate may live on its own thread; all feed the one channel of the
/// monitor they came from.
pub struct CloseHandle {
    chan: ChannelSender<CloseMsg>,
}

impl CloseHandle {
    /// The identity of the channel this handle signals on — the channel of
    /// the monitor that issued it.
    pub closed spec fn channel_id(&self) -> int {
        self.chan.id()
    }

    /// Every signal this handle has handed to the channel, oldest first.
    pub closed spec fn sent(&self) -> Seq<CloseMsg> {
        self.chan.sent()
    }

    /// Asks the monitor to stop: hands exactly one explicit-stop signal —
    /// never a liveness failure — to the monitor's channel. Harmless after
    /// the monitor has already torn down: the signal is then simply dropped,
    /// and no event is fired.
    pub fn close(&mut self)
        ensures
            final(self).channel_id() == old(self).channel_id(),
            final(self).sent() == old(self).sent().push(CloseMsg::Stop),
    {
        let _accepted = self.chan.send(CloseMsg::Stop);
    }

    /// Another handle on the same monitor's channel, with its own history.
    pub fn duplicate(&self) -> (r: CloseHandle)
        ensures
            r.channel_id() == self.channel_id(),
            r.sent() == Seq::<CloseMsg>::empty(),
    {
        CloseHandle { chan: self.chan.duplicate() }
    }
}

/// One step of the teardown sequence, in the order the monitor performs
/// them.
#[derive(Clone, Copy, Debug, PartialEq, Eq, Structural)]
pub enum TeardownStep {
    /// All installed routes were requested deleted.
    RoutesDeleted,
    /// The tunnel device was stopped.
    DeviceStopped,
    /// The event handler was told the tunnel is down.
    DownNotified,
}

/// The mandatory teardown order: routes out of the table first, then the
/// device, and the `Down` notification only after both.
pub open spec fn teardown_order() -> Seq<TeardownStep> {
    seq![TeardownStep::RoutesDeleted, TeardownStep::DeviceStopped, TeardownStep::DownNotified]
}

/// What the monitor's verdict is for a consumed termination cause: a
/// liveness failure surfaces as `PingTimeoutError`; an explicit stop, or the
/// channel closing without a signal, is a clean stop.
pub open spec fn wait_verdict(cause: Option<CloseMsg>) -> Result<(), Error> {
    match cause {
        Some(CloseMsg::PingErr) => Err(Error::PingTimeoutError),
        _ => Ok(()),
    }
}

/// Everything teardown left behind, handed back so callers can see what
/// happened: the cause that was consumed, the route manager and handler in
/// their final states, the device's stop verdict, the readable record of the
/// steps, and the witness of the completed chain. The witness is what makes
/// the order binding: it exists only because route deletion produced the
/// evidence the device stop consumed, and the device stop the evidence the
/// `Down` notification consumed.
pub struct TeardownReport<H: EventHandler> {
    /// The termination cause the wait loop consumed; `None` means the
    /// channel closed without a signal.
    pub cause: Option<CloseMsg>,
    /// The route manager after deletion.
    pub router: RouteManager,
    /// The event handler after the `Down` notification.
    pub handler: H,
    /// What stopping the device reported.
    pub device_stop: Result<(), Error>,
    /// The teardown steps in the order they were performed.
    pub steps: Vec<TeardownStep>,
    /// The witness of the completed delete-routes → stop-device → `Down`
    /// chain.
    pub evidence: TeardownComplete,
}

/// Spawns and monitors a tunnel: owns the device, the route manager, the
/// signaling channel and the event handler, and ties start, wait and close
/// together.
pub struct WireguardMonitor<T: Tunnel, H: EventHandler> {
    tunnel: T,
    router: RouteManager,
    event_handler: H,
    close_msg_sender: ChannelSender<CloseMsg>,
    close_msg_receiver: ChannelReceiver<CloseMsg>,
}

impl<T: Tunnel, H: EventHandler> WireguardMonitor<T, H> {
    /// Name of the interface of the owned device.
    pub closed spec fn interface_name(&self) -> Seq<char> {
        self.tunnel.spec_interface_name()
    }

    /// The identity of this monitor's signaling channel: the one its wait
    /// loop drains.
    pub closed spec fn channel_id(&self) -> int {
        self.close_msg_receiver.id()
    }

    /// The monitor's own send end feeds the channel its wait loop drains.
    /// Holds for every monitor `start` returns.
    pub closed spec fn wf(&self) -> bool {
        self.close_msg_sender.id() == self.close_msg_receiver.id()
    }

    /// The routes currently installed for this tunnel.
    pub closed spec fn installed_routes(&self) -> Seq<Route> {
        self.router.installed()
    }

    /// How often route deletion has been requested.
    pub closed spec fn deletions(&self) -> nat {
        self.router.deletions()
    }

    /// The events the monitor's own handler has seen.
    pub closed spec fn history(&self) -> Seq<TunnelEvent> {
        self.event_handler.history()
    }

    /// The verdict the owned device will report when stopped.
    pub closed spec fn device_stop_result(&self) -> Result<(), Error> {
        self.tunnel.spec_stop()
    }

    /// Brings the tunnel up: checks the device's interface name, installs
    /// the derived routes, and hands back the running monitor together with
    /// the liveness monitor that a background thread then drives. Any
    /// failure aborts the whole call with its specific error and no monitor
    /// exists afterwards. On success the device has a non-empty, stable
    /// interface name, exactly the planned routes are installed, and no
    /// event has been fired yet.
    pub fn start(
        tunnel: T,
        router: RouteManager,
        config: &Config,
        event_handler: H,
        probe_handler: H,
    ) -> (r: Result<(WireguardMonitor<T, H>, LivenessMonitor<H>), Error>)
        requires
            config.wf(),
            router.installed() == Seq::<Route>::empty(),
        ensures
            r is Ok <==> (tunnel.spec_interface_name().len() > 0
                && router.spec_default_node() is Some && router.accepts_batches()),
            tunnel.spec_interface_name().len() == 0 ==> (r matches Err(e) && e
                == Error::InterfaceNameError),
            (tunnel.spec_interface_name().len() > 0 && router.spec_default_node() is None)
                ==> (r matches Err(e) && e == Error::SetupRoutingError(
                crate::error::RoutingError::NoDefaultRoute,
            )),
            (tunnel.spec_interface_name().len() > 0 && router.spec_default_node() is Some
                && !router.accepts_batches()) ==> (r matches Err(e) && e
                == Error::SetupRoutingError(crate::error::RoutingError::SubmissionFailed)),
            r matches Ok(pair) ==> {
                &&& pair.0.interface_name() == tunnel.spec_interface_name()
                &&& pair.0.device_stop_result() == tunnel.spec_stop()
                &&& routes_match_plan(
                    pair.0.installed_routes(),
                    config.peers@,
                    tunnel.spec_interface_name(),
                    router.spec_default_node().unwrap(),
                )
                &&& pair.0.deletions() == router.deletions()
                &&& pair.0.history() == event_handler.history()
                &&& pair.1.spec_gateway() == config.ipv4_gateway
                &&& pair.1.spec_interface_name() == tunnel.spec_interface_name()
                &&& pair.1.history() == probe_handler.history()
                &&& pair.1.spec_metadata().interface@ == tunnel.spec_interface_name()
                &&& pair.1.spec_metadata().ips@ == config.addresses@
                &&& pair.1.spec_metadata().ipv4_gateway == config.ipv4_gateway
                &&& pair.1.spec_metadata().ipv6_gateway == config.ipv6_gateway
                &&& pair.0.wf()
                &&& pair.1.channel_id() == pair.0.channel_id()
                &&& pair.1.sent() == Seq::<CloseMsg>::empty()
            },
    {
        if tunnel.get_interface_name().is_empty() {
            return Err(Error::InterfaceNameError);
        }
        let (close_msg_sender, close_msg_receiver) = channel_pair();
        let mut monitor = WireguardMonitor {
            tunnel,
            router,
            event_handler,
            close_msg_sender,
            close_msg_receiver,
        };
        if let Err(e) = monitor.setup_routing(config) {
            return Err(e);
        }
        let metadata = monitor.tunnel_metadata(config);
        let interface_name = monitor.tunnel.get_interface_name().to_owned();
        let close_sender = monitor.close_msg_sender.duplicate();
        let liveness = LivenessMonitor {
            gateway: config.ipv4_gateway,
            interface_name,
            metadata,
            close_sender,
            handler: probe_handler,
        };
        Ok((monitor, liveness))
    }

    /// A capability that lets any holder, on any thread, request shutdown:
    /// a fresh send end of this monitor's own signaling channel.
    pub fn close_handle(&self) -> (r: CloseHandle)
        requires
            self.wf(),
        ensures
            r.channel_id() == self.channel_id(),
            r.sent() == Seq::<CloseMsg>::empty(),
    {
        CloseHandle { chan: self.close_msg_sender.duplicate() }
    }

    /// Blocks until one termination signal arrives (or the channel closes
    /// without one), then tears down. The verdict is governed only by the
    /// consumed cause, never by teardown failures.
    pub fn wait(self) -> (out: (Result<(), Error>, TeardownReport<H>))
        requires
            self.deletions() < u64::MAX,
        ensures
            out.0 == wait_verdict(out.1.cause),
            out.1.router.deletions() == self.deletions() + 1,
            out.1.router.installed() == Seq::<Route>::empty(),
            out.1.handler.history() == self.history().push(TunnelEvent::Down),
            out.1.device_stop == self.device_stop_result(),
            out.1.steps@ == teardown_order(),
            out.1.evidence.after_deletions() == self.deletions() + 1,
            out.1.evidence.device_verdict() == self.device_stop_result(),
    {
        let cause = self.close_msg_receiver.receive();
        self.shutdown(cause)
    }

    /// Deterministic teardown for a consumed cause, each step best-effort
    /// and never aborting the sequence: delete all installed routes, then
    /// stop the device, then fire `Down` — in exactly that order, exactly
    /// once each, whatever the cause was and whatever each step reports.
    pub fn shutdown(self, cause: Option<CloseMsg>) -> (out: (Result<(), Error>, TeardownReport<
        H,
    >))
        requires
            self.deletions() < u64::MAX,
        ensures
            out.0 == wait_verdict(cause),
            out.1.cause == cause,
            out.1.router.deletions() == self.deletions() + 1,
            out.1.router.installed() == Seq::<Route>::empty(),
            out.1.handler.history() == self.history().push(TunnelEvent::Down),
            out.1.device_stop == self.device_stop_result(),
            out.1.steps@ == teardown_order(),
            out.1.evidence.after_deletions() == self.deletions() + 1,
            out.1.evidence.device_verdict() == self.device_stop_result(),
    {
        let WireguardMonitor { tunnel, router, event_handler, close_msg_sender, close_msg_receiver } =
            self;
        let mut router = router;
        let mut event_handler = event_handler;
        let mut steps: Vec<TeardownStep> = Vec::new();
        // Clear routes first: removing the device before its routes can
        // leave the routing table inconsistent. A failure here is not
        // escalated; teardown continues. Each later step consumes the
        // witness of the one before it, so the order cannot silently change.
        let (_route_deletion, routes_cleared) = router.delete_routes();
        steps.push(TeardownStep::RoutesDeleted);
        let (device_stop, halted) = stop_tunnel(tunnel, routes_cleared);
        steps.push(TeardownStep::DeviceStopped);
        let evidence = notify_down(&mut event_handler, halted);
        steps.push(TeardownStep::DownNotified);
        proof {
            assert(steps@ =~= teardown_order());
        }
        let verdict = match cause {
            Some(CloseMsg::PingErr) => Err(Error::PingTimeoutError),
            _ => Ok(()),
        };
        (
            verdict,
            TeardownReport { cause, router, handler: event_handler, device_stop, steps, evidence },
        )
    }

    /// Derives the route batch for the configuration and submits it to the
    /// route manager; fails, aborting start, when no default route is known.
    fn setup_routing(&mut self, config: &Config) -> (r: Result<(), Error>)
        requires
            config.wf(),
            old(self).router.installed() == Seq::<Route>::empty(),
        ensures
            final(self).tunnel == old(self).tunnel,
            final(self).event_handler == old(self).event_handler,
            final(self).close_msg_sender == old(self).close_msg_sender,
            final(self).close_msg_receiver == old(self).close_msg_receiver,
            final(self).router.spec_default_node() == old(self).router.spec_default_node(),
            final(self).router.deletions() == old(self).router.deletions(),
            final(self).router.accepts_batches() == old(self).router.accepts_batches(),
            r is Ok <==> (old(self).router.spec_default_node() is Some
                && old(self).router.accepts_batches()),
            old(self).router.spec_default_node() is None ==> (r matches Err(e) && e
                == Error::SetupRoutingError(crate::error::RoutingError::NoDefaultRoute)
                && final(self).router.installed() == old(self).router.installed()),
            (old(self).router.spec_default_node() is Some && !old(
                self,
            ).router.accepts_batches()) ==> (r matches Err(e) && e == Error::SetupRoutingError(
                crate::error::RoutingError::SubmissionFailed,
            ) && final(self).router.installed() == old(self).router.installed()),
            r is Ok ==> routes_match_plan(
                final(self).router.installed(),
                config.peers@,
                old(self).tunnel.spec_interface_name(),
                old(self).router.spec_default_node().unwrap(),
            ),
    {
        let default_node = match self.router.get_default_route_node() {
            Ok(node) => node,
            Err(e) => {
                return Err(Error::SetupRoutingError(e));
            },
        };
        let interface_name = self.tunnel.get_interface_name();
        let required = derive_routes(config, interface_name, default_node);
        match self.router.add_routes(required) {
            Ok(()) => Ok(()),
            Err(e) => Err(Error::SetupRoutingError(e)),
        }
    }

    /// The snapshot handed to the event handler once the tunnel is confirmed
    /// up: interface name, local addresses and gateways.
    pub fn tunnel_metadata(&self, config: &Config) -> (m: TunnelMetadata)
        ensures
            m.interface@ == self.interface_name(),
            m.ips@ == config.addresses@,
            m.ipv4_gateway == config.ipv4_gateway,
            m.ipv6_gateway == config.ipv6_gateway,
    {
        TunnelMetadata {
            interface: self.tunnel.get_interface_name().to_owned(),
            ips: copy_addresses(&config.addresses),
            ipv4_gateway: config.ipv4_gateway,
            ipv6_gateway: config.ipv6_gateway,
        }
    }
}

/// The background liveness procedure in its first phase, before the tunnel
/// is confirmed up. The thread that drives it probes the gateway once,
/// bounded by `PING_TIMEOUT`, and reports the outcome here; the probing
/// itself is the probe collaborator's work and stays outside this crate.
pub struct LivenessMonitor<H: EventHandler> {
    gateway: IpAddress,
    interface_name: String,
    metadata: TunnelMetadata,
    close_sender: ChannelSender<CloseMsg>,
    handler: H,
}

/// What the liveness procedure leaves behind when it ends: its event
/// handler, and the signal sender with everything it handed to the
/// monitor's channel.
pub struct LivenessExit<H: EventHandler> {
    /// The handler, untouched since the last event it was given.
    pub handler: H,
    /// The send end of the monitor's channel, its history closed.
    pub signals: ChannelSender<CloseMsg>,
}

impl<H: EventHandler> LivenessMonitor<H> {
    /// The address the probes target: the tunnel's IPv4 gateway.
    pub closed spec fn spec_gateway(&self) -> IpAddress {
        self.gateway
    }

    /// The interface the probes are bound to.
    pub closed spec fn spec_interface_name(&self) -> Seq<char> {
        self.interface_name@
    }

    /// The snapshot that the `Up` event will carry.
    pub closed spec fn spec_metadata(&self) -> TunnelMetadata {
        self.metadata
    }

    /// The events this monitor's handler has seen.
    pub closed spec fn history(&self) -> Seq<TunnelEvent> {
        self.handler.history()
    }

    /// The identity of the monitor channel this procedure signals on.
    pub closed spec fn channel_id(&self) -> int {
        self.close_sender.id()
    }

    /// The signals this procedure has handed to the monitor's channel.
    pub closed spec fn sent(&self) -> Seq<CloseMsg> {
        self.close_sender.sent()
    }

    /// The address to probe.
    pub fn gateway(&self) -> (r: IpAddress)
        ensures
            r == self.spec_gateway(),
    {
        self.gateway
    }

    /// The interface to probe through.
    pub fn interface_name(&self) -> (r: &str)
        ensures
            r@ == self.spec_interface_name(),
    {
        self.interface_name.as_str()
    }

    /// Reports the outcome of the initial probe. On success the `Up` event
    /// fires exactly once, with the tunnel's metadata, no signal is sent,
    /// and the second phase is returned so continuous monitoring can begin.
    /// On failure exactly one liveness-failure signal is handed to the
    /// monitor's channel instead, no event fires at all, the handler comes
    /// back untouched, and the procedure is over.
    pub fn report_initial_probe(self, success: bool) -> (r: Result<
        ContinuousMonitor<H>,
        LivenessExit<H>,
    >)
        ensures
            r is Ok <==> success,
            success ==> (r matches Ok(continuous) && {
                &&& continuous.history() == self.history().push(
                    TunnelEvent::Up(self.spec_metadata()),
                )
                &&& continuous.channel_id() == self.channel_id()
                &&& continuous.sent() == self.sent()
            }),
            !success ==> (r matches Err(exit) && {
                &&& exit.handler.history() == self.history()
                &&& exit.signals.id() == self.channel_id()
                &&& exit.signals.sent() == self.sent().push(CloseMsg::PingErr)
            }),
    {
        let LivenessMonitor { gateway: _, interface_name: _, metadata, close_sender, handler } =
            self;
        let mut handler = handler;
        let mut close_sender = close_sender;
        if success {
            handler.on_event(TunnelEvent::Up(metadata));
            Ok(ContinuousMonitor { close_sender, handler })
        } else {
            let _accepted = close_sender.send(CloseMsg::PingErr);
            Err(LivenessExit { handler, signals: close_sender })
        }
    }
}

/// The background liveness procedure in its second phase, while the tunnel
/// is up. The driving thread probes the gateway on an ongoing basis and
/// comes back here only when the probe loop has failed.
pub struct ContinuousMonitor<H: EventHandler> {
    close_sender: ChannelSender<CloseMsg>,
    handler: H,
}

impl<H: EventHandler> ContinuousMonitor<H> {
    /// The events this monitor's handler has seen.
    pub closed spec fn history(&self) -> Seq<TunnelEvent> {
        self.handler.history()
    }

    /// The identity of the monitor channel this procedure signals on.
    pub closed spec fn channel_id(&self) -> int {
        self.close_sender.id()
    }

    /// The signals this procedure has handed to the monitor's channel.
    pub closed spec fn sent(&self) -> Seq<CloseMsg> {
        self.close_sender.sent()
    }

    /// The continuous probe loop has ended, which only happens on failure:
    /// exactly one liveness-failure signal is handed to the monitor's
    /// channel and the procedure is over. The send fails harmlessly when
    /// the monitor has already torn down; no event is fired either way, and
    /// the handler comes back untouched.
    pub fn report_probe_failure(self) -> (r: LivenessExit<H>)
        ensures
            r.handler.history() == self.history(),
            r.signals.id() == self.channel_id(),
            r.signals.sent() == self.sent().push(CloseMsg::PingErr),
    {
        let ContinuousMonitor { close_sender, handler } = self;
        let mut close_sender = close_sender;
        let _accepted = close_sender.send(CloseMsg::PingErr);
        LivenessExit { handler, signals: close_sender }
    }
}

/// In every teardown, route deletion stands strictly before the device
/// stop, which stands strictly before the `Down` notification — `shutdown`
/// and `wait` ensure their recorded steps are exactly this sequence.
pub proof fn lemma_teardown_order_fixed()
    ensures
        teardown_order().len() == 3,
        teardown_order()[0] == TeardownStep::RoutesDeleted,
        teardown_order()[1] == TeardownStep::DeviceStopped,
        teardown_order()[2] == TeardownStep::DownNotified,
{
}

/// The interface name of a monitored device is stable: it is pinned to a
/// spec function of the device, the monitor never changes the device, and so
/// any two reads during the monitor's lifetime yield the same string — which
/// `start` moreover guarantees to be non-empty for every monitor it returns.
pub proof fn lemma_interface_name_stable<T: Tunnel>(tunnel: &T, read1: Seq<char>, read2: Seq<char>)
    requires
        read1 == tunnel.spec_interface_name(),
        read2 == tunnel.spec_interface_name(),
    ensures
        read1 == read2,
{
}

/// Copies an address list, preserving its contents.
fn copy_addresses(addresses: &Vec<IpAddress>) -> (r: Vec<IpAddress>)
    ensures
        r@ == addresses@,
{
    let mut out: Vec<IpAddress> = Vec::new();
    let mut i: usize = 0;
    while i < addresses.len()
        invariant
            0 <= i <= addresses@.len(),
            out@ == addresses@.take(i as int),
        decreases addresses@.len() - i,
    {
        out.push(addresses[i]);
        assert(addresses@.take(i + 1) =~= addresses@.take(i as int).push(addresses@[i as int]));
        i = i + 1;
    }
    proof {
        assert(addresses@.take(addresses@.len() as int) =~= addresses@);
    }
    out
}

} // verus!
