use crate::channel::channel_pair;
use crate::channel::ChannelReceiver;
use crate::channel::ChannelSender;
use crate::net::IpAddress;
use vstd::prelude::*;

verus! {

/// A snapshot describing a running tunnel, passed by value to the event
/// handler once the tunnel is confirmed up.
#[derive(Clone, Debug, PartialEq)]
pub struct TunnelMetadata {
    /// Name of the tunnel interface.
    pub interface: String,
    /// The local addresses assigned to the tunnel interface.
    pub ips: Vec<IpAddress>,
    /// The IPv4 gateway inside the tunnel.
    pub ipv4_gateway: IpAddress,
    /// The IPv6 gateway inside the tunnel, if one exists.
    pub ipv6_gateway: Option<IpAddress>,
}

/// Outward notification of a lifecycle transition, fire-and-forget.
#[derive(Clone, Debug, PartialEq)]
pub enum TunnelEvent {
    /// The tunnel passed its first liveness probe and carries traffic.
    Up(TunnelMetadata),
    /// The tunnel was torn down.
    Down,
}

/// A capability that consumes lifecycle events. The history ties every
/// delivered event to the handler's state, so contracts can say exactly which
/// events a call fires and in what order.
pub trait EventHandler: Sized {
    /// All events delivered to this handler, oldest first.
    spec fn history(&self) -> Seq<TunnelEvent>;

    /// Deliver one event. Must not panic and must record the event exactly
    /// once at the end of the history.
    fn on_event(&mut self, event: TunnelEvent)
        ensures
            final(self).history() == old(self).history().push(event),
    ;
}

/// An event handler that keeps the events it receives, for callers who
/// inspect them after the monitor has finished.
pub struct EventLog {
    events: Vec<TunnelEvent>,
}

impl EventLog {
    /// A log that has seen nothing yet.
    pub fn new() -> (r: EventLog)
        ensures
            r.history() == Seq::<TunnelEvent>::empty(),
    {
        EventLog { events: Vec::new() }
    }

    /// Hands out everything the log has seen, oldest first.
    pub fn into_events(self) -> (r: Vec<TunnelEvent>)
        ensures
            r@ == self.history(),
    {
        self.events
    }
}

impl EventHandler for EventLog {
    closed spec fn history(&self) -> Seq<TunnelEvent> {
        self.events@
    }

    fn on_event(&mut self, event: TunnelEvent) {
        self.events.push(event);
    }
}

/// An event handler that forwards every event into a channel, so that events
/// fired from different threads arrive at one receiver in the order they
/// were delivered. Its history is the channel sender's send history, so what
/// the handler claims to have seen is exactly what it handed to the channel.
/// A send after the receiver is gone is silently dropped, as the events are
/// fire-and-forget.
pub struct EventSender {
    sender: ChannelSender<TunnelEvent>,
}

impl EventSender {
    /// The identity of the channel this handler feeds.
    pub closed spec fn channel_id(&self) -> int {
        self.sender.id()
    }

    /// A fresh channel: the sending half wrapped as a handler, and the
    /// receiving half — of that same channel — for whoever watches the
    /// events.
    pub fn new() -> (r: (EventSender, ChannelReceiver<TunnelEvent>))
        ensures
            r.0.history() == Seq::<TunnelEvent>::empty(),
            r.0.channel_id() == r.1.id(),
    {
        let (sender, receiver) = channel_pair();
        (EventSender { sender }, receiver)
    }

    /// Another handler feeding the same receiver, with its own history.
    pub fn duplicate(&self) -> (r: EventSender)
        ensures
            r.history() == Seq::<TunnelEvent>::empty(),
            r.channel_id() == self.channel_id(),
    {
        EventSender { sender: self.sender.duplicate() }
    }
}

impl EventHandler for EventSender {
    closed spec fn history(&self) -> Seq<TunnelEvent> {
        self.sender.sent()
    }

    fn on_event(&mut self, event: TunnelEvent) {
        let _accepted = self.sender.send(event);
    }
}

} // verus!
