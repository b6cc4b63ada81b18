//! The signaling channel: a thin verified layer over std's mpsc channel,
//! which carries the monitor's termination signals and its outward events
//! between threads.
//!
//! vstd gives mpsc no specification, so the raw declarations and wrappers
//! here are taken on trust; nothing is claimed about delivery, only the
//! documented shape of each call. On top of them, [`ChannelSender`] and
//! [`ChannelReceiver`] carry two ghost facts that verified code maintains:
//! an identity shared by the two halves of one channel, and the sequence of
//! messages a sender has handed to its channel. Both halves can only be made
//! by [`channel_pair`] and [`ChannelSender::duplicate`] in this module, so a
//! sender whose identity provably equals a receiver's really is an end of
//! that receiver's channel.

use std::sync::mpsc;
use vstd::prelude::*;

verus! {

/// Relies on std::sync::mpsc::Sender: the sending half of a channel.
#[verifier::external_type_specification]
#[verifier::external_body]
#[verifier::reject_recursive_types(T)]
pub struct ExSender<T>(mpsc::Sender<T>);

/// Relies on std::sync::mpsc::Receiver: the receiving half of a channel.
#[verifier::external_type_specification]
#[verifier::external_body]
#[verifier::reject_recursive_types(T)]
pub struct ExReceiver<T>(mpsc::Receiver<T>);

/// Relies on std::sync::mpsc::channel: returns the two halves of a fresh
/// unbounded channel; never panics.
#[verifier::external_body]
fn channel_endpoints<T>() -> (mpsc::Sender<T>, mpsc::Receiver<T>) {
    mpsc::channel()
}

/// Relies on mpsc::Sender::send: never blocks and never panics; fails exactly
/// when the receiving half has been dropped, in which case the message is
/// simply lost. Reports whether the message was accepted.
#[verifier::external_body]
fn send_message<T>(sender: &mpsc::Sender<T>, message: T) -> bool {
    sender.send(message).is_ok()
}

/// Relies on mpsc::Receiver::recv: blocks until a message arrives (`Some`) or
/// until every sender has been dropped with the buffer empty (`None`); never
/// panics.
#[verifier::external_body]
fn receive_message<T>(receiver: &mpsc::Receiver<T>) -> Option<T> {
    receiver.recv().ok()
}

/// Relies on mpsc::Sender::clone: yields another sender for the same channel;
/// never panics.
pub assume_specification<T>[ <mpsc::Sender<T> as Clone>::clone ](
    sender: &mpsc::Sender<T>,
) -> mpsc::Sender<T>;

/// A sending half, tagged with the identity of its channel and with the
/// history of everything this particular sender handed to it.
#[verifier::reject_recursive_types(T)]
pub struct ChannelSender<T> {
    sender: mpsc::Sender<T>,
    id: Ghost<int>,
    sent: Ghost<Seq<T>>,
}

/// A receiving half, tagged with the identity of its channel.
#[verifier::reject_recursive_types(T)]
pub struct ChannelReceiver<T> {
    receiver: mpsc::Receiver<T>,
    id: Ghost<int>,
}

/// A fresh channel: sender and receiver share one identity, and nothing has
/// been sent yet.
pub fn channel_pair<T>() -> (pair: (ChannelSender<T>, ChannelReceiver<T>))
    ensures
        pair.0.id() == pair.1.id(),
        pair.0.sent() == Seq::<T>::empty(),
{
    let (sender, receiver) = channel_endpoints();
    let ghost id: int = arbitrary();
    (
        ChannelSender { sender, id: Ghost(id), sent: Ghost(Seq::empty()) },
        ChannelReceiver { receiver, id: Ghost(id) },
    )
}

impl<T> ChannelSender<T> {
    /// The identity of the channel this sender feeds.
    pub closed spec fn id(&self) -> int {
        self.id@
    }

    /// Everything this sender has handed to the channel, oldest first.
    pub closed spec fn sent(&self) -> Seq<T> {
        self.sent@
    }

    /// Hands one message to the channel. The message is recorded in the
    /// history whether or not the receiver is still there to take it; the
    /// result says whether it was accepted.
    pub fn send(&mut self, message: T) -> (accepted: bool)
        ensures
            final(self).id() == old(self).id(),
            final(self).sent() == old(self).sent().push(message),
    {
        self.sent = Ghost(self.sent@.push(message));
        send_message(&self.sender, message)
    }

    /// Another sender for the same channel, with its own empty history.
    pub fn duplicate(&self) -> (r: ChannelSender<T>)
        ensures
            r.id() == self.id(),
            r.sent() == Seq::<T>::empty(),
    {
        ChannelSender { sender: self.sender.clone(), id: Ghost(self.id@), sent: Ghost(Seq::empty()) }
    }
}

impl<T> ChannelReceiver<T> {
    /// The identity of the channel this receiver drains.
    pub closed spec fn id(&self) -> int {
        self.id@
    }

    /// Blocks until a message arrives (`Some`), or until every sender is
    /// gone with the buffer empty (`None`).
    pub fn receive(&self) -> (m: Option<T>) {
        receive_message(&self.receiver)
    }
}

} // verus!
