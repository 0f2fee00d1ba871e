//! Broadcast channels, on which the outcome of one load reaches all who wait for it.
use tokio::sync::broadcast;
use vstd::prelude::*;

verus! {

/// The sending end of a broadcast channel. All senders that feed one channel count as equal.
#[verifier::external_type_specification]
#[verifier::external_body]
#[verifier::reject_recursive_types(T)]
pub struct ExSender<T>(broadcast::Sender<T>);

/// A receiving end of a broadcast channel.
#[verifier::external_type_specification]
#[verifier::external_body]
#[verifier::reject_recursive_types(T)]
pub struct ExReceiver<T>(broadcast::Receiver<T>);

/// A receiver together with the channel that it listens to.
#[verifier::reject_recursive_types(T)]
pub struct Subscription<T> {
    receiver: broadcast::Receiver<T>,
    channel: Ghost<broadcast::Sender<T>>,
    room: Ghost<usize>,
}

impl<T> Subscription<T> {
    /// The channel that is listened to.
    pub closed spec fn channel(&self) -> broadcast::Sender<T> {
        self.channel@
    }

    /// How many messages the channel was made to hold; said only of a channel's first receiver.
    pub closed spec fn room(&self) -> usize {
        self.room@
    }

    /// The receiver.
    pub closed spec fn receiver(&self) -> broadcast::Receiver<T> {
        self.receiver
    }

    /// The receiver, to wait on.
    pub fn into_receiver(self) -> (receiver: broadcast::Receiver<T>)
        ensures
            receiver == self.receiver(),
    {
        self.receiver
    }
}

/// Calls `broadcast::channel`, which makes a new channel that holds at least `capacity` messages
/// for those who are slow to receive them, and hands out its sender and a receiver that listens to
/// it. It panics on a capacity of zero, and on one beyond half of `usize::MAX`. That no other
/// sender feeds the channel yet is not said.
#[verifier::external_body]
pub(crate) fn channel<T: Clone>(capacity: usize) -> (ends: (broadcast::Sender<T>, Subscription<T>))
    requires
        0 < capacity <= usize::MAX / 2,
    ensures
        ends.1.channel() == ends.0,
        ends.1.room() == capacity,
{
    let (sender, receiver) = broadcast::channel(capacity);
    let channel = Ghost(sender);
    (sender, Subscription { receiver, channel, room: Ghost(capacity) })
}

/// Calls `Sender::subscribe`, which makes another receiver that listens to the sender's channel:
/// it gets what is sent from now on. It panics only at more receivers than memory can hold.
#[verifier::external_body]
pub(crate) fn subscribe<T>(sender: &broadcast::Sender<T>) -> (subscription: Subscription<T>)
    ensures
        subscription.channel() == *sender,
{
    Subscription { receiver: sender.subscribe(), channel: Ghost(*sender), room: Ghost(0) }
}

/// Calls `Sender::clone`, which makes another sender that feeds the same channel.
#[verifier::external_body]
pub(crate) fn clone_sender<T>(sender: &broadcast::Sender<T>) -> (clone: broadcast::Sender<T>)
    ensures
        clone == *sender,
{
    sender.clone()
}

} // verus!
