use vstd::prelude::*;

use tokio::sync::broadcast;

verus! {

#[verifier::external_type_specification]
#[verifier::external_body]
#[verifier::reject_recursive_types(T)]
pub struct ExSender<T>(broadcast::Sender<T>);

#[verifier::external_type_specification]
#[verifier::external_body]
#[verifier::reject_recursive_types(T)]
pub struct ExReceiver<T>(broadcast::Receiver<T>);

/// Relies on `tokio::sync::broadcast::channel`: a bounded broadcast channel
/// over which payment ids are fanned out best-effort. The capacity bound is
/// what keeps the call from panicking.
#[verifier::external_body]
fn notification_channel(capacity: usize) -> (r: (
    broadcast::Sender<String>,
    broadcast::Receiver<String>,
))
    requires
        1 <= capacity <= usize::MAX / 2,
{
    broadcast::channel(capacity)
}

/// Relies on `tokio::sync::broadcast::Sender::subscribe`: a new receiver
/// that sees values sent after this call, not a replay of history.
#[verifier::external_body]
fn subscribe_channel(sender: &broadcast::Sender<String>) -> (r: broadcast::Receiver<String>) {
    sender.subscribe()
}

/// Relies on `tokio::sync::broadcast::Sender::send`: best-effort publish;
/// failure (no live receivers) is deliberately ignored, as the feed is a
/// hint, not a durable log.
#[verifier::external_body]
fn send_notification(sender: &broadcast::Sender<String>, payment_id: String) {
    let _ = sender.send(payment_id);
}

/// The payment-changed feed: a bounded best-effort broadcast sender together
/// with a ghost log of every payment id this handler has published on it.
/// Delivery itself is best-effort and unmodeled; the log records exactly
/// what was handed to the channel.
pub struct Notifier {
    sender: broadcast::Sender<String>,
    log: Ghost<Seq<Seq<char>>>,
}

impl Notifier {
    /// The payment ids published so far, in order.
    pub closed spec fn log(self) -> Seq<Seq<char>> {
        self.log@
    }

    /// The underlying channel (opaque; contracts use it only to state that a
    /// step keeps the channel itself).
    pub closed spec fn channel(self) -> broadcast::Sender<String> {
        self.sender
    }

    /// A fresh feed with the given buffer capacity: nothing published yet.
    pub fn new(capacity: usize) -> (r: Notifier)
        requires
            1 <= capacity <= usize::MAX / 2,
        ensures
            r.log() == Seq::<Seq<char>>::empty(),
    {
        let pair = notification_channel(capacity);
        Notifier { sender: pair.0, log: Ghost(Seq::empty()) }
    }

    /// A new subscription; it sees values published after this call, not a
    /// replay of the log.
    pub fn subscribe(&self) -> broadcast::Receiver<String> {
        subscribe_channel(&self.sender)
    }

    /// Publishes a payment id, best-effort, and records it in the log.
    pub fn publish(&mut self, payment_id: String)
        ensures
            final(self).log() == old(self).log().push(payment_id@),
            final(self).channel() == old(self).channel(),
    {
        let ghost extended = self.log@.push(payment_id@);
        send_notification(&self.sender, payment_id);
        proof {
            self.log@ = extended;
        }
    }
}

} // verus!
