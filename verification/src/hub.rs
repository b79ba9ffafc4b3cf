//! The Event Broadcaster: one process-wide publish point. Every subscriber
//! receives every event published after its subscribe call returns and none
//! from before; a publish with no subscribers is silently dropped; a slow
//! subscriber may miss intermediate events past the delivery capacity but is
//! never wedged.

use vstd::prelude::*;

use crate::recorder::AccessRecord;
use crate::recorder::AccessRecorder;
use crate::recorder::PendingRecord;
use crate::recorder::assigned_from;

verus! {

/// An event delivered on the push stream: the connection greeting, or one
/// completed access record fanned out to every listener.
#[derive(Clone, Debug)]
pub enum StreamEvent {
    Connected { message: String },
    Access(AccessRecord),
}

#[verifier::external_type_specification]
#[verifier::external_body]
#[verifier::reject_recursive_types(T)]
pub struct ExBroadcastSender<T>(tokio::sync::broadcast::Sender<T>);

#[verifier::external_type_specification]
#[verifier::external_body]
#[verifier::reject_recursive_types(T)]
pub struct ExBroadcastReceiver<T>(tokio::sync::broadcast::Receiver<T>);

/// The process-wide fan-out point for push-stream events.
pub struct Broadcaster {
    tx: tokio::sync::broadcast::Sender<StreamEvent>,
}

/// Relies on tokio::sync::broadcast::channel: a fresh fan-out channel that
/// retains up to `capacity` undelivered events per subscriber and drops the
/// oldest beyond that. It panics on a capacity of 0 or above usize::MAX / 2,
/// so those are excluded here.
#[verifier::external_body]
fn new_sender(capacity: usize) -> tokio::sync::broadcast::Sender<StreamEvent>
    requires
        1 <= capacity <= usize::MAX / 2,
{
    let (tx, _rx) = tokio::sync::broadcast::channel(capacity);
    tx
}

impl Broadcaster {
    /// A fresh broadcaster whose delivery buffer holds `capacity` events per
    /// subscriber.
    pub fn new(capacity: usize) -> Broadcaster
        requires
            1 <= capacity <= usize::MAX / 2,
    {
        Broadcaster { tx: new_sender(capacity) }
    }

    /// Relies on tokio::sync::broadcast::Sender::send: deliver one event to
    /// every currently live receiver, waiting for no one; with no receiver
    /// the event is silently dropped. Returns how many receivers were live.
    #[verifier::external_body]
    pub fn publish(&self, event: StreamEvent) -> usize {
        match self.tx.send(event) {
            Ok(n) => n,
            Err(_) => 0,
        }
    }

    /// Relies on tokio::sync::broadcast::Sender::subscribe: a new receiver
    /// that will be handed every event published after this call returns,
    /// and none published before.
    #[verifier::external_body]
    pub fn subscribe(&self) -> tokio::sync::broadcast::Receiver<StreamEvent> {
        self.tx.subscribe()
    }

    /// Relies on tokio::sync::broadcast::Sender::receiver_count: how many
    /// receivers are currently live.
    #[verifier::external_body]
    pub fn active_count(&self) -> usize {
        self.tx.receiver_count()
    }
}

/// Store one completed request and fan it out: the recorder assigns the
/// identifier and retains the entry, and a copy of the stored record goes to
/// every live push-stream listener. A publish with no listener is dropped
/// silently.
pub fn record_and_publish(rec: &mut AccessRecorder, hub: &Broadcaster, pending: PendingRecord) -> (r:
    AccessRecord)
    requires
        old(rec).wf(),
        old(rec).spec_total() < u64::MAX,
    ensures
        final(rec).wf(),
        final(rec).spec_total() == old(rec).spec_total() + 1,
        assigned_from(r, pending, old(rec).spec_total()),
        final(rec).log_seq() == seq![r] + old(rec).log_seq().take(
            vstd::math::min(old(rec).log_seq().len() as int, 499),
        ),
{
    let entry = rec.record(pending);
    let copy = entry.duplicate();
    hub.publish(StreamEvent::Access(copy));
    entry
}

/// Open one push-stream session: the greeting it replays first, and a fresh
/// subscription that will be handed every event published after this call.
pub fn open_stream(hub: &Broadcaster) -> (r: (
    StreamEvent,
    tokio::sync::broadcast::Receiver<StreamEvent>,
))
    ensures
        (match r.0 {
            StreamEvent::Connected { message } => message@ == "SSE stream connected"@,
            _ => false,
        }),
{
    let greeting = StreamEvent::Connected { message: "SSE stream connected".to_owned() };
    let rx = hub.subscribe();
    (greeting, rx)
}

/// The events a subscriber receives when it joined after `join` events had
/// already been published: the suffix of the publication history from that
/// point on.
pub open spec fn delivered_after<E>(published: Seq<E>, join: int) -> Seq<E> {
    published.skip(join)
}

/// Law: a subscriber that joins after `join` events were published receives
/// none of those `join` events; it receives every event published strictly
/// after its join, in publication order.
pub proof fn lemma_subscriber_misses_only_earlier<E>(published: Seq<E>, join: int)
    requires
        0 <= join <= published.len(),
    ensures
        delivered_after(published, join).len() == published.len() - join,
        forall|i: int|
            0 <= i < published.len() - join ==> delivered_after(published, join)[i] == published[join
                + i],
{
}

} // verus!
