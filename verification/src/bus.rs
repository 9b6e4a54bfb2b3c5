use vstd::prelude::*;

use crate::errors::{TurnError, TurnErrorV};
use crate::events::AssistantEvent;

verus! {

/// Fixed capacity of every session channel. A subscriber that falls behind
/// by more than this many events loses the oldest unread ones; the publisher
/// is never blocked.
pub const MAX_EVENTS: usize = 128;

#[verifier::external_type_specification]
#[verifier::external_body]
#[verifier::reject_recursive_types(T)]
pub struct ExSender<T>(tokio::sync::broadcast::Sender<T>);

#[verifier::external_type_specification]
#[verifier::external_body]
#[verifier::reject_recursive_types(T)]
pub struct ExReceiver<T>(tokio::sync::broadcast::Receiver<T>);

/// The registry mapping each session id to its one broadcast channel.
/// Channels are created lazily on first reference and retained for the
/// process lifetime; the registry is safe for concurrent use from many
/// tasks. What a concurrent caller observes depends on every other caller,
/// so the contracts here state only what holds of each returned value.
#[verifier::external_body]
pub struct EventBus {
    map: dashmap::DashMap<String, tokio::sync::broadcast::Sender<AssistantEvent>>,
}

/// Relies on tokio's `broadcast::Sender::subscribe`: a new independent
/// receiver attached to the sender's channel, which observes events
/// published after it attaches.
#[verifier::external_body]
fn subscribe_to(
    tx: &tokio::sync::broadcast::Sender<AssistantEvent>,
) -> tokio::sync::broadcast::Receiver<AssistantEvent> {
    tx.subscribe()
}

/// Relies on tokio's `broadcast::Sender::send`: delivers the event to every
/// receiver attached at this moment, in publish order, never blocking. When
/// no receiver is attached the event is dropped, which is this bus's lag
/// policy, so the send error is discarded.
#[verifier::external_body]
fn send_event(tx: &tokio::sync::broadcast::Sender<AssistantEvent>, event: AssistantEvent) {
    let _ = tx.send(event);
}

impl EventBus {
    /// Relies on dashmap's `DashMap::new`: a registry with no sessions.
    #[verifier::external_body]
    pub fn new() -> EventBus {
        EventBus { map: dashmap::DashMap::new() }
    }

    /// Relies on dashmap's `Entry::or_insert_with` (one atomic
    /// get-or-create: concurrent callers for one unseen id observe exactly
    /// one channel created) and on tokio's `broadcast::channel`, which makes
    /// the channel with its fixed capacity. Returns a handle to the
    /// session's one channel.
    #[verifier::external_body]
    pub fn get_or_create(
        &self,
        session_id: &str,
    ) -> tokio::sync::broadcast::Sender<AssistantEvent> {
        self.map
            .entry(session_id.to_string())
            .or_insert_with(|| tokio::sync::broadcast::channel(MAX_EVENTS).0)
            .clone()
    }

    /// Relies on dashmap's `DashMap::get`: the session's channel handle if
    /// the session has one at this moment, and nothing otherwise.
    #[verifier::external_body]
    fn sender_of(
        &self,
        session_id: &str,
    ) -> Option<tokio::sync::broadcast::Sender<AssistantEvent>> {
        self.map.get(session_id).map(|tx| tx.clone())
    }

    /// A new independent receiver on the session's channel, creating the
    /// channel first if the session has none. Multiple receivers per
    /// session coexist; each observes only events published after it
    /// attaches, up to the channel's lag policy.
    pub fn subscribe(&self, session_id: &str) -> tokio::sync::broadcast::Receiver<AssistantEvent> {
        let tx = self.get_or_create(session_id);
        subscribe_to(&tx)
    }

    /// Publish one event to the session's channel. Fails if and only if no
    /// channel exists for the session: publishing requires a prior
    /// subscribe, or creation by the caller path that owns the session. An
    /// event published with no live subscriber is dropped, not an error.
    pub fn publish(&self, session_id: &str, event: AssistantEvent) -> (r: Result<(), TurnError>)
        ensures
            r matches Err(e) ==> e@ == TurnErrorV::Channel(
                "device_id not found for signal sender"@,
            ),
    {
        match self.sender_of(session_id) {
            Some(tx) => {
                send_event(&tx, event);
                Ok(())
            },
            None => Err(TurnError::Channel("device_id not found for signal sender".to_owned())),
        }
    }
}

} // verus!
