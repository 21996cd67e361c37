//! The way from the registry to the event dispatcher.

use vstd::prelude::*;
use std::sync::Arc;
use crate::error::as_verdict;
use crate::error::Refusal;
use crate::error::TransitionError;
use crate::event::ChangeSceneEvent;

verus! {

/// The channel on which transitions are announced.
pub const ENGINE_CHANNEL: &'static str = "engine";

/// Calls `event_bus::dispatch_event`. The dispatcher runs the listeners that are
/// subscribed to the channel for this kind of event, in the order of their
/// priority, and returns when the last of them has. Which listeners there are is
/// not known here, so nothing is claimed of the event afterwards. A listener
/// that panics makes the call panic, and so does a dispatcher whose own tables
/// were left locked by a panic; one that never returns keeps the call from
/// returning.
#[verifier::external_body]
fn dispatch(channel: &str, event: &mut ChangeSceneEvent) {
    event_bus::dispatch_event(channel, event)
}

/// Calls `Arc::clone`: one more owner of the same value.
#[verifier::external_body]
pub(crate) fn share<T>(owner: &Arc<T>) -> (shared: Arc<T>)
    ensures
        shared == *owner,
{
    Arc::clone(owner)
}

/// Announces the event on the engine's channel and reports how the transition
/// ends. The listeners decide that. Whatever they did to the event, the result
/// is what `ChangeSceneEvent::outcome` makes of the event they left behind, so
/// it is never `ProgrammingError`.
pub fn announce(event: ChangeSceneEvent) -> (result: Result<(), TransitionError>)
    ensures
        as_verdict(result) != Err::<(), Refusal>(Refusal::ProgrammingError),
{
    let mut event = event;
    dispatch(ENGINE_CHANNEL, &mut event);
    event.outcome()
}

} // verus!
