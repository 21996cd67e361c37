use event_bus::Event;
use scene_manager::error::TransitionError;
use scene_manager::event::ChangeSceneEvent;
use scene_manager::scene::Scene;
use std::sync::Arc;

fn event_for(id: u64) -> ChangeSceneEvent {
    ChangeSceneEvent::new(Arc::new(Scene::new(id)))
}

#[test]
fn new_event_is_not_cancelled() {
    let event = event_for(5);
    assert_eq!(event.scene().id(), 5);
    assert!(!event.cancelled());
    assert_eq!(event.get_cancelled_reason(), None);
}

#[test]
fn event_is_always_cancellable() {
    let mut event = event_for(1);
    assert!(event.cancellable());
    event.set_cancelled(true, Some("blocked".to_string()));
    assert!(event.cancellable());
    event.set_cancelled(false, None);
    assert!(event.cancellable());
}

#[test]
fn set_cancelled_overwrites_both_fields() {
    let mut event = event_for(1);
    event.set_cancelled(true, Some("blocked".to_string()));
    assert!(event.cancelled());
    assert_eq!(event.get_cancelled_reason(), Some("blocked".to_string()));
    event.set_cancelled(true, None);
    assert!(event.cancelled());
    assert_eq!(event.get_cancelled_reason(), None);
    event.set_cancelled(false, None);
    assert!(!event.cancelled());
    assert_eq!(event.get_cancelled_reason(), None);
}

#[test]
fn set_cancelled_does_not_pair_flag_and_reason() {
    let mut event = event_for(1);
    event.set_cancelled(false, Some("kept".to_string()));
    assert!(!event.cancelled());
    assert_eq!(event.get_cancelled_reason(), Some("kept".to_string()));
    assert_eq!(event.outcome(), Ok(()));
}

#[test]
fn set_cancelled_keeps_the_scene() {
    let mut event = event_for(42);
    event.set_cancelled(true, Some("blocked".to_string()));
    event.set_cancelled(false, None);
    assert_eq!(event.scene().id(), 42);
}

#[test]
fn last_write_wins() {
    let mut event = event_for(1);
    event.set_cancelled(true, Some("first".to_string()));
    event.set_cancelled(false, None);
    assert_eq!(event.outcome(), Ok(()));
    event.set_cancelled(false, None);
    event.set_cancelled(true, Some("second".to_string()));
    assert_eq!(event.outcome(), Err(TransitionError::Cancelled(Some("second".to_string()))));
    event.set_cancelled(true, Some("third".to_string()));
    assert_eq!(event.outcome(), Err(TransitionError::Cancelled(Some("third".to_string()))));
}

#[test]
fn outcome_of_each_state() {
    let mut event = event_for(1);
    assert_eq!(event.outcome(), Ok(()));
    event.set_cancelled(true, None);
    assert_eq!(event.outcome(), Err(TransitionError::Cancelled(None)));
    event.set_cancelled(true, Some("R".to_string()));
    assert_eq!(event.outcome(), Err(TransitionError::Cancelled(Some("R".to_string()))));
    event.set_cancelled(false, Some("R".to_string()));
    assert_eq!(event.outcome(), Ok(()));
}

#[test]
fn dispatcher_sees_the_same_event() {
    let mut event = event_for(1);
    assert!(Event::cancellable(&event));
    assert!(!Event::cancelled(&event));
    event.set_cancelled(true, Some("blocked".to_string()));
    assert!(Event::cancelled(&event));
    Event::set_cancelled(&mut event, false);
    assert!(!event.cancelled());
    assert_eq!(event.get_cancelled_reason(), None);
    Event::cancel(&mut event);
    assert!(event.cancelled());
    assert_eq!(event.get_cancelled_reason(), None);
    assert_eq!(event.outcome(), Err(TransitionError::Cancelled(None)));
}
