use event_bus::subscribe_event;
use event_bus::EventBus;
use scene_manager::bus::ENGINE_CHANNEL;
use scene_manager::error::TransitionError;
use scene_manager::event::ChangeSceneEvent;
use scene_manager::manager::SceneManager;
use scene_manager::scene::Scene;

#[test]
fn last_listener_to_run_decides() {
    let _bus = EventBus::new(ENGINE_CHANNEL);
    let mut manager = SceneManager::new();
    manager.add_scene("menu".to_string(), Scene::new(1));

    subscribe_event(
        ENGINE_CHANNEL,
        |event: &mut ChangeSceneEvent| event.set_cancelled(false, Some("first".to_string())),
        9,
    );
    assert_eq!(manager.render_scene("menu".to_string()), Ok(()));

    subscribe_event(
        ENGINE_CHANNEL,
        |event: &mut ChangeSceneEvent| {
            assert_eq!(event.get_cancelled_reason(), Some("first".to_string()));
            event.set_cancelled(true, Some("second".to_string()))
        },
        5,
    );
    assert_eq!(
        manager.render_scene("menu".to_string()),
        Err(TransitionError::Cancelled(Some("second".to_string())))
    );
}
