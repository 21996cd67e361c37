use event_bus::subscribe_event;
use event_bus::EventBus;
use scene_manager::bus::ENGINE_CHANNEL;
use scene_manager::error::TransitionError;
use scene_manager::event::ChangeSceneEvent;
use scene_manager::scene::Scene;
use scene_manager::shared::SharedSceneManager;

#[test]
fn listener_sees_the_scene_and_may_use_the_registry() {
    let _bus = EventBus::new(ENGINE_CHANNEL);
    let shared = SharedSceneManager::new();
    shared.add_scene("menu".to_string(), Scene::new(1));
    shared.add_scene("game".to_string(), Scene::new(2));

    let inside = shared.clone();
    subscribe_event(
        ENGINE_CHANNEL,
        move |event: &mut ChangeSceneEvent| {
            let id = event.scene().id();
            inside.add_scene("seen".to_string(), Scene::new(id));
            if id == 2 {
                event.set_cancelled(true, Some("not the game".to_string()));
            }
        },
        0,
    );
    assert_eq!(shared.render_scene("menu".to_string()), Ok(()));
    assert_eq!(shared.add_scene("seen".to_string(), Scene::new(0)).map(|scene| scene.id()), Some(1));
    assert_eq!(
        shared.render_scene("game".to_string()),
        Err(TransitionError::Cancelled(Some("not the game".to_string())))
    );
    assert_eq!(shared.add_scene("seen".to_string(), Scene::new(0)).map(|scene| scene.id()), Some(2));
}
