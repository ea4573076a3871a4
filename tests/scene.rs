use node_simulator::scene::{
    CloseEvent, Event, LoadModelEvent, SceneAction, SceneControl, SceneKind, SetTargetFpsEvent,
    ToggleSceneEvent, DEFAULT_TARGET_FPS,
};

#[test]
fn starts_on_the_requested_scene() {
    assert_eq!(SceneKind::Display, SceneControl::new(true).scene);
    assert_eq!(SceneKind::Shim, SceneControl::new(false).scene);
    assert_eq!(DEFAULT_TARGET_FPS, SceneControl::new(false).target_fps);
}

#[test]
fn commands_drive_the_presentation() {
    let mut control = SceneControl::new(false);
    assert_eq!(SceneAction::Continue, control.handle_custom_event(Event::ToggleScene(ToggleSceneEvent {})));
    assert_eq!(SceneKind::Display, control.scene);
    assert_eq!(
        SceneAction::Continue,
        control.handle_custom_event(Event::SetTargetFps(SetTargetFpsEvent { target_fps: 30 }))
    );
    assert_eq!(SceneAction::ShowFps(30), control.handle_custom_event(Event::GetFps));
    assert_eq!(
        SceneAction::LoadModel("cube.obj".to_string()),
        control.handle_custom_event(Event::LoadModel(LoadModelEvent { path: "cube.obj".to_string() }))
    );
    assert_eq!(SceneAction::Close, control.handle_custom_event(Event::Close(CloseEvent {})));
    assert_eq!(SceneKind::Display, control.scene);
    assert_eq!(30, control.target_fps);
}
