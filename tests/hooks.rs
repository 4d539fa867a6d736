use minimal_ui::{
    get_key, is_close_requested, is_key_down, Example, KeyState, StateEvent, Trans, UiScene,
    WindowEvent, ESCAPE,
};

fn key(code: Option<u32>, state: KeyState) -> WindowEvent {
    WindowEvent::KeyboardInput { key: code, state }
}

fn scene_with(items: &[(&str, Option<&str>)]) -> UiScene {
    let mut scene = UiScene::new();
    for (id, text) in items {
        scene.push(id.to_string(), text.map(|t| t.to_string()));
    }
    scene
}

fn texts(scene: &UiScene) -> Vec<Option<String>> {
    scene.elements.iter().map(|e| e.text.clone()).collect()
}

#[test]
fn close_request_quits() {
    let mut state = Example::default();
    let event = StateEvent::Window(WindowEvent::CloseRequested);
    assert_eq!(state.handle_event(&event), Trans::Quit);
}

#[test]
fn escape_down_quits() {
    let mut state = Example::default();
    let event = StateEvent::Window(key(Some(ESCAPE), KeyState::Pressed));
    assert_eq!(state.handle_event(&event), Trans::Quit);
}

#[test]
fn escape_up_continues() {
    let mut state = Example::default();
    let event = StateEvent::Window(key(Some(ESCAPE), KeyState::Released));
    assert_eq!(state.handle_event(&event), Trans::Continue);
}

#[test]
fn other_key_down_continues() {
    let mut state = Example::default();
    for code in [0u32, 10, 35, 37, 100] {
        let event = StateEvent::Window(key(Some(code), KeyState::Pressed));
        assert_eq!(state.handle_event(&event), Trans::Continue);
    }
}

#[test]
fn key_without_code_continues() {
    let mut state = Example::default();
    let event = StateEvent::Window(key(None, KeyState::Pressed));
    assert_eq!(state.handle_event(&event), Trans::Continue);
}

#[test]
fn other_window_event_continues() {
    let mut state = Example::default();
    let event = StateEvent::Window(WindowEvent::Other);
    assert_eq!(state.handle_event(&event), Trans::Continue);
}

#[test]
fn ui_and_input_events_continue() {
    let mut state = Example::default();
    assert_eq!(state.handle_event(&StateEvent::Ui), Trans::Continue);
    assert_eq!(state.handle_event(&StateEvent::Input), Trans::Continue);
}

#[test]
fn escape_code_is_winit_escape() {
    assert_eq!(ESCAPE, 36);
}

#[test]
fn key_helpers() {
    let down = key(Some(5), KeyState::Pressed);
    assert_eq!(get_key(&down), Some((5, KeyState::Pressed)));
    assert_eq!(get_key(&key(None, KeyState::Released)), None);
    assert_eq!(get_key(&WindowEvent::CloseRequested), None);
    assert!(is_key_down(&down, 5));
    assert!(!is_key_down(&down, 6));
    assert!(!is_key_down(&key(Some(5), KeyState::Released), 5));
    assert!(is_close_requested(&WindowEvent::CloseRequested));
    assert!(!is_close_requested(&down));
    assert!(!is_close_requested(&WindowEvent::Other));
}

#[test]
fn start_asks_for_minimal_layout() {
    let mut state = Example::default();
    assert_eq!(state.on_start(), "minimal.ron");
}

#[test]
fn update_sets_label_and_is_idempotent() {
    let mut state = Example::default();
    let mut scene = scene_with(&[("some_text", Some("placeholder"))]);
    assert_eq!(state.update(&mut scene), Trans::Continue);
    assert_eq!(scene.elements[0].text.as_deref(), Some("OH HAI"));
    assert_eq!(state.update(&mut scene), Trans::Continue);
    assert_eq!(scene.elements[0].text.as_deref(), Some("OH HAI"));
    assert_eq!(scene.elements[0].id, "some_text");
}

#[test]
fn update_touches_only_the_label() {
    let mut state = Example::default();
    let mut scene = scene_with(&[
        ("title", Some("hello")),
        ("some_text", Some("")),
        ("footer", None),
    ]);
    state.update(&mut scene);
    assert_eq!(
        texts(&scene),
        vec![Some("hello".to_string()), Some("OH HAI".to_string()), None]
    );
}

#[test]
fn update_without_label_changes_nothing() {
    let mut state = Example::default();
    let mut scene = scene_with(&[("title", Some("hello")), ("some_tex", Some("x"))]);
    assert_eq!(state.update(&mut scene), Trans::Continue);
    assert_eq!(texts(&scene), vec![Some("hello".to_string()), Some("x".to_string())]);

    let mut empty = UiScene::new();
    assert_eq!(state.update(&mut empty), Trans::Continue);
    assert_eq!(empty.len(), 0);
}

#[test]
fn update_label_without_text_changes_nothing() {
    let mut state = Example::default();
    let mut scene = scene_with(&[("some_text", None), ("some_text", Some("second"))]);
    state.update(&mut scene);
    assert_eq!(texts(&scene), vec![None, Some("second".to_string())]);
}

#[test]
fn update_changes_first_of_equal_ids() {
    let mut state = Example::default();
    let mut scene = scene_with(&[("some_text", Some("a")), ("some_text", Some("b"))]);
    state.update(&mut scene);
    assert_eq!(texts(&scene), vec![Some("OH HAI".to_string()), Some("b".to_string())]);
}

#[test]
fn scene_lookup_and_edit() {
    let mut scene = scene_with(&[("a", None), ("b", Some("t")), ("b", None)]);
    assert_eq!(scene.len(), 3);
    assert_eq!(scene.find("b"), Some(1));
    assert_eq!(scene.find("c"), None);
    assert_eq!(scene.text_at(1), Some("t".to_string()));
    assert_eq!(scene.text_at(0), None);
    scene.set_text(0, "new".to_string());
    assert_eq!(scene.text_at(0), Some("new".to_string()));
    assert_eq!(scene.elements[0].id, "a");
}
