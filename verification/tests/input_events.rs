use open_gl_rs::input::{
    handle_window_input, map_glfw_key, CursorMode, ImGuiKey, InputResponse, InputState,
    WindowInput, KEY_ESCAPE, KEY_SPACE,
};

#[test]
fn glfw_keys_map_to_gui_keys() {
    assert_eq!(map_glfw_key(258), Some(ImGuiKey::Tab));
    assert_eq!(map_glfw_key(263), Some(ImGuiKey::LeftArrow));
    assert_eq!(map_glfw_key(32), Some(ImGuiKey::Space));
    assert_eq!(map_glfw_key(48), Some(ImGuiKey::Alpha0));
    assert_eq!(map_glfw_key(65), Some(ImGuiKey::A));
    assert_eq!(map_glfw_key(90), Some(ImGuiKey::Z));
    assert_eq!(map_glfw_key(301), Some(ImGuiKey::F12));
    assert_eq!(map_glfw_key(336), Some(ImGuiKey::KeypadEqual));
    assert_eq!(map_glfw_key(341), Some(ImGuiKey::LeftCtrl));
    assert_eq!(map_glfw_key(348), Some(ImGuiKey::Menu));
    // F13 and the world keys have no GUI key; neither has an unknown key
    assert_eq!(map_glfw_key(302), None);
    assert_eq!(map_glfw_key(161), None);
    assert_eq!(map_glfw_key(-1), None);
}

#[test]
fn distinct_glfw_keys_give_distinct_gui_keys() {
    let mut seen = Vec::new();
    for code in -1..400 {
        if let Some(k) = map_glfw_key(code) {
            assert!(!seen.contains(&k));
            seen.push(k);
        }
    }
    assert_eq!(seen.len(), 105);
}

#[test]
fn space_toggles_the_gui_mode() {
    let mut state = InputState { ui_mode: false, first_mouse: true };
    let r = handle_window_input(&mut state, WindowInput::KeyPress(KEY_SPACE));
    assert_eq!(r, InputResponse { cursor: Some(CursorMode::Normal), close: false, to_ui: true });
    assert_eq!(state, InputState { ui_mode: true, first_mouse: true });
    let r = handle_window_input(&mut state, WindowInput::KeyPress(KEY_SPACE));
    assert_eq!(r, InputResponse { cursor: Some(CursorMode::Disabled), close: false, to_ui: false });
    assert_eq!(state, InputState { ui_mode: false, first_mouse: false });
}

#[test]
fn escape_closes_and_gui_mode_forwards_events() {
    let mut state = InputState { ui_mode: true, first_mouse: false };
    let r = handle_window_input(&mut state, WindowInput::KeyPress(KEY_ESCAPE));
    assert_eq!(r, InputResponse { cursor: None, close: true, to_ui: true });
    let r = handle_window_input(&mut state, WindowInput::Other);
    assert_eq!(r, InputResponse { cursor: None, close: false, to_ui: true });
    let r = handle_window_input(&mut state, WindowInput::KeyPress(65));
    assert_eq!(r, InputResponse { cursor: None, close: false, to_ui: true });
    let mut camera_mode = InputState { ui_mode: false, first_mouse: false };
    let r = handle_window_input(&mut camera_mode, WindowInput::KeyPress(65));
    assert_eq!(r, InputResponse { cursor: None, close: false, to_ui: false });
    assert_eq!(camera_mode, InputState { ui_mode: false, first_mouse: false });
}
