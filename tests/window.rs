use intro_cube_wgpu::draw_context::Dimensions;
use intro_cube_wgpu::window::{
    redraw_decision, ButtonState, DeviceAction, DeviceInput, MouseState, RedrawDecision,
    WindowAction, WindowInput,
};

#[test]
fn mouse_starts_idle() {
    let m = MouseState::new();
    assert!(!m.is_cursor_inside);
    assert!(!m.is_mouse_rotation_enabled());
}

#[test]
fn left_button_outside_window_is_ignored() {
    let mut m = MouseState::new();
    assert_eq!(m.left_button_action(ButtonState::Pressed), None);
    assert!(!m.is_mouse_rotation_enabled());
}

#[test]
fn left_button_inside_window_toggles_rotation() {
    let mut m = MouseState::new();
    m.is_cursor_inside = true;
    assert_eq!(m.left_button_action(ButtonState::Pressed), Some(false));
    assert!(m.is_mouse_rotation_enabled());
    assert_eq!(m.left_button_action(ButtonState::Released), Some(true));
    assert!(!m.is_mouse_rotation_enabled());
}

#[test]
fn resize_and_move_stop_rotation() {
    let mut m = MouseState::new();
    m.is_cursor_inside = true;
    m.left_button_action(ButtonState::Pressed);
    m.resize_action();
    assert!(!m.is_mouse_rotation_enabled());
    m.left_button_action(ButtonState::Pressed);
    m.move_action();
    assert!(!m.is_mouse_rotation_enabled());
    assert!(m.is_cursor_inside);
}

#[test]
fn window_events_drive_the_mouse() {
    let mut m = MouseState::new();
    assert_eq!(m.on_window_event(WindowInput::CloseRequested), WindowAction::Exit);
    assert_eq!(
        m.on_window_event(WindowInput::MouseInput { is_left_button: true, state: ButtonState::Pressed }),
        WindowAction::Nothing
    );
    assert_eq!(m.on_window_event(WindowInput::CursorEntered), WindowAction::Nothing);
    assert!(m.is_cursor_inside);
    assert_eq!(
        m.on_window_event(WindowInput::MouseInput { is_left_button: false, state: ButtonState::Pressed }),
        WindowAction::Nothing
    );
    assert!(!m.is_mouse_rotation_enabled());
    assert_eq!(
        m.on_window_event(WindowInput::MouseInput { is_left_button: true, state: ButtonState::Pressed }),
        WindowAction::SetCursorVisible { visible: false }
    );
    assert!(m.is_mouse_rotation_enabled());
    let size = Dimensions { width: 640, height: 480 };
    assert_eq!(m.on_window_event(WindowInput::Resized { size }), WindowAction::Resize { size });
    assert!(!m.is_mouse_rotation_enabled());
    assert_eq!(m.on_window_event(WindowInput::KeyboardInput), WindowAction::ForwardKeyboard);
    assert_eq!(m.on_window_event(WindowInput::RedrawRequested), WindowAction::UpdateAndRender);
    assert_eq!(m.on_window_event(WindowInput::Moved), WindowAction::Nothing);
    assert_eq!(m.on_window_event(WindowInput::CursorLeft), WindowAction::Nothing);
    assert!(!m.is_cursor_inside);
    assert_eq!(m.on_window_event(WindowInput::Other), WindowAction::Nothing);
}

#[test]
fn device_button_zero_acts_as_left_button() {
    let mut m = MouseState::new();
    m.is_cursor_inside = true;
    assert_eq!(
        m.on_device_event(DeviceInput::Button { button: 0, state: ButtonState::Pressed }),
        DeviceAction { cursor_visible: Some(false), forward_to_camera: true }
    );
    assert_eq!(
        m.on_device_event(DeviceInput::Other),
        DeviceAction { cursor_visible: None, forward_to_camera: true }
    );
    assert_eq!(
        m.on_device_event(DeviceInput::Button { button: 1, state: ButtonState::Released }),
        DeviceAction { cursor_visible: None, forward_to_camera: true }
    );
    assert_eq!(
        m.on_device_event(DeviceInput::Button { button: 0, state: ButtonState::Released }),
        DeviceAction { cursor_visible: Some(true), forward_to_camera: false }
    );
}

#[test]
fn redraw_when_period_elapsed() {
    assert_eq!(redraw_decision(16_666_667, 16_666_666), RedrawDecision::RedrawNow);
    assert_eq!(redraw_decision(16_666_666, 16_666_666), RedrawDecision::RedrawNow);
}

#[test]
fn wait_for_rest_of_period() {
    assert_eq!(
        redraw_decision(6_666_666, 16_666_666),
        RedrawDecision::WaitFor { nanos: 10_000_000 }
    );
    assert_eq!(redraw_decision(0, 5), RedrawDecision::WaitFor { nanos: 5 });
}
