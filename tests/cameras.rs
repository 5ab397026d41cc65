use intro_cube_wgpu::cameras::{Axis, CameraStep, MoveKey, MovementKeys};
use intro_cube_wgpu::window::ButtonState;

#[test]
fn no_keys_no_steps() {
    let keys = MovementKeys::new();
    assert!(keys.is_empty());
    assert!(keys.pending_steps().is_empty());
}

#[test]
fn held_keys_step_in_key_order() {
    let mut keys = MovementKeys::new();
    keys.key_event(MoveKey::ArrowUp, ButtonState::Pressed);
    keys.key_event(MoveKey::PageDown, ButtonState::Pressed);
    keys.key_event(MoveKey::ArrowLeft, ButtonState::Pressed);
    assert!(!keys.is_empty());
    assert_eq!(
        keys.pending_steps(),
        vec![
            CameraStep { axis: Axis::Y, positive: false },
            CameraStep { axis: Axis::X, positive: false },
            CameraStep { axis: Axis::Z, positive: true },
        ]
    );
}

#[test]
fn released_key_stops_stepping() {
    let mut keys = MovementKeys::new();
    keys.key_event(MoveKey::ArrowRight, ButtonState::Pressed);
    keys.key_event(MoveKey::ArrowRight, ButtonState::Pressed);
    assert_eq!(keys.pending_steps(), vec![CameraStep { axis: Axis::X, positive: true }]);
    keys.key_event(MoveKey::ArrowRight, ButtonState::Released);
    assert!(keys.is_empty());
    assert!(keys.pending_steps().is_empty());
}

#[test]
fn every_key_has_its_step() {
    let mut keys = MovementKeys::new();
    for k in [
        MoveKey::PageDown,
        MoveKey::PageUp,
        MoveKey::ArrowDown,
        MoveKey::ArrowLeft,
        MoveKey::ArrowRight,
        MoveKey::ArrowUp,
    ] {
        keys.key_event(k, ButtonState::Pressed);
    }
    assert_eq!(
        keys.pending_steps(),
        vec![
            CameraStep { axis: Axis::Y, positive: false },
            CameraStep { axis: Axis::Y, positive: true },
            CameraStep { axis: Axis::Z, positive: false },
            CameraStep { axis: Axis::X, positive: false },
            CameraStep { axis: Axis::X, positive: true },
            CameraStep { axis: Axis::Z, positive: true },
        ]
    );
}
