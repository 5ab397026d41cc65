use vstd::prelude::*;

use crate::draw_context::Dimensions;

verus! {

/// State of a mouse button or a key.
#[derive(Clone, Copy, Debug, PartialEq, Eq, Structural)]
pub enum ButtonState {
    Pressed,
    Released,
}

/// What the window knows of the mouse: whether the cursor is over it, and
/// whether dragging with the left button currently rotates the camera.
#[derive(Clone, Copy, Debug, PartialEq, Eq, Structural)]
pub struct MouseState {
    pub is_cursor_inside: bool,
    mouse_rotation_enabled: bool,
}

impl View for MouseState {
    /// Whether the cursor is over the window, and whether rotation is on.
    type V = (bool, bool);

    closed spec fn view(&self) -> (bool, bool) {
        (self.is_cursor_inside, self.mouse_rotation_enabled)
    }
}

impl MouseState {
    pub open spec fn cursor_inside(&self) -> bool {
        self@.0
    }

    pub open spec fn rotation_enabled(&self) -> bool {
        self@.1
    }

    pub fn new() -> (r: Self)
        ensures
            !r.cursor_inside(),
            !r.rotation_enabled(),
    {
        MouseState { is_cursor_inside: false, mouse_rotation_enabled: false }
    }

    /// The left button went down or up. Over the window, pressing starts the
    /// rotation and hides the cursor, releasing stops it and shows the
    /// cursor; elsewhere nothing happens. Returns the cursor visibility to
    /// set, if any.
    pub fn left_button_action(&mut self, action: ButtonState) -> (r: Option<bool>)
        ensures
            final(self).cursor_inside() == old(self).cursor_inside(),
            !old(self).cursor_inside() ==> r is None && final(self).rotation_enabled() == old(self).rotation_enabled(),
            old(self).cursor_inside() ==> r == Some(action == ButtonState::Released)
                && final(self).rotation_enabled() == (action == ButtonState::Pressed),
    {
        if !self.is_cursor_inside {
            return None;
        }
        match action {
            ButtonState::Pressed => {
                self.mouse_rotation_enabled = true;
                Some(false)
            },
            ButtonState::Released => {
                self.mouse_rotation_enabled = false;
                Some(true)
            },
        }
    }

    /// The window was resized: the rotation stops (and the cursor is shown).
    pub fn resize_action(&mut self)
        ensures
            final(self).cursor_inside() == old(self).cursor_inside(),
            !final(self).rotation_enabled(),
    {
        self.mouse_rotation_enabled = false;
    }

    pub fn is_mouse_rotation_enabled(&self) -> (r: bool)
        ensures
            r == self.rotation_enabled(),
    {
        self.mouse_rotation_enabled
    }

    /// The window was moved: the rotation stops.
    pub fn move_action(&mut self)
        ensures
            final(self).cursor_inside() == old(self).cursor_inside(),
            !final(self).rotation_enabled(),
    {
        self.mouse_rotation_enabled = false;
    }
}

/// The window events the application reacts to.
#[derive(Clone, Copy, Debug, PartialEq, Eq, Structural)]
pub enum WindowInput {
    CloseRequested,
    Resized { size: Dimensions },
    KeyboardInput,
    Moved,
    CursorEntered,
    CursorLeft,
    MouseInput { is_left_button: bool, state: ButtonState },
    RedrawRequested,
    Other,
}

/// What the application does in answer to a window event.
#[derive(Clone, Copy, Debug, PartialEq, Eq, Structural)]
pub enum WindowAction {
    /// Leave the event loop.
    Exit,
    /// Show the cursor and resize the surface.
    Resize { size: Dimensions },
    /// Hand the key event to the scenario.
    ForwardKeyboard,
    SetCursorVisible { visible: bool },
    /// Update the scenario and render a frame.
    UpdateAndRender,
    Nothing,
}

/// The window input state machine. `m` is (cursor inside, rotation on);
/// the result is the next such pair and the answer to the event.
pub open spec fn window_step(m: (bool, bool), event: WindowInput) -> ((bool, bool), WindowAction) {
    let (inside, rotating) = m;
    match event {
        WindowInput::CloseRequested => (m, WindowAction::Exit),
        WindowInput::Resized { size } => ((inside, false), WindowAction::Resize { size }),
        WindowInput::KeyboardInput => (m, WindowAction::ForwardKeyboard),
        WindowInput::Moved => ((inside, false), WindowAction::Nothing),
        WindowInput::CursorEntered => ((true, rotating), WindowAction::Nothing),
        WindowInput::CursorLeft => ((false, rotating), WindowAction::Nothing),
        WindowInput::MouseInput { is_left_button, state } => if is_left_button && inside {
            (
                (inside, state == ButtonState::Pressed),
                WindowAction::SetCursorVisible { visible: state == ButtonState::Released },
            )
        } else {
            (m, WindowAction::Nothing)
        },
        WindowInput::RedrawRequested => (m, WindowAction::UpdateAndRender),
        WindowInput::Other => (m, WindowAction::Nothing),
    }
}

/// The device events the application reacts to.
#[derive(Clone, Copy, Debug, PartialEq, Eq, Structural)]
pub enum DeviceInput {
    Button { button: u32, state: ButtonState },
    Other,
}

/// What the application does in answer to a device event.
#[derive(Clone, Copy, Debug, PartialEq, Eq, Structural)]
pub struct DeviceAction {
    /// Cursor visibility to set, if any.
    pub cursor_visible: Option<bool>,
    /// Whether the event goes on to the camera, as mouse rotation is on.
    pub forward_to_camera: bool,
}

impl MouseState {
    pub fn on_window_event(&mut self, event: WindowInput) -> (r: WindowAction)
        ensures
            (final(self)@, r) == window_step(old(self)@, event),
    {
        match event {
            WindowInput::CloseRequested => WindowAction::Exit,
            WindowInput::Resized { size } => {
                self.resize_action();
                WindowAction::Resize { size }
            },
            WindowInput::KeyboardInput => WindowAction::ForwardKeyboard,
            WindowInput::Moved => {
                self.move_action();
                WindowAction::Nothing
            },
            WindowInput::CursorEntered => {
                self.is_cursor_inside = true;
                WindowAction::Nothing
            },
            WindowInput::CursorLeft => {
                self.is_cursor_inside = false;
                WindowAction::Nothing
            },
            WindowInput::MouseInput { is_left_button, state } => {
                if is_left_button {
                    match self.left_button_action(state) {
                        Some(visible) => WindowAction::SetCursorVisible { visible },
                        None => WindowAction::Nothing,
                    }
                } else {
                    WindowAction::Nothing
                }
            },
            WindowInput::RedrawRequested => WindowAction::UpdateAndRender,
            WindowInput::Other => WindowAction::Nothing,
        }
    }

    /// A device event: button 0 acts as the left button; the event then goes
    /// on to the camera when mouse rotation is on.
    pub fn on_device_event(&mut self, event: DeviceInput) -> (r: DeviceAction)
        ensures
            final(self).cursor_inside() == old(self).cursor_inside(),
            match event {
                DeviceInput::Button { button, state } if button == 0 => {
                    &&& r.cursor_visible == if old(self).cursor_inside() {
                        Some(state == ButtonState::Released)
                    } else {
                        None::<bool>
                    }
                    &&& final(self).rotation_enabled() == if old(self).cursor_inside() {
                        state == ButtonState::Pressed
                    } else {
                        old(self).rotation_enabled()
                    }
                },
                _ => r.cursor_visible is None && final(self)@ == old(self)@,
            },
            r.forward_to_camera == final(self).rotation_enabled(),
    {
        let cursor_visible = match event {
            DeviceInput::Button { button, state } => {
                if button == 0 {
                    self.left_button_action(state)
                } else {
                    None
                }
            },
            DeviceInput::Other => None,
        };
        DeviceAction { cursor_visible, forward_to_camera: self.is_mouse_rotation_enabled() }
    }
}

/// Whether to draw now or how long to wait before the next frame is due.
#[derive(Clone, Copy, Debug, PartialEq, Eq, Structural)]
pub enum RedrawDecision {
    RedrawNow,
    WaitFor { nanos: u64 },
}

/// Frame pacing: a frame is due once a whole period has passed since the
/// last one; until then, wait for the rest of the period.
pub fn redraw_decision(since_last_draw_nanos: u64, draw_period_nanos: u64) -> (r: RedrawDecision)
    ensures
        since_last_draw_nanos >= draw_period_nanos ==> r == RedrawDecision::RedrawNow,
        since_last_draw_nanos < draw_period_nanos ==> r == (RedrawDecision::WaitFor {
            nanos: (draw_period_nanos - since_last_draw_nanos) as u64,
        }),
{
    if since_last_draw_nanos >= draw_period_nanos {
        RedrawDecision::RedrawNow
    } else {
        RedrawDecision::WaitFor { nanos: draw_period_nanos - since_last_draw_nanos }
    }
}

} // verus!
