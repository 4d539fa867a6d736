use vstd::prelude::*;

verus! {

/// The code of the Escape key: winit's `VirtualKeyCode::Escape` as `u32`.
pub const ESCAPE: u32 = 36;

/// Whether a key went down or came up.
#[derive(Clone, Copy, Debug, PartialEq, Eq, Structural)]
pub enum KeyState {
    Pressed,
    Released,
}

/// What the state reads of an event that the window sent.
#[derive(Clone, Copy, Debug, PartialEq, Eq, Structural)]
pub enum WindowEvent {
    /// The user asked to close the window.
    CloseRequested,
    /// A key changed state; `key` is absent when the platform gave no
    /// virtual key code for it.
    KeyboardInput { key: Option<u32>, state: KeyState },
    /// Any other window or device event.
    Other,
}

/// An event handed to the running state.
#[derive(Clone, Copy, Debug, PartialEq, Eq, Structural)]
pub enum StateEvent {
    /// An event of the window.
    Window(WindowEvent),
    /// An interaction with a UI element.
    Ui,
    /// An event of the input system.
    Input,
}

/// What the engine is to do after a hook returns.
#[derive(Clone, Copy, Debug, PartialEq, Eq, Structural)]
pub enum Trans {
    /// Keep running, with no change of state.
    Continue,
    /// Leave the application.
    Quit,
}

/// The key and its new state, where the event is a keyboard event with a key code.
pub open spec fn key_of(e: WindowEvent) -> Option<(u32, KeyState)> {
    match e {
        WindowEvent::KeyboardInput { key: Some(k), state } => Some((k, state)),
        _ => None,
    }
}

/// The event asks to close the window.
pub open spec fn close_requested(e: WindowEvent) -> bool {
    e is CloseRequested
}

/// The event is the key `k` going down.
pub open spec fn key_down(e: WindowEvent, k: u32) -> bool {
    key_of(e) == Some((k, KeyState::Pressed))
}

/// The key and its new state, if this is a keyboard event that carries a key code.
pub fn get_key(event: &WindowEvent) -> (r: Option<(u32, KeyState)>)
    ensures
        r == key_of(*event),
{
    match event {
        WindowEvent::KeyboardInput { key: Some(k), state } => Some((*k, *state)),
        _ => None,
    }
}

/// Whether the event is a request to close the window.
pub fn is_close_requested(event: &WindowEvent) -> (r: bool)
    ensures
        r == close_requested(*event),
{
    match event {
        WindowEvent::CloseRequested => true,
        _ => false,
    }
}

/// Whether the event is the key `key_code` being pressed.
pub fn is_key_down(event: &WindowEvent, key_code: u32) -> (r: bool)
    ensures
        r == key_down(*event, key_code),
{
    match get_key(event) {
        Some((key, state)) => key == key_code && state == KeyState::Pressed,
        None => false,
    }
}

} // verus!
