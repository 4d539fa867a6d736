//! The state of a small UI demo: it asks for a UI layout when it starts,
//! quits on a close request or on the Escape key, and rewrites the text of
//! one named label on every frame.
//!
//! The engine's own values (window events, the UI world) are modelled here as
//! plain values; the hooks decide over those models.

pub mod event;
pub mod ui;
pub mod state;

pub use event::{
    get_key, is_close_requested, is_key_down, KeyState, StateEvent, Trans, WindowEvent, ESCAPE,
};
pub use ui::{ElementView, UiElement, UiScene};
pub use state::Example;
