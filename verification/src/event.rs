//! Typed window events: the decoded form of one raw OS notification.

use vstd::prelude::*;

verus! {

/// A mouse button whose transitions this bridge tracks.
#[derive(Clone, Copy, Debug, PartialEq, Eq, Structural)]
pub enum MouseButton {
    Left,
    Right,
}

/// Whether a button went up or down.
#[derive(Clone, Copy, Debug, PartialEq, Eq, Structural)]
pub enum ButtonState {
    Up,
    Down,
}

/// One decoded notification. Events are ephemeral: produced by the decoder,
/// applied to a window's state at once, never stored.
#[derive(Clone, Copy, Debug, PartialEq, Eq, Structural)]
pub enum WindowEvent {
    /// The pointer moved to window-local position `(x, y)`.
    MouseMoved { x: u32, y: u32 },
    /// One mouse button changed state.
    ButtonChanged { button: MouseButton, state: ButtonState },
    /// The client area now measures `width` by `height` pixels, as freshly
    /// queried from the OS.
    Resized { width: u32, height: u32 },
}

} // verus!
