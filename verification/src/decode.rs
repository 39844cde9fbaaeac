//! The pure message decoder: from a raw (code, param1, param2) triple to a
//! typed event or a signal for the dispatcher.
//!
//! The codes are the OS-defined message numbers of the window message loop.
//! A size change is not decoded from its own parameters — their encoding
//! varies with minimize/maximize state — so the decoder asks the dispatcher
//! to re-query the client rectangle instead and to build the `Resized` event
//! from that query alone.

use vstd::prelude::*;

use crate::event::ButtonState;
use crate::event::MouseButton;
use crate::event::WindowEvent;
use crate::geom::Rect2;

verus! {

/// The OS message code of the creation notification.
pub const MSG_CREATE: u32 = 0x0001;

/// The OS message code of a size change.
pub const MSG_SIZE: u32 = 0x0005;

/// The OS message code of a pointer move.
pub const MSG_MOUSEMOVE: u32 = 0x0200;

/// The OS message code of the left button going down.
pub const MSG_LBUTTONDOWN: u32 = 0x0201;

/// The OS message code of the left button going up.
pub const MSG_LBUTTONUP: u32 = 0x0202;

/// The OS message code of the right button going down.
pub const MSG_RBUTTONDOWN: u32 = 0x0204;

/// The OS message code of the right button going up.
pub const MSG_RBUTTONUP: u32 = 0x0205;

/// What the decoder made of one raw message.
#[derive(Clone, Copy, Debug, PartialEq, Eq, Structural)]
pub enum Decoded {
    /// A typed event to apply to the target window's state.
    Event(WindowEvent),
    /// The creation notification: the dispatcher must insert a fresh state
    /// for the new window.
    Create,
    /// A size change: the dispatcher must query the window's current client
    /// rectangle from the OS and apply the `Resized` event built from it.
    QuerySize,
    /// Not a message of this bridge: forward it, unmodified, to the OS
    /// default handler.
    NotHandled,
}

/// What [`decode`] returns for every raw triple. A pointer move carries its
/// window-local position in the two low 16-bit halves of `p2`: x in the low
/// half, y in the half above it. Button messages carry nothing. `p1` is
/// consumed by no message this bridge handles.
pub open spec fn decode_spec(code: u32, p1: u64, p2: u64) -> Decoded {
    if code == MSG_CREATE {
        Decoded::Create
    } else if code == MSG_SIZE {
        Decoded::QuerySize
    } else if code == MSG_MOUSEMOVE {
        Decoded::Event(
            WindowEvent::MouseMoved {
                x: (p2 & 0xFFFF) as u32,
                y: ((p2 >> 16) & 0xFFFF) as u32,
            },
        )
    } else if code == MSG_LBUTTONDOWN {
        Decoded::Event(
            WindowEvent::ButtonChanged {
                button: MouseButton::Left,
                state: ButtonState::Down,
            },
        )
    } else if code == MSG_LBUTTONUP {
        Decoded::Event(
            WindowEvent::ButtonChanged { button: MouseButton::Left, state: ButtonState::Up },
        )
    } else if code == MSG_RBUTTONDOWN {
        Decoded::Event(
            WindowEvent::ButtonChanged {
                button: MouseButton::Right,
                state: ButtonState::Down,
            },
        )
    } else if code == MSG_RBUTTONUP {
        Decoded::Event(
            WindowEvent::ButtonChanged { button: MouseButton::Right, state: ButtonState::Up },
        )
    } else {
        Decoded::NotHandled
    }
}

/// Decodes one raw message triple. Pure: the result depends on the three
/// arguments alone.
pub fn decode(code: u32, p1: u64, p2: u64) -> (d: Decoded)
    ensures
        d == decode_spec(code, p1, p2),
{
    if code == MSG_CREATE {
        Decoded::Create
    } else if code == MSG_SIZE {
        Decoded::QuerySize
    } else if code == MSG_MOUSEMOVE {
        Decoded::Event(
            WindowEvent::MouseMoved {
                x: (p2 & 0xFFFF) as u32,
                y: ((p2 >> 16) & 0xFFFF) as u32,
            },
        )
    } else if code == MSG_LBUTTONDOWN {
        Decoded::Event(
            WindowEvent::ButtonChanged {
                button: MouseButton::Left,
                state: ButtonState::Down,
            },
        )
    } else if code == MSG_LBUTTONUP {
        Decoded::Event(
            WindowEvent::ButtonChanged { button: MouseButton::Left, state: ButtonState::Up },
        )
    } else if code == MSG_RBUTTONDOWN {
        Decoded::Event(
            WindowEvent::ButtonChanged {
                button: MouseButton::Right,
                state: ButtonState::Down,
            },
        )
    } else if code == MSG_RBUTTONUP {
        Decoded::Event(
            WindowEvent::ButtonChanged { button: MouseButton::Right, state: ButtonState::Up },
        )
    } else {
        Decoded::NotHandled
    }
}

/// Whether the caller must query the client rectangle before dispatching
/// this message.
pub fn needs_client_rect(code: u32) -> (b: bool)
    ensures
        b == (code == MSG_SIZE),
{
    code == MSG_SIZE
}

/// Builds the `Resized` event from a freshly queried client rectangle — the
/// only way a `Resized` event is made, so its fields always come from such a
/// query and never from the raw size-change parameters.
pub fn make_resized(rect: Rect2) -> (ev: WindowEvent)
    ensures
        ev == (WindowEvent::Resized { width: rect.width, height: rect.height }),
{
    WindowEvent::Resized { width: rect.width, height: rect.height }
}

} // verus!
