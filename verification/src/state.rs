//! Per-window mutable state and how decoded events update it.
//!
//! Events update single fields, last value wins: no event history is kept.
//! The minimized flag is tracked separately and never inferred from a zero
//! size; nothing in this module changes it.

use vstd::prelude::*;

use crate::event::ButtonState;
use crate::event::MouseButton;
use crate::event::WindowEvent;
use crate::geom::Rect2;
use crate::geom::Vector2;

verus! {

/// The client-area width a window is created with.
pub const DEFAULT_WIDTH: u32 = 900;

/// The client-area height a window is created with.
pub const DEFAULT_HEIGHT: u32 = 600;

/// Mouse state as seen by one window: window-local position and the two
/// tracked buttons. Mutated field by field as discrete events arrive, never
/// replaced wholesale.
#[derive(Clone, Copy, Debug, PartialEq, Eq, Structural)]
pub struct Mouse {
    pub pos: Vector2,
    pub left: bool,
    pub right: bool,
}

impl Mouse {
    /// The state before any event arrived: origin, both buttons released.
    pub open spec fn initial_spec() -> Mouse {
        Mouse { pos: Vector2 { x: 0, y: 0 }, left: false, right: false }
    }
}

impl Default for Mouse {
    fn default() -> (m: Mouse)
        ensures
            m == Mouse::initial_spec(),
    {
        Mouse { pos: Vector2 { x: 0, y: 0 }, left: false, right: false }
    }
}

/// Everything the bridge tracks for one live window.
#[derive(Clone, Copy, Debug, PartialEq, Eq, Structural)]
pub struct WindowState {
    pub size: Rect2,
    pub mouse: Mouse,
    pub minimized: bool,
}

impl WindowState {
    /// A fresh window's state: the default client area, the mouse at the
    /// origin with both buttons released, not minimized.
    pub open spec fn initial_spec() -> WindowState {
        WindowState {
            size: Rect2 { width: DEFAULT_WIDTH, height: DEFAULT_HEIGHT },
            mouse: Mouse::initial_spec(),
            minimized: false,
        }
    }

    /// The state a window starts in when it is created.
    pub fn initial() -> (s: WindowState)
        ensures
            s == WindowState::initial_spec(),
    {
        WindowState {
            size: Rect2 { width: DEFAULT_WIDTH, height: DEFAULT_HEIGHT },
            mouse: Mouse::default(),
            minimized: false,
        }
    }

    /// What one event makes of this state: the fields the event names change,
    /// every other field is kept.
    pub open spec fn apply_spec(self, ev: WindowEvent) -> WindowState {
        match ev {
            WindowEvent::MouseMoved { x, y } => (WindowState {
                mouse: Mouse { pos: Vector2 { x, y }, ..self.mouse },
                ..self
            }),
            WindowEvent::ButtonChanged { button: MouseButton::Left, state } => (WindowState {
                mouse: Mouse { left: state == ButtonState::Down, ..self.mouse },
                ..self
            }),
            WindowEvent::ButtonChanged { button: MouseButton::Right, state } => (WindowState {
                mouse: Mouse { right: state == ButtonState::Down, ..self.mouse },
                ..self
            }),
            WindowEvent::Resized { width, height } => (WindowState {
                size: Rect2 { width, height },
                ..self
            }),
        }
    }

    /// Applies one event in place.
    pub fn apply(&mut self, ev: WindowEvent)
        ensures
            *final(self) == old(self).apply_spec(ev),
    {
        match ev {
            WindowEvent::MouseMoved { x, y } => {
                self.mouse.pos.x = x;
                self.mouse.pos.y = y;
            },
            WindowEvent::ButtonChanged { button, state } => {
                let down = match state {
                    ButtonState::Down => true,
                    ButtonState::Up => false,
                };
                match button {
                    MouseButton::Left => self.mouse.left = down,
                    MouseButton::Right => self.mouse.right = down,
                }
            },
            WindowEvent::Resized { width, height } => {
                self.size.width = width;
                self.size.height = height;
            },
        }
    }

    /// The state after a whole sequence of events, applied oldest first.
    pub open spec fn apply_all(self, evs: Seq<WindowEvent>) -> WindowState
        decreases evs.len(),
    {
        if evs.len() == 0 {
            self
        } else {
            self.apply_all(evs.drop_last()).apply_spec(evs.last())
        }
    }

    /// Applies a batch of events in order, oldest first: the drain step of
    /// one message-pump pass.
    pub fn apply_events(&mut self, evs: &Vec<WindowEvent>)
        ensures
            *final(self) == old(self).apply_all(evs@),
    {
        let mut i: usize = 0;
        while i < evs.len()
            invariant
                i <= evs.len(),
                *self == old(self).apply_all(evs@.take(i as int)),
            decreases evs.len() - i,
        {
            proof {
                assert(evs@.take(i as int + 1).drop_last() =~= evs@.take(i as int));
                assert(evs@.take(i as int + 1).last() == evs@[i as int]);
            }
            self.apply(evs[i]);
            i = i + 1;
        }
        proof {
            assert(evs@.take(evs.len() as int) =~= evs@);
        }
    }
}

} // verus!
