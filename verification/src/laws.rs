//! Properties of the bridge that hold of every event sequence and every
//! registry history, proved once and for all.

use vstd::prelude::*;

use crate::decode::MSG_SIZE;
use crate::dispatch::ProcOutcome;
use crate::dispatch::handle_spec;
use crate::event::ButtonState;
use crate::event::MouseButton;
use crate::event::WindowEvent;
use crate::geom::Rect2;
use crate::geom::Vector2;
use crate::registry::RegistryError;
use crate::registry::WindowId;
use crate::registry::begin_spec;
use crate::registry::end_spec;
use crate::registry::read_spec;
use crate::state::WindowState;

verus! {

/// The window-local position carried by the last pointer move in `evs`, if
/// any move occurred at all.
pub open spec fn last_move(evs: Seq<WindowEvent>) -> Option<Vector2>
    decreases evs.len(),
{
    if evs.len() == 0 {
        None
    } else {
        match evs.last() {
            WindowEvent::MouseMoved { x, y } => Some(Vector2 { x, y }),
            _ => last_move(evs.drop_last()),
        }
    }
}

/// The state carried by the last change of button `b` in `evs`, if any.
/// Changes of the other button are passed over, so the result depends on
/// `b`'s own events alone.
pub open spec fn last_button(evs: Seq<WindowEvent>, b: MouseButton) -> Option<ButtonState>
    decreases evs.len(),
{
    if evs.len() == 0 {
        None
    } else {
        match evs.last() {
            WindowEvent::ButtonChanged { button, state } => if button == b {
                Some(state)
            } else {
                last_button(evs.drop_last(), b)
            },
            _ => last_button(evs.drop_last(), b),
        }
    }
}

/// The flag a state holds for button `b`.
pub open spec fn button_flag(st: WindowState, b: MouseButton) -> bool {
    match b {
        MouseButton::Left => st.mouse.left,
        MouseButton::Right => st.mouse.right,
    }
}

/// The last pointer move wins: after any sequence of events, the mouse
/// position is the position carried by the last `MouseMoved` among them, or
/// the starting position if none occurred.
pub proof fn lemma_mouse_position_last_wins(st: WindowState, evs: Seq<WindowEvent>)
    ensures
        st.apply_all(evs).mouse.pos == (match last_move(evs) {
            Some(p) => p,
            None => st.mouse.pos,
        }),
    decreases evs.len(),
{
    if evs.len() > 0 {
        lemma_mouse_position_last_wins(st, evs.drop_last());
    }
}

/// On a fresh window state the starting position is the origin: the mouse
/// position after any event sequence is the last move's position, or (0,0)
/// if no move occurred.
pub proof fn lemma_fresh_mouse_position(evs: Seq<WindowEvent>)
    ensures
        WindowState::initial_spec().apply_all(evs).mouse.pos == (match last_move(evs) {
            Some(p) => p,
            None => Vector2 { x: 0, y: 0 },
        }),
{
    lemma_mouse_position_last_wins(WindowState::initial_spec(), evs);
}

/// Each button flag reflects only the most recent event of that same
/// button: whatever the interleaving, events of the other button never
/// touch it, and with no event of `b` at all the starting flag is kept.
pub proof fn lemma_button_flag_last_wins(st: WindowState, evs: Seq<WindowEvent>, b: MouseButton)
    ensures
        button_flag(st.apply_all(evs), b) == (match last_button(evs, b) {
            Some(s) => s == ButtonState::Down,
            None => button_flag(st, b),
        }),
    decreases evs.len(),
{
    if evs.len() > 0 {
        lemma_button_flag_last_wins(st, evs.drop_last(), b);
    }
}

/// On a fresh window state both starting flags are clear: after any
/// interleaving of button events, each flag is down exactly when the most
/// recent event of that same button was a press.
pub proof fn lemma_fresh_button_flags(evs: Seq<WindowEvent>, b: MouseButton)
    ensures
        button_flag(WindowState::initial_spec().apply_all(evs), b) == (match last_button(evs, b) {
            Some(s) => s == ButtonState::Down,
            None => false,
        }),
{
    lemma_button_flag_last_wins(WindowState::initial_spec(), evs, b);
}

/// Inserting an entry and reading the same identifier right after returns
/// the just-inserted state unchanged.
pub proof fn lemma_insert_then_read(m: Map<WindowId, WindowState>, id: WindowId, st: WindowState)
    ensures
        read_spec(m.insert(id, st), id) == Ok::<WindowState, RegistryError>(st),
{
}

/// Reading an identifier that was never inserted reports `NotFound`.
pub proof fn lemma_read_absent(m: Map<WindowId, WindowState>, id: WindowId)
    requires
        !m.contains_key(id),
    ensures
        read_spec(m, id) == Err::<WindowState, RegistryError>(RegistryError::NotFound),
{
}

/// Exclusive access is reentrancy-checked. Two checkouts of the same live
/// identifier, the first checked back in before the second begins, both
/// succeed — and the second sees what the first wrote back. A checkout
/// begun while another on the same identifier is still open reports
/// `BorrowConflict`.
pub proof fn lemma_with_mut_reentrancy(
    m: Map<WindowId, WindowState>,
    bor: Set<WindowId>,
    id: WindowId,
    st1: WindowState,
)
    requires
        m.contains_key(id),
        !bor.contains(id),
    ensures
        ({
            let (r1, bor1) = begin_spec(m, bor, id);
            let (m1, bor2) = end_spec(m, bor1, id, st1);
            let (r2, _) = begin_spec(m1, bor2, id);
            let (rn, _) = begin_spec(m, bor1, id);
            &&& r1 == Ok::<WindowState, RegistryError>(m[id])
            &&& r2 == Ok::<WindowState, RegistryError>(st1)
            &&& rn == Err::<WindowState, RegistryError>(RegistryError::BorrowConflict)
        }),
{
}

/// A size-change message stores exactly the freshly queried client
/// rectangle — zero area included — and reports the message handled.
pub proof fn lemma_resized_carries_queried_rect(
    m: Map<WindowId, WindowState>,
    bor: Set<WindowId>,
    id: WindowId,
    p1: u64,
    p2: u64,
    rect: Rect2,
)
    requires
        m.contains_key(id),
        !bor.contains(id),
    ensures
        ({
            let (m2, o) = handle_spec(m, bor, id, MSG_SIZE, p1, p2, Some(rect));
            &&& m2[id].size == rect
            &&& m2 == m.insert(id, (WindowState { size: rect, ..m[id] }))
            &&& o == ProcOutcome::Handled
        }),
{
}

/// The raw parameters of a size-change message play no part in what is
/// stored or reported: only the queried rectangle does.
pub proof fn lemma_resize_ignores_raw_params(
    m: Map<WindowId, WindowState>,
    bor: Set<WindowId>,
    id: WindowId,
    p1a: u64,
    p2a: u64,
    p1b: u64,
    p2b: u64,
    rect: Option<Rect2>,
)
    ensures
        handle_spec(m, bor, id, MSG_SIZE, p1a, p2a, rect) == handle_spec(
            m,
            bor,
            id,
            MSG_SIZE,
            p1b,
            p2b,
            rect,
        ),
{
}

} // verus!
