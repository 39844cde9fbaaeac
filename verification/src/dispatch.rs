//! The dispatcher step of the window procedure: one raw message in, one
//! registry mutation and one verdict for the OS out.
//!
//! The window procedure itself is stateless; everything it touches lives in
//! the [`Registry`]. A message for a window without a live entry is not an
//! error of the bridge — the OS may deliver before creation completes — so
//! it is forwarded to the default handler. A `BorrowConflict` means the
//! single-threaded delivery assumption is broken, and the caller is told to
//! fail loudly rather than corrupt state silently.

use vstd::prelude::*;

use crate::decode::Decoded;
use crate::decode::decode;
use crate::decode::decode_spec;
use crate::decode::make_resized;
use crate::event::WindowEvent;
use crate::geom::Rect2;
use crate::registry::Registry;
use crate::registry::RegistryError;
use crate::registry::WindowId;
use crate::state::WindowState;

verus! {

/// What the window procedure must return to the OS for one message.
#[derive(Clone, Copy, Debug, PartialEq, Eq, Structural)]
pub enum ProcOutcome {
    /// The message was consumed: report it handled.
    Handled,
    /// Not a message of this bridge, or one for an unknown window: forward
    /// it, unmodified, to the OS default handler and return its result.
    Forward,
    /// A broken invariant (a reentrant write, or a second creation for a
    /// live identifier): the caller must abort instead of going on.
    Fatal,
}

/// What applying one decoded event to the mapping does: forwarded for an
/// unknown window, fatal on an entry that is checked out, otherwise the
/// entry's state is replaced by the event's update.
pub open spec fn apply_event_spec(
    m: Map<WindowId, WindowState>,
    bor: Set<WindowId>,
    id: WindowId,
    ev: WindowEvent,
) -> (Map<WindowId, WindowState>, ProcOutcome) {
    if !m.contains_key(id) {
        (m, ProcOutcome::Forward)
    } else if bor.contains(id) {
        (m, ProcOutcome::Fatal)
    } else {
        (m.insert(id, m[id].apply_spec(ev)), ProcOutcome::Handled)
    }
}

/// What one full dispatcher step does to the mapping, given the raw message
/// and — for a size change — the freshly queried client rectangle. The
/// creation notification inserts a fresh state; a size change with no
/// queried rectangle to hand applies nothing and is forwarded.
pub open spec fn handle_spec(
    m: Map<WindowId, WindowState>,
    bor: Set<WindowId>,
    id: WindowId,
    code: u32,
    p1: u64,
    p2: u64,
    rect: Option<Rect2>,
) -> (Map<WindowId, WindowState>, ProcOutcome) {
    match decode_spec(code, p1, p2) {
        Decoded::Create => if m.contains_key(id) {
            (m, ProcOutcome::Fatal)
        } else {
            (m.insert(id, WindowState::initial_spec()), ProcOutcome::Handled)
        },
        Decoded::Event(ev) => apply_event_spec(m, bor, id, ev),
        Decoded::QuerySize => match rect {
            Some(rc) => apply_event_spec(
                m,
                bor,
                id,
                WindowEvent::Resized { width: rc.width, height: rc.height },
            ),
            None => (m, ProcOutcome::Forward),
        },
        Decoded::NotHandled => (m, ProcOutcome::Forward),
    }
}

/// Applies one decoded event to `id`'s entry under the registry's exclusive
/// access discipline.
pub fn apply_event(reg: &mut Registry, id: WindowId, ev: WindowEvent) -> (out: ProcOutcome)
    ensures
        ({
            let (m2, o) = apply_event_spec(old(reg).states(), old(reg).borrows(), id, ev);
            final(reg).states() == m2 && out == o
        }),
        final(reg).borrows() == old(reg).borrows(),
{
    let f = (|s: WindowState| -> (t: WindowState)
        ensures
            t == s.apply_spec(ev),
        {
            let mut u = s;
            u.apply(ev);
            u
        });
    let res = reg.with_mut(id, f);
    match res {
        Ok(()) => ProcOutcome::Handled,
        Err(RegistryError::NotFound) => ProcOutcome::Forward,
        Err(_) => {
            proof {
                old(reg).lemma_borrowed_is_live(id);
            }
            ProcOutcome::Fatal
        },
    }
}

/// One invocation of the window procedure, after the OS parts are done: the
/// raw message is decoded, the target window's state is resolved and
/// mutated through the registry, and the verdict for the OS comes back.
/// For a size-change message the caller queries the client rectangle first
/// (see [`crate::decode::needs_client_rect`]) and passes it in; the stored
/// size then comes from that query alone, never from the raw parameters.
pub fn handle_message(
    reg: &mut Registry,
    id: WindowId,
    code: u32,
    p1: u64,
    p2: u64,
    rect: Option<Rect2>,
) -> (out: ProcOutcome)
    ensures
        ({
            let (m2, o) = handle_spec(old(reg).states(), old(reg).borrows(), id, code, p1, p2, rect);
            final(reg).states() == m2 && out == o
        }),
        final(reg).borrows() == old(reg).borrows(),
{
    match decode(code, p1, p2) {
        Decoded::Create => match reg.insert(id, WindowState::initial()) {
            Ok(()) => ProcOutcome::Handled,
            Err(_) => ProcOutcome::Fatal,
        },
        Decoded::Event(ev) => apply_event(reg, id, ev),
        Decoded::QuerySize => match rect {
            Some(rc) => apply_event(reg, id, make_resized(rc)),
            None => ProcOutcome::Forward,
        },
        Decoded::NotHandled => ProcOutcome::Forward,
    }
}

} // verus!
