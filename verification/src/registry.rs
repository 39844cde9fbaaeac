//! The window registry: the one shared mutable resource of the bridge.
//!
//! It owns the mapping from window identifier to [`WindowState`] and
//! arbitrates access to it: writers check an entry out, mutate a copy, and
//! check it back in (`with_mut_begin` / `with_mut_end`, or the one-shot
//! [`Registry::with_mut`]); readers always take independent copies, so no
//! reader can observe a half-applied update. Message delivery is
//! single-threaded, so the checked-out flag is not a lock — it exists to
//! catch reentrant writes to the same entry, which the delivery model rules
//! out, and to surface such a violation as [`RegistryError::BorrowConflict`]
//! instead of corrupting state silently.

use std::collections::HashMap;

use vstd::prelude::*;

use crate::state::WindowState;

verus! {

broadcast use vstd::std_specs::hash::group_hash_axioms;

/// An opaque, OS-assigned window identifier: stable for the lifetime of one
/// window and unique among the currently live ones.
pub type WindowId = u64;

/// Why a registry operation could not run.
#[derive(Clone, Copy, Debug, PartialEq, Eq, Structural)]
pub enum RegistryError {
    /// The identifier has no live entry.
    NotFound,
    /// The identifier already has a live entry, so a second one cannot be
    /// inserted. A window is created once, so this is a programming error.
    AlreadyPresent,
    /// The entry is already checked out for mutation. Single-threaded
    /// delivery makes this impossible unless a callback reentered the bridge
    /// for the same window; callers treat it as fatal.
    BorrowConflict,
}

struct Entry {
    state: WindowState,
    borrowed: bool,
}

/// The mapping from window identifier to per-window state, plus the
/// checked-out flags that serialize mutation per entry.
pub struct Registry {
    entries: HashMap<WindowId, Entry>,
}

/// What a snapshot read returns on a given mapping: the entry's current
/// state, or `NotFound` for an identifier without a live entry.
pub open spec fn read_spec(m: Map<WindowId, WindowState>, id: WindowId) -> Result<
    WindowState,
    RegistryError,
> {
    if m.contains_key(id) {
        Ok(m[id])
    } else {
        Err(RegistryError::NotFound)
    }
}

/// What checking an entry out does: on a live, not-yet-borrowed entry it
/// hands out a copy of the state and marks the entry borrowed; otherwise it
/// reports why and changes nothing.
pub open spec fn begin_spec(
    m: Map<WindowId, WindowState>,
    bor: Set<WindowId>,
    id: WindowId,
) -> (Result<WindowState, RegistryError>, Set<WindowId>) {
    if !m.contains_key(id) {
        (Err(RegistryError::NotFound), bor)
    } else if bor.contains(id) {
        (Err(RegistryError::BorrowConflict), bor)
    } else {
        (Ok(m[id]), bor.insert(id))
    }
}

/// What checking an entry back in does: the written-back state replaces the
/// old one and the entry is no longer borrowed.
pub open spec fn end_spec(
    m: Map<WindowId, WindowState>,
    bor: Set<WindowId>,
    id: WindowId,
    st: WindowState,
) -> (Map<WindowId, WindowState>, Set<WindowId>) {
    (m.insert(id, st), bor.remove(id))
}

impl Registry {
    /// The mapping this registry holds: each live window identifier to its
    /// current state.
    pub closed spec fn states(self) -> Map<WindowId, WindowState> {
        self.entries@.map_values(|e: Entry| e.state)
    }

    /// The identifiers whose entries are currently checked out for
    /// exclusive mutation.
    pub closed spec fn borrows(self) -> Set<WindowId> {
        self.entries@.dom().filter(|id: WindowId| self.entries@[id].borrowed)
    }

    /// Whether `id` has a live entry.
    pub open spec fn contains(self, id: WindowId) -> bool {
        self.states().contains_key(id)
    }

    /// Whether `id`'s entry is checked out.
    pub open spec fn is_borrowed(self, id: WindowId) -> bool {
        self.borrows().contains(id)
    }

    /// An entry can be checked out only if it is live: every borrowed
    /// identifier has an entry in the mapping.
    pub proof fn lemma_borrowed_is_live(self, id: WindowId)
        ensures
            self.is_borrowed(id) ==> self.contains(id),
    {
        if self.is_borrowed(id) {
            assert(self.entries@.dom().contains(id));
            assert(self.states().contains_key(id));
        }
    }

    /// An empty registry: no live entries, nothing checked out.
    pub fn new() -> (r: Registry)
        ensures
            r.states() == Map::<WindowId, WindowState>::empty(),
            r.borrows() == Set::<WindowId>::empty(),
    {
        let r = Registry { entries: HashMap::new() };
        proof {
            assert(r.states() =~= Map::<WindowId, WindowState>::empty());
            assert(r.borrows() =~= Set::<WindowId>::empty());
        }
        r
    }

    /// Creates the entry for a newly created window. Fails with
    /// `AlreadyPresent` — and changes nothing — if `id` already has a live
    /// entry.
    pub fn insert(&mut self, id: WindowId, st: WindowState) -> (r: Result<(), RegistryError>)
        ensures
            match r {
                Ok(()) => {
                    &&& !old(self).contains(id)
                    &&& final(self).states() == old(self).states().insert(id, st)
                    &&& final(self).borrows() == old(self).borrows()
                },
                Err(e) => {
                    &&& e == RegistryError::AlreadyPresent
                    &&& old(self).contains(id)
                    &&& *final(self) == *old(self)
                },
            },
    {
        if self.entries.contains_key(&id) {
            proof {
                assert(old(self).contains(id));
            }
            Err(RegistryError::AlreadyPresent)
        } else {
            self.entries.insert(id, Entry { state: st, borrowed: false });
            proof {
                assert(self.states() =~= old(self).states().insert(id, st));
                assert(self.borrows() =~= old(self).borrows());
            }
            Ok(())
        }
    }

    /// Returns a copy of `id`'s current state: a snapshot, independent of
    /// any mutation that follows.
    pub fn read(&self, id: WindowId) -> (r: Result<WindowState, RegistryError>)
        ensures
            r == read_spec(self.states(), id),
    {
        match self.entries.get(&id) {
            Some(e) => Ok(e.state),
            None => Err(RegistryError::NotFound),
        }
    }

    /// Deletes `id`'s entry, as on a window-destroy notification. Fails on
    /// an unknown identifier, or on one whose entry is still checked out.
    pub fn remove(&mut self, id: WindowId) -> (r: Result<(), RegistryError>)
        ensures
            match r {
                Ok(()) => {
                    &&& old(self).contains(id)
                    &&& !old(self).is_borrowed(id)
                    &&& final(self).states() == old(self).states().remove(id)
                    &&& final(self).borrows() == old(self).borrows()
                },
                Err(e) => {
                    &&& *final(self) == *old(self)
                    &&& ((e == RegistryError::NotFound && !old(self).contains(id)) || (e
                        == RegistryError::BorrowConflict && old(self).is_borrowed(id)))
                },
            },
    {
        let found: Option<bool> = match self.entries.get(&id) {
            Some(e) => Some(e.borrowed),
            None => None,
        };
        match found {
            None => Err(RegistryError::NotFound),
            Some(true) => Err(RegistryError::BorrowConflict),
            Some(false) => {
                self.entries.remove(&id);
                proof {
                    assert(self.states() =~= old(self).states().remove(id));
                    assert(self.borrows() =~= old(self).borrows());
                }
                Ok(())
            },
        }
    }

    /// Checks `id`'s entry out for exclusive mutation and returns a copy of
    /// its state. The caller must check the entry back in with
    /// [`Registry::with_mut_end`].
    pub fn with_mut_begin(&mut self, id: WindowId) -> (r: Result<WindowState, RegistryError>)
        ensures
            final(self).states() == old(self).states(),
            r == begin_spec(old(self).states(), old(self).borrows(), id).0,
            final(self).borrows() == begin_spec(old(self).states(), old(self).borrows(), id).1,
    {
        let found: Option<(WindowState, bool)> = match self.entries.get(&id) {
            Some(e) => Some((e.state, e.borrowed)),
            None => None,
        };
        match found {
            None => Err(RegistryError::NotFound),
            Some((_, true)) => Err(RegistryError::BorrowConflict),
            Some((st, false)) => {
                self.entries.insert(id, Entry { state: st, borrowed: true });
                proof {
                    assert(self.states() =~= old(self).states());
                    assert(self.borrows() =~= old(self).borrows().insert(id));
                }
                Ok(st)
            },
        }
    }

    /// Checks `id`'s entry back in: the written-back state replaces the old
    /// one and the entry is open for the next writer.
    pub fn with_mut_end(&mut self, id: WindowId, st: WindowState)
        requires
            old(self).is_borrowed(id),
        ensures
            final(self).states() == end_spec(old(self).states(), old(self).borrows(), id, st).0,
            final(self).borrows() == end_spec(old(self).states(), old(self).borrows(), id, st).1,
    {
        self.entries.insert(id, Entry { state: st, borrowed: false });
        proof {
            assert(self.states() =~= old(self).states().insert(id, st));
            assert(self.borrows() =~= old(self).borrows().remove(id));
        }
    }

    /// Runs `f` with exclusive access to `id`'s state — the only way the
    /// dispatcher mutates it. On a live, not-yet-borrowed entry the state is
    /// replaced by `f`'s result; otherwise nothing changes and the error
    /// says why.
    pub fn with_mut<F: FnOnce(WindowState) -> WindowState>(&mut self, id: WindowId, f: F) -> (r:
        Result<(), RegistryError>)
        requires
            old(self).contains(id) && !old(self).is_borrowed(id) ==> call_requires(
                f,
                (old(self).states()[id],),
            ),
        ensures
            final(self).borrows() == old(self).borrows(),
            match r {
                Ok(()) => {
                    &&& old(self).contains(id)
                    &&& !old(self).is_borrowed(id)
                    &&& exists|s2: WindowState|
                        {
                            &&& #[trigger] call_ensures(f, (old(self).states()[id],), s2)
                            &&& final(self).states() == old(self).states().insert(id, s2)
                        }
                },
                Err(e) => {
                    &&& final(self).states() == old(self).states()
                    &&& ((e == RegistryError::NotFound && !old(self).contains(id)) || (e
                        == RegistryError::BorrowConflict && old(self).is_borrowed(id)))
                },
            },
    {
        match self.with_mut_begin(id) {
            Ok(st) => {
                let st2 = f(st);
                self.with_mut_end(id, st2);
                proof {
                    assert(self.borrows() =~= old(self).borrows());
                }
                Ok(())
            },
            Err(e) => Err(e),
        }
    }
}

} // verus!
