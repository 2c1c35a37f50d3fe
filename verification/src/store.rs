//! Keyed persistent storage for selection state, scoped per viewport.
//!
//! The surrounding toolkit keeps one [`crate::selection::LabelSelectionState`]
//! per UI-root viewport across passes. The discipline of one load at pass
//! start and one store at pass end is made literal here: `load` takes the
//! state out of the store (or hands out a fresh default), and `store` puts
//! it back, replacing whatever the key held.

use vstd::prelude::*;
use vstd::pervasive::VecAdditionalExecFns;

use crate::selection::{LabelSelectionState, spec_default_state};

verus! {

/// Per-viewport selection states, keyed by viewport identity.
pub struct StateStore {
    pub entries: Vec<(u64, LabelSelectionState)>,
}

/// No key occurs twice.
pub open spec fn spec_store_wf(s: Seq<(u64, LabelSelectionState)>) -> bool {
    forall|i: int, j: int| 0 <= i < j < s.len() ==> (#[trigger] s[i]).0 != (#[trigger] s[j]).0
}

/// Does the store hold an entry for `key`?
pub open spec fn spec_has_key(s: Seq<(u64, LabelSelectionState)>, key: u64) -> bool {
    exists|i: int| 0 <= i < s.len() && (#[trigger] s[i]).0 == key
}

impl StateStore {
    pub open spec fn wf(self) -> bool {
        spec_store_wf(self.entries@)
    }

    pub fn new() -> (r: StateStore)
        ensures
            r.entries@.len() == 0,
            r.wf(),
    {
        StateStore { entries: Vec::new() }
    }

    /// Index of the entry for `key`, if present.
    fn find(&self, key: u64) -> (r: Option<usize>)
        ensures
            r matches Some(i) ==> i < self.entries@.len() && self.entries@[i as int].0 == key
                && (forall|j: int| 0 <= j < i ==> (#[trigger] self.entries@[j]).0 != key),
            r is None ==> forall|j: int|
                0 <= j < self.entries@.len() ==> (#[trigger] self.entries@[j]).0 != key,
    {
        let mut i: usize = 0;
        while i < self.entries.len()
            invariant
                0 <= i <= self.entries@.len(),
                forall|j: int| 0 <= j < i ==> (#[trigger] self.entries@[j]).0 != key,
            decreases self.entries@.len() - i,
        {
            if self.entries[i].0 == key {
                return Some(i);
            }
            i = i + 1;
        }
        None
    }
}

impl LabelSelectionState {
    /// Take this viewport's selection state out of the store, or a fresh
    /// default if the viewport has none yet. The caller works on it for
    /// one pass and puts it back with [`LabelSelectionState::store`].
    pub fn load(store: &mut StateStore, viewport_id: u64) -> (r: LabelSelectionState)
        requires
            old(store).wf(),
        ensures
            final(store).wf(),
            !spec_has_key(old(store).entries@, viewport_id) ==> spec_default_state(r) && final(store).entries@ == old(store).entries@,
            spec_has_key(old(store).entries@, viewport_id) ==> exists|i: int|
                0 <= i < old(store).entries@.len() && (#[trigger] old(store).entries@[i]).0
                    == viewport_id && r == old(store).entries@[i].1 && final(store).entries@ == old(store).entries@.remove(i),
            !spec_has_key(final(store).entries@, viewport_id),
    {
        let found = store.find(viewport_id);
        match found {
            Some(i) => {
                let entry = store.entries.remove(i);
                proof {
                    lemma_remove_keeps_wf(old(store).entries@, i as int);
                    assert forall|j: int|
                        0 <= j < store.entries@.len() implies (#[trigger] store.entries@[j]).0
                        != viewport_id by {
                        if j < i {
                        } else {
                            assert(store.entries@[j] == old(store).entries@[j + 1]);
                        }
                    }
                }
                entry.1
            },
            None => LabelSelectionState::default(),
        }
    }

    /// Put this state back into the store for `viewport_id`, replacing any
    /// state the key held.
    pub fn store(self, store: &mut StateStore, viewport_id: u64)
        requires
            old(store).wf(),
            old(store).entries@.len() + 1 <= usize::MAX,
        ensures
            final(store).wf(),
            !spec_has_key(old(store).entries@, viewport_id) ==> final(store).entries@ == old(store).entries@.push((viewport_id, self)),
            spec_has_key(old(store).entries@, viewport_id) ==> exists|i: int|
                0 <= i < old(store).entries@.len() && (#[trigger] old(store).entries@[i]).0
                    == viewport_id && final(store).entries@ == old(store).entries@.update(
                    i,
                    (viewport_id, self),
                ),
            spec_has_key(final(store).entries@, viewport_id),
    {
        let found = store.find(viewport_id);
        match found {
            Some(i) => {
                store.entries.set(i, (viewport_id, self));
                proof {
                    lemma_update_keeps_wf(
                        old(store).entries@,
                        i as int,
                        (viewport_id, self),
                    );
                    assert(store.entries@[i as int].0 == viewport_id);
                    assert(spec_has_key(store.entries@, viewport_id));
                }
            },
            None => {
                store.entries.push((viewport_id, self));
                proof {
                    assert forall|a: int, b: int|
                        0 <= a < b < store.entries@.len() implies (#[trigger] store.entries@[a]).0
                        != (#[trigger] store.entries@[b]).0 by {
                        if b < store.entries@.len() - 1 {
                            assert(store.entries@[a] == old(store).entries@[a]);
                            assert(store.entries@[b] == old(store).entries@[b]);
                        } else {
                            assert(store.entries@[a] == old(store).entries@[a]);
                        }
                    }
                    assert(store.entries@[store.entries@.len() - 1].0 == viewport_id);
                    assert(spec_has_key(store.entries@, viewport_id));
                }
            },
        }
    }
}

/// Removing an entry keeps keys unique.
proof fn lemma_remove_keeps_wf(s: Seq<(u64, LabelSelectionState)>, i: int)
    requires
        spec_store_wf(s),
        0 <= i < s.len(),
    ensures
        spec_store_wf(s.remove(i)),
{
    let t = s.remove(i);
    assert forall|a: int, b: int| 0 <= a < b < t.len() implies (#[trigger] t[a]).0 != (
    #[trigger] t[b]).0 by {
        let a0 = if a < i {
            a
        } else {
            a + 1
        };
        let b0 = if b < i {
            b
        } else {
            b + 1
        };
        assert(t[a] == s[a0] && t[b] == s[b0]);
    }
}

/// Replacing an entry under the same key keeps keys unique.
proof fn lemma_update_keeps_wf(
    s: Seq<(u64, LabelSelectionState)>,
    i: int,
    v: (u64, LabelSelectionState),
)
    requires
        spec_store_wf(s),
        0 <= i < s.len(),
        v.0 == s[i].0,
    ensures
        spec_store_wf(s.update(i, v)),
{
    let t = s.update(i, v);
    assert forall|a: int, b: int| 0 <= a < b < t.len() implies (#[trigger] t[a]).0 != (
    #[trigger] t[b]).0 by {
        assert(t[a].0 == s[a].0 && t[b].0 == s[b].0);
    }
}

} // verus!
