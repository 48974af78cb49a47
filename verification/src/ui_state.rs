//! The bookkeeping of the view tree's state: which view id belongs to which
//! path in the tree, which views hold state and whether it changed.

use vstd::prelude::*;
use crate::view_id::ViewId;

verus! {

/// A path from the root of the view tree to a view: the index of the child
/// taken at each level.
pub type IdPath = Vec<u64>;

/// Whether `a` and `b` hold the same path.
pub(crate) fn same_path(a: &Vec<u64>, b: &Vec<u64>) -> (r: bool)
    ensures
        r == (a@ == b@),
{
    if a.len() != b.len() {
        return false;
    }
    let mut i: usize = 0;
    while i < a.len()
        invariant
            a@.len() == b@.len(),
            i <= a@.len(),
            forall|j: int| 0 <= j < i ==> a@[j] == b@[j],
        decreases a@.len() - i,
    {
        if a[i] != b[i] {
            return false;
        }
        i = i + 1;
    }
    assert(a@ =~= b@);
    true
}

/// A copy of `p`.
pub(crate) fn copy_path(p: &Vec<u64>) -> (r: Vec<u64>)
    ensures
        r@ == p@,
{
    let mut r: Vec<u64> = Vec::new();
    let mut i: usize = 0;
    while i < p.len()
        invariant
            i <= p@.len(),
            r@ == p@.subrange(0, i as int),
        decreases p@.len() - i,
    {
        r.push(p[i]);
        i = i + 1;
        assert(r@ =~= p@.subrange(0, i as int));
    }
    assert(r@ =~= p@);
    r
}

/// The ids given to the paths of a view tree.
pub struct Context {
    view_ids: Vec<(Vec<u64>, ViewId)>,
    next_id: ViewId,
    /// The views that hold state, each with whether its state changed.
    states: Vec<(ViewId, bool)>,
    /// Has some state changed?
    dirty: bool,
    /// Are writes to state currently recorded as changes?
    enable_dirty: bool,
}

impl Context {
    /// The paths that have an id, each with its id, in the order they got it.
    pub closed spec fn entries(&self) -> Seq<(Seq<u64>, ViewId)> {
        self.view_ids@.map_values(|e: (Vec<u64>, ViewId)| (e.0@, e.1))
    }

    /// The id the next new path gets.
    pub closed spec fn next_id(&self) -> ViewId {
        self.next_id
    }

    /// No path has two ids, no id belongs to two paths, and every id given
    /// out is below the next one.
    pub open spec fn wf(&self) -> bool {
        &&& ids_wf(self.entries(), self.next_id())
        &&& keys_distinct(self.state_list())
    }

    /// The views that hold state, each with whether its state changed.
    pub closed spec fn state_list(&self) -> Seq<(ViewId, bool)> {
        self.states@
    }

    /// Whether the view `id` holds state.
    pub open spec fn has_state(&self, id: ViewId) -> bool {
        list_has(self.state_list(), id)
    }

    /// Whether the state of the view `id` changed since the last clean-up.
    pub open spec fn state_changed(&self, id: ViewId) -> bool {
        list_flag(self.state_list(), id)
    }

    /// Whether some state changed since the last clean-up.
    pub closed spec fn is_dirty(&self) -> bool {
        self.dirty
    }

    /// Whether writes to state are currently recorded as changes.
    pub closed spec fn dirty_enabled(&self) -> bool {
        self.enable_dirty
    }

    /// The id of the view at `path`, if it has one.
    pub open spec fn id_of(&self, path: Seq<u64>) -> Option<ViewId> {
        if exists|i: int| 0 <= i < self.entries().len() && self.entries()[i].0 == path {
            let i = choose|i: int| 0 <= i < self.entries().len() && self.entries()[i].0 == path;
            Some(self.entries()[i].1)
        } else {
            None
        }
    }

    /// A tree in which no path has an id yet.
    pub fn new() -> (r: Self)
        ensures
            r.wf(),
            r.next_id().id == 0,
            forall|p: Seq<u64>| r.id_of(p) is None,
            forall|id: ViewId| !r.has_state(id),
            !r.is_dirty(),
            r.dirty_enabled(),
    {
        Context {
            view_ids: Vec::new(),
            next_id: ViewId { id: 0 },
            states: Vec::new(),
            dirty: false,
            enable_dirty: true,
        }
    }

    /// Index of the state of `id` in the list, if it holds state.
    fn find_state(&self, id: ViewId) -> (r: Option<usize>)
        requires
            self.wf(),
        ensures
            match r {
                Some(i) => i < self.state_list().len() && self.state_list()[i as int].0 == id,
                None => !self.has_state(id),
            },
    {
        let mut i: usize = 0;
        while i < self.states.len()
            invariant
                i <= self.states@.len(),
                forall|j: int| 0 <= j < i ==> self.states@[j].0 != id,
            decreases self.states@.len() - i,
        {
            if self.states[i].0 == id {
                return Some(i);
            }
            i = i + 1;
        }
        None
    }

    /// Makes sure the view `id` holds state. Returns `true` when it held none
    /// before, in which case its state is new and unchanged; a state that
    /// exists is kept as it is.
    pub fn init_state(&mut self, id: ViewId) -> (created: bool)
        requires
            old(self).wf(),
        ensures
            final(self).wf(),
            created == !old(self).has_state(id),
            final(self).has_state(id),
            forall|x: ViewId| x != id ==> final(self).has_state(x) == old(self).has_state(x),
            forall|x: ViewId| final(self).state_changed(x) == old(self).state_changed(x),
            final(self).entries() == old(self).entries(),
            final(self).next_id() == old(self).next_id(),
            final(self).is_dirty() == old(self).is_dirty(),
            final(self).dirty_enabled() == old(self).dirty_enabled(),
    {
        match self.find_state(id) {
            Some(_) => false,
            None => {
                let ghost old_states = self.states@;
                self.states.push((id, false));
                proof {
                    assert(self.states@[old_states.len() as int] == (id, false));
                    assert forall|x: ViewId| x != id implies self.has_state(x) == old(self).has_state(x) by {
                        if self.has_state(x) {
                            let k = choose|k: int| 0 <= k < self.states@.len() && self.states@[k].0 == x;
                            assert(old_states[k].0 == x);
                        }
                        if old(self).has_state(x) {
                            let k = choose|k: int| 0 <= k < old_states.len() && old_states[k].0 == x;
                            assert(self.states@[k].0 == x);
                        }
                    }
                    assert forall|x: ViewId| self.state_changed(x) == old(self).state_changed(x) by {
                        if self.state_changed(x) {
                            let k = choose|k: int| 0 <= k < self.states@.len() && self.states@[k].0 == x && self.states@[k].1;
                            assert(old_states[k].0 == x);
                        }
                        if old(self).state_changed(x) {
                            let k = choose|k: int| 0 <= k < old_states.len() && old_states[k].0 == x && old_states[k].1;
                            assert(self.states@[k].0 == x);
                        }
                    }
                }
                true
            }
        }
    }

    /// Records that the state of `id` was written: the state is marked as
    /// changed, and so is the whole tree unless recording is disabled.
    pub fn mark_written(&mut self, id: ViewId)
        requires
            old(self).wf(),
            old(self).has_state(id),
        ensures
            final(self).wf(),
            final(self).state_changed(id),
            forall|x: ViewId| x != id ==> final(self).state_changed(x) == old(self).state_changed(x),
            forall|x: ViewId| final(self).has_state(x) == old(self).has_state(x),
            final(self).is_dirty() == (old(self).is_dirty() || old(self).dirty_enabled()),
            final(self).entries() == old(self).entries(),
            final(self).next_id() == old(self).next_id(),
            final(self).dirty_enabled() == old(self).dirty_enabled(),
    {
        self.set_dirty();
        let i: usize = self.find_state(id).unwrap();
        let ghost old_states = self.states@;
        self.states.set(i, (id, true));
        proof {
            lemma_set_keeps_keys(old_states, i as int, (id, true));
        }
    }

    /// Records that some state changed, unless recording is disabled.
    pub fn set_dirty(&mut self)
        requires
            old(self).wf(),
        ensures
            final(self).wf(),
            final(self).is_dirty() == (old(self).is_dirty() || old(self).dirty_enabled()),
            final(self).state_list() == old(self).state_list(),
            final(self).entries() == old(self).entries(),
            final(self).next_id() == old(self).next_id(),
            final(self).dirty_enabled() == old(self).dirty_enabled(),
    {
        if self.enable_dirty {
            self.dirty = true;
        }
    }

    /// Turns the recording of state changes on or off; it is off while the
    /// tree is laid out and drawn, so that state saved there does not cause
    /// endless redraws.
    pub fn set_dirty_enabled(&mut self, enabled: bool)
        requires
            old(self).wf(),
        ensures
            final(self).wf(),
            final(self).dirty_enabled() == enabled,
            final(self).is_dirty() == old(self).is_dirty(),
            final(self).state_list() == old(self).state_list(),
            final(self).entries() == old(self).entries(),
            final(self).next_id() == old(self).next_id(),
    {
        self.enable_dirty = enabled;
    }

    /// The id the next new path gets.
    pub fn peek_next_id(&self) -> (r: ViewId)
        ensures
            r == self.next_id(),
    {
        self.next_id
    }

    /// Whether some state changed since the last clean-up.
    pub fn dirty(&self) -> (r: bool)
        ensures
            r == self.is_dirty(),
    {
        self.dirty
    }

    /// Whether the view `id` holds state.
    pub fn has_state_exec(&self, id: ViewId) -> (r: bool)
        requires
            self.wf(),
        ensures
            r == self.has_state(id),
    {
        self.find_state(id).is_some()
    }

    /// Whether the state of `id` changed since the last clean-up.
    pub fn is_state_dirty(&self, id: ViewId) -> (r: bool)
        requires
            self.wf(),
            self.has_state(id),
        ensures
            r == self.state_changed(id),
    {
        let i: usize = self.find_state(id).unwrap();
        self.states[i].1
    }

    /// Forgets every change: neither the tree nor any state is dirty after.
    pub fn clear_dirty(&mut self)
        requires
            old(self).wf(),
        ensures
            final(self).wf(),
            !final(self).is_dirty(),
            forall|x: ViewId| !final(self).state_changed(x),
            forall|x: ViewId| final(self).has_state(x) == old(self).has_state(x),
            final(self).entries() == old(self).entries(),
            final(self).next_id() == old(self).next_id(),
            final(self).dirty_enabled() == old(self).dirty_enabled(),
    {
        self.dirty = false;
        let mut i: usize = 0;
        while i < self.states.len()
            invariant
                self.wf(),
                !self.dirty,
                self.entries() == old(self).entries(),
                self.next_id == old(self).next_id,
                self.enable_dirty == old(self).enable_dirty,
                self.states@.len() == old(self).states@.len(),
                i <= self.states@.len(),
                forall|j: int| 0 <= j < self.states@.len() ==> self.states@[j].0 == old(self).states@[j].0,
                forall|j: int| 0 <= j < i ==> !self.states@[j].1,
            decreases self.states@.len() - i,
        {
            let id = self.states[i].0;
            self.states.set(i, (id, false));
            i = i + 1;
        }
        proof {
            assert forall|x: ViewId| self.has_state(x) == old(self).has_state(x) by {
                if self.has_state(x) {
                    let k = choose|k: int| 0 <= k < self.states@.len() && self.states@[k].0 == x;
                    assert(old(self).states@[k].0 == x);
                }
                if old(self).has_state(x) {
                    let k = choose|k: int| 0 <= k < old(self).states@.len() && old(self).states@[k].0 == x;
                    assert(self.states@[k].0 == x);
                }
            }
        }
    }

    /// Gives the view `id` a fresh, unchanged state, replacing any state it
    /// held.
    pub fn set_state(&mut self, id: ViewId)
        requires
            old(self).wf(),
        ensures
            final(self).wf(),
            final(self).has_state(id),
            !final(self).state_changed(id),
            forall|x: ViewId| x != id ==> final(self).has_state(x) == old(self).has_state(x),
            forall|x: ViewId| x != id ==> final(self).state_changed(x) == old(self).state_changed(x),
            final(self).entries() == old(self).entries(),
            final(self).next_id() == old(self).next_id(),
            final(self).is_dirty() == old(self).is_dirty(),
            final(self).dirty_enabled() == old(self).dirty_enabled(),
    {
        match self.find_state(id) {
            Some(i) => {
                let ghost old_states = self.states@;
                self.states.set(i, (id, false));
                proof {
                    lemma_set_keeps_keys(old_states, i as int, (id, false));
                }
            },
            None => {
                let created = self.init_state(id);
            },
        }
    }

    /// Drops the state of every view that is not in `keep`.
    pub fn retain_states(&mut self, keep: &Vec<ViewId>)
        requires
            old(self).wf(),
        ensures
            final(self).wf(),
            forall|x: ViewId| final(self).has_state(x) == (old(self).has_state(x) && keep@.contains(x)),
            forall|x: ViewId| final(self).state_changed(x) == (old(self).state_changed(x) && keep@.contains(x)),
            final(self).entries() == old(self).entries(),
            final(self).next_id() == old(self).next_id(),
            final(self).is_dirty() == old(self).is_dirty(),
            final(self).dirty_enabled() == old(self).dirty_enabled(),
    {
        let ghost old_states = self.states@;
        let mut kept: Vec<(ViewId, bool)> = Vec::new();
        let mut i: usize = 0;
        while i < self.states.len()
            invariant
                self.states@ == old_states,
                i <= old_states.len(),
                kept@ == kept_entries(old_states.take(i as int), keep@),
            decreases old_states.len() - i,
        {
            let entry = self.states[i];
            assert(old_states.take(i + 1 as int).drop_last() =~= old_states.take(i as int));
            if contains_id(keep, entry.0) {
                kept.push(entry);
            }
            i = i + 1;
        }
        assert(old_states.take(old_states.len() as int) =~= old_states);
        proof {
            lemma_kept_entries(old_states, keep@);
        }
        self.states = kept;
    }

    /// The id of the view at `path`. A path seen before keeps its id; a new
    /// path gets the next id, which no other path has.
    pub fn view_id(&mut self, path: &IdPath) -> (r: ViewId)
        requires
            old(self).wf(),
            old(self).next_id().id < u64::MAX,
        ensures
            final(self).wf(),
            final(self).id_of(path@) == Some(r),
            old(self).id_of(path@) matches Some(id) ==> r == id && final(self).next_id()
                == old(self).next_id(),
            old(self).id_of(path@) is None ==> r == old(self).next_id() && final(self).next_id().id
                == old(self).next_id().id + 1,
            forall|p: Seq<u64>| p != path@ ==> final(self).id_of(p) == old(self).id_of(p),
            forall|p: Seq<u64>| old(self).id_of(p) is Some ==> final(self).id_of(p) == old(self).id_of(p),
            final(self).state_list() == old(self).state_list(),
            final(self).is_dirty() == old(self).is_dirty(),
            final(self).dirty_enabled() == old(self).dirty_enabled(),
    {
        let ghost old_entries = self.entries();
        let mut i: usize = 0;
        while i < self.view_ids.len()
            invariant
                self.entries() == old_entries,
                self.wf(),
                self.state_list() == old(self).state_list(),
                self.dirty == old(self).dirty,
                self.enable_dirty == old(self).enable_dirty,
                i <= self.view_ids@.len(),
                forall|j: int| 0 <= j < i ==> old_entries[j].0 != path@,
            decreases self.view_ids@.len() - i,
        {
            if same_path(&self.view_ids[i].0, path) {
                let id = self.view_ids[i].1;
                proof {
                    assert(old_entries[i as int].0 == path@);
                    assert forall|p: Seq<u64>| self.id_of(p) == old(self).id_of(p) by {}
                    let k = choose|k: int| 0 <= k < old_entries.len() && old_entries[k].0 == path@;
                    assert(k == i);
                }
                return id;
            }
            i = i + 1;
        }
        let id = self.next_id;
        self.next_id = ViewId { id: id.id + 1 };
        let copy = copy_path(path);
        self.view_ids.push((copy, id));
        proof {
            let n = old_entries.len();
            assert(self.entries() =~= old_entries.push((path@, id)));
            assert(self.entries()[n as int].0 == path@);
            assert forall|p: Seq<u64>| p != path@ implies self.id_of(p) == old(self).id_of(p) by {
                if exists|k: int| 0 <= k < old_entries.len() && old_entries[k].0 == p {
                    let k = choose|k: int| 0 <= k < old_entries.len() && old_entries[k].0 == p;
                    assert(self.entries()[k].0 == p);
                    let k2 = choose|k2: int| 0 <= k2 < self.entries().len() && self.entries()[k2].0 == p;
                    assert(k2 == k);
                } else {
                    assert forall|k: int| 0 <= k < self.entries().len() implies self.entries()[k].0 != p by {
                        if k < n {
                            assert(self.entries()[k] == old_entries[k]);
                        }
                    }
                }
            }
            let k2 = choose|k2: int| 0 <= k2 < self.entries().len() && self.entries()[k2].0 == path@;
            assert(k2 == n);
        }
        id
    }
}

/// Whether `ids` contains `id`.
pub fn contains_id(ids: &Vec<ViewId>, id: ViewId) -> (r: bool)
    ensures
        r == ids@.contains(id),
{
    let mut i: usize = 0;
    while i < ids.len()
        invariant
            i <= ids@.len(),
            forall|j: int| 0 <= j < i ==> ids@[j] != id,
        decreases ids@.len() - i,
    {
        if ids[i] == id {
            assert(ids@[i as int] == id);
            return true;
        }
        i = i + 1;
    }
    false
}

/// No path has two ids, no id belongs to two paths, and every id given out
/// is below `next`.
pub open spec fn ids_wf(entries: Seq<(Seq<u64>, ViewId)>, next: ViewId) -> bool {
    &&& forall|i: int, j: int|
        0 <= i < j < entries.len() ==> entries[i].0 != entries[j].0 && entries[i].1 != entries[j].1
    &&& forall|i: int| 0 <= i < entries.len() ==> entries[i].1.id < next.id
}

/// Whether the list holds an entry for `x`.
pub open spec fn list_has(s: Seq<(ViewId, bool)>, x: ViewId) -> bool {
    exists|k: int| 0 <= k < s.len() && s[k].0 == x
}

/// Whether the list holds an entry for `x` whose flag is set.
pub open spec fn list_flag(s: Seq<(ViewId, bool)>, x: ViewId) -> bool {
    exists|k: int| 0 <= k < s.len() && s[k].0 == x && s[k].1
}

/// No two entries of the list are for the same view.
pub open spec fn keys_distinct(s: Seq<(ViewId, bool)>) -> bool {
    forall|a: int, b: int| 0 <= a < b < s.len() ==> s[a].0 != s[b].0
}

/// The entries of `s` whose view is in `keep`, in order.
pub open spec fn kept_entries(s: Seq<(ViewId, bool)>, keep: Seq<ViewId>) -> Seq<(ViewId, bool)>
    decreases s.len(),
{
    if s.len() == 0 {
        Seq::empty()
    } else {
        let r = kept_entries(s.drop_last(), keep);
        if keep.contains(s.last().0) {
            r.push(s.last())
        } else {
            r
        }
    }
}

/// Keeping the entries of the views in `keep` keeps exactly their
/// presence and flags, and no view gets two entries.
proof fn lemma_kept_entries(s: Seq<(ViewId, bool)>, keep: Seq<ViewId>)
    requires
        keys_distinct(s),
    ensures
        keys_distinct(kept_entries(s, keep)),
        forall|x: ViewId| #[trigger] list_has(kept_entries(s, keep), x) == (list_has(s, x) && keep.contains(x)),
        forall|x: ViewId| #[trigger] list_flag(kept_entries(s, keep), x) == (list_flag(s, x) && keep.contains(x)),
    decreases s.len(),
{
    if s.len() > 0 {
        let d = s.drop_last();
        let last = s.last();
        let r = kept_entries(d, keep);
        assert(keys_distinct(d)) by {
            assert forall|a: int, b: int| 0 <= a < b < d.len() implies d[a].0 != d[b].0 by {
                assert(d[a] == s[a] && d[b] == s[b]);
            }
        }
        lemma_kept_entries(d, keep);
        assert forall|x: ViewId| list_has(s, x) == (list_has(d, x) || x == last.0) by {
            if list_has(s, x) {
                let k = choose|k: int| 0 <= k < s.len() && s[k].0 == x;
                if k < d.len() {
                    assert(d[k] == s[k]);
                }
            }
            if list_has(d, x) {
                let k = choose|k: int| 0 <= k < d.len() && d[k].0 == x;
                assert(s[k] == d[k]);
            }
            if x == last.0 {
                assert(s[s.len() - 1].0 == x);
            }
        }
        assert forall|x: ViewId| list_flag(s, x) == (list_flag(d, x) || (x == last.0 && last.1)) by {
            if list_flag(s, x) {
                let k = choose|k: int| 0 <= k < s.len() && s[k].0 == x && s[k].1;
                if k < d.len() {
                    assert(d[k] == s[k]);
                }
            }
            if list_flag(d, x) {
                let k = choose|k: int| 0 <= k < d.len() && d[k].0 == x && d[k].1;
                assert(s[k] == d[k]);
            }
            if x == last.0 && last.1 {
                assert(s[s.len() - 1].0 == x);
            }
        }
        assert(!list_has(d, last.0)) by {
            if list_has(d, last.0) {
                let k = choose|k: int| 0 <= k < d.len() && d[k].0 == last.0;
                assert(s[k].0 == s[s.len() - 1].0);
            }
        }
        assert(!list_flag(d, last.0)) by {
            if list_flag(d, last.0) {
                let k = choose|k: int| 0 <= k < d.len() && d[k].0 == last.0 && d[k].1;
                assert(s[k].0 == s[s.len() - 1].0);
            }
        }
        if keep.contains(last.0) {
            let t = r.push(last);
            assert(t[r.len() as int] == last);
            assert forall|a: int, b: int| 0 <= a < b < t.len() implies t[a].0 != t[b].0 by {
                if b == r.len() {
                    assert(t[a] == r[a]);
                    assert(list_has(r, r[a].0));
                } else {
                    assert(t[a] == r[a] && t[b] == r[b]);
                }
            }
            assert forall|x: ViewId| #[trigger] list_has(t, x) == (list_has(r, x) || x == last.0) by {
                if list_has(t, x) {
                    let k = choose|k: int| 0 <= k < t.len() && t[k].0 == x;
                    if k < r.len() {
                        assert(r[k] == t[k]);
                    }
                }
                if list_has(r, x) {
                    let k = choose|k: int| 0 <= k < r.len() && r[k].0 == x;
                    assert(t[k] == r[k]);
                }
            }
            assert forall|x: ViewId| #[trigger] list_flag(t, x) == (list_flag(r, x) || (x == last.0 && last.1)) by {
                if list_flag(t, x) {
                    let k = choose|k: int| 0 <= k < t.len() && t[k].0 == x && t[k].1;
                    if k < r.len() {
                        assert(r[k] == t[k]);
                    }
                }
                if list_flag(r, x) {
                    let k = choose|k: int| 0 <= k < r.len() && r[k].0 == x && r[k].1;
                    assert(t[k] == r[k]);
                }
            }
        }
    } else {
        assert forall|x: ViewId| !#[trigger] list_has(s, x) && !list_flag(s, x) by {}
    }
}

/// Replacing the entry at `i` by one with the same key keeps every key's
/// presence, and the flags of every other key.
proof fn lemma_set_keeps_keys(s: Seq<(ViewId, bool)>, i: int, e: (ViewId, bool))
    requires
        0 <= i < s.len(),
        s[i].0 == e.0,
        keys_distinct(s),
    ensures
        keys_distinct(s.update(i, e)),
        forall|x: ViewId| #[trigger] list_has(s.update(i, e), x) == list_has(s, x),
        forall|x: ViewId| x != e.0 ==> #[trigger] list_flag(s.update(i, e), x) == list_flag(s, x),
        list_flag(s.update(i, e), e.0) == e.1,
{
    let t = s.update(i, e);
    assert(t[i] == e);
    assert forall|a: int, b: int| 0 <= a < b < t.len() implies t[a].0 != t[b].0 by {
        assert(t[a].0 == s[a].0 && t[b].0 == s[b].0);
    }
    assert forall|x: ViewId| #[trigger] list_has(t, x) == list_has(s, x) by {
        if list_has(t, x) {
            let k = choose|k: int| 0 <= k < t.len() && t[k].0 == x;
            assert(s[k].0 == x);
        }
        if list_has(s, x) {
            let k = choose|k: int| 0 <= k < s.len() && s[k].0 == x;
            assert(t[k].0 == x);
        }
    }
    assert forall|x: ViewId| x != e.0 implies #[trigger] list_flag(t, x) == list_flag(s, x) by {
        if list_flag(t, x) {
            let k = choose|k: int| 0 <= k < t.len() && t[k].0 == x && t[k].1;
            assert(k != i);
            assert(s[k] == t[k]);
        }
        if list_flag(s, x) {
            let k = choose|k: int| 0 <= k < s.len() && s[k].0 == x && s[k].1;
            assert(k != i);
            assert(t[k] == s[k]);
        }
    }
    if !e.1 {
        assert forall|k: int| 0 <= k < t.len() && t[k].0 == e.0 implies !t[k].1 by {
            if k != i {
                assert(s[k].0 == s[i].0);
            }
        }
    }
}

/// Two different paths never share an id.
pub proof fn lemma_view_ids_distinct(cx: Context, p1: Seq<u64>, p2: Seq<u64>)
    requires
        cx.wf(),
        cx.id_of(p1) is Some,
        cx.id_of(p1) == cx.id_of(p2),
    ensures
        p1 == p2,
{
    let i = choose|i: int| 0 <= i < cx.entries().len() && cx.entries()[i].0 == p1;
    let j = choose|j: int| 0 <= j < cx.entries().len() && cx.entries()[j].0 == p2;
    if i < j {
        assert(cx.entries()[i].1 != cx.entries()[j].1);
    } else if j < i {
        assert(cx.entries()[j].1 != cx.entries()[i].1);
    }
}

/// Over any run of `view_id` calls, ids once given stay given, so two
/// calls return the same id exactly when they were asked for the same path:
/// `first` gave `p1` the id `r1`, and `later`, reached from `first` by
/// calls that keep every given id, gives `p2` the id `r2`.
pub proof fn lemma_view_id_calls(first: Context, later: Context, p1: Seq<u64>, p2: Seq<u64>, r1: ViewId, r2: ViewId)
    requires
        later.wf(),
        first.id_of(p1) == Some(r1),
        forall|p: Seq<u64>| first.id_of(p) is Some ==> #[trigger] later.id_of(p) == first.id_of(p),
        later.id_of(p2) == Some(r2),
    ensures
        (r1 == r2) <==> (p1 == p2),
{
    assert(later.id_of(p1) == Some(r1));
    if r1 == r2 {
        lemma_view_ids_distinct(later, p1, p2);
    }
}

} // verus!
