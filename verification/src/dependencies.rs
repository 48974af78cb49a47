//! Which states each stateful view's layout depends on, and when that layout
//! must be computed again.

use vstd::prelude::*;
use crate::ui_state::Context;
use crate::view_id::ViewId;

verus! {

/// The recorded layout dependencies, and the stack of stateful views being
/// laid out.
pub struct Dependencies {
    deps: Vec<(ViewId, Vec<ViewId>)>,
    id_stack: Vec<ViewId>,
}

/// No view has two dependency lists.
pub open spec fn deps_distinct(s: Seq<(ViewId, Seq<ViewId>)>) -> bool {
    forall|a: int, b: int| 0 <= a < b < s.len() ==> s[a].0 != s[b].0
}

/// Whether the state of one of the views `ds` changed.
pub open spec fn any_changed(states: &Context, ds: Seq<ViewId>) -> bool {
    exists|i: int| 0 <= i < ds.len() && states.state_changed(#[trigger] ds[i])
}

impl Dependencies {
    /// Each view with recorded dependencies, with the views whose state its
    /// layout read.
    pub closed spec fn list(&self) -> Seq<(ViewId, Seq<ViewId>)> {
        self.deps@.map_values(|e: (ViewId, Vec<ViewId>)| (e.0, e.1@))
    }

    /// The stateful views being laid out, outermost first.
    pub closed spec fn stack(&self) -> Seq<ViewId> {
        self.id_stack@
    }

    /// No view has two dependency lists.
    pub open spec fn wf(&self) -> bool {
        deps_distinct(self.list())
    }

    /// The dependencies recorded for `id`, if any.
    pub open spec fn deps_of(&self, id: ViewId) -> Option<Seq<ViewId>> {
        if exists|i: int| 0 <= i < self.list().len() && self.list()[i].0 == id {
            let i = choose|i: int| 0 <= i < self.list().len() && self.list()[i].0 == id;
            Some(self.list()[i].1)
        } else {
            None
        }
    }

    /// Nothing recorded, nothing being laid out.
    pub fn new() -> (r: Self)
        ensures
            r.wf(),
            r.stack() == Seq::<ViewId>::empty(),
            forall|id: ViewId| r.deps_of(id) is None,
    {
        Dependencies { deps: Vec::new(), id_stack: Vec::new() }
    }

    /// Index of the dependencies of `id`, if recorded.
    fn find(&self, id: ViewId) -> (r: Option<usize>)
        requires
            self.wf(),
        ensures
            match r {
                Some(i) => i < self.list().len() && self.list()[i as int].0 == id,
                None => self.deps_of(id) is None,
            },
    {
        let mut i: usize = 0;
        while i < self.deps.len()
            invariant
                i <= self.deps@.len(),
                forall|j: int| 0 <= j < i ==> self.list()[j].0 != id,
            decreases self.deps@.len() - i,
        {
            if self.deps[i].0 == id {
                return Some(i);
            }
            i = i + 1;
        }
        None
    }

    /// Whether the layout of the stateful view `id` must be computed: when
    /// no dependencies were recorded for it, or when the state of one of
    /// them changed.
    pub fn needs_layout(&self, states: &Context, id: ViewId) -> (r: bool)
        requires
            self.wf(),
            states.wf(),
        ensures
            r == match self.deps_of(id) {
                None => true,
                Some(ds) => any_changed(states, ds),
            },
    {
        match self.find(id) {
            None => true,
            Some(k) => {
                proof {
                    let k2 = choose|k2: int| 0 <= k2 < self.list().len() && self.list()[k2].0 == id;
                    assert(k2 == k);
                }
                let ds = &self.deps[k].1;
                assert(self.list()[k as int].1 == ds@);
                let mut i: usize = 0;
                while i < ds.len()
                    invariant
                        states.wf(),
                        self.deps_of(id) == Some(ds@),
                        i <= ds@.len(),
                        forall|j: int| 0 <= j < i ==> !states.state_changed(#[trigger] ds@[j]),
                    decreases ds@.len() - i,
                {
                    let d = ds[i];
                    if states.has_state_exec(d) && states.is_state_dirty(d) {
                        assert(states.state_changed(ds@[i as int]));
                        assert(any_changed(states, ds@));
                        return true;
                    }
                    i = i + 1;
                }
                assert(!any_changed(states, ds@));
                false
            },
        }
    }

    /// Notes that the layout of the stateful view `id` is being computed.
    pub fn push_id(&mut self, id: ViewId)
        ensures
            final(self).stack() == old(self).stack().push(id),
            final(self).list() == old(self).list(),
    {
        self.id_stack.push(id);
    }

    /// Notes that the innermost layout being computed is done.
    pub fn pop_id(&mut self)
        ensures
            final(self).stack() == (if old(self).stack().len() == 0 {
                old(self).stack()
            } else {
                old(self).stack().drop_last()
            }),
            final(self).list() == old(self).list(),
    {
        let _ = self.id_stack.pop();
    }

    /// The stateful views being laid out, outermost first: the states every
    /// layout computed now depends on.
    pub fn id_stack(&self) -> (r: Vec<ViewId>)
        ensures
            r@ == self.stack(),
    {
        let mut r: Vec<ViewId> = Vec::new();
        let mut i: usize = 0;
        while i < self.id_stack.len()
            invariant
                i <= self.id_stack@.len(),
                r@ == self.id_stack@.subrange(0, i as int),
            decreases self.id_stack@.len() - i,
        {
            r.push(self.id_stack[i]);
            i = i + 1;
            assert(r@ =~= self.id_stack@.subrange(0, i as int));
        }
        assert(r@ =~= self.id_stack@);
        r
    }

    /// Records `deps` as the dependencies of `id`, replacing earlier ones.
    pub fn set_deps(&mut self, id: ViewId, deps: Vec<ViewId>)
        requires
            old(self).wf(),
        ensures
            final(self).wf(),
            final(self).deps_of(id) == Some(deps@),
            forall|x: ViewId| x != id ==> final(self).deps_of(x) == old(self).deps_of(x),
            final(self).stack() == old(self).stack(),
    {
        let ghost old_list = self.list();
        let ghost d = deps@;
        match self.find(id) {
            Some(i) => {
                self.deps.set(i, (id, deps));
                proof {
                    let l = self.list();
                    assert(l =~= old_list.update(i as int, (id, d)));
                    assert forall|a: int, b: int| 0 <= a < b < l.len() implies l[a].0 != l[b].0 by {
                        assert(l[a].0 == old_list[a].0 && l[b].0 == old_list[b].0);
                    }
                    assert(l[i as int].0 == id);
                    let k = choose|k: int| 0 <= k < l.len() && l[k].0 == id;
                    assert(k == i);
                    assert forall|x: ViewId| x != id implies self.deps_of(x) == old(self).deps_of(x) by {
                        if exists|k: int| 0 <= k < old_list.len() && old_list[k].0 == x {
                            let k = choose|k: int| 0 <= k < old_list.len() && old_list[k].0 == x;
                            assert(l[k] == old_list[k]);
                            let k2 = choose|k2: int| 0 <= k2 < l.len() && l[k2].0 == x;
                            assert(k2 == k);
                        } else {
                            assert forall|k: int| 0 <= k < l.len() implies l[k].0 != x by {
                                assert(l[k].0 == old_list[k].0);
                            }
                        }
                    }
                }
            },
            None => {
                self.deps.push((id, deps));
                proof {
                    let l = self.list();
                    let n = old_list.len();
                    assert(l =~= old_list.push((id, d)));
                    assert forall|a: int, b: int| 0 <= a < b < l.len() implies l[a].0 != l[b].0 by {
                        if b == n {
                            assert(l[a] == old_list[a]);
                        }
                    }
                    assert(l[n as int].0 == id);
                    let k = choose|k: int| 0 <= k < l.len() && l[k].0 == id;
                    assert(k == n);
                    assert forall|x: ViewId| x != id implies self.deps_of(x) == old(self).deps_of(x) by {
                        if exists|k: int| 0 <= k < old_list.len() && old_list[k].0 == x {
                            let k = choose|k: int| 0 <= k < old_list.len() && old_list[k].0 == x;
                            assert(l[k] == old_list[k]);
                            let k2 = choose|k2: int| 0 <= k2 < l.len() && l[k2].0 == x;
                            assert(k2 == k);
                        } else {
                            assert forall|k: int| 0 <= k < l.len() implies l[k].0 != x by {
                                if k < n {
                                    assert(l[k] == old_list[k]);
                                }
                            }
                        }
                    }
                }
            },
        }
    }

    /// Ends the layout of the stateful view `id`, which was pushed last: its
    /// dependencies become the views being laid out (outermost first,
    /// itself included) followed by the stateful views its child reported
    /// (`child_ids`), and it is taken off the stack.
    pub fn finish_layout(&mut self, id: ViewId, child_ids: &Vec<ViewId>)
        requires
            old(self).wf(),
        ensures
            final(self).wf(),
            final(self).deps_of(id) == Some(old(self).stack() + child_ids@),
            forall|x: ViewId| x != id ==> final(self).deps_of(x) == old(self).deps_of(x),
            final(self).stack() == (if old(self).stack().len() == 0 {
                old(self).stack()
            } else {
                old(self).stack().drop_last()
            }),
    {
        let mut deps = self.id_stack();
        let ghost start = deps@;
        let mut i: usize = 0;
        while i < child_ids.len()
            invariant
                i <= child_ids@.len(),
                deps@ == start + child_ids@.subrange(0, i as int),
            decreases child_ids@.len() - i,
        {
            deps.push(child_ids[i]);
            i = i + 1;
            assert(deps@ =~= start + child_ids@.subrange(0, i as int));
        }
        assert(child_ids@.subrange(0, child_ids@.len() as int) =~= child_ids@);
        self.set_deps(id, deps);
        self.pop_id();
    }

    /// Forgets every recorded dependency, so that every layout is computed
    /// again (done when the window size changes).
    pub fn clear(&mut self)
        ensures
            final(self).wf(),
            forall|id: ViewId| final(self).deps_of(id) is None,
            final(self).stack() == old(self).stack(),
    {
        self.deps.clear();
        assert(self.list() =~= Seq::<(ViewId, Seq<ViewId>)>::empty());
    }
}

} // verus!
