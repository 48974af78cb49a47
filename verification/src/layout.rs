//! The layout rectangles of the views, keyed by their path in the tree.

use vstd::prelude::*;
use crate::geometry::{rect_default, rect_placed_at, rect_with_origin, zero_area};
use crate::ui_state::{Context, IdPath, same_path, copy_path};
use crate::view_id::ViewId;

verus! {

/// The layout rectangle of each laid-out view, keyed by its path.
pub struct LayoutMap {
    entries: Vec<(Vec<u64>, kurbo::Rect)>,
}

/// No path occurs twice in the list.
pub open spec fn paths_distinct(s: Seq<(Seq<u64>, kurbo::Rect)>) -> bool {
    forall|a: int, b: int| 0 <= a < b < s.len() ==> s[a].0 != s[b].0
}

impl LayoutMap {
    /// The laid-out paths with their rectangles, in the order they were
    /// first laid out.
    pub closed spec fn list(&self) -> Seq<(Seq<u64>, kurbo::Rect)> {
        self.entries@.map_values(|e: (Vec<u64>, kurbo::Rect)| (e.0@, e.1))
    }

    /// No path has two rectangles.
    pub open spec fn wf(&self) -> bool {
        paths_distinct(self.list())
    }

    /// The rectangle of the view at `path`, if it was laid out.
    pub open spec fn layout_of(&self, path: Seq<u64>) -> Option<kurbo::Rect> {
        if exists|i: int| 0 <= i < self.list().len() && self.list()[i].0 == path {
            let i = choose|i: int| 0 <= i < self.list().len() && self.list()[i].0 == path;
            Some(self.list()[i].1)
        } else {
            None
        }
    }

    /// How many views are laid out.
    pub fn len(&self) -> (r: usize)
        ensures
            r == self.list().len(),
    {
        self.entries.len()
    }

    /// No view is laid out.
    pub fn new() -> (r: Self)
        ensures
            r.wf(),
            forall|p: Seq<u64>| r.layout_of(p) is None,
    {
        LayoutMap { entries: Vec::new() }
    }

    /// Index of `path` in the list, if it was laid out.
    fn find(&self, path: &IdPath) -> (r: Option<usize>)
        requires
            self.wf(),
        ensures
            match r {
                Some(i) => i < self.list().len() && self.list()[i as int].0 == path@,
                None => self.layout_of(path@) is None,
            },
    {
        let mut i: usize = 0;
        while i < self.entries.len()
            invariant
                i <= self.entries@.len(),
                forall|j: int| 0 <= j < i ==> self.list()[j].0 != path@,
            decreases self.entries@.len() - i,
        {
            if same_path(&self.entries[i].0, path) {
                return Some(i);
            }
            i = i + 1;
        }
        None
    }

    /// The rectangle of the view at `path`: the one last stored for it. A
    /// view that was never laid out gets `kurbo::Rect::default()`.
    pub fn get_layout(&self, path: &IdPath) -> (r: kurbo::Rect)
        requires
            self.wf(),
        ensures
            self.layout_of(path@) matches Some(rect) ==> r == rect,
            self.layout_of(path@) is None ==> zero_area(r),
    {
        match self.find(path) {
            Some(i) => {
                proof {
                    let k = choose|k: int| 0 <= k < self.list().len() && self.list()[k].0 == path@;
                    assert(k == i);
                }
                self.entries[i].1
            },
            None => rect_default(),
        }
    }

    /// Stores `rect` as the layout of the view at `path`; the layouts of
    /// the other views are kept.
    pub fn update_layout(&mut self, path: &IdPath, rect: kurbo::Rect)
        requires
            old(self).wf(),
        ensures
            final(self).wf(),
            final(self).layout_of(path@) == Some(rect),
            forall|p: Seq<u64>| p != path@ ==> final(self).layout_of(p) == old(self).layout_of(p),
    {
        let ghost old_list = self.list();
        match self.find(path) {
            Some(i) => {
                let key = copy_path(path);
                self.entries.set(i, (key, rect));
                proof {
                    let l = self.list();
                    assert(l =~= old_list.update(i as int, (path@, rect)));
                    assert forall|a: int, b: int| 0 <= a < b < l.len() implies l[a].0 != l[b].0 by {
                        assert(l[a].0 == old_list[a].0 && l[b].0 == old_list[b].0);
                    }
                    assert(l[i as int].0 == path@);
                    let k = choose|k: int| 0 <= k < l.len() && l[k].0 == path@;
                    assert(k == i);
                    assert forall|p: Seq<u64>| p != path@ implies self.layout_of(p) == old(self).layout_of(p) by {
                        if exists|k: int| 0 <= k < old_list.len() && old_list[k].0 == p {
                            let k = choose|k: int| 0 <= k < old_list.len() && old_list[k].0 == p;
                            assert(l[k] == old_list[k]);
                            let k2 = choose|k2: int| 0 <= k2 < l.len() && l[k2].0 == p;
                            assert(k2 == k);
                        } else {
                            assert forall|k: int| 0 <= k < l.len() implies l[k].0 != p by {
                                assert(l[k].0 == old_list[k].0);
                            }
                        }
                    }
                }
            },
            None => {
                let key = copy_path(path);
                self.entries.push((key, rect));
                proof {
                    let l = self.list();
                    let n = old_list.len();
                    assert(l =~= old_list.push((path@, rect)));
                    assert forall|a: int, b: int| 0 <= a < b < l.len() implies l[a].0 != l[b].0 by {
                        if b == n {
                            assert(l[a] == old_list[a]);
                        }
                    }
                    assert(l[n as int].0 == path@);
                    let k = choose|k: int| 0 <= k < l.len() && l[k].0 == path@;
                    assert(k == n);
                    assert forall|p: Seq<u64>| p != path@ implies self.layout_of(p) == old(self).layout_of(p) by {
                        if exists|k: int| 0 <= k < old_list.len() && old_list[k].0 == p {
                            let k = choose|k: int| 0 <= k < old_list.len() && old_list[k].0 == p;
                            assert(l[k] == old_list[k]);
                            let k2 = choose|k2: int| 0 <= k2 < l.len() && l[k2].0 == p;
                            assert(k2 == k);
                        } else {
                            assert forall|k: int| 0 <= k < l.len() implies l[k].0 != p by {
                                if k < n {
                                    assert(l[k] == old_list[k]);
                                }
                            }
                        }
                    }
                }
            },
        }
    }
}

impl LayoutMap {
    /// Moves the layout rectangle of the view at `path` so that its top left
    /// corner is at `offset`, keeping its size; a view that was never laid
    /// out gets the default rectangle moved there. The layouts of the other
    /// views are kept.
    pub fn set_layout_offset(&mut self, path: &IdPath, offset: kurbo::Vec2)
        requires
            old(self).wf(),
        ensures
            final(self).wf(),
            final(self).layout_of(path@) is Some,
            old(self).layout_of(path@) matches Some(r0) ==> final(self).layout_of(path@) == Some(
                rect_placed_at(r0, offset),
            ),
            old(self).layout_of(path@) is None ==> exists|d: kurbo::Rect|
                zero_area(d) && final(self).layout_of(path@) == Some(#[trigger] rect_placed_at(d, offset)),
            forall|p: Seq<u64>| p != path@ ==> final(self).layout_of(p) == old(self).layout_of(p),
    {
        let base = match self.find(path) {
            Some(i) => {
                proof {
                    let k = choose|k: int| 0 <= k < self.list().len() && self.list()[k].0 == path@;
                    assert(k == i);
                }
                self.entries[i].1
            },
            None => rect_default(),
        };
        self.update_layout(path, rect_with_origin(base, offset));
    }
}

/// The entries of `s` whose id (the entry of `pid` at the same place) is in
/// `keep`, in order.
pub open spec fn kept_layouts(
    s: Seq<(Seq<u64>, kurbo::Rect)>,
    pid: Seq<ViewId>,
    keep: Seq<ViewId>,
) -> Seq<(Seq<u64>, kurbo::Rect)>
    decreases s.len(),
{
    if s.len() == 0 {
        Seq::empty()
    } else {
        let r = kept_layouts(s.drop_last(), pid.drop_last(), keep);
        if keep.contains(pid.last()) {
            r.push(s.last())
        } else {
            r
        }
    }
}

/// Every kept entry is an entry of `s` whose id is kept.
proof fn lemma_kept_layouts_from(s: Seq<(Seq<u64>, kurbo::Rect)>, pid: Seq<ViewId>, keep: Seq<ViewId>)
    requires
        pid.len() == s.len(),
    ensures
        forall|a: int| #![trigger kept_layouts(s, pid, keep)[a]] 0 <= a < kept_layouts(s, pid, keep).len()
            ==> exists|j: int| #![trigger s[j]] 0 <= j < s.len() && kept_layouts(s, pid, keep)[a] == s[j]
                && keep.contains(pid[j]),
    decreases s.len(),
{
    if s.len() > 0 {
        let d = s.drop_last();
        let pd = pid.drop_last();
        let r = kept_layouts(d, pd, keep);
        lemma_kept_layouts_from(d, pd, keep);
        assert forall|a: int| #![trigger kept_layouts(s, pid, keep)[a]] 0 <= a < kept_layouts(s, pid, keep).len() implies exists|j: int|
            #![trigger s[j]] 0 <= j < s.len() && kept_layouts(s, pid, keep)[a] == s[j] && keep.contains(pid[j]) by {
            if a < r.len() {
                let j = choose|j: int| #![trigger d[j]] 0 <= j < d.len() && r[a] == d[j] && keep.contains(pd[j]);
                assert(kept_layouts(s, pid, keep)[a] == r[a] && d[j] == s[j] && pd[j] == pid[j]);
            } else {
                assert(kept_layouts(s, pid, keep)[a] == s[s.len() - 1] && pid[s.len() - 1] == pid.last());
            }
        }
    } else {
        assert(kept_layouts(s, pid, keep).len() == 0);
    }
}

/// An entry of `s` whose id is kept is kept.
proof fn lemma_kept_layouts_to(s: Seq<(Seq<u64>, kurbo::Rect)>, pid: Seq<ViewId>, keep: Seq<ViewId>, j: int)
    requires
        pid.len() == s.len(),
        0 <= j < s.len(),
        keep.contains(pid[j]),
    ensures
        exists|a: int| 0 <= a < kept_layouts(s, pid, keep).len() && #[trigger] kept_layouts(s, pid, keep)[a] == s[j],
    decreases s.len(),
{
    let d = s.drop_last();
    let pd = pid.drop_last();
    let r = kept_layouts(d, pd, keep);
    let t = kept_layouts(s, pid, keep);
    let n = s.len() - 1;
    assert(pid.last() == pid[n] && s.last() == s[n]);
    assert(t == (if keep.contains(pid[n]) { r.push(s[n]) } else { r }));
    if j < n {
        assert(d[j] == s[j] && pd[j] == pid[j]);
        lemma_kept_layouts_to(d, pd, keep, j);
        let a = choose|a: int| 0 <= a < r.len() && #[trigger] r[a] == d[j];
        assert(t[a] == r[a]);
    } else {
        assert(t[r.len() as int] == s[j]);
    }
}

/// No path is kept twice.
proof fn lemma_kept_layouts_distinct(s: Seq<(Seq<u64>, kurbo::Rect)>, pid: Seq<ViewId>, keep: Seq<ViewId>)
    requires
        pid.len() == s.len(),
        paths_distinct(s),
    ensures
        paths_distinct(kept_layouts(s, pid, keep)),
    decreases s.len(),
{
    if s.len() > 0 {
        let d = s.drop_last();
        let pd = pid.drop_last();
        let r = kept_layouts(d, pd, keep);
        let t = kept_layouts(s, pid, keep);
        let n = s.len() - 1;
        assert(paths_distinct(d)) by {
            assert forall|a: int, b: int| 0 <= a < b < d.len() implies d[a].0 != d[b].0 by {
                assert(d[a] == s[a] && d[b] == s[b]);
            }
        }
        lemma_kept_layouts_distinct(d, pd, keep);
        lemma_kept_layouts_from(d, pd, keep);
        if keep.contains(pid.last()) {
            assert forall|a: int, b: int| 0 <= a < b < t.len() implies t[a].0 != t[b].0 by {
                assert(t[a] == r[a]);
                if b < r.len() {
                    assert(t[b] == r[b]);
                } else {
                    let j = choose|j: int| #![trigger d[j]] 0 <= j < d.len() && r[a] == d[j] && keep.contains(pd[j]);
                    assert(d[j] == s[j]);
                    assert(t[b] == s[n]);
                }
            }
        }
    }
}

impl LayoutMap {
    /// Keeps the layouts of the views whose id is in `keep` and drops the
    /// others. Each laid-out path is given its id by `ids`, so a laid-out
    /// path that had no id gets one.
    pub fn retain_layouts(&mut self, ids: &mut Context, keep: &Vec<ViewId>)
        requires
            old(self).wf(),
            old(ids).wf(),
            old(ids).next_id().id + old(self).list().len() <= u64::MAX,
        ensures
            final(self).wf(),
            final(ids).wf(),
            forall|p: Seq<u64>| old(ids).id_of(p) is Some ==> final(ids).id_of(p) == old(ids).id_of(p),
            forall|p: Seq<u64>| old(self).layout_of(p) is Some ==> final(ids).id_of(p) is Some,
            forall|p: Seq<u64>| #[trigger] final(self).layout_of(p) == (if old(self).layout_of(p) is Some
                && keep@.contains(final(ids).id_of(p).unwrap()) {
                old(self).layout_of(p)
            } else {
                None
            }),
            final(ids).state_list() == old(ids).state_list(),
            final(ids).is_dirty() == old(ids).is_dirty(),
            final(ids).dirty_enabled() == old(ids).dirty_enabled(),
    {
        let ghost old_list = self.list();
        let ghost ids0 = *ids;
        let mut path_ids: Vec<ViewId> = Vec::new();
        let mut i: usize = 0;
        while i < self.entries.len()
            invariant
                self.list() == old_list,
                paths_distinct(old_list),
                i <= old_list.len(),
                ids.wf(),
                ids.next_id().id + (old_list.len() - i) <= u64::MAX,
                ids.state_list() == ids0.state_list(),
                ids.is_dirty() == ids0.is_dirty(),
                ids.dirty_enabled() == ids0.dirty_enabled(),
                forall|p: Seq<u64>| ids0.id_of(p) is Some ==> ids.id_of(p) == ids0.id_of(p),
                path_ids@.len() == i,
                forall|j: int| 0 <= j < i ==> ids.id_of(#[trigger] old_list[j].0) == Some(path_ids@[j]),
            decreases old_list.len() - i,
        {
            let ghost before = *ids;
            let id = ids.view_id(&self.entries[i].0);
            proof {
                assert(old_list[i as int].0 == self.entries@[i as int].0@);
                assert forall|j: int| 0 <= j < i implies ids.id_of(#[trigger] old_list[j].0) == Some(path_ids@[j]) by {
                    assert(old_list[j].0 != old_list[i as int].0);
                }
                assert forall|p: Seq<u64>| ids0.id_of(p) is Some implies ids.id_of(p) == ids0.id_of(p) by {
                    assert(before.id_of(p) == ids0.id_of(p));
                }
            }
            path_ids.push(id);
            i = i + 1;
        }
        let mut kept: Vec<(Vec<u64>, kurbo::Rect)> = Vec::new();
        let mut k: usize = 0;
        while k < self.entries.len()
            invariant
                self.list() == old_list,
                k <= old_list.len(),
                path_ids@.len() == old_list.len(),
                kept@.map_values(|e: (Vec<u64>, kurbo::Rect)| (e.0@, e.1)) == kept_layouts(
                    old_list.take(k as int),
                    path_ids@.take(k as int),
                    keep@,
                ),
            decreases old_list.len() - k,
        {
            let key = copy_path(&self.entries[k].0);
            let rect = self.entries[k].1;
            let ghost before = kept@;
            proof {
                assert(old_list.take(k + 1 as int).drop_last() =~= old_list.take(k as int));
                assert(path_ids@.take(k + 1 as int).drop_last() =~= path_ids@.take(k as int));
                assert(old_list[k as int] == (key@, rect));
            }
            if contains_view_id(keep, path_ids[k]) {
                kept.push((key, rect));
                proof {
                    assert(kept@.map_values(|e: (Vec<u64>, kurbo::Rect)| (e.0@, e.1)) =~= before.map_values(
                        |e: (Vec<u64>, kurbo::Rect)| (e.0@, e.1),
                    ).push((key@, rect)));
                }
            }
            k = k + 1;
        }
        proof {
            assert(old_list.take(old_list.len() as int) =~= old_list);
            assert(path_ids@.take(old_list.len() as int) =~= path_ids@);
            lemma_kept_layouts_from(old_list, path_ids@, keep@);
            lemma_kept_layouts_distinct(old_list, path_ids@, keep@);
        }
        self.entries = kept;
        proof {
            let l = self.list();
            assert forall|p: Seq<u64>| old(self).layout_of(p) is Some implies ids.id_of(p) is Some by {
                let j = choose|j: int| 0 <= j < old_list.len() && old_list[j].0 == p;
                assert(ids.id_of(old_list[j].0) == Some(path_ids@[j]));
            }
            assert forall|p: Seq<u64>| #[trigger] self.layout_of(p) == (if old(self).layout_of(p) is Some
                && keep@.contains(ids.id_of(p).unwrap()) {
                old(self).layout_of(p)
            } else {
                None
            }) by {
                if exists|a: int| 0 <= a < l.len() && l[a].0 == p {
                    let a = choose|a: int| 0 <= a < l.len() && l[a].0 == p;
                    let j = choose|j: int| #![trigger old_list[j]] 0 <= j < old_list.len() && l[a] == old_list[j] && keep@.contains(path_ids@[j]);
                    assert(ids.id_of(old_list[j].0) == Some(path_ids@[j]));
                    let j2 = choose|j2: int| 0 <= j2 < old_list.len() && old_list[j2].0 == p;
                    assert(j2 == j);
                } else {
                    if old(self).layout_of(p) is Some && keep@.contains(ids.id_of(p).unwrap()) {
                        let j = choose|j: int| 0 <= j < old_list.len() && old_list[j].0 == p;
                        assert(ids.id_of(old_list[j].0) == Some(path_ids@[j]));
                        lemma_kept_layouts_to(old_list, path_ids@, keep@, j);
                        let a = choose|a: int| 0 <= a < l.len() && #[trigger] l[a] == old_list[j];
                        assert(l[a].0 == p);
                    }
                }
            }
        }
    }
}

/// The clean-up that follows a pass over the view tree which found the
/// views `keep` still in it: the state of every other view is dropped, and
/// so is the layout of every path whose view is not kept.
pub fn retain_views(states: &mut Context, layouts: &mut LayoutMap, keep: &Vec<ViewId>)
    requires
        old(states).wf(),
        old(layouts).wf(),
        old(states).next_id().id + old(layouts).list().len() <= u64::MAX,
    ensures
        final(states).wf(),
        final(layouts).wf(),
        forall|x: ViewId| final(states).has_state(x) == (old(states).has_state(x) && keep@.contains(x)),
        forall|x: ViewId| final(states).state_changed(x) == (old(states).state_changed(x) && keep@.contains(x)),
        forall|p: Seq<u64>| old(states).id_of(p) is Some ==> final(states).id_of(p) == old(states).id_of(p),
        forall|p: Seq<u64>| #[trigger] final(layouts).layout_of(p) == (if old(layouts).layout_of(p) is Some
            && keep@.contains(final(states).id_of(p).unwrap()) {
            old(layouts).layout_of(p)
        } else {
            None
        }),
        final(states).is_dirty() == old(states).is_dirty(),
        final(states).dirty_enabled() == old(states).dirty_enabled(),
{
    states.retain_states(keep);
    layouts.retain_layouts(states, keep);
}

/// Whether `ids` contains `id`.
fn contains_view_id(ids: &Vec<ViewId>, id: ViewId) -> (r: bool)
    ensures
        r == ids@.contains(id),
{
    crate::ui_state::contains_id(ids, id)
}

} // verus!
