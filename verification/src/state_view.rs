//! The bookkeeping a stateful view does around its child: whether its
//! layout must be computed again, what it depends on once computed, and
//! which part of the window must be drawn again after its state changed.

use vstd::prelude::*;
use crate::dependencies::Dependencies;
use crate::geometry::{rect_moved, translate_rect, zero_area};
use crate::layout::LayoutMap;
use crate::region::Region;
use crate::ui_state::{Context, IdPath};
use crate::view_id::ViewId;

verus! {

/// Starts the layout of the stateful view `id`: the view is given state if
/// it had none, and its layout is computed again when no dependencies were
/// recorded for it or the state of one of them changed. When it is, `id`
/// is pushed on the stack of views being laid out and `true` is returned.
pub fn begin_layout(states: &mut Context, deps: &mut Dependencies, id: ViewId) -> (compute: bool)
    requires
        old(states).wf(),
        old(deps).wf(),
    ensures
        final(states).wf(),
        final(deps).wf(),
        final(states).has_state(id),
        forall|x: ViewId| x != id ==> final(states).has_state(x) == old(states).has_state(x),
        forall|x: ViewId| final(states).state_changed(x) == old(states).state_changed(x),
        compute == match old(deps).deps_of(id) {
            None => true,
            Some(ds) => crate::dependencies::any_changed(&*old(states), ds),
        },
        final(deps).stack() == (if compute {
            old(deps).stack().push(id)
        } else {
            old(deps).stack()
        }),
        forall|x: ViewId| final(deps).deps_of(x) == old(deps).deps_of(x),
{
    let _ = states.init_state(id);
    let ghost st = *states;
    proof {
        assert forall|ds: Seq<ViewId>| crate::dependencies::any_changed(&st, ds)
            == crate::dependencies::any_changed(&*old(states), ds) by {
            if crate::dependencies::any_changed(&st, ds) {
                let i = choose|i: int| 0 <= i < ds.len() && st.state_changed(#[trigger] ds[i]);
                assert(old(states).state_changed(ds[i]));
            }
            if crate::dependencies::any_changed(&*old(states), ds) {
                let i = choose|i: int| 0 <= i < ds.len() && old(states).state_changed(#[trigger] ds[i]);
                assert(st.state_changed(ds[i]));
            }
        }
    }
    let compute = deps.needs_layout(states, id);
    if compute {
        deps.push_id(id);
    }
    compute
}

/// Ends the layout of the stateful view `id` at `path`, begun with `id`
/// pushed last: its dependencies become the views being laid out followed
/// by the stateful views its child reported (`child_ids`), `id` is taken
/// off the stack, and `rect`, the child's layout, is stored for `path`.
pub fn end_layout(
    deps: &mut Dependencies,
    layouts: &mut LayoutMap,
    path: &IdPath,
    id: ViewId,
    child_ids: &Vec<ViewId>,
    rect: kurbo::Rect,
)
    requires
        old(deps).wf(),
        old(layouts).wf(),
    ensures
        final(deps).wf(),
        final(layouts).wf(),
        final(deps).deps_of(id) == Some(old(deps).stack() + child_ids@),
        forall|x: ViewId| x != id ==> final(deps).deps_of(x) == old(deps).deps_of(x),
        final(deps).stack() == (if old(deps).stack().len() == 0 {
            old(deps).stack()
        } else {
            old(deps).stack().drop_last()
        }),
        final(layouts).layout_of(path@) == Some(rect),
        forall|p: Seq<u64>| p != path@ ==> final(layouts).layout_of(p) == old(layouts).layout_of(p),
{
    deps.finish_layout(id, child_ids);
    layouts.update_layout(path, rect);
}

/// The dirty-region step of the stateful view `id` at `path`, which `xform`
/// moves into window coordinates. The view is given state if it had none.
/// When its state changed, its layout rectangle, moved, is added to
/// `region` and its child need not be visited (`false`); otherwise nothing
/// is added and the child must be visited (`true`).
pub fn mark_dirty(
    states: &mut Context,
    layouts: &LayoutMap,
    region: &mut Region,
    path: &IdPath,
    id: ViewId,
    xform: kurbo::Vec2,
) -> (visit_child: bool)
    requires
        old(states).wf(),
        layouts.wf(),
    ensures
        final(states).wf(),
        final(states).has_state(id),
        forall|x: ViewId| x != id ==> final(states).has_state(x) == old(states).has_state(x),
        forall|x: ViewId| final(states).state_changed(x) == old(states).state_changed(x),
        visit_child == !old(states).state_changed(id),
        visit_child ==> final(region).spec_rects() == old(region).spec_rects(),
        !visit_child ==> (layouts.layout_of(path@) matches Some(rect) ==> final(region).spec_rects() == (
        if zero_area(rect_moved(rect, xform)) {
            old(region).spec_rects()
        } else {
            old(region).spec_rects().push(rect_moved(rect, xform))
        })),
        !visit_child ==> (layouts.layout_of(path@) is None ==> exists|d: kurbo::Rect|
            #![trigger rect_moved(d, xform)]
            zero_area(d) && final(region).spec_rects() == (if zero_area(rect_moved(d, xform)) {
            old(region).spec_rects()
        } else {
            old(region).spec_rects().push(rect_moved(d, xform))
        })),
{
    let _ = states.init_state(id);
    if states.is_state_dirty(id) {
        let rect = layouts.get_layout(path);
        region.add_rect(translate_rect(rect, xform));
        false
    } else {
        true
    }
}

} // verus!
