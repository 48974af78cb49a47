//! The steps of an update of the view tree, taken once the event queue is
//! cleared. The host runs the passes over the views in between: after
//! [`begin_update`] says a clean-up is due, it collects the ids of the
//! views still in the tree, hands them to `layout::retain_views`, lays the
//! tree out, marks what must be drawn again, and ends with
//! `ui_state::Context::clear_dirty`.

use vstd::prelude::*;
use crate::dependencies::Dependencies;
use crate::ui_state::Context;
use crate::view_id::ViewId;

verus! {

/// Starts an update: when the window changed size, every recorded
/// dependency is forgotten, so that every layout is computed again. The
/// result says whether the tree must be cleaned up and laid out again:
/// whether some state changed since the last update.
pub fn begin_update(states: &Context, deps: &mut Dependencies, size_changed: bool) -> (clean_up: bool)
    requires
        old(deps).wf(),
    ensures
        clean_up == states.is_dirty(),
        final(deps).wf(),
        size_changed ==> forall|x: ViewId| final(deps).deps_of(x) is None,
        !size_changed ==> *final(deps) == *old(deps),
        final(deps).stack() == old(deps).stack(),
{
    if size_changed {
        deps.clear();
    }
    states.dirty()
}

} // verus!
