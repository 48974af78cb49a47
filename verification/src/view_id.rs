//! Identifiers of views.

use vstd::prelude::*;

verus! {

/// Identifies a view across frames, so that its state and layout can be
/// found again.
#[derive(Copy, Clone, Debug, Default, PartialEq, Eq, Structural, Hash, PartialOrd, Ord)]
pub struct ViewId {
    pub id: u64,
}

} // verus!
