//! Alignment of a view within its parent.

use vstd::prelude::*;

verus! {

/// Horizontal alignment.
#[derive(Copy, Clone, Debug, PartialEq, Eq, Structural)]
pub enum HAlignment {
    Leading,
    Center,
    Trailing,
}

/// Vertical alignment.
#[derive(Copy, Clone, Debug, PartialEq, Eq, Structural)]
pub enum VAlignment {
    Top,
    Middle,
    Bottom,
}

} // verus!
