//! A result that says whether something changed.

use vstd::prelude::*;

verus! {

/// Little enum to make it clearer what some return values mean.
#[derive(Copy, Clone, Debug, PartialEq, Eq, Structural)]
pub enum Changed {
    Changed,
    Unchanged,
}

impl Changed {
    /// Whether something changed.
    pub fn is_changed(self) -> (r: bool)
        ensures
            r == (self == Changed::Changed),
    {
        match self {
            Changed::Changed => true,
            Changed::Unchanged => false,
        }
    }
}

} // verus!
