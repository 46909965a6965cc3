use vstd::prelude::*;

verus! {

/// The modes in which a pager can run. `Uninitialized` means that no pager
/// has been constructed yet; it is never the mode of a live pager.
#[derive(Copy, Clone, Debug, PartialEq, Eq, Structural)]
pub enum RunMode {
    Static,
    Dynamic,
    Uninitialized,
}

impl RunMode {
    /// Returns true if no pager has started.
    pub fn is_uninitialized(self) -> (r: bool)
        ensures
            r == (self == RunMode::Uninitialized),
    {
        self == RunMode::Uninitialized
    }
}

} // verus!
