//! What an item's task asks of the bar when it ends.

use vstd::prelude::*;

verus! {

/// What becomes of an item whose task has finished.
#[derive(Debug, Clone, Copy, PartialEq, Eq, Structural)]
pub enum StopAction {
    /// The task finished, and the item stays in the bar.
    Complete,
    /// The task finished, and the item is removed from the bar.
    Remove,
    /// The task finished, and is started again.
    Restart,
}

impl Default for StopAction {
    fn default() -> (r: StopAction)
        ensures
            r == StopAction::Complete,
    {
        StopAction::Complete
    }
}

} // verus!
