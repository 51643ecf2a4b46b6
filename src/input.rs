//! What the user asked of the display on one frame.
use vstd::prelude::*;

verus! {

/// A user request gathered from the display's input events.
#[derive(Clone, Copy, Debug, PartialEq, Eq, Structural)]
pub enum UserAction {
    /// Nothing was asked.
    Idle,
    /// Return the orientation estimate to the identity and restart timing.
    Reset,
}

} // verus!
