//! The closed set of mutations that the engine accepts.

use vstd::prelude::*;

verus! {

/// A request to change the counter. It carries no payload.
#[derive(Clone, Copy, Debug, PartialEq, Eq, Structural)]
pub enum Action {
    /// Take one off the counter, unless it is not positive.
    DecrementCounter,
    /// Add one to the counter.
    IncrementCounter,
    /// Put the counter and the title back to their reset values.
    ResetCounter,
}

} // verus!
