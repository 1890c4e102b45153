//! A sink of incoming messages that drops them.

use vstd::prelude::*;

verus! {

/// A receiver of incoming messages that accepts and drops each of them.
pub struct MessageIncomingDummy {}

impl MessageIncomingDummy {
    /// A new receiver.
    pub fn new() -> (r: Self) {
        Self {}
    }
}

impl Default for MessageIncomingDummy {
    fn default() -> (r: Self) {
        Self::new()
    }
}

} // verus!
