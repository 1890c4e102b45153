//! Handlers of the events of a node's runtime.

use vstd::prelude::*;

verus! {

/// An event handler that accepts every event and does nothing with it.
#[derive(Clone)]
pub struct HandleEventDummy {}

impl Default for HandleEventDummy {
    fn default() -> (r: Self) {
        Self {}
    }
}

} // verus!
