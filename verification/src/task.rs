//! Outcomes of the tasks that the runtime spawns.

use vstd::prelude::*;

verus! {

/// Why a task that was raced against a stop signal and a timeout did not
/// deliver its output.
pub enum TaskFailed {
    /// The stop signal came first.
    Cancel,
    /// The timeout expired first.
    Timeout,
}

} // verus!
