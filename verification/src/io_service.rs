//! Configuration of an I/O service.

use vstd::prelude::*;

verus! {

/// How an I/O service is set up.
pub struct IOServiceOpt {
    /// Number of channels that deliver incoming messages to the user.
    pub num_message_receiver: u32,
    /// Whether the endpoints run in deterministic testing mode.
    pub testing: bool,
    /// Whether the service offers blocking (rather than async) interfaces.
    pub sync_service: bool,
}

} // verus!
