//! Options of a message send.

use vstd::prelude::*;

verus! {

/// Options of a message send.
pub struct OptSend {
    no_wait: bool,
}

impl OptSend {
    /// Whether the send returns without waiting for the message to be handed
    /// to the network.
    pub closed spec fn spec_no_wait(&self) -> bool {
        self.no_wait
    }

    /// The default options: wait.
    pub fn new() -> (r: Self)
        ensures
            !r.spec_no_wait(),
    {
        Self { no_wait: false }
    }

    /// Whether the send returns without waiting.
    pub fn is_enable_no_wait(&self) -> (r: bool)
        ensures
            r == self.spec_no_wait(),
    {
        self.no_wait
    }

    /// The same options with `no_wait` set to the given value.
    pub fn enable_no_wait(self, no_wait: bool) -> (r: Self)
        ensures
            r.spec_no_wait() == no_wait,
    {
        let mut s = self;
        s.no_wait = no_wait;
        s
    }
}

impl Default for OptSend {
    fn default() -> (r: Self)
        ensures
            !r.spec_no_wait(),
    {
        Self::new()
    }
}

} // verus!
