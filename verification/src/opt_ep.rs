//! Options of a network endpoint.

use vstd::prelude::*;

verus! {

/// Options of a network endpoint.
pub struct OptEP {
    dtm_test: bool,
}

impl OptEP {
    /// Whether the endpoint runs in deterministic testing mode, where
    /// outgoing messages are dropped and incoming ones that do not decode
    /// as messages are read as JSON test actions.
    pub closed spec fn spec_dtm_test(&self) -> bool {
        self.dtm_test
    }

    /// The default options: testing mode off.
    pub fn new() -> (r: Self)
        ensures
            !r.spec_dtm_test(),
    {
        Self { dtm_test: false }
    }

    /// Whether the endpoint runs in testing mode.
    pub fn is_enable_dtm_test(&self) -> (r: bool)
        ensures
            r == self.spec_dtm_test(),
    {
        self.dtm_test
    }

    /// The same options with testing mode set to the given value.
    pub fn enable_dtm_test(self, dtm_test: bool) -> (r: Self)
        ensures
            r.spec_dtm_test() == dtm_test,
    {
        let mut s = self;
        s.dtm_test = dtm_test;
        s
    }
}

impl Default for OptEP {
    fn default() -> (r: Self)
        ensures
            !r.spec_dtm_test(),
    {
        Self::new()
    }
}

} // verus!
