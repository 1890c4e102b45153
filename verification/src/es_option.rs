//! Options of the event-sink requests (stop, serve, connect).

use vstd::prelude::*;

verus! {

/// Options of a stop, serve or signal request on an event sink.
pub struct ESOption {
    no_wait: bool,
}

/// Options of a stop request.
pub type ESStopOpt = ESOption;

/// Options of a serve request.
pub type ESServeOpt = ESOption;

/// Options of a connect request.
pub type ESConnectOpt = ESConnectOption;

/// Options of a signal request.
pub type ESSignalOpt = ESOption;

impl ESOption {
    /// Whether the request returns without waiting for its outcome.
    pub closed spec fn spec_no_wait(&self) -> bool {
        self.no_wait
    }

    /// The default options: wait for the outcome.
    pub fn new() -> (r: Self)
        ensures
            !r.spec_no_wait(),
    {
        Self { no_wait: false }
    }

    /// Whether the request returns without waiting for its outcome.
    pub fn no_wait(&self) -> (r: bool)
        ensures
            r == self.spec_no_wait(),
    {
        self.no_wait
    }

    /// The same options with `no_wait` set to the given value.
    pub fn enable_no_wait(self, no_wait: bool) -> (r: Self)
        ensures
            r.spec_no_wait() == no_wait,
    {
        let mut s = self;
        s.no_wait = no_wait;
        s
    }
}

impl Default for ESOption {
    fn default() -> (r: Self)
        ensures
            !r.spec_no_wait(),
    {
        Self::new()
    }
}

/// Options of a connect request on an event sink.
pub struct ESConnectOption {
    no_wait: bool,
    return_endpoint: bool,
}

impl ESConnectOption {
    /// Whether the request returns without waiting for its outcome.
    pub closed spec fn spec_no_wait(&self) -> bool {
        self.no_wait
    }

    /// Whether the connected endpoint is handed back to the caller instead of
    /// being registered with the node.
    pub closed spec fn spec_return_endpoint(&self) -> bool {
        self.return_endpoint
    }

    /// The default options: wait for the outcome, register the endpoint.
    pub fn new() -> (r: Self)
        ensures
            !r.spec_no_wait(),
            !r.spec_return_endpoint(),
    {
        Self { no_wait: false, return_endpoint: false }
    }

    /// Whether the request returns without waiting for its outcome.
    pub fn no_wait(&self) -> (r: bool)
        ensures
            r == self.spec_no_wait(),
    {
        self.no_wait
    }

    /// Whether the connected endpoint is handed back to the caller.
    pub fn return_endpoint(&self) -> (r: bool)
        ensures
            r == self.spec_return_endpoint(),
    {
        self.return_endpoint
    }

    /// The same options with `no_wait` set to the given value.
    pub fn enable_no_wait(self, no_wait: bool) -> (r: Self)
        ensures
            r.spec_no_wait() == no_wait,
            r.spec_return_endpoint() == self.spec_return_endpoint(),
    {
        let mut s = self;
        s.no_wait = no_wait;
        s
    }

    /// The same options with `return_endpoint` set to the given value.
    pub fn enable_return_endpoint(self, return_endpoint: bool) -> (r: Self)
        ensures
            r.spec_return_endpoint() == return_endpoint,
            r.spec_no_wait() == self.spec_no_wait(),
    {
        let mut s = self;
        s.return_endpoint = return_endpoint;
        s
    }
}

impl Default for ESConnectOption {
    fn default() -> (r: Self)
        ensures
            !r.spec_no_wait(),
            !r.spec_return_endpoint(),
    {
        Self::new()
    }
}

} // verus!
