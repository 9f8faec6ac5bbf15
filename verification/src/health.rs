use vstd::prelude::*;

verus! {

/// The service's readiness signal: raised once the dependent resources
/// (session pool, auth client) are up, and read by health probes.
pub struct HealthChecker {
    serving: bool,
}

impl HealthChecker {
    pub closed spec fn is_serving(self) -> bool {
        self.serving
    }

    /// A fresh checker reports not-serving until the resources are ready.
    pub fn new() -> (h: HealthChecker)
        ensures
            !h.is_serving(),
    {
        HealthChecker { serving: false }
    }

    /// Raises the readiness flag.
    pub fn set_serving(&mut self)
        ensures
            final(self).is_serving(),
    {
        self.serving = true;
    }

    /// Answers a health probe: whether the service is serving.
    pub fn check(&self) -> (ok: bool)
        ensures
            ok == self.is_serving(),
    {
        self.serving
    }
}

} // verus!
