//! Boot-time security checks.

use vstd::prelude::*;

verus! {

pub struct SecurityManager {
    enabled: bool,
}

impl SecurityManager {
    /// Whether encryption is enabled.
    pub closed spec fn is_enabled(&self) -> bool {
        self.enabled
    }

    pub fn new(enabled: bool) -> (res: Self)
        ensures
            res.is_enabled() == enabled,
    {
        SecurityManager { enabled }
    }

    /// The boot check; it passes unconditionally for now.
    pub fn verify_boot(&self) -> (res: bool)
        ensures
            res,
    {
        true
    }
}

} // verus!
