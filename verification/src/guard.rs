//! The process-wide runtime guard: an "initialized" flag reference-counted
//! by the number of live top-level objects that need the object-activation
//! runtime. The first holder initializes; teardown happens exactly when
//! the last holder is gone, never while one is still reachable.

use vstd::prelude::*;

verus! {

/// Reference-counted initialization state of the activation runtime.
pub struct RuntimeGuard {
    holders: u64,
    initialized: bool,
}

impl RuntimeGuard {
    /// How many top-level objects currently hold the runtime.
    pub closed spec fn spec_holders(&self) -> u64 {
        self.holders
    }

    pub closed spec fn spec_initialized(&self) -> bool {
        self.initialized
    }

    /// The runtime is initialized exactly while someone holds it.
    pub open spec fn wf(&self) -> bool {
        self.spec_initialized() == (self.spec_holders() > 0)
    }

    pub fn new() -> (guard: RuntimeGuard)
        ensures
            guard.wf(),
            guard.spec_holders() == 0,
            !guard.spec_initialized(),
    {
        RuntimeGuard { holders: 0, initialized: false }
    }

    /// Takes one hold on the runtime; the first hold initializes it.
    /// Acquiring is refused only when the counter is saturated.
    pub fn acquire(&mut self) -> (acquired: bool)
        requires
            old(self).wf(),
        ensures
            final(self).wf(),
            acquired == (old(self).spec_holders() < u64::MAX),
            acquired ==> final(self).spec_holders() == old(self).spec_holders() + 1
                && final(self).spec_initialized(),
            !acquired ==> *final(self) == *old(self),
    {
        if self.holders == u64::MAX {
            return false;
        }
        self.holders = self.holders + 1;
        self.initialized = true;
        true
    }

    /// Releases one hold. The runtime is torn down exactly when the last
    /// hold goes; releasing an unheld runtime is a no-op, so teardown
    /// never runs twice.
    pub fn release(&mut self)
        requires
            old(self).wf(),
        ensures
            final(self).wf(),
            old(self).spec_holders() > 0 ==> final(self).spec_holders() == old(
                self,
            ).spec_holders() - 1,
            old(self).spec_holders() == 0 ==> *final(self) == *old(self),
            final(self).spec_initialized() == (final(self).spec_holders() > 0),
    {
        if self.holders > 0 {
            self.holders = self.holders - 1;
            if self.holders == 0 {
                self.initialized = false;
            }
        }
    }

    pub fn is_initialized(&self) -> (initialized: bool)
        ensures
            initialized == self.spec_initialized(),
    {
        self.initialized
    }

    pub fn holder_count(&self) -> (count: u64)
        ensures
            count == self.spec_holders(),
    {
        self.holders
    }
}

} // verus!
