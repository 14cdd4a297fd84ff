//! A reference-counted service capability: consumers take and release
//! references, and the service must be started exactly when the count
//! leaves zero and stopped exactly when it returns to zero.
//!
//! The count lives here, verified; the start and stop hooks are the
//! caller's (a concrete service overrides them), so each operation reports
//! whether its hook must fire.

use vstd::prelude::*;

verus! {

/// A service with a reference count that drives its lifecycle.
pub struct Service {
    ref_count: i32,
}

impl Service {
    /// The current reference count.
    pub closed spec fn spec_ref_count(self) -> i32 {
        self.ref_count
    }

    /// The count never goes below zero.
    pub open spec fn wf(self) -> bool {
        self.spec_ref_count() >= 0
    }

    /// The current reference count.
    pub fn ref_count(&self) -> (r: i32)
        ensures
            r == self.spec_ref_count(),
    {
        self.ref_count
    }

    /// Takes one reference. Returns whether the service's start hook must
    /// fire, which is exactly when the count was zero.
    pub fn ref_service(&mut self) -> (needs_start: bool)
        requires
            old(self).wf(),
            old(self).spec_ref_count() < i32::MAX,
        ensures
            final(self).wf(),
            final(self).spec_ref_count() == old(self).spec_ref_count() + 1,
            needs_start == (old(self).spec_ref_count() == 0),
    {
        let needs_start = self.ref_count == 0;
        self.ref_count = self.ref_count + 1;
        needs_start
    }

    /// Releases one reference; a no-op when none is held. Returns whether
    /// the service's stop hook must fire, which is exactly when the count
    /// returns to zero.
    pub fn unref_service(&mut self) -> (needs_stop: bool)
        requires
            old(self).wf(),
        ensures
            final(self).wf(),
            old(self).spec_ref_count() == 0 ==> final(self).spec_ref_count() == 0 && !needs_stop,
            old(self).spec_ref_count() > 0 ==> final(self).spec_ref_count() == old(
                self,
            ).spec_ref_count() - 1,
            needs_stop == (old(self).spec_ref_count() == 1),
    {
        if self.ref_count == 0 {
            return false;
        }
        self.ref_count = self.ref_count - 1;
        self.ref_count == 0
    }
}

impl Default for Service {
    /// A fresh service: no references held.
    fn default() -> (s: Service)
        ensures
            s.spec_ref_count() == 0,
            s.wf(),
    {
        Service { ref_count: 0 }
    }
}

} // verus!
