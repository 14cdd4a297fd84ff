//! A handle that pins a reference to one service at a time. Rebinding it
//! releases the old service's reference and takes one on the new service.
//!
//! Services are shared objects owned elsewhere, so the handle stores an
//! identifier: a nonzero number naming a service, or [`NO_SERVICE`] for
//! none. Rebinding reports which identifiers must be released and taken;
//! the owner of the service objects applies those to `Service::unref_service`
//! and `Service::ref_service` (in that order, as returned).

use vstd::prelude::*;

verus! {

/// The identifier meaning "no service bound".
pub const NO_SERVICE: u64 = 0;

/// What a rebinding asks of the caller.
#[derive(Clone, Copy, PartialEq, Eq, Structural, Debug)]
pub struct ServiceSwitch {
    /// Whether the binding changed (the owner's change notification fires
    /// exactly then).
    pub changed: bool,
    /// A reference to release first, if any.
    pub unref_old: Option<u64>,
    /// A reference to take afterwards, if any.
    pub ref_new: Option<u64>,
}

/// A rebindable reference to at most one service.
pub struct ServiceRef {
    service: u64,
}

impl ServiceRef {
    /// The bound service's identifier, or `NO_SERVICE`.
    pub closed spec fn spec_service(self) -> u64 {
        self.service
    }

    /// The bound service's identifier, or `NO_SERVICE`.
    pub fn service(&self) -> (r: u64)
        ensures
            r == self.spec_service(),
    {
        self.service
    }

    /// Rebinds the handle. A no-op when the new identifier equals the old
    /// one. Otherwise the old service (if any) is to be released and the
    /// new one (if any) to be taken, in that order.
    pub fn set_service(&mut self, new_service: u64) -> (r: ServiceSwitch)
        ensures
            new_service == old(self).spec_service() ==> final(self).spec_service() == old(
                self,
            ).spec_service() && r == (ServiceSwitch {
                changed: false,
                unref_old: None,
                ref_new: None,
            }),
            new_service != old(self).spec_service() ==> final(self).spec_service() == new_service
                && r.changed && r.unref_old == (if old(self).spec_service() != NO_SERVICE {
                Some(old(self).spec_service())
            } else {
                None::<u64>
            }) && r.ref_new == (if new_service != NO_SERVICE {
                Some(new_service)
            } else {
                None::<u64>
            }),
    {
        if self.service == new_service {
            return ServiceSwitch { changed: false, unref_old: None, ref_new: None };
        }
        let unref_old = if self.service != NO_SERVICE {
            Some(self.service)
        } else {
            None
        };
        self.service = new_service;
        let ref_new = if new_service != NO_SERVICE {
            Some(new_service)
        } else {
            None
        };
        ServiceSwitch { changed: true, unref_old, ref_new }
    }
}

impl Default for ServiceRef {
    /// A fresh handle: nothing bound.
    fn default() -> (s: ServiceRef)
        ensures
            s.spec_service() == NO_SERVICE,
    {
        ServiceRef { service: NO_SERVICE }
    }
}

} // verus!
