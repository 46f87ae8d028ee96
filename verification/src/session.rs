//! The process-wide session slot: an option-typed cell holding at most one
//! live session.  Initialization is test-and-set — a second attempt while a
//! session is live is rejected cleanly and never allocates a second
//! connection — and release clears the cell.

use vstd::prelude::*;
use crate::iface::AtcaIfaceCfg;
use crate::status::AtcaStatus;
use crate::sw_impl;
use crate::AteccDevice;

verus! {

/// Owner of the single live session.  An application holds one manager for
/// the one bus it drives and routes every construction through it.
pub struct AteccSessionManager {
    slot: Option<sw_impl::AteccDevice>,
}

impl AteccSessionManager {
    #[verifier::type_invariant]
    spec fn wf(self) -> bool {
        self.slot matches Some(device) ==> device.is_alive()
    }

    /// Whether a session is currently live.
    pub closed spec fn has_live_session(&self) -> bool {
        self.slot is Some
    }

    /// How many sessions are currently live; never more than one.
    pub closed spec fn spec_live_count(&self) -> nat {
        if self.slot is Some {
            1nat
        } else {
            0nat
        }
    }

    /// An empty slot: no session is live.
    pub fn new() -> (manager: Self)
        ensures
            !manager.has_live_session(),
    {
        AteccSessionManager { slot: None }
    }

    /// Whether a session is currently live.
    pub fn active(&self) -> (active: bool)
        ensures
            active == self.has_live_session(),
    {
        self.slot.is_some()
    }

    /// Claims the slot and constructs the session `r_iface_cfg` selects.
    /// While a session is live, any further attempt is rejected and the slot
    /// is left untouched, so two connections are never outstanding at once.
    pub fn init(&mut self, r_iface_cfg: AtcaIfaceCfg) -> (result: Result<(), String>)
        ensures
            old(self).has_live_session() ==> (result matches Err(message) && message@
                == "a device session is already active"@ && *final(self) == *old(self)),
            !old(self).has_live_session() && crate::spec_is_test_device(r_iface_cfg.devtype)
                ==> (result matches Ok(unit) && final(self).has_live_session()),
            !old(self).has_live_session() && !crate::spec_is_test_device(r_iface_cfg.devtype) ==> (
            result matches Err(message) && !final(self).has_live_session()),
    {
        if self.slot.is_some() {
            return Err("a device session is already active".to_owned());
        }
        match crate::create_atecc_device(r_iface_cfg) {
            Ok(device) => {
                self.slot = Some(device);
                Ok(())
            },
            Err(message) => Err(message),
        }
    }

    /// Releases the live session, if any, and clears the slot.  Idempotent:
    /// with no session live there is nothing to release, and the call reports
    /// so without touching anything.
    pub fn release(&mut self) -> (status: AtcaStatus)
        ensures
            !final(self).has_live_session(),
            old(self).has_live_session() ==> status == AtcaStatus::AtcaSuccess,
            !old(self).has_live_session() ==> status == AtcaStatus::AtcaNotInitialized
                && *final(self) == *old(self),
    {
        proof {
            use_type_invariant(&*self);
        }
        let mut taken: Option<sw_impl::AteccDevice> = None;
        core::mem::swap(&mut self.slot, &mut taken);
        match taken {
            Some(mut device) => device.release(),
            None => AtcaStatus::AtcaNotInitialized,
        }
    }
}

/// At most one session is ever live: the slot holds one session or none.
pub proof fn lemma_at_most_one_live_session(manager: AteccSessionManager)
    ensures
        manager.spec_live_count() <= 1,
{
}

} // verus!
