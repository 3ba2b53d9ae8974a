//! Scoped mutual exclusion over the shared runtime resources.
//!
//! Every shared mutable resource — the crypto service, the application
//! dispatch table, the transport class objects — is guarded by its own
//! lock, taken only for the span of a task's own use. Deadlock is avoided
//! by one canonical relative order whenever a task needs more than one
//! lock at once: application table, then APDU dispatch, then CTAPHID
//! dispatch. The USB-class, contactless and crypto-service locks are
//! independent: they are never nested with each other or with the ordered
//! chain.
//!
//! [`HeldLocks::acquire`] demands the canonical order as its precondition,
//! so every verified task body is a proof that its lock trace respects the
//! order: a trace that acquired the application table while already
//! holding APDU or CTAPHID dispatch would simply not verify.

use vstd::prelude::*;

verus! {

/// The shared resources a task can lock.
#[derive(Clone, Copy, Debug, PartialEq, Eq, Structural)]
pub enum LockId {
    /// The application dispatch table.
    AppTable,
    /// The APDU dispatch object.
    ApduDispatch,
    /// The CTAPHID dispatch object.
    CtaphidDispatch,
    /// The USB class objects.
    UsbClasses,
    /// The contactless (NFC) transport object.
    Contactless,
    /// The crypto processing service.
    CryptoService,
}

/// Which locks the running task currently holds.
#[derive(Clone, Copy, Debug, PartialEq, Eq, Structural)]
pub struct HeldLocks {
    /// The application dispatch table lock is held.
    pub app_table: bool,
    /// The APDU dispatch lock is held.
    pub apdu: bool,
    /// The CTAPHID dispatch lock is held.
    pub ctaphid: bool,
    /// The USB classes lock is held.
    pub usb_classes: bool,
    /// The contactless transport lock is held.
    pub contactless: bool,
    /// The crypto service lock is held.
    pub crypto: bool,
}

impl HeldLocks {
    /// No lock is held.
    pub open spec fn none_held(self) -> bool {
        &&& !self.app_table
        &&& !self.apdu
        &&& !self.ctaphid
        &&& !self.usb_classes
        &&& !self.contactless
        &&& !self.crypto
    }

    /// The named lock is held.
    pub open spec fn holds(self, l: LockId) -> bool {
        match l {
            LockId::AppTable => self.app_table,
            LockId::ApduDispatch => self.apdu,
            LockId::CtaphidDispatch => self.ctaphid,
            LockId::UsbClasses => self.usb_classes,
            LockId::Contactless => self.contactless,
            LockId::CryptoService => self.crypto,
        }
    }

    /// Acquiring `l` now respects the canonical lock order. The ordered
    /// chain may only grow forward — the application table before APDU
    /// dispatch before CTAPHID dispatch — and the three independent locks
    /// are taken only when nothing else is held.
    pub open spec fn may_acquire(self, l: LockId) -> bool {
        match l {
            LockId::AppTable => self.none_held(),
            LockId::ApduDispatch => !self.apdu && !self.ctaphid && !self.usb_classes
                && !self.contactless && !self.crypto,
            LockId::CtaphidDispatch => !self.ctaphid && !self.usb_classes && !self.contactless
                && !self.crypto,
            LockId::UsbClasses => self.none_held(),
            LockId::Contactless => self.none_held(),
            LockId::CryptoService => self.none_held(),
        }
    }

    /// A task that holds no lock yet.
    pub fn new() -> (r: HeldLocks)
        ensures
            r.none_held(),
    {
        HeldLocks {
            app_table: false,
            apdu: false,
            ctaphid: false,
            usb_classes: false,
            contactless: false,
            crypto: false,
        }
    }

    /// Takes the lock `l`; callable only in canonical order.
    pub fn acquire(&mut self, l: LockId)
        requires
            old(self).may_acquire(l),
        ensures
            *final(self) == (match l {
                LockId::AppTable => HeldLocks { app_table: true, ..*old(self) },
                LockId::ApduDispatch => HeldLocks { apdu: true, ..*old(self) },
                LockId::CtaphidDispatch => HeldLocks { ctaphid: true, ..*old(self) },
                LockId::UsbClasses => HeldLocks { usb_classes: true, ..*old(self) },
                LockId::Contactless => HeldLocks { contactless: true, ..*old(self) },
                LockId::CryptoService => HeldLocks { crypto: true, ..*old(self) },
            }),
    {
        match l {
            LockId::AppTable => self.app_table = true,
            LockId::ApduDispatch => self.apdu = true,
            LockId::CtaphidDispatch => self.ctaphid = true,
            LockId::UsbClasses => self.usb_classes = true,
            LockId::Contactless => self.contactless = true,
            LockId::CryptoService => self.crypto = true,
        }
    }

    /// Releases the lock `l`; a task releases everything it took before
    /// returning, on every exit path.
    pub fn release(&mut self, l: LockId)
        requires
            old(self).holds(l),
        ensures
            *final(self) == (match l {
                LockId::AppTable => HeldLocks { app_table: false, ..*old(self) },
                LockId::ApduDispatch => HeldLocks { apdu: false, ..*old(self) },
                LockId::CtaphidDispatch => HeldLocks { ctaphid: false, ..*old(self) },
                LockId::UsbClasses => HeldLocks { usb_classes: false, ..*old(self) },
                LockId::Contactless => HeldLocks { contactless: false, ..*old(self) },
                LockId::CryptoService => HeldLocks { crypto: false, ..*old(self) },
            }),
    {
        match l {
            LockId::AppTable => self.app_table = false,
            LockId::ApduDispatch => self.apdu = false,
            LockId::CtaphidDispatch => self.ctaphid = false,
            LockId::UsbClasses => self.usb_classes = false,
            LockId::Contactless => self.contactless = false,
            LockId::CryptoService => self.crypto = false,
        }
    }
}

/// The lock-order law. In any state a trace built through
/// [`HeldLocks::acquire`] can reach: the application table is never
/// acquired while APDU or CTAPHID dispatch is held, and the USB-class and
/// contactless locks are never nested with each other or with the ordered
/// chain.
pub proof fn lemma_lock_order(h: HeldLocks)
    ensures
        h.may_acquire(LockId::AppTable) ==> !h.apdu && !h.ctaphid,
        h.may_acquire(LockId::ApduDispatch) ==> !h.ctaphid,
        h.may_acquire(LockId::UsbClasses) ==> !h.contactless && !h.app_table && !h.apdu
            && !h.ctaphid,
        h.may_acquire(LockId::Contactless) ==> !h.usb_classes && !h.app_table && !h.apdu
            && !h.ctaphid,
        h.holds(LockId::UsbClasses) ==> !h.may_acquire(LockId::Contactless),
        h.holds(LockId::Contactless) ==> !h.may_acquire(LockId::UsbClasses),
{
}

} // verus!
