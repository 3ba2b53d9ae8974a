//! Transport objects and their bring-up.
//!
//! The USB composite device (CCID and CTAPHID class interfaces) and the
//! contactless ISO 14443 tag emulation are opaque pollable collaborators:
//! this core only needs boolean activity and keepalive signals back from
//! them. The USB stack is built only when externally powered — a passive
//! NFC field cannot power it; NFC chip bring-up while externally powered
//! is an acknowledged, currently-incomplete path and yields no contactless
//! transport.

use vstd::prelude::*;

verus! {

/// The APDU dispatch object, fed by both transports.
#[derive(Clone, Copy, Debug, PartialEq, Eq, Structural)]
pub struct ApduDispatch {
    /// An APDU arrived over USB and awaits dispatch.
    pub usb_pending: bool,
    /// An APDU arrived over NFC and awaits dispatch.
    pub nfc_pending: bool,
}

/// The CTAPHID dispatch object, fed by USB only.
#[derive(Clone, Copy, Debug, PartialEq, Eq, Structural)]
pub struct CtaphidDispatch {
    /// A CTAPHID frame awaits dispatch.
    pub pending: bool,
}

/// The USB class objects, as the poll loop sees them.
#[derive(Clone, Copy, Debug, PartialEq, Eq, Structural)]
pub struct UsbClasses {
    /// The CCID class still wants its keepalive cycle sustained.
    pub ccid_busy: bool,
    /// The CTAPHID class still wants its keepalive cycle sustained.
    pub ctaphid_busy: bool,
    /// A new CCID transaction began; the next poll starts a keepalive
    /// cycle for it.
    pub ccid_start_request: bool,
    /// A new CTAPHID transaction began; the next poll starts a keepalive
    /// cycle for it.
    pub ctaphid_start_request: bool,
}

/// The contactless ISO 14443 transport object.
#[derive(Clone, Copy, Debug, PartialEq, Eq, Structural)]
pub struct Iso14443 {
    /// The transport still wants its keepalive cycle sustained.
    pub keepalive_busy: bool,
    /// Field traffic began; the next poll starts a keepalive cycle.
    pub start_request: bool,
    /// A frame awaits processing by the next poll.
    pub pending_frame: bool,
}

impl Iso14443 {
    /// Polls the transport once: processes the pending frame, if any, and
    /// reports whether there was one.
    pub fn poll(&mut self) -> (activity: bool)
        ensures
            activity == old(self).pending_frame,
            *final(self) == (Iso14443 { pending_frame: false, ..*old(self) }),
    {
        let activity = self.pending_frame;
        self.pending_frame = false;
        activity
    }
}

/// The finished transport stacks and dispatch tables.
#[derive(Clone, Copy, Debug, PartialEq, Eq, Structural)]
pub struct UsbNfcInit {
    /// The USB class objects; present only when the USB stack was built.
    pub usb_classes: Option<UsbClasses>,
    /// The APDU dispatch object.
    pub apdu_dispatch: ApduDispatch,
    /// The CTAPHID dispatch object.
    pub ctaphid_dispatch: CtaphidDispatch,
    /// The contactless transport; present only when the NFC chip came up.
    pub iso14443: Option<Iso14443>,
}

/// Builds the transport stacks over the buses that bring-up produced:
/// USB classes exactly when a USB bus exists, the contactless transport
/// exactly when an NFC chip was configured. Everything starts quiescent —
/// no pending traffic, no keepalive cycles.
pub fn init_usb_nfc(usb_bus_present: bool, nfc_chip_present: bool) -> (r: UsbNfcInit)
    ensures
        r.usb_classes == if usb_bus_present {
            Some(
                UsbClasses {
                    ccid_busy: false,
                    ctaphid_busy: false,
                    ccid_start_request: false,
                    ctaphid_start_request: false,
                },
            )
        } else {
            None::<UsbClasses>
        },
        r.iso14443 == if nfc_chip_present {
            Some(Iso14443 { keepalive_busy: false, start_request: false, pending_frame: false })
        } else {
            None::<Iso14443>
        },
        r.apdu_dispatch == (ApduDispatch { usb_pending: false, nfc_pending: false }),
        r.ctaphid_dispatch == (CtaphidDispatch { pending: false }),
{
    let usb_classes = if usb_bus_present {
        Some(
            UsbClasses {
                ccid_busy: false,
                ctaphid_busy: false,
                ccid_start_request: false,
                ctaphid_start_request: false,
            },
        )
    } else {
        None
    };
    let iso14443 = if nfc_chip_present {
        Some(Iso14443 { keepalive_busy: false, start_request: false, pending_frame: false })
    } else {
        None
    };
    UsbNfcInit {
        usb_classes,
        apdu_dispatch: ApduDispatch { usb_pending: false, nfc_pending: false },
        ctaphid_dispatch: CtaphidDispatch { pending: false },
        iso14443,
    }
}

} // verus!
