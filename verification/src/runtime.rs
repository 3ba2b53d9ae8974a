//! Steady-state transport and service polling.
//!
//! These are the decisions the scheduler's tasks make against the shared
//! resources: which dispatch activity was produced, which keepalive cycles
//! to start or sustain, and the drain of the crypto service's operation
//! queue. A keepalive task schedules exactly one future invocation of
//! itself — or none at all, once the transport signals the cycle is no
//! longer needed; cancellation is omission, never an abort signal.

use vstd::prelude::*;

use crate::monotonic;
use crate::sched::Scheduler;
use crate::sched::Task;
use crate::sched::TimerEntry;
use crate::sched::lemma_filter_push;
use crate::sched::scheduled_count;
use crate::service::AppTable;
use crate::service::CryptoService;
use crate::transport::ApduDispatch;
use crate::transport::CtaphidDispatch;
use crate::transport::Iso14443;
use crate::transport::UsbClasses;

verus! {

/// Re-arm delay of the CCID keepalive cycle, in monotonic ticks.
pub const CCID_KEEPALIVE_TICKS: u64 = 50;

/// Re-arm delay of the CTAPHID keepalive cycle, in monotonic ticks.
pub const CTAPHID_KEEPALIVE_TICKS: u64 = 50;

/// Re-arm delay of the contactless keepalive cycle, in monotonic ticks.
pub const NFC_KEEPALIVE_TICKS: u64 = 20;

/// The timer entry a CCID keepalive armed at `now` produces.
pub open spec fn ccid_keepalive_entry(now: u64) -> TimerEntry {
    TimerEntry {
        task: Task::CcidKeepalive,
        deadline: monotonic::deadline_after(now, CCID_KEEPALIVE_TICKS),
    }
}

/// The timer entry a CTAPHID keepalive armed at `now` produces.
pub open spec fn ctaphid_keepalive_entry(now: u64) -> TimerEntry {
    TimerEntry {
        task: Task::CtaphidKeepalive,
        deadline: monotonic::deadline_after(now, CTAPHID_KEEPALIVE_TICKS),
    }
}

/// The timer entry a contactless keepalive armed at `now` produces.
pub open spec fn nfc_keepalive_entry(now: u64) -> TimerEntry {
    TimerEntry {
        task: Task::NfcKeepalive,
        deadline: monotonic::deadline_after(now, NFC_KEEPALIVE_TICKS),
    }
}

/// Polls both dispatch objects against the application table and reports
/// `(usb_activity, nfc_activity)`. Pending frames are consumed; the
/// application table itself is only borrowed for the dispatch.
pub fn poll_dispatchers(
    apdu_dispatch: &mut ApduDispatch,
    ctaphid_dispatch: &mut CtaphidDispatch,
    apps: &mut AppTable,
) -> (activity: (bool, bool))
    ensures
        activity.0 == (old(apdu_dispatch).usb_pending || old(ctaphid_dispatch).pending),
        activity.1 == old(apdu_dispatch).nfc_pending,
        *final(apdu_dispatch) == (ApduDispatch { usb_pending: false, nfc_pending: false }),
        *final(ctaphid_dispatch) == (CtaphidDispatch { pending: false }),
        *final(apps) == *old(apps),
{
    let usb_activity = apdu_dispatch.usb_pending || ctaphid_dispatch.pending;
    let nfc_activity = apdu_dispatch.nfc_pending;
    apdu_dispatch.usb_pending = false;
    apdu_dispatch.nfc_pending = false;
    ctaphid_dispatch.pending = false;
    (usb_activity, nfc_activity)
}

/// The USB class objects after one poll: start requests consumed.
pub open spec fn polled_usb(u: Option<UsbClasses>) -> Option<UsbClasses> {
    match u {
        Some(c) => Some(
            UsbClasses { ccid_start_request: false, ctaphid_start_request: false, ..c },
        ),
        None => None,
    }
}

/// The timer queue after one USB poll at `now`: one keepalive cycle
/// started per class that requested one.
pub open spec fn usb_poll_timers(timers: Seq<TimerEntry>, u: Option<UsbClasses>, now: u64) -> Seq<
    TimerEntry,
> {
    match u {
        Some(c) => {
            let t1 = if c.ccid_start_request {
                timers.push(ccid_keepalive_entry(now))
            } else {
                timers
            };
            if c.ctaphid_start_request {
                t1.push(ctaphid_keepalive_entry(now))
            } else {
                t1
            }
        },
        None => timers,
    }
}

/// Polls the USB stack: consumes the classes' start requests and arms one
/// keepalive cycle for each class that reported a new transaction. Without
/// a USB stack (field-powered path) nothing happens.
pub fn poll_usb(usb_classes: &mut Option<UsbClasses>, sched: &mut Scheduler, now: u64)
    ensures
        *final(usb_classes) == polled_usb(*old(usb_classes)),
        final(sched).pending@ == old(sched).pending@,
        final(sched).timers@ == usb_poll_timers(old(sched).timers@, *old(usb_classes), now),
{
    match *usb_classes {
        Some(mut c) => {
            if c.ccid_start_request {
                sched.schedule_after(Task::CcidKeepalive, CCID_KEEPALIVE_TICKS, now);
                c.ccid_start_request = false;
            }
            if c.ctaphid_start_request {
                sched.schedule_after(Task::CtaphidKeepalive, CTAPHID_KEEPALIVE_TICKS, now);
                c.ctaphid_start_request = false;
            }
            *usb_classes = Some(c);
        },
        None => {},
    }
}

/// The contactless transport after one poll: the pending frame and the
/// start request consumed.
pub open spec fn polled_nfc(n: Option<Iso14443>) -> Option<Iso14443> {
    match n {
        Some(c) => Some(Iso14443 { start_request: false, pending_frame: false, ..c }),
        None => None,
    }
}

/// The timer queue after one contactless poll at `now`.
pub open spec fn nfc_poll_timers(timers: Seq<TimerEntry>, n: Option<Iso14443>, now: u64) -> Seq<
    TimerEntry,
> {
    match n {
        Some(c) => if c.start_request {
            timers.push(nfc_keepalive_entry(now))
        } else {
            timers
        },
        None => timers,
    }
}

/// Polls the contactless transport: processes a pending frame, consumes a
/// start request and arms one keepalive cycle for it. Without an NFC chip
/// nothing happens.
pub fn poll_nfc(contactless: &mut Option<Iso14443>, sched: &mut Scheduler, now: u64)
    ensures
        *final(contactless) == polled_nfc(*old(contactless)),
        final(sched).pending@ == old(sched).pending@,
        final(sched).timers@ == nfc_poll_timers(old(sched).timers@, *old(contactless), now),
{
    match *contactless {
        Some(mut c) => {
            c.pending_frame = false;
            if c.start_request {
                sched.schedule_after(Task::NfcKeepalive, NFC_KEEPALIVE_TICKS, now);
                c.start_request = false;
            }
            *contactless = Some(c);
        },
        None => {},
    }
}

/// Whether a CCID keepalive invocation at `now` re-arms itself: exactly
/// once while the class still wants the cycle, not at all otherwise.
pub open spec fn ccid_keepalive_rearms(u: Option<UsbClasses>) -> bool {
    match u {
        Some(c) => c.ccid_busy,
        None => false,
    }
}

/// One CCID keepalive invocation: nudges the class and schedules exactly
/// one future invocation of itself, unless the class signals the cycle is
/// no longer needed — then none.
pub fn ccid_keepalive(usb_classes: &mut Option<UsbClasses>, sched: &mut Scheduler, now: u64)
    ensures
        *final(usb_classes) == *old(usb_classes),
        final(sched).pending@ == old(sched).pending@,
        final(sched).timers@ == if ccid_keepalive_rearms(*old(usb_classes)) {
            old(sched).timers@.push(ccid_keepalive_entry(now))
        } else {
            old(sched).timers@
        },
        scheduled_count(final(sched).timers@, Task::CcidKeepalive) == scheduled_count(
            old(sched).timers@,
            Task::CcidKeepalive,
        ) + (if ccid_keepalive_rearms(*old(usb_classes)) {
            1int
        } else {
            0int
        }),
{
    let ghost t0 = sched.timers@;
    let rearm = match *usb_classes {
        Some(c) => c.ccid_busy,
        None => false,
    };
    if rearm {
        sched.schedule_after(Task::CcidKeepalive, CCID_KEEPALIVE_TICKS, now);
    }
    proof {
        lemma_filter_push(t0, ccid_keepalive_entry(now), |e: TimerEntry| e.task == Task::CcidKeepalive);
    }
}

/// Whether a CTAPHID keepalive invocation re-arms itself.
pub open spec fn ctaphid_keepalive_rearms(u: Option<UsbClasses>) -> bool {
    match u {
        Some(c) => c.ctaphid_busy,
        None => false,
    }
}

/// One CTAPHID keepalive invocation: schedules exactly one future
/// invocation of itself unless the class signals the cycle is no longer
/// needed.
pub fn ctaphid_keepalive(usb_classes: &mut Option<UsbClasses>, sched: &mut Scheduler, now: u64)
    ensures
        *final(usb_classes) == *old(usb_classes),
        final(sched).pending@ == old(sched).pending@,
        final(sched).timers@ == if ctaphid_keepalive_rearms(*old(usb_classes)) {
            old(sched).timers@.push(ctaphid_keepalive_entry(now))
        } else {
            old(sched).timers@
        },
        scheduled_count(final(sched).timers@, Task::CtaphidKeepalive) == scheduled_count(
            old(sched).timers@,
            Task::CtaphidKeepalive,
        ) + (if ctaphid_keepalive_rearms(*old(usb_classes)) {
            1int
        } else {
            0int
        }),
{
    let ghost t0 = sched.timers@;
    let rearm = match *usb_classes {
        Some(c) => c.ctaphid_busy,
        None => false,
    };
    if rearm {
        sched.schedule_after(Task::CtaphidKeepalive, CTAPHID_KEEPALIVE_TICKS, now);
    }
    proof {
        lemma_filter_push(t0, ctaphid_keepalive_entry(now), |e: TimerEntry| e.task == Task::CtaphidKeepalive);
    }
}

/// Whether a contactless keepalive invocation re-arms itself.
pub open spec fn nfc_keepalive_rearms(n: Option<Iso14443>) -> bool {
    match n {
        Some(c) => c.keepalive_busy,
        None => false,
    }
}

/// One contactless keepalive invocation: nudges the transport and
/// schedules exactly one future invocation of itself unless the transport
/// signals the cycle is no longer needed.
pub fn nfc_keepalive(contactless: &mut Option<Iso14443>, sched: &mut Scheduler, now: u64)
    ensures
        *final(contactless) == *old(contactless),
        final(sched).pending@ == old(sched).pending@,
        final(sched).timers@ == if nfc_keepalive_rearms(*old(contactless)) {
            old(sched).timers@.push(nfc_keepalive_entry(now))
        } else {
            old(sched).timers@
        },
        scheduled_count(final(sched).timers@, Task::NfcKeepalive) == scheduled_count(
            old(sched).timers@,
            Task::NfcKeepalive,
        ) + (if nfc_keepalive_rearms(*old(contactless)) {
            1int
        } else {
            0int
        }),
{
    let ghost t0 = sched.timers@;
    let rearm = match *contactless {
        Some(c) => c.keepalive_busy,
        None => false,
    };
    if rearm {
        sched.schedule_after(Task::NfcKeepalive, NFC_KEEPALIVE_TICKS, now);
    }
    proof {
        lemma_filter_push(t0, nfc_keepalive_entry(now), |e: TimerEntry| e.task == Task::NfcKeepalive);
    }
}

/// Drains the crypto service's pending operation queue completely; the
/// binding, seed and UI state are untouched.
pub fn run_trussed(trussed: &mut CryptoService)
    ensures
        final(trussed).pending_ops@ == Seq::<u32>::empty(),
        final(trussed).seed == old(trussed).seed,
        final(trussed).hw_key == old(trussed).hw_key,
        final(trussed).store == old(trussed).store,
        final(trussed).ui == old(trussed).ui,
        final(trussed).ui_ticks == old(trussed).ui_ticks,
{
    trussed.pending_ops.clear();
    proof {
        assert(trussed.pending_ops@ =~= Seq::<u32>::empty());
    }
}

} // verus!
