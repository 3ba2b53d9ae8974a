//! The scheduler's task bodies and the board bring-up they run against.
//!
//! Each task acquires the minimal locks it needs, in the canonical order
//! checked by [`crate::locks`], runs to completion without suspending
//! while holding them, and releases them on every exit path. The idle
//! loop's body is the lowest-priority task: it polls dispatch and
//! transport state whenever nothing else is pending and raises the USB
//! transport task exactly once per poll iteration that produced USB
//! activity.

use vstd::prelude::*;

use crate::locks::HeldLocks;
use crate::locks::LockId;
use crate::runtime;
use crate::sched::Scheduler;
use crate::sched::Task;
use crate::sched::TimerEntry;
use crate::sched::lemma_pend_count_push;
use crate::sched::pend_count;
use crate::service::AppTable;
use crate::service::CryptoService;
use crate::service::UiState;
use crate::service::bind_crypto_service;
use crate::service::device_key_bytes;
use crate::service::device_key_spec;
use crate::service::init_apps;
use crate::status::InitStatus;
use crate::store::ExternalBacking;
use crate::store::ExternalFs;
use crate::store::InternalFs;
use crate::store::init_store;
use crate::store::setup_external_flash;
use crate::transport::ApduDispatch;
use crate::transport::CtaphidDispatch;
use crate::transport::Iso14443;
use crate::transport::UsbClasses;
use crate::transport::init_usb_nfc;

verus! {

/// Cadence of the UI animation tick, in monotonic ticks.
pub const UI_TICK_TICKS: u64 = 125;

/// Post-boot grace delay before the first UI tick, in monotonic ticks.
pub const BOOT_GRACE_TICKS: u64 = 2500;

/// The shared resources the scheduler's tasks contend for, each guarded
/// by its own lock.
pub struct SharedResources {
    /// The crypto processing service.
    pub trussed: CryptoService,
    /// The application dispatch table.
    pub apps: AppTable,
    /// The APDU dispatch object.
    pub apdu_dispatch: ApduDispatch,
    /// The CTAPHID dispatch object.
    pub ctaphid_dispatch: CtaphidDispatch,
    /// The USB class objects, when the USB stack was built.
    pub usb_classes: Option<UsbClasses>,
    /// The contactless transport, when the NFC chip came up.
    pub contactless: Option<Iso14443>,
}

/// The latched power-transition event flags, owned by the power task.
#[derive(Clone, Copy, Debug, PartialEq, Eq, Structural)]
pub struct PowerEvents {
    /// USB cable detected.
    pub usb_detected: bool,
    /// USB supply ready.
    pub usb_power_ready: bool,
    /// USB cable removed.
    pub usb_removed: bool,
}

/// The resources local to single tasks.
pub struct LocalResources {
    /// The latched power-event flags the power task acknowledges.
    pub power: PowerEvents,
}

/// One poll iteration produced USB activity.
pub open spec fn usb_activity_of(s: SharedResources) -> bool {
    s.apdu_dispatch.usb_pending || s.ctaphid_dispatch.pending
}

/// One iteration of the idle loop's body: flush diagnostics (a
/// collaborator, not modelled), poll the dispatchers under the ordered
/// locks, raise the USB transport task exactly once if and only if the
/// poll produced USB activity, then unconditionally poll the USB class
/// state and the contactless state under their independent locks.
pub fn idle_step(shared: &mut SharedResources, held: &mut HeldLocks, sched: &mut Scheduler, now: u64)
    requires
        old(held).none_held(),
    ensures
        final(held).none_held(),
        final(shared).trussed == old(shared).trussed,
        final(shared).apps == old(shared).apps,
        final(shared).apdu_dispatch == (ApduDispatch { usb_pending: false, nfc_pending: false }),
        final(shared).ctaphid_dispatch == (CtaphidDispatch { pending: false }),
        final(shared).usb_classes == runtime::polled_usb(old(shared).usb_classes),
        final(shared).contactless == runtime::polled_nfc(old(shared).contactless),
        final(sched).pending@ == if usb_activity_of(*old(shared)) {
            old(sched).pending@.push(Task::UsbTransport)
        } else {
            old(sched).pending@
        },
        pend_count(final(sched).pending@, Task::UsbTransport) == pend_count(
            old(sched).pending@,
            Task::UsbTransport,
        ) + (if usb_activity_of(*old(shared)) {
            1int
        } else {
            0int
        }),
        final(sched).timers@ == runtime::nfc_poll_timers(
            runtime::usb_poll_timers(old(sched).timers@, old(shared).usb_classes, now),
            old(shared).contactless,
            now,
        ),
{
    let ghost p0 = sched.pending@;
    held.acquire(LockId::AppTable);
    held.acquire(LockId::ApduDispatch);
    held.acquire(LockId::CtaphidDispatch);
    let activity = runtime::poll_dispatchers(
        &mut shared.apdu_dispatch,
        &mut shared.ctaphid_dispatch,
        &mut shared.apps,
    );
    held.release(LockId::CtaphidDispatch);
    held.release(LockId::ApduDispatch);
    held.release(LockId::AppTable);
    if activity.0 {
        sched.pend(Task::UsbTransport);
    }
    proof {
        lemma_pend_count_push(p0, Task::UsbTransport, Task::UsbTransport);
    }
    held.acquire(LockId::UsbClasses);
    runtime::poll_usb(&mut shared.usb_classes, sched, now);
    held.release(LockId::UsbClasses);
    held.acquire(LockId::Contactless);
    runtime::poll_nfc(&mut shared.contactless, sched, now);
    held.release(LockId::Contactless);
}

/// The USB transport pump task: polls the USB stack under its lock.
pub fn task_usb(
    usb_classes: &mut Option<UsbClasses>,
    held: &mut HeldLocks,
    sched: &mut Scheduler,
    now: u64,
)
    requires
        old(held).none_held(),
    ensures
        final(held).none_held(),
        *final(usb_classes) == runtime::polled_usb(*old(usb_classes)),
        final(sched).pending@ == old(sched).pending@,
        final(sched).timers@ == runtime::usb_poll_timers(
            old(sched).timers@,
            *old(usb_classes),
            now,
        ),
{
    held.acquire(LockId::UsbClasses);
    runtime::poll_usb(usb_classes, sched, now);
    held.release(LockId::UsbClasses);
}

/// The crypto-processing task: drains the service's pending operation
/// queue under the service lock.
pub fn task_trussed(trussed: &mut CryptoService, held: &mut HeldLocks)
    requires
        old(held).none_held(),
    ensures
        final(held).none_held(),
        final(trussed).pending_ops@ == Seq::<u32>::empty(),
        final(trussed).seed == old(trussed).seed,
        final(trussed).hw_key == old(trussed).hw_key,
        final(trussed).store == old(trussed).store,
        final(trussed).ui == old(trussed).ui,
        final(trussed).ui_ticks == old(trussed).ui_ticks,
{
    held.acquire(LockId::CryptoService);
    runtime::run_trussed(trussed);
    held.release(LockId::CryptoService);
}

/// The physical-input edge task: a lightweight notification only; it
/// touches no shared resource.
pub fn task_button_irq() {
}

/// The CCID keepalive task: nudges the class under the USB lock and
/// re-arms itself exactly once unless the class signals the cycle is no
/// longer needed.
pub fn ccid_keepalive(
    usb_classes: &mut Option<UsbClasses>,
    held: &mut HeldLocks,
    sched: &mut Scheduler,
    now: u64,
)
    requires
        old(held).none_held(),
    ensures
        final(held).none_held(),
        *final(usb_classes) == *old(usb_classes),
        final(sched).pending@ == old(sched).pending@,
        final(sched).timers@ == if runtime::ccid_keepalive_rearms(*old(usb_classes)) {
            old(sched).timers@.push(runtime::ccid_keepalive_entry(now))
        } else {
            old(sched).timers@
        },
{
    held.acquire(LockId::UsbClasses);
    runtime::ccid_keepalive(usb_classes, sched, now);
    held.release(LockId::UsbClasses);
}

/// The CTAPHID keepalive task: nudges the class under the USB lock and
/// re-arms itself exactly once unless the class signals the cycle is no
/// longer needed.
pub fn ctaphid_keepalive(
    usb_classes: &mut Option<UsbClasses>,
    held: &mut HeldLocks,
    sched: &mut Scheduler,
    now: u64,
)
    requires
        old(held).none_held(),
    ensures
        final(held).none_held(),
        *final(usb_classes) == *old(usb_classes),
        final(sched).pending@ == old(sched).pending@,
        final(sched).timers@ == if runtime::ctaphid_keepalive_rearms(*old(usb_classes)) {
            old(sched).timers@.push(runtime::ctaphid_keepalive_entry(now))
        } else {
            old(sched).timers@
        },
{
    held.acquire(LockId::UsbClasses);
    runtime::ctaphid_keepalive(usb_classes, sched, now);
    held.release(LockId::UsbClasses);
}

/// The contactless keepalive task: nudges the transport under its lock
/// and re-arms itself exactly once unless the transport signals the cycle
/// is no longer needed.
pub fn nfc_keepalive(
    contactless: &mut Option<Iso14443>,
    held: &mut HeldLocks,
    sched: &mut Scheduler,
    now: u64,
)
    requires
        old(held).none_held(),
    ensures
        final(held).none_held(),
        *final(contactless) == *old(contactless),
        final(sched).pending@ == old(sched).pending@,
        final(sched).timers@ == if runtime::nfc_keepalive_rearms(*old(contactless)) {
            old(sched).timers@.push(runtime::nfc_keepalive_entry(now))
        } else {
            old(sched).timers@
        },
{
    held.acquire(LockId::Contactless);
    runtime::nfc_keepalive(contactless, sched, now);
    held.release(LockId::Contactless);
}

/// The power-event task: acknowledges every latched power-transition flag
/// it observes — each one must be cleared or the interrupt re-fires — and
/// reports what it observed.
pub fn power_handler(power: &mut PowerEvents) -> (observed: PowerEvents)
    ensures
        observed == *old(power),
        *final(power) == (PowerEvents {
            usb_detected: false,
            usb_power_ready: false,
            usb_removed: false,
        }),
{
    let observed = *power;
    if power.usb_detected {
        power.usb_detected = false;
    }
    if power.usb_power_ready {
        power.usb_power_ready = false;
    }
    if power.usb_removed {
        power.usb_removed = false;
    }
    observed
}

/// The UI tick task: advances the animation state under the service lock,
/// then always schedules exactly one next tick.
pub fn ui(trussed: &mut CryptoService, held: &mut HeldLocks, sched: &mut Scheduler, now: u64)
    requires
        old(held).none_held(),
    ensures
        final(held).none_held(),
        final(trussed).ui_ticks == vstd::wrapping::u64_specs::wrapping_add(
            old(trussed).ui_ticks,
            1,
        ),
        final(trussed).seed == old(trussed).seed,
        final(trussed).hw_key == old(trussed).hw_key,
        final(trussed).store == old(trussed).store,
        final(trussed).ui == old(trussed).ui,
        final(trussed).pending_ops@ == old(trussed).pending_ops@,
        final(sched).pending@ == old(sched).pending@,
        final(sched).timers@ == old(sched).timers@.push(TimerEntry {
            task: Task::UiTick,
            deadline: crate::monotonic::deadline_after(now, UI_TICK_TICKS),
        }),
{
    held.acquire(LockId::CryptoService);
    trussed.ui_ticks = trussed.ui_ticks.wrapping_add(1);
    held.release(LockId::CryptoService);
    sched.schedule_after(Task::UiTick, UI_TICK_TICKS, now);
}

/// The status the boot accumulates for a given external-flash outcome:
/// clean, except that a failed probe of configured hardware raises the
/// external-storage flag.
pub open spec fn boot_status(ext_flash_probe: Option<bool>) -> InitStatus {
    InitStatus {
        external_flash_error: ext_flash_probe == Some(false),
        migration_error: false,
        nfc_error: false,
    }
}

/// The external backing the boot ends up with: physical exactly when
/// configured external-flash hardware answered its probe.
pub open spec fn boot_backing(ext_flash_probe: Option<bool>) -> ExternalBacking {
    if ext_flash_probe == Some(true) {
        ExternalBacking::Physical
    } else {
        ExternalBacking::Volatile
    }
}

/// Board bring-up: turns the plain values sampled off the hardware — the
/// boot power source, the external-flash probe outcome, the device-unique
/// key registers and an entropy draw — into the shared and local resources
/// the scheduler runs against, and schedules the first UI tick after the
/// post-boot grace delay.
///
/// The USB stack is built exactly when externally powered; NFC chip
/// bring-up is an acknowledged, currently-incomplete path, so no
/// contactless transport is produced.
pub fn init(
    powered_by_usb: bool,
    ext_flash_probe: Option<bool>,
    er: &Vec<u32>,
    entropy_seed: u64,
    sched: &mut Scheduler,
    now: u64,
) -> (r: (SharedResources, LocalResources))
    requires
        er@.len() * 4 <= usize::MAX,
    ensures
        r.0.usb_classes == if powered_by_usb {
            Some(
                UsbClasses {
                    ccid_busy: false,
                    ctaphid_busy: false,
                    ccid_start_request: false,
                    ctaphid_start_request: false,
                },
            )
        } else {
            None::<UsbClasses>
        },
        r.0.contactless is None,
        r.0.apdu_dispatch == (ApduDispatch { usb_pending: false, nfc_pending: false }),
        r.0.ctaphid_dispatch == (CtaphidDispatch { pending: false }),
        r.0.apps.status == boot_status(ext_flash_probe),
        r.0.apps.nfc_powered == !powered_by_usb,
        r.0.trussed.seed == entropy_seed,
        r.0.trussed.hw_key matches Some(k) && k@ == device_key_spec(er@),
        r.0.trussed.store.internal.encrypted == false,
        r.0.trussed.store.external.backing == boot_backing(ext_flash_probe),
        r.0.trussed.pending_ops@ == Seq::<u32>::empty(),
        r.0.trussed.ui_ticks == 0,
        r.1.power == (PowerEvents {
            usb_detected: false,
            usb_power_ready: false,
            usb_removed: false,
        }),
        final(sched).pending@ == old(sched).pending@,
        final(sched).timers@ == old(sched).timers@.push(TimerEntry {
            task: Task::UiTick,
            deadline: crate::monotonic::deadline_after(now, BOOT_GRACE_TICKS),
        }),
{
    let mut init_status = InitStatus::empty();

    let internal = InternalFs::new(false);
    let external = match ext_flash_probe {
        Some(probe_ok) => setup_external_flash(probe_ok, &mut init_status),
        None => ExternalFs::volatile(),
    };
    let simulated_efs = external.is_ram();
    let store = init_store(internal, external, simulated_efs, &mut init_status);

    let usb_nfc = init_usb_nfc(powered_by_usb, false);

    let ui_sink = UiState::new(false, false, false);
    let hw_key = device_key_bytes(er);
    let mut trussed = bind_crypto_service(entropy_seed, Some(hw_key), store, ui_sink);
    let apps = init_apps(&mut trussed, init_status, !powered_by_usb);

    sched.schedule_after(Task::UiTick, BOOT_GRACE_TICKS, now);

    let shared = SharedResources {
        trussed,
        apps,
        apdu_dispatch: usb_nfc.apdu_dispatch,
        ctaphid_dispatch: usb_nfc.ctaphid_dispatch,
        usb_classes: usb_nfc.usb_classes,
        contactless: usb_nfc.iso14443,
    };
    let local = LocalResources {
        power: PowerEvents { usb_detected: false, usb_power_ready: false, usb_removed: false },
    };
    (shared, local)
}

} // verus!
