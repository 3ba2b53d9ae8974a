use embedded_runner::locks::HeldLocks;
use embedded_runner::locks::LockId;
use embedded_runner::monotonic::compute_deadline;
use embedded_runner::monotonic::is_due;
use embedded_runner::runtime;
use embedded_runner::sched::Scheduler;
use embedded_runner::sched::Task;
use embedded_runner::sched::priority;
use embedded_runner::service::device_key_bytes;
use embedded_runner::tasks;
use embedded_runner::tasks::PowerEvents;
use embedded_runner::tasks::SharedResources;
use embedded_runner::transport::ApduDispatch;
use embedded_runner::transport::CtaphidDispatch;
use embedded_runner::transport::Iso14443;
use embedded_runner::transport::UsbClasses;
use embedded_runner::transport::init_usb_nfc;

fn quiescent_usb() -> UsbClasses {
    UsbClasses {
        ccid_busy: false,
        ctaphid_busy: false,
        ccid_start_request: false,
        ctaphid_start_request: false,
    }
}

fn booted_shared(usb_pending: bool) -> (SharedResources, Scheduler) {
    let mut sched = Scheduler::new();
    let er = vec![0x0102_0304u32, 0x0506_0708, 0x090a_0b0c, 0x0d0e_0f10];
    let (mut shared, _local) = tasks::init(true, Some(true), &er, 42, &mut sched, 0);
    shared.apdu_dispatch.usb_pending = usb_pending;
    (shared, sched)
}

#[test]
fn init_builds_usb_only_when_powered_by_usb() {
    let mut sched = Scheduler::new();
    let er = vec![1u32, 2, 3, 4];
    let (shared, local) = tasks::init(true, None, &er, 9, &mut sched, 0);
    assert!(shared.usb_classes.is_some());
    assert!(shared.contactless.is_none());
    assert!(!shared.apps.nfc_powered);
    assert_eq!(shared.trussed.seed, 9);
    assert!(!local.power.usb_detected);

    let mut sched2 = Scheduler::new();
    let (shared2, _) = tasks::init(false, None, &er, 9, &mut sched2, 0);
    assert!(shared2.usb_classes.is_none());
    assert!(shared2.apps.nfc_powered);
}

#[test]
fn init_flags_failed_external_flash() {
    let mut sched = Scheduler::new();
    let er = vec![1u32];
    let (shared, _) = tasks::init(true, Some(false), &er, 9, &mut sched, 0);
    assert!(shared.apps.status.external_flash_error);
    let (shared_ok, _) = tasks::init(true, Some(true), &er, 9, &mut Scheduler::new(), 0);
    assert!(!shared_ok.apps.status.external_flash_error);
}

#[test]
fn init_schedules_first_ui_tick_after_grace() {
    let mut sched = Scheduler::new();
    let er = vec![1u32];
    tasks::init(true, None, &er, 9, &mut sched, 0);
    assert_eq!(sched.timers.len(), 1);
    assert_eq!(sched.timers[0].task, Task::UiTick);
    assert_eq!(sched.timers[0].deadline, 2500);
}

#[test]
fn device_key_serializes_registers_big_endian() {
    let er = vec![0x0102_0304u32, 0xa1b2_c3d4];
    let key = device_key_bytes(&er);
    assert_eq!(key, vec![0x01, 0x02, 0x03, 0x04, 0xa1, 0xb2, 0xc3, 0xd4]);
}

#[test]
fn idle_raises_usb_task_exactly_once_on_activity() {
    let (mut shared, mut sched) = booted_shared(true);
    let mut held = HeldLocks::new();
    tasks::idle_step(&mut shared, &mut held, &mut sched, 10);
    let raised: Vec<&Task> =
        sched.pending.iter().filter(|t| **t == Task::UsbTransport).collect();
    assert_eq!(raised.len(), 1);
    assert!(!shared.apdu_dispatch.usb_pending);
}

#[test]
fn idle_raises_nothing_without_activity() {
    let (mut shared, mut sched) = booted_shared(false);
    let mut held = HeldLocks::new();
    tasks::idle_step(&mut shared, &mut held, &mut sched, 10);
    assert!(sched.pending.is_empty());
}

#[test]
fn idle_loop_runs_quietly_for_many_iterations() {
    // Externally powered, external flash absent: boot still completes and
    // the idle loop spins on no-activity polls without fault.
    let mut sched = Scheduler::new();
    let er = vec![1u32, 2];
    let (mut shared, _local) = tasks::init(true, Some(false), &er, 3, &mut sched, 0);
    assert!(shared.apps.status.external_flash_error);
    let mut held = HeldLocks::new();
    for now in 0..100u64 {
        tasks::idle_step(&mut shared, &mut held, &mut sched, now);
    }
    assert!(sched.pending.is_empty());
    // Only the boot-time UI tick is scheduled.
    assert_eq!(sched.timers.len(), 1);
}

#[test]
fn ccid_keepalive_reschedules_once_while_busy() {
    let mut sched = Scheduler::new();
    let mut held = HeldLocks::new();
    let mut usb = Some(UsbClasses { ccid_busy: true, ..quiescent_usb() });
    tasks::ccid_keepalive(&mut usb, &mut held, &mut sched, 100);
    assert_eq!(sched.timers.len(), 1);
    assert_eq!(sched.timers[0].task, Task::CcidKeepalive);
    assert_eq!(sched.timers[0].deadline, 100 + runtime::CCID_KEEPALIVE_TICKS);
}

#[test]
fn ccid_keepalive_stops_when_no_longer_needed() {
    let mut sched = Scheduler::new();
    let mut held = HeldLocks::new();
    let mut usb = Some(quiescent_usb());
    tasks::ccid_keepalive(&mut usb, &mut held, &mut sched, 100);
    assert!(sched.timers.is_empty());
}

#[test]
fn ctaphid_keepalive_follows_class_signal() {
    let mut sched = Scheduler::new();
    let mut held = HeldLocks::new();
    let mut usb = Some(UsbClasses { ctaphid_busy: true, ..quiescent_usb() });
    tasks::ctaphid_keepalive(&mut usb, &mut held, &mut sched, 0);
    assert_eq!(sched.timers.len(), 1);
    assert_eq!(sched.timers[0].task, Task::CtaphidKeepalive);
    let mut usb_done = Some(quiescent_usb());
    let mut sched2 = Scheduler::new();
    tasks::ctaphid_keepalive(&mut usb_done, &mut held, &mut sched2, 0);
    assert!(sched2.timers.is_empty());
}

#[test]
fn nfc_keepalive_follows_transport_signal() {
    let mut sched = Scheduler::new();
    let mut held = HeldLocks::new();
    let mut contactless =
        Some(Iso14443 { keepalive_busy: true, start_request: false, pending_frame: false });
    tasks::nfc_keepalive(&mut contactless, &mut held, &mut sched, 0);
    assert_eq!(sched.timers.len(), 1);
    assert_eq!(sched.timers[0].task, Task::NfcKeepalive);
    let mut done =
        Some(Iso14443 { keepalive_busy: false, start_request: false, pending_frame: false });
    let mut sched2 = Scheduler::new();
    tasks::nfc_keepalive(&mut done, &mut held, &mut sched2, 0);
    assert!(sched2.timers.is_empty());
}

#[test]
fn usb_poll_starts_requested_keepalive_cycles() {
    let mut sched = Scheduler::new();
    let mut held = HeldLocks::new();
    let mut usb = Some(UsbClasses {
        ccid_start_request: true,
        ctaphid_start_request: true,
        ..quiescent_usb()
    });
    tasks::task_usb(&mut usb, &mut held, &mut sched, 5);
    assert_eq!(sched.timers.len(), 2);
    assert_eq!(sched.timers[0].task, Task::CcidKeepalive);
    assert_eq!(sched.timers[1].task, Task::CtaphidKeepalive);
    let polled = usb.unwrap();
    assert!(!polled.ccid_start_request);
    assert!(!polled.ctaphid_start_request);
}

#[test]
fn power_handler_clears_every_observed_flag() {
    let mut power =
        PowerEvents { usb_detected: true, usb_power_ready: false, usb_removed: true };
    let observed = tasks::power_handler(&mut power);
    assert!(observed.usb_detected);
    assert!(!observed.usb_power_ready);
    assert!(observed.usb_removed);
    assert_eq!(
        power,
        PowerEvents { usb_detected: false, usb_power_ready: false, usb_removed: false }
    );
}

#[test]
fn ui_always_reschedules_itself() {
    let (mut shared, mut sched) = booted_shared(false);
    let mut held = HeldLocks::new();
    let before = sched.timers.len();
    tasks::ui(&mut shared.trussed, &mut held, &mut sched, 1000);
    assert_eq!(sched.timers.len(), before + 1);
    let entry = sched.timers[sched.timers.len() - 1];
    assert_eq!(entry.task, Task::UiTick);
    assert_eq!(entry.deadline, 1000 + tasks::UI_TICK_TICKS);
    assert_eq!(shared.trussed.ui_ticks, 1);
}

#[test]
fn trussed_task_drains_queue() {
    let (mut shared, _sched) = booted_shared(false);
    shared.trussed.pending_ops.push(3);
    shared.trussed.pending_ops.push(4);
    let mut held = HeldLocks::new();
    tasks::task_trussed(&mut shared.trussed, &mut held);
    assert!(shared.trussed.pending_ops.is_empty());
}

#[test]
fn button_irq_is_notification_only() {
    tasks::task_button_irq();
}

#[test]
fn dispatcher_prefers_higher_priority() {
    let mut sched = Scheduler::new();
    sched.pend(Task::UiTick);
    sched.pend(Task::UsbTransport);
    sched.pend(Task::PowerEvent);
    sched.pend(Task::CryptoProcess);
    assert_eq!(sched.take_highest(), Some(Task::PowerEvent));
    assert_eq!(sched.take_highest(), Some(Task::UsbTransport));
    assert_eq!(sched.take_highest(), Some(Task::CryptoProcess));
    assert_eq!(sched.take_highest(), Some(Task::UiTick));
    assert_eq!(sched.take_highest(), None);
}

#[test]
fn static_priorities_match_the_table() {
    assert_eq!(priority(Task::ButtonIrq), 5);
    assert_eq!(priority(Task::PowerEvent), 5);
    assert_eq!(priority(Task::NfcKeepalive), 4);
    assert_eq!(priority(Task::UsbTransport), 3);
    assert_eq!(priority(Task::CcidKeepalive), 3);
    assert_eq!(priority(Task::CtaphidKeepalive), 3);
    assert_eq!(priority(Task::CryptoProcess), 2);
    assert_eq!(priority(Task::UiTick), 1);
}

#[test]
fn scheduler_tick_fires_due_timers_in_order() {
    let mut sched = Scheduler::new();
    sched.schedule_after(Task::UiTick, 125, 0);
    sched.schedule_after(Task::CcidKeepalive, 50, 0);
    sched.schedule_after(Task::NfcKeepalive, 500, 0);
    sched.fire_due(130);
    assert_eq!(sched.pending, vec![Task::UiTick, Task::CcidKeepalive]);
    assert_eq!(sched.timers.len(), 1);
    assert_eq!(sched.timers[0].task, Task::NfcKeepalive);
}

#[test]
fn deadlines_survive_clock_wraparound() {
    let near_wrap = u64::MAX - 10;
    let deadline = compute_deadline(near_wrap, 20);
    assert_eq!(deadline, 9);
    assert!(!is_due(near_wrap, deadline));
    assert!(is_due(15, deadline));
}

#[test]
fn lock_order_canonical_sequence_completes() {
    let mut held = HeldLocks::new();
    held.acquire(LockId::AppTable);
    held.acquire(LockId::ApduDispatch);
    held.acquire(LockId::CtaphidDispatch);
    held.release(LockId::CtaphidDispatch);
    held.release(LockId::ApduDispatch);
    held.release(LockId::AppTable);
    held.acquire(LockId::UsbClasses);
    held.release(LockId::UsbClasses);
    held.acquire(LockId::Contactless);
    held.release(LockId::Contactless);
    held.acquire(LockId::CryptoService);
    held.release(LockId::CryptoService);
    assert!(!held.app_table && !held.apdu && !held.ctaphid);
    assert!(!held.usb_classes && !held.contactless && !held.crypto);
}

#[test]
fn transports_built_exactly_for_present_buses() {
    let both = init_usb_nfc(true, true);
    assert!(both.usb_classes.is_some());
    assert!(both.iso14443.is_some());
    assert_eq!(both.apdu_dispatch, ApduDispatch { usb_pending: false, nfc_pending: false });
    assert_eq!(both.ctaphid_dispatch, CtaphidDispatch { pending: false });
    let neither = init_usb_nfc(false, false);
    assert!(neither.usb_classes.is_none());
    assert!(neither.iso14443.is_none());
}

#[test]
fn contactless_poll_consumes_pending_frame() {
    let mut iso = Iso14443 { keepalive_busy: false, start_request: false, pending_frame: true };
    assert!(iso.poll());
    assert!(!iso.pending_frame);
    assert!(!iso.poll());
}
