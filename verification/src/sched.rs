//! The priority-preemptive task scheduler.
//!
//! Tasks carry static priorities. Interrupt-raised tasks are pended into a
//! ready queue; self-rearming timer tasks sit in a deadline queue drained
//! by the scheduler tick against the wraparound-safe monotonic clock. The
//! dispatcher always runs a pending task of maximal priority; a timer task
//! is "cancelled" simply by not being rescheduled, never by an explicit
//! abort signal.

use vstd::prelude::*;

use crate::monotonic;

verus! {

/// The steady-state tasks, one per trigger source.
#[derive(Clone, Copy, Debug, PartialEq, Eq, Structural)]
pub enum Task {
    /// Physical-input edge notification.
    ButtonIrq,
    /// Latched power-transition events.
    PowerEvent,
    /// Contactless transport keepalive timer.
    NfcKeepalive,
    /// USB transport pump.
    UsbTransport,
    /// CCID sub-protocol keepalive timer.
    CcidKeepalive,
    /// CTAPHID sub-protocol keepalive timer.
    CtaphidKeepalive,
    /// Drain of the pending crypto operation queue.
    CryptoProcess,
    /// UI animation tick.
    UiTick,
}

/// The static priority of each task; higher runs first, preempting lower.
pub open spec fn task_priority(t: Task) -> int {
    match t {
        Task::ButtonIrq => 5,
        Task::PowerEvent => 5,
        Task::NfcKeepalive => 4,
        Task::UsbTransport => 3,
        Task::CcidKeepalive => 3,
        Task::CtaphidKeepalive => 3,
        Task::CryptoProcess => 2,
        Task::UiTick => 1,
    }
}

/// Reads a task's static priority.
pub fn priority(t: Task) -> (r: u8)
    ensures
        r as int == task_priority(t),
{
    match t {
        Task::ButtonIrq => 5,
        Task::PowerEvent => 5,
        Task::NfcKeepalive => 4,
        Task::UsbTransport => 3,
        Task::CcidKeepalive => 3,
        Task::CtaphidKeepalive => 3,
        Task::CryptoProcess => 2,
        Task::UiTick => 1,
    }
}

/// One scheduled future task invocation.
#[derive(Clone, Copy, Debug, PartialEq, Eq, Structural)]
pub struct TimerEntry {
    /// The task to raise.
    pub task: Task,
    /// The instant, on the monotonic clock, at which to raise it.
    pub deadline: u64,
}

/// How often `t` occurs in a ready queue.
pub open spec fn pend_count(s: Seq<Task>, t: Task) -> nat {
    s.filter(|x: Task| x == t).len()
}

/// How many future invocations of `t` are scheduled in a timer queue.
pub open spec fn scheduled_count(s: Seq<TimerEntry>, t: Task) -> nat {
    s.filter(|e: TimerEntry| e.task == t).len()
}

/// Appending one element to a sequence grows a filtered view by exactly
/// that element, when the element matches, and not at all otherwise.
pub proof fn lemma_filter_push<A>(s: Seq<A>, x: A, pred: spec_fn(A) -> bool)
    ensures
        pred(x) ==> s.push(x).filter(pred) == s.filter(pred).push(x),
        !pred(x) ==> s.push(x).filter(pred) == s.filter(pred),
{
    reveal(Seq::filter);
    assert(s.push(x).drop_last() =~= s);
}

/// Raising one task grows its ready count by exactly one and leaves every
/// other task's count alone.
pub proof fn lemma_pend_count_push(s: Seq<Task>, x: Task, t: Task)
    ensures
        pend_count(s.push(x), t) == pend_count(s, t) + (if x == t {
            1int
        } else {
            0int
        }),
{
    reveal(Seq::filter);
    assert(s.push(x).drop_last() =~= s);
}

/// The scheduler's queues: tasks ready to run, and timer entries waiting
/// for their deadline.
pub struct Scheduler {
    /// Raised tasks, ready for dispatch.
    pub pending: Vec<Task>,
    /// Scheduled future invocations, against the monotonic clock.
    pub timers: Vec<TimerEntry>,
}

impl Scheduler {
    /// An empty scheduler, as the dispatcher starts with.
    pub fn new() -> (r: Scheduler)
        ensures
            r.pending@ == Seq::<Task>::empty(),
            r.timers@ == Seq::<TimerEntry>::empty(),
    {
        Scheduler { pending: Vec::new(), timers: Vec::new() }
    }

    /// Raises `t`: marks it ready to run, as an interrupt pend does.
    pub fn pend(&mut self, t: Task)
        ensures
            final(self).pending@ == old(self).pending@.push(t),
            final(self).timers@ == old(self).timers@,
    {
        self.pending.push(t);
    }

    /// Schedules one future invocation of `t`, `delay` ticks from `now`.
    pub fn schedule_after(&mut self, t: Task, delay: u64, now: u64)
        ensures
            final(self).pending@ == old(self).pending@,
            final(self).timers@ == old(self).timers@.push(TimerEntry {
                task: t,
                deadline: monotonic::deadline_after(now, delay),
            }),
    {
        let deadline = monotonic::compute_deadline(now, delay);
        self.timers.push(TimerEntry { task: t, deadline });
    }

    /// The scheduler tick: moves every timer entry whose deadline has
    /// passed into the ready queue, in order, and keeps the rest waiting.
    pub fn fire_due(&mut self, now: u64)
        ensures
            final(self).timers@ == old(self).timers@.filter(
                |e: TimerEntry| !monotonic::deadline_passed(now, e.deadline),
            ),
            final(self).pending@ == old(self).pending@ + old(self).timers@.filter(
                |e: TimerEntry| monotonic::deadline_passed(now, e.deadline),
            ).map_values(|e: TimerEntry| e.task),
    {
        let ghost due_pred = |e: TimerEntry| monotonic::deadline_passed(now, e.deadline);
        let ghost wait_pred = |e: TimerEntry| !monotonic::deadline_passed(now, e.deadline);
        let ghost timers0 = self.timers@;
        let ghost pending0 = self.pending@;
        let mut waiting: Vec<TimerEntry> = Vec::new();
        let mut i: usize = 0;
        proof {
            assert(timers0.take(0) =~= Seq::<TimerEntry>::empty());
            assert(Seq::<TimerEntry>::empty().filter(due_pred) =~= Seq::<TimerEntry>::empty());
            assert(Seq::<TimerEntry>::empty().filter(wait_pred) =~= Seq::<TimerEntry>::empty());
            assert(pending0 + Seq::<TimerEntry>::empty().map_values(|e: TimerEntry| e.task)
                =~= pending0);
        }
        while i < self.timers.len()
            invariant
                i <= timers0.len(),
                self.timers@ == timers0,
                waiting@ == timers0.take(i as int).filter(wait_pred),
                self.pending@ == pending0 + timers0.take(i as int).filter(due_pred).map_values(
                    |e: TimerEntry| e.task,
                ),
                due_pred == (|e: TimerEntry| monotonic::deadline_passed(now, e.deadline)),
                wait_pred == (|e: TimerEntry| !monotonic::deadline_passed(now, e.deadline)),
            decreases timers0.len() - i,
        {
            let entry = self.timers[i];
            proof {
                assert(timers0.take(i as int + 1) =~= timers0.take(i as int).push(entry));
                lemma_filter_push(timers0.take(i as int), entry, due_pred);
                lemma_filter_push(timers0.take(i as int), entry, wait_pred);
            }
            if monotonic::is_due(now, entry.deadline) {
                self.pending.push(entry.task);
                proof {
                    assert(self.pending@ =~= pending0 + timers0.take(i as int + 1).filter(
                        due_pred,
                    ).map_values(|e: TimerEntry| e.task));
                }
            } else {
                waiting.push(entry);
            }
            i = i + 1;
        }
        proof {
            assert(timers0.take(timers0.len() as int) =~= timers0);
        }
        self.timers = waiting;
    }

    /// Dispatches: removes and returns a ready task of maximal priority,
    /// or nothing when the device should fall back to the idle loop.
    pub fn take_highest(&mut self) -> (r: Option<Task>)
        ensures
            match r {
                None => old(self).pending@.len() == 0 && *final(self) == *old(self),
                Some(t) => {
                    &&& (exists|i: int|
                        0 <= i < old(self).pending@.len() && old(self).pending@[i] == t
                            && final(self).pending@ == old(self).pending@.remove(i))
                    &&& (forall|j: int|
                        0 <= j < old(self).pending@.len() ==> task_priority(
                            #[trigger] old(self).pending@[j],
                        ) <= task_priority(t))
                    &&& final(self).timers@ == old(self).timers@
                },
            },
    {
        if self.pending.len() == 0 {
            return None;
        }
        let mut best: usize = 0;
        let mut best_priority: u8 = priority(self.pending[0]);
        let mut j: usize = 1;
        while j < self.pending.len()
            invariant
                1 <= self.pending@.len(),
                best < j <= self.pending@.len(),
                best_priority as int == task_priority(self.pending@[best as int]),
                forall|k: int|
                    0 <= k < j ==> task_priority(#[trigger] self.pending@[k])
                        <= best_priority as int,
            decreases self.pending@.len() - j,
        {
            let p = priority(self.pending[j]);
            if p > best_priority {
                best = j;
                best_priority = p;
            }
            j = j + 1;
        }
        let t = self.pending.remove(best);
        Some(t)
    }
}

} // verus!
