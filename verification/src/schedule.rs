//! Scheduling on the low-resolution real-time counter: when a task that is
//! due in some milliseconds triggers, and the queue of pending tasks. The
//! counter itself is set up by the caller.

use vstd::multiset::Multiset;
use vstd::prelude::*;

use crate::heaps::{task_heap_items, task_heap_new, TaskHeap};

verus! {

/// Counter ticks per millisecond (the counter runs at 4096 Hz).
pub const TPMS: u32 = 4;

/// The counter has 24 bits: it wraps at this value.
pub const MAX: u32 = 16_777_216;

/// How far ahead a task may be scheduled, in ticks: thirty minutes.
pub const AHEAD: u32 = 7_372_800;

/// Whether a task runs once or again and again at a period (in ms).
#[derive(Copy, Clone, PartialEq, Eq, Structural, Debug)]
pub enum TaskKind {
    Single,
    Recurring(u32),
}

/// A scheduled task: the counter value at which it triggers, what to run,
/// and whether it recurs. Tasks compare by their trigger alone.
pub struct Task<F> {
    pub trigger: u32,
    pub func: F,
    pub kind: TaskKind,
}

impl<F> PartialEq for Task<F> {
    fn eq(&self, other: &Self) -> (r: bool) {
        self.trigger == other.trigger
    }
}

impl<F> vstd::std_specs::cmp::PartialEqSpecImpl for Task<F> {
    open spec fn obeys_eq_spec() -> bool {
        true
    }

    open spec fn eq_spec(&self, other: &Self) -> bool {
        self.trigger == other.trigger
    }
}

impl<F> PartialOrd for Task<F> {
    fn partial_cmp(&self, other: &Self) -> (r: Option<core::cmp::Ordering>) {
        if self.trigger < other.trigger {
            Some(core::cmp::Ordering::Less)
        } else if self.trigger == other.trigger {
            Some(core::cmp::Ordering::Equal)
        } else {
            Some(core::cmp::Ordering::Greater)
        }
    }
}

impl<F> vstd::std_specs::cmp::PartialOrdSpecImpl for Task<F> {
    open spec fn obeys_partial_cmp_spec() -> bool {
        true
    }

    open spec fn partial_cmp_spec(&self, other: &Self) -> Option<core::cmp::Ordering> {
        if self.trigger < other.trigger {
            Some(core::cmp::Ordering::Less)
        } else if self.trigger == other.trigger {
            Some(core::cmp::Ordering::Equal)
        } else {
            Some(core::cmp::Ordering::Greater)
        }
    }
}

/// The counter value at which something due `ms` milliseconds after the
/// counter value `current` triggers.
pub open spec fn trigger_at(current: u32, ms: u32) -> int {
    (current + TPMS * ms) % (MAX as int)
}

/// The pending tasks, as (trigger, task number) pairs, the earliest first.
pub struct Scheduler {
    queue: TaskHeap,
}

impl Scheduler {
    /// The pending (trigger, task number) pairs.
    pub closed spec fn pending(&self) -> Multiset<(u32, usize)> {
        task_heap_items(self.queue)
    }

    /// A scheduler with nothing pending.
    pub fn new() -> (s: Self)
        ensures
            s.pending() =~= Multiset::empty(),
    {
        Scheduler { queue: task_heap_new() }
    }

    /// The counter value at which something due in `ms` milliseconds
    /// triggers, with the counter at `current`.
    pub fn set_compare(current: u32, ms: u32) -> (trigger: u32)
        requires
            current + TPMS * ms <= u32::MAX,
        ensures
            trigger == trigger_at(current, ms),
            trigger < MAX,
    {
        let trigger = (current + (TPMS * ms)) % MAX;
        trigger
    }
}

} // verus!
