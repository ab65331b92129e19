//! A queue of up to two pending handler calls, each due after a number of
//! timer ticks; the earliest one decides when the timer fires. The timer
//! itself is set by the caller, to the timeouts that the queue returns.

use vstd::multiset::Multiset;
use vstd::prelude::*;

use crate::heaps::{is_least, tick_heap_items, tick_heap_new, tick_heap_peek, tick_heap_pop, tick_heap_push, TickHeap};

verus! {

/// A handler call that is not due yet: the handler (by its number in the
/// caller's table) and the ticks after which it is due.
#[derive(Copy, Clone, Eq)]
pub struct NotReady {
    pub handler: u32,
    pub tick: u32,
}

impl PartialEq for NotReady {
    fn eq(&self, other: &Self) -> (r: bool) {
        self.tick == other.tick
    }
}

impl vstd::std_specs::cmp::PartialEqSpecImpl for NotReady {
    open spec fn obeys_eq_spec() -> bool {
        true
    }

    open spec fn eq_spec(&self, other: &Self) -> bool {
        self.tick == other.tick
    }
}

impl PartialOrd for NotReady {
    fn partial_cmp(&self, other: &Self) -> (r: Option<core::cmp::Ordering>) {
        if self.tick < other.tick {
            Some(core::cmp::Ordering::Less)
        } else if self.tick == other.tick {
            Some(core::cmp::Ordering::Equal)
        } else {
            Some(core::cmp::Ordering::Greater)
        }
    }
}

impl vstd::std_specs::cmp::PartialOrdSpecImpl for NotReady {
    open spec fn obeys_partial_cmp_spec() -> bool {
        true
    }

    open spec fn partial_cmp_spec(&self, other: &Self) -> Option<core::cmp::Ordering> {
        if self.tick < other.tick {
            Some(core::cmp::Ordering::Less)
        } else if self.tick == other.tick {
            Some(core::cmp::Ordering::Equal)
        } else {
            Some(core::cmp::Ordering::Greater)
        }
    }
}

/// `a + b` on a 32-bit counter that wraps around.
pub open spec fn wrapped_sum(a: u32, b: u32) -> u32 {
    ((a + b) % 0x1_0000_0000) as u32
}

/// The wrapped sum is the plain sum when it fits in 32 bits, and 2^32 less
/// when it does not.
pub proof fn law_wrapped_sum(a: u32, b: u32)
    ensures
        a + b <= u32::MAX ==> wrapped_sum(a, b) == a + b,
        a + b > u32::MAX ==> wrapped_sum(a, b) == a + b - 0x1_0000_0000,
{
}

/// The entries of the queue, as (tick, handler) pairs.
pub open spec fn entry(task: NotReady) -> (u32, u32) {
    (task.tick, task.handler)
}

/// Pending handler calls, the earliest first.
pub struct Queue {
    queue: TickHeap,
}

impl Queue {
    /// The pending calls as (tick, handler) pairs.
    pub closed spec fn pending(&self) -> Multiset<(u32, u32)> {
        tick_heap_items(self.queue)
    }

    /// An empty queue.
    pub fn new() -> (q: Self)
        ensures
            q.pending() =~= Multiset::empty(),
    {
        Queue { queue: tick_heap_new() }
    }

    /// Adds a call, with the timer at `current`. Refused (the call handed
    /// back) when two calls are pending. The second component is the new
    /// timeout to load into the timer: given when the call was added and is
    /// due no later than every pending one, `None` when the timer stays.
    pub fn enqueue(&mut self, task: NotReady, current: u32) -> (r: (Result<(), NotReady>, Option<u32>))
        ensures
            r.0 is Err <==> old(self).pending().len() >= 2,
            r.0 is Ok ==> final(self).pending() == old(self).pending().insert(entry(task)),
            r.0 matches Err(t) ==> t == task && final(self).pending() == old(self).pending(),
            r.1 == (if r.0 is Ok && (forall|y: (u32, u32)| #[trigger] old(self).pending().contains(y) ==> task.tick <= y.0) {
                Some(wrapped_sum(current, task.tick))
            } else {
                None
            }),
    {
        let timeout = match tick_heap_peek(&self.queue) {
            Some(queued) => {
                if task.tick > queued.0 {
                    None
                } else {
                    Some(current.wrapping_add(task.tick))
                }
            },
            None => Some(current.wrapping_add(task.tick)),
        };
        match tick_heap_push(&mut self.queue, (task.tick, task.handler)) {
            Ok(()) => (Ok(()), timeout),
            Err(_) => (Err(task), None),
        }
    }

    /// Removes the earliest call, with the timer at `current`. The second
    /// component is the timeout for the call that is earliest now, `None`
    /// when no call is left.
    pub fn pop(&mut self, current: u32) -> (r: (Option<NotReady>, Option<u32>))
        ensures
            r.0 is Some <==> old(self).pending().len() > 0,
            r.0 is None ==> final(self).pending() == old(self).pending(),
            r.0 matches Some(t) ==> is_least(old(self).pending(), entry(t)) && final(self).pending()
                == old(self).pending().remove(entry(t)),
            r.1 is Some <==> final(self).pending().len() > 0,
            r.1 matches Some(timeout) ==> forall|x: (u32, u32)| #[trigger] is_least(final(self).pending(), x) ==> timeout
                == wrapped_sum(current, x.0),
    {
        match tick_heap_pop(&mut self.queue) {
            None => (None, None),
            Some(top) => {
                let task = NotReady { handler: top.1, tick: top.0 };
                let timeout = match tick_heap_peek(&self.queue) {
                    Some(next) => Some(current.wrapping_add(next.0)),
                    None => None,
                };
                (Some(task), timeout)
            },
        }
    }
}

} // verus!
