//! The table of handlers for the events of the real-time counter, and the
//! choice of which handler an interrupt runs. The counter's registers are
//! written by the caller, following the `RtcWrite`s that the table returns.

use vstd::prelude::*;

verus! {

/// An event of the real-time counter that a handler can be attached to.
#[derive(Copy, Clone, PartialEq, Eq, Structural, Debug)]
pub enum RTCInterrupt {
    Tick,
    Overflow,
    Compare0,
    Compare1,
    Compare2,
    Compare3,
}

impl RTCInterrupt {
    /// Position of the event in the table, which is also its priority
    /// (0 first): tick, overflow, then the four compare events.
    pub open spec fn slot(self) -> int {
        match self {
            RTCInterrupt::Tick => 0,
            RTCInterrupt::Overflow => 1,
            RTCInterrupt::Compare0 => 2,
            RTCInterrupt::Compare1 => 3,
            RTCInterrupt::Compare2 => 4,
            RTCInterrupt::Compare3 => 5,
        }
    }

    /// Whether the event is one of the four compare events.
    pub open spec fn is_compare(self) -> bool {
        self.slot() >= 2
    }

    /// The compare event of compare register `index`, if there is one.
    pub fn compare_from_index(index: usize) -> (i: Option<Self>)
        ensures
            i is Some <==> index < 4,
            i matches Some(e) ==> e.is_compare() && e.slot() == index + 2,
    {
        match index {
            0 => Some(RTCInterrupt::Compare0),
            1 => Some(RTCInterrupt::Compare1),
            2 => Some(RTCInterrupt::Compare2),
            3 => Some(RTCInterrupt::Compare3),
            _ => None,
        }
    }
}

/// The event in table position `slot`.
pub open spec fn interrupt_at(slot: int) -> RTCInterrupt {
    if slot == 0 {
        RTCInterrupt::Tick
    } else if slot == 1 {
        RTCInterrupt::Overflow
    } else if slot == 2 {
        RTCInterrupt::Compare0
    } else if slot == 3 {
        RTCInterrupt::Compare1
    } else if slot == 4 {
        RTCInterrupt::Compare2
    } else {
        RTCInterrupt::Compare3
    }
}

/// The compare register that serves table position `slot` (2 to 5).
pub open spec fn compare_register(slot: int) -> usize {
    (slot - 2) as usize
}

/// A register write that the counter needs after a change of the table.
#[derive(Copy, Clone, PartialEq, Eq, Structural, Debug)]
pub enum RtcWrite {
    /// Turn on the routing of the event (the event-enable set register).
    EnableEvent(RTCInterrupt),
    /// Turn off the routing of the event (the event-enable clear register).
    DisableEvent(RTCInterrupt),
    /// Load compare register `n` with the value.
    SetCompare(usize, u32),
}

/// Handlers for the six events; a handler receives the counter value.
pub struct Scheduler<H> {
    tick: Option<H>,
    overflow: Option<H>,
    compare: [Option<H>; 4],
}

impl<H: Copy> Scheduler<H> {
    /// The handlers in table order: tick, overflow, compare 0 to 3.
    pub closed spec fn table(&self) -> Seq<Option<H>> {
        seq![self.tick, self.overflow, self.compare[0], self.compare[1], self.compare[2], self.compare[3]]
    }

    /// The table always has one entry per event.
    pub proof fn lemma_table_len(&self)
        ensures
            self.table().len() == 6,
    {
    }

    /// A table with no handler.
    pub fn new() -> (s: Self)
        ensures
            s.table() == seq![None::<H>, None, None, None, None, None],
    {
        Scheduler { tick: None, overflow: None, compare: [None, None, None, None] }
    }

    /// The handler attached to an event.
    pub fn get_interrupt(&self, interrupt: RTCInterrupt) -> (h: Option<H>)
        ensures
            self.table().len() == 6,
            h == self.table()[interrupt.slot()],
    {
        match interrupt {
            RTCInterrupt::Tick => self.tick,
            RTCInterrupt::Overflow => self.overflow,
            RTCInterrupt::Compare0 => self.compare[0],
            RTCInterrupt::Compare1 => self.compare[1],
            RTCInterrupt::Compare2 => self.compare[2],
            RTCInterrupt::Compare3 => self.compare[3],
        }
    }

    /// Attaches a handler to the tick or the overflow event. Refused when
    /// the event already has a handler or is a compare event; on success
    /// the event must be enabled as the returned write says.
    pub fn set_agnostic_interrupt(&mut self, interrupt: RTCInterrupt, f: H) -> (r: Result<RtcWrite, ()>)
        ensures
            old(self).table().len() == 6,
            final(self).table().len() == 6,
            r is Ok <==> (old(self).table()[interrupt.slot()] is None && !interrupt.is_compare()),
            r is Ok ==> final(self).table() == old(self).table().update(interrupt.slot(), Some(f)) && r == Ok::<
                RtcWrite,
                (),
            >(RtcWrite::EnableEvent(interrupt)),
            r is Err ==> final(self).table() == old(self).table(),
    {
        match self.get_interrupt(interrupt) {
            Some(_) => Err(()),
            None => {
                match interrupt {
                    RTCInterrupt::Tick => {
                        self.tick = Some(f);
                    },
                    RTCInterrupt::Overflow => {
                        self.overflow = Some(f);
                    },
                    _ => return Err(()),
                }
                proof {
                    assert(self.table() =~= old(self).table().update(interrupt.slot(), Some(f)));
                }
                Ok(RtcWrite::EnableEvent(interrupt))
            },
        }
    }

    /// Attaches a handler to a compare event, to fire when the counter
    /// reaches `compare`. Refused when the event already has a handler or
    /// is not a compare event; on success the compare register must be
    /// loaded and the event enabled, in the order of the returned writes.
    pub fn set_cmp_interrupt(&mut self, interrupt: RTCInterrupt, f: H, compare: u32) -> (r: Result<(RtcWrite, RtcWrite), ()>)
        ensures
            old(self).table().len() == 6,
            final(self).table().len() == 6,
            r is Ok <==> (old(self).table()[interrupt.slot()] is None && interrupt.is_compare()),
            r is Ok ==> final(self).table() == old(self).table().update(interrupt.slot(), Some(f)) && r == Ok::<
                (RtcWrite, RtcWrite),
                (),
            >((RtcWrite::SetCompare(compare_register(interrupt.slot()), compare), RtcWrite::EnableEvent(interrupt))),
            r is Err ==> final(self).table() == old(self).table(),
            interrupt == RTCInterrupt::Compare0 && r is Ok ==> r == Ok::<(RtcWrite, RtcWrite), ()>((RtcWrite::SetCompare(0, compare), RtcWrite::EnableEvent(RTCInterrupt::Compare0))),
            interrupt == RTCInterrupt::Compare1 && r is Ok ==> r == Ok::<(RtcWrite, RtcWrite), ()>((RtcWrite::SetCompare(1, compare), RtcWrite::EnableEvent(RTCInterrupt::Compare1))),
            interrupt == RTCInterrupt::Compare2 && r is Ok ==> r == Ok::<(RtcWrite, RtcWrite), ()>((RtcWrite::SetCompare(2, compare), RtcWrite::EnableEvent(RTCInterrupt::Compare2))),
            interrupt == RTCInterrupt::Compare3 && r is Ok ==> r == Ok::<(RtcWrite, RtcWrite), ()>((RtcWrite::SetCompare(3, compare), RtcWrite::EnableEvent(RTCInterrupt::Compare3))),
    {
        match self.get_interrupt(interrupt) {
            Some(_) => Err(()),
            None => {
                let n: usize = match interrupt {
                    RTCInterrupt::Compare0 => 0,
                    RTCInterrupt::Compare1 => 1,
                    RTCInterrupt::Compare2 => 2,
                    RTCInterrupt::Compare3 => 3,
                    _ => return Err(()),
                };
                self.compare[n] = Some(f);
                proof {
                    assert(self.table() =~= old(self).table().update(interrupt.slot(), Some(f)));
                }
                Ok((RtcWrite::SetCompare(n, compare), RtcWrite::EnableEvent(interrupt)))
            },
        }
    }

    /// Detaches the handler of an event; the event must then be disabled
    /// as the returned write says.
    pub fn unset_interrupt(&mut self, interrupt: RTCInterrupt) -> (w: RtcWrite)
        ensures
            old(self).table().len() == 6,
            final(self).table().len() == 6,
            final(self).table() == old(self).table().update(interrupt.slot(), None),
            w == RtcWrite::DisableEvent(interrupt),
    {
        match interrupt {
            RTCInterrupt::Tick => {
                self.tick = None;
            },
            RTCInterrupt::Overflow => {
                self.overflow = None;
            },
            RTCInterrupt::Compare0 => {
                self.compare[0] = None;
            },
            RTCInterrupt::Compare1 => {
                self.compare[1] = None;
            },
            RTCInterrupt::Compare2 => {
                self.compare[2] = None;
            },
            RTCInterrupt::Compare3 => {
                self.compare[3] = None;
            },
        }
        proof {
            assert(self.table() =~= old(self).table().update(interrupt.slot(), None));
        }
        RtcWrite::DisableEvent(interrupt)
    }

    /// Attaches a handler to the first compare event that has none, to fire
    /// when the counter reaches `compare`. Refused when all four have one.
    pub fn set_available_compare(&mut self, f: H, compare: u32) -> (r: Result<(RtcWrite, RtcWrite), ()>)
        ensures
            old(self).table().len() == 6,
            final(self).table().len() == 6,
            r is Err <==> (forall|s: int| 2 <= s < 6 ==> #[trigger] old(self).table()[s] is Some),
            r is Err ==> final(self).table() == old(self).table(),
            r is Ok ==> exists|s: int|
                2 <= s < 6 && old(self).table()[s] is None && (forall|t: int| 2 <= t < s ==> #[trigger] old(self).table()[t] is Some)
                    && final(self).table() == old(self).table().update(s, Some(f)) && r == Ok::<(RtcWrite, RtcWrite), ()>(
                    (RtcWrite::SetCompare(compare_register(s), compare), RtcWrite::EnableEvent(interrupt_at(s))),
                ),
    {
        for i in 0..4usize
            invariant
                self.table() == old(self).table(),
                forall|t: int| 2 <= t < i + 2 ==> #[trigger] old(self).table()[t] is Some,
        {
            if self.compare[i].is_none() {
                let interrupt = match RTCInterrupt::compare_from_index(i) {
                    Some(e) => e,
                    None => return Err(()),
                };
                let r = self.set_cmp_interrupt(interrupt, f, compare);
                proof {
                    assert(interrupt == interrupt_at(i + 2));
                }
                return r;
            }
        }
        Err(())
    }

    /// The event that an interrupt of the counter serves, given which events
    /// have fired (in table order): the first fired one in priority order,
    /// with its handler. `None` when no event fired. The caller clears the
    /// event and runs the handler with the counter value.
    pub fn dispatch(&self, fired: [bool; 6]) -> (r: Option<(RTCInterrupt, Option<H>)>)
        ensures
            r is None <==> (forall|s: int| 0 <= s < 6 ==> !#[trigger] fired[s]),
            r matches Some((e, h)) ==> fired[e.slot()] && (forall|t: int| 0 <= t < e.slot() ==> !#[trigger] fired[t])
                && h == self.table()[e.slot()],
    {
        let priority: [RTCInterrupt; 6] = [
            RTCInterrupt::Tick,
            RTCInterrupt::Overflow,
            RTCInterrupt::Compare0,
            RTCInterrupt::Compare1,
            RTCInterrupt::Compare2,
            RTCInterrupt::Compare3,
        ];
        for i in 0..6usize
            invariant
                forall|t: int| 0 <= t < i ==> !#[trigger] fired[t],
                forall|t: int| 0 <= t < 6 ==> (#[trigger] priority[t]).slot() == t,
        {
            if fired[i] {
                let interrupt = priority[i];
                return Some((interrupt, self.get_interrupt(interrupt)));
            }
        }
        None
    }
}

/// Compare event N is served by compare register N, and the table holds
/// the events in priority order: tick, overflow, compare 0 to 3.
pub proof fn law_compare_registers()
    ensures
        compare_register(RTCInterrupt::Compare0.slot()) == 0,
        compare_register(RTCInterrupt::Compare1.slot()) == 1,
        compare_register(RTCInterrupt::Compare2.slot()) == 2,
        compare_register(RTCInterrupt::Compare3.slot()) == 3,
        RTCInterrupt::Tick.slot() == 0,
        RTCInterrupt::Overflow.slot() == 1,
        RTCInterrupt::Compare0.slot() == 2,
        RTCInterrupt::Compare1.slot() == 3,
        RTCInterrupt::Compare2.slot() == 4,
        RTCInterrupt::Compare3.slot() == 5,
        interrupt_at(0) == RTCInterrupt::Tick,
        interrupt_at(1) == RTCInterrupt::Overflow,
        interrupt_at(2) == RTCInterrupt::Compare0,
        interrupt_at(3) == RTCInterrupt::Compare1,
        interrupt_at(4) == RTCInterrupt::Compare2,
        interrupt_at(5) == RTCInterrupt::Compare3,
        !RTCInterrupt::Tick.is_compare(),
        !RTCInterrupt::Overflow.is_compare(),
        RTCInterrupt::Compare0.is_compare(),
        RTCInterrupt::Compare3.is_compare(),
{
}

/// Detaching a handler undoes attaching it: attaching to an event that has
/// no handler and then detaching gives back the table it started from, in
/// which attaching to that event is allowed again.
pub proof fn law_unset_undoes_set<H: Copy>(s: &Scheduler<H>, interrupt: RTCInterrupt, f: H)
    requires
        s.table()[interrupt.slot()] is None,
    ensures
        s.table().update(interrupt.slot(), Some(f)).update(interrupt.slot(), None) == s.table(),
        s.table().update(interrupt.slot(), Some(f)).update(interrupt.slot(), None)[interrupt.slot()] is None,
{
    s.lemma_table_len();
    assert(s.table().update(interrupt.slot(), Some(f)).update(interrupt.slot(), None) =~= s.table());
}

} // verus!
