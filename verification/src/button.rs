use vstd::prelude::*;

verus! {

/// One of the two buttons of the board, or both together.
#[derive(Debug, Clone, Copy, PartialEq, Eq, Structural)]
pub enum Button {
    A,
    B,
    Both,
}

/// Debounced state of a button.
#[derive(Copy, Clone, Debug, PartialEq, Eq, Structural)]
pub enum State {
    Pushed,
    Released,
}

/// The last eight samples of a button pin (bit 0 is the newest, set when
/// the pin read low) together with the debounced state.
#[derive(Debug)]
pub struct History {
    history: u8,
    pub state: State,
}

/// The sample register after one more sample: the register moves one bit
/// up, the oldest sample drops out and the new one enters at bit 0.
pub open spec fn next_samples(samples: u8, low: bool) -> u8 {
    if low {
        (samples << 1u8) | 1u8
    } else {
        samples << 1u8
    }
}

/// The debounced state after one more sample: a released button becomes
/// pushed once eight samples in a row read low, a pushed one becomes
/// released once eight samples in a row read high.
pub open spec fn next_state(samples: u8, state: State, low: bool) -> State {
    let n = next_samples(samples, low);
    if n == 0xffu8 && state == State::Released {
        State::Pushed
    } else if n == 0u8 && state == State::Pushed {
        State::Released
    } else {
        state
    }
}

/// Samples and state after a whole run of samples, the first one first.
pub open spec fn run(samples: u8, state: State, readings: Seq<bool>) -> (u8, State)
    decreases readings.len(),
{
    if readings.len() == 0 {
        (samples, state)
    } else {
        run(
            next_samples(samples, readings[0]),
            next_state(samples, state, readings[0]),
            readings.drop_first(),
        )
    }
}

/// A sample register and a state that fit together: a released button has
/// not seen eight low samples in a row, a pushed one not eight high ones.
pub open spec fn consistent(samples: u8, state: State) -> bool {
    &&& (state == State::Released ==> samples != 0xffu8)
    &&& (state == State::Pushed ==> samples != 0u8)
}

impl History {
    /// The register of the last eight samples.
    pub closed spec fn samples(&self) -> u8 {
        self.history
    }

    /// The debounced state.
    pub closed spec fn current(&self) -> State {
        self.state
    }

    /// A released button whose last eight samples all read high.
    pub fn new_released() -> (h: Self)
        ensures
            h.samples() == 0,
            h.current() == State::Released,
    {
        History { history: 0, state: State::Released }
    }

    /// The debounced state.
    pub fn state(&self) -> (s: State)
        ensures
            s == self.current(),
    {
        self.state
    }

    /// Records one sample of the pin (`low` when the button is held down) and
    /// reports whether the debounced state changed.
    pub fn measure(&mut self, low: bool) -> (changed: bool)
        ensures
            final(self).samples() == next_samples(old(self).samples(), low),
            final(self).current() == next_state(old(self).samples(), old(self).current(), low),
            changed == (final(self).current() != old(self).current()),
            consistent(final(self).samples(), final(self).current()),
            final(self).samples() as int == (old(self).samples() as int * 2) % 256 + (if low { 1int } else { 0int }),
            final(self).current() == (if final(self).samples() == 0xffu8 {
                State::Pushed
            } else if final(self).samples() == 0u8 {
                State::Released
            } else {
                old(self).current()
            }),
    {
        proof {
            law_sample_register(old(self).samples(), low);
            law_state_follows_register(old(self).samples(), old(self).current(), low);
        }
        let h = self.history;
        if low {
            assert((h << 1u8) <= 254u8 && (h << 1u8) + 1 == ((h << 1u8) | 1u8)) by (bit_vector);
            self.history = (self.history << 1) + 1;
        } else {
            self.history = self.history << 1;
        }
        match (self.history, self.state) {
            (255u8, State::Released) => {
                self.history = u8::MAX;
                self.state = State::Pushed;
                true
            },
            (0, State::Pushed) => {
                self.history = 0;
                self.state = State::Released;
                true
            },
            (_, State::Released) => false,
            (_, State::Pushed) => false,
        }
    }
}

/// The button events that one poll of both pins gives, in the order in
/// which they are raised: a change of A, a change of B, and, when both
/// changed to the same state, the pair.
pub open spec fn poll_events(a_changed: bool, a: State, b_changed: bool, b: State) -> Seq<(Button, State)> {
    let first = if a_changed { seq![(Button::A, a)] } else { Seq::empty() };
    let second = if b_changed { seq![(Button::B, b)] } else { Seq::empty() };
    let third = if a_changed && b_changed && a == b { seq![(Button::Both, a)] } else { Seq::empty() };
    first + second + third
}

/// The sample register as a number: twice the old value, wrapped to eight
/// bits, plus one for a low sample.
pub proof fn law_sample_register(samples: u8, low: bool)
    ensures
        next_samples(samples, low) as int == (samples as int * 2) % 256 + (if low { 1int } else { 0int }),
{
    let n = next_samples(samples, low);
    if low {
        assert(n == (samples << 1u8) | 1u8);
        assert(((samples << 1u8) | 1u8) as int == (samples as int * 2) % 256 + 1) by (bit_vector);
    } else {
        assert(n == samples << 1u8);
        assert((samples << 1u8) as int == (samples as int * 2) % 256) by (bit_vector);
    }
}

/// The debounced state after a sample is pushed when the last eight samples
/// (the register after it) were all low, released when they were all high,
/// and otherwise what it was: a state changes only on eight equal samples.
pub proof fn law_state_follows_register(samples: u8, state: State, low: bool)
    ensures
        next_state(samples, state, low) == (if next_samples(samples, low) == 0xffu8 {
            State::Pushed
        } else if next_samples(samples, low) == 0u8 {
            State::Released
        } else {
            state
        }),
        next_state(samples, state, low) != state ==> (state == State::Released && next_samples(samples, low) == 0xffu8)
            || (state == State::Pushed && next_samples(samples, low) == 0u8),
{
}

/// One poll raises an event for A exactly when A changed, one for B exactly
/// when B changed, and one for the pair exactly when both changed to the
/// same state; the pair's event comes last and carries that state.
pub proof fn law_poll_events(a_changed: bool, a: State, b_changed: bool, b: State)
    ensures
        poll_events(a_changed, a, b_changed, b).contains((Button::A, a)) <==> a_changed,
        poll_events(a_changed, a, b_changed, b).contains((Button::B, b)) <==> b_changed,
        (exists|s: State| #[trigger] poll_events(a_changed, a, b_changed, b).contains((Button::Both, s))) <==> (a_changed
            && b_changed && a == b),
        (a_changed && b_changed && a == b) ==> poll_events(a_changed, a, b_changed, b).len() == 3 && poll_events(
            a_changed,
            a,
            b_changed,
            b,
        ).last() == (Button::Both, a),
        poll_events(a_changed, a, b_changed, b).len() == (if a_changed { 1int } else { 0int }) + (if b_changed {
            1int
        } else {
            0int
        }) + (if a_changed && b_changed && a == b { 1int } else { 0int }),
        forall|i: int|
            0 <= i < poll_events(a_changed, a, b_changed, b).len() ==> (#[trigger] poll_events(a_changed, a, b_changed, b)[i]).1
                == (if poll_events(a_changed, a, b_changed, b)[i].0 == Button::B { b } else { a }),
{
    let e = poll_events(a_changed, a, b_changed, b);
    let both = a_changed && b_changed && a == b;
    if a_changed && b_changed && both {
        assert(e =~= seq![(Button::A, a), (Button::B, b), (Button::Both, a)]);
    } else if a_changed && b_changed {
        assert(e =~= seq![(Button::A, a), (Button::B, b)]);
    } else if a_changed {
        assert(e =~= seq![(Button::A, a)]);
    } else if b_changed {
        assert(e =~= seq![(Button::B, b)]);
    } else {
        assert(e =~= Seq::<(Button, State)>::empty());
    }
    if !both {
        assert forall|s: State| !e.contains((Button::Both, s)) by {
            if e.contains((Button::Both, s)) {
                let i = choose|i: int| 0 <= i < e.len() && e[i] == (Button::Both, s);
            }
        }
    } else {
        assert(e[2] == (Button::Both, a));
        assert(poll_events(a_changed, a, b_changed, b).contains((Button::Both, a)));
    }
    if a_changed {
        assert(e[0] == (Button::A, a));
    }
    if b_changed {
        assert(e[if a_changed { 1int } else { 0int }] == (Button::B, b));
    }
}

/// Takes one sample of each button pin and returns the events to hand to
/// the user's button handler.
pub fn button_events(a: &mut History, b: &mut History, a_low: bool, b_low: bool) -> (events: Vec<(Button, State)>)
    ensures
        final(a).samples() == next_samples(old(a).samples(), a_low),
        final(a).current() == next_state(old(a).samples(), old(a).current(), a_low),
        final(b).samples() == next_samples(old(b).samples(), b_low),
        final(b).current() == next_state(old(b).samples(), old(b).current(), b_low),
        events@ == poll_events(
            final(a).current() != old(a).current(),
            final(a).current(),
            final(b).current() != old(b).current(),
            final(b).current(),
        ),
        (final(a).current() != old(a).current() && final(b).current() != old(b).current() && final(a).current()
            == final(b).current()) ==> events@.len() == 3 && events@.last() == (Button::Both, final(a).current()),
        events@.contains((Button::A, final(a).current())) <==> final(a).current() != old(a).current(),
        events@.contains((Button::B, final(b).current())) <==> final(b).current() != old(b).current(),
{
    let a_change = a.measure(a_low);
    let b_change = b.measure(b_low);
    let a_state = a.state();
    let b_state = b.state();
    let mut events: Vec<(Button, State)> = Vec::new();
    if a_change {
        events.push((Button::A, a_state));
    }
    if b_change {
        events.push((Button::B, b_state));
    }
    if a_change && b_change && a_state == b_state {
        events.push((Button::Both, a_state));
    }
    proof {
        law_poll_events(a_change, a_state, b_change, b_state);
        assert(events@ =~= poll_events(a_change, a_state, b_change, b_state));
    }
    events
}


/// Eight low samples in a row leave the button pushed, and eight high
/// samples in a row leave it released, whatever came before.
pub proof fn law_eight_equal_samples_decide(samples: u8, state: State, readings: Seq<bool>)
    requires
        readings.len() == 8,
        forall|i: int| 0 <= i < 8 ==> #[trigger] readings[i] == readings[0],
    ensures
        run(samples, state, readings).1 == (if readings[0] { State::Pushed } else { State::Released }),
        run(samples, state, readings).0 == (if readings[0] { 0xffu8 } else { 0u8 }),
{
    lemma_run_same(samples, state, readings);
}

proof fn lemma_run_same(samples: u8, state: State, readings: Seq<bool>)
    requires
        readings.len() == 8,
        forall|i: int| 0 <= i < 8 ==> #[trigger] readings[i] == readings[0],
    ensures
        run(samples, state, readings).1 == (if readings[0] { State::Pushed } else { State::Released }),
        run(samples, state, readings).0 == (if readings[0] { 0xffu8 } else { 0u8 }),
{
    let v = readings[0];
    let h0 = samples;
    let h1 = next_samples(h0, v);
    let h2 = next_samples(h1, v);
    let h3 = next_samples(h2, v);
    let h4 = next_samples(h3, v);
    let h5 = next_samples(h4, v);
    let h6 = next_samples(h5, v);
    let h7 = next_samples(h6, v);
    let h8 = next_samples(h7, v);
    if v {
        assert(h1 != 0 && h2 != 0 && h3 != 0 && h4 != 0 && h5 != 0 && h6 != 0 && h7 != 0 && h8 == 0xffu8) by (bit_vector)
            requires
                h1 == (h0 << 1u8) | 1u8, h2 == (h1 << 1u8) | 1u8, h3 == (h2 << 1u8) | 1u8,
                h4 == (h3 << 1u8) | 1u8, h5 == (h4 << 1u8) | 1u8, h6 == (h5 << 1u8) | 1u8,
                h7 == (h6 << 1u8) | 1u8, h8 == (h7 << 1u8) | 1u8;
    } else {
        assert(h1 != 0xffu8 && h2 != 0xffu8 && h3 != 0xffu8 && h4 != 0xffu8 && h5 != 0xffu8
            && h6 != 0xffu8 && h7 != 0xffu8 && h8 == 0u8) by (bit_vector)
            requires
                h1 == h0 << 1u8, h2 == h1 << 1u8, h3 == h2 << 1u8, h4 == h3 << 1u8,
                h5 == h4 << 1u8, h6 == h5 << 1u8, h7 == h6 << 1u8, h8 == h7 << 1u8;
    }
    let r1 = readings.drop_first();
    let r2 = r1.drop_first();
    let r3 = r2.drop_first();
    let r4 = r3.drop_first();
    let r5 = r4.drop_first();
    let r6 = r5.drop_first();
    let r7 = r6.drop_first();
    let r8 = r7.drop_first();
    assert(r1[0] == v && r2[0] == v && r3[0] == v && r4[0] == v && r5[0] == v && r6[0] == v && r7[0] == v);
    assert(r8.len() == 0);
    let s1 = next_state(h0, state, v);
    let s2 = next_state(h1, s1, v);
    let s3 = next_state(h2, s2, v);
    let s4 = next_state(h3, s3, v);
    let s5 = next_state(h4, s4, v);
    let s6 = next_state(h5, s5, v);
    let s7 = next_state(h6, s6, v);
    let s8 = next_state(h7, s7, v);
    assert(run(h8, s8, r8) == (h8, s8));
    assert(run(h7, s7, r7) == run(h8, s8, r8));
    assert(run(h6, s6, r6) == run(h7, s7, r7));
    assert(run(h5, s5, r5) == run(h6, s6, r6));
    assert(run(h4, s4, r4) == run(h5, s5, r5));
    assert(run(h3, s3, r3) == run(h4, s4, r4));
    assert(run(h2, s2, r2) == run(h3, s3, r3));
    assert(run(h1, s1, r1) == run(h2, s2, r2));
    assert(run(h0, state, readings) == run(h1, s1, r1));
}

/// After a change of state, the next seven samples, whatever they read,
/// change it no more: a pushed button whose register is full stays pushed,
/// a released one whose register is empty stays released.
pub proof fn law_no_change_within_seven(readings: Seq<bool>)
    requires
        readings.len() <= 7,
    ensures
        run(0xffu8, State::Pushed, readings).1 == State::Pushed,
        run(0u8, State::Released, readings).1 == State::Released,
{
    let n = readings.len() as u8;
    assert((0xffu8 << n) != 0u8 && (!0u8 << n) != 0u8) by (bit_vector)
        requires
            n <= 7u8;
    lemma_pushed_holds(0xffu8, readings);
    lemma_released_holds(0u8, readings);
}

proof fn lemma_pushed_holds(samples: u8, readings: Seq<bool>)
    requires
        readings.len() <= 7,
        samples != 0u8,
        (samples << (readings.len() as u8)) != 0u8,
    ensures
        run(samples, State::Pushed, readings).1 == State::Pushed,
    decreases readings.len(),
{
    if readings.len() > 0 {
        let n = (readings.len() - 1) as u8;
        let h = next_samples(samples, readings[0]);
        assert(h != 0u8 && (h << n) != 0u8) by (bit_vector)
            requires
                n < 7u8,
                (samples << ((n + 1) as u8)) != 0u8,
                h == (samples << 1u8) | 1u8 || h == samples << 1u8;
        lemma_pushed_holds(h, readings.drop_first());
    }
}

proof fn lemma_released_holds(samples: u8, readings: Seq<bool>)
    requires
        readings.len() <= 7,
        samples != 0xffu8,
        (!samples << (readings.len() as u8)) != 0u8,
    ensures
        run(samples, State::Released, readings).1 == State::Released,
    decreases readings.len(),
{
    if readings.len() > 0 {
        let n = (readings.len() - 1) as u8;
        let h = next_samples(samples, readings[0]);
        assert(h != 0xffu8 && (!h << n) != 0u8) by (bit_vector)
            requires
                n < 7u8,
                (!samples << ((n + 1) as u8)) != 0u8,
                h == (samples << 1u8) | 1u8 || h == samples << 1u8;
        lemma_released_holds(h, readings.drop_first());
    }
}

} // verus!
