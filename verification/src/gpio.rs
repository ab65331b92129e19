//! Handlers for presses of the two buttons, and the choice of which one a
//! pin-change interrupt runs. The pins and the event registers are read
//! and cleared by the caller.

use vstd::prelude::*;

use crate::button::Button;

verus! {

/// The user's handlers for button A, button B and both buttons together.
pub struct ButtonHandlers<H> {
    a: Option<H>,
    b: Option<H>,
    both: Option<H>,
}

/// Which handler a pin-change interrupt runs, given which of the two pins
/// raised an event: both at once run the handler for the pair.
pub open spec fn pressed(a: bool, b: bool) -> Button {
    if a && b {
        Button::Both
    } else if a {
        Button::A
    } else {
        Button::B
    }
}

/// Both pins at once select the pair's handler, one pin alone its own
/// button's handler.
pub proof fn law_pressed(a: bool, b: bool)
    requires
        a || b,
    ensures
        pressed(a, b) == Button::Both <==> (a && b),
        pressed(a, b) == Button::A <==> (a && !b),
        pressed(a, b) == Button::B <==> (!a && b),
{
}

impl<H: Copy> ButtonHandlers<H> {
    /// The handler registered for a button (or the pair).
    pub closed spec fn handler(&self, button: Button) -> Option<H> {
        match button {
            Button::A => self.a,
            Button::B => self.b,
            Button::Both => self.both,
        }
    }

    /// No handler registered yet.
    pub fn new() -> (h: Self)
        ensures
            h.handler(Button::A) is None,
            h.handler(Button::B) is None,
            h.handler(Button::Both) is None,
    {
        ButtonHandlers { a: None, b: None, both: None }
    }

    /// Whether a handler is registered for the button.
    pub fn is_registered(&self, button: Button) -> (r: bool)
        ensures
            r == self.handler(button) is Some,
    {
        match button {
            Button::A => self.a.is_some(),
            Button::B => self.b.is_some(),
            Button::Both => self.both.is_some(),
        }
    }

    /// Registers the handler for button A; only one is allowed.
    pub fn register_a_button_handler(&mut self, f: H)
        requires
            old(self).handler(Button::A) is None,
        ensures
            final(self).handler(Button::A) == Some(f),
            final(self).handler(Button::B) == old(self).handler(Button::B),
            final(self).handler(Button::Both) == old(self).handler(Button::Both),
    {
        self.a = Some(f);
    }

    /// Registers the handler for button B; only one is allowed.
    pub fn register_b_button_handler(&mut self, f: H)
        requires
            old(self).handler(Button::B) is None,
        ensures
            final(self).handler(Button::B) == Some(f),
            final(self).handler(Button::A) == old(self).handler(Button::A),
            final(self).handler(Button::Both) == old(self).handler(Button::Both),
    {
        self.b = Some(f);
    }

    /// Registers the handler for both buttons together; only one is allowed.
    pub fn register_both_button_handler(&mut self, f: H)
        requires
            old(self).handler(Button::Both) is None,
        ensures
            final(self).handler(Button::Both) == Some(f),
            final(self).handler(Button::A) == old(self).handler(Button::A),
            final(self).handler(Button::B) == old(self).handler(Button::B),
    {
        self.both = Some(f);
    }

    /// The handler to run for a pin-change interrupt in which pin A (`a`)
    /// and/or pin B (`b`) raised an event; `None` when none is registered.
    pub fn gpiote_handler(&self, a: bool, b: bool) -> (h: Option<H>)
        requires
            a || b,
        ensures
            h == self.handler(pressed(a, b)),
    {
        match (a, b) {
            (true, true) => self.both,
            (true, false) => self.a,
            _ => self.b,
        }
    }
}

} // verus!
