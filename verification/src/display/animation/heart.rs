use vstd::prelude::*;

use super::super::image::DisplayImage;
use super::{Animate, Frame};

verus! {

/// The small heart: one lit LED.
pub const HEART0: [[bool; 5]; 5] = [
    [false, false, false, false, false],
    [false, false, false, false, false],
    [false, false, true, false, false],
    [false, false, false, false, false],
    [false, false, false, false, false],
];

/// The middle heart.
pub const HEART1: [[bool; 5]; 5] = [
    [false, false, false, false, false],
    [false, true, false, true, false],
    [false, true, true, true, false],
    [false, false, true, false, false],
    [false, false, false, false, false],
];

/// The large heart.
pub const HEART2: [[bool; 5]; 5] = [
    [false, true, false, true, false],
    [true, false, true, false, true],
    [true, false, false, false, true],
    [false, true, false, true, false],
    [false, false, true, false, false],
];

/// A beating heart: small, middle, large, middle, then the end.
pub struct Heart(u32);

/// The frame that a heart shows after `shown` frames, or `None` once the
/// four beats are over.
pub open spec fn heart_frame(shown: u32) -> Option<Frame> {
    if shown == 0 {
        Some(Frame { image: DisplayImage(HEART0), length: 400 })
    } else if shown == 1 {
        Some(Frame { image: DisplayImage(HEART1), length: 200 })
    } else if shown == 2 {
        Some(Frame { image: DisplayImage(HEART2), length: 400 })
    } else if shown == 3 {
        Some(Frame { image: DisplayImage(HEART1), length: 200 })
    } else {
        None
    }
}

impl Heart {
    /// How many times `next_screen` has been called.
    pub closed spec fn shown(&self) -> u32 {
        self.0
    }

    /// A heart that has not beaten yet.
    pub fn new() -> (h: Self)
        ensures
            h.shown() == 0,
    {
        Heart(0)
    }
}

impl Animate for Heart {
    open spec fn can_advance(&self) -> bool {
        self.shown() < u32::MAX
    }

    open spec fn count_fits(&self) -> bool {
        true
    }

    fn next_screen(&mut self) -> (frame: Option<Frame>)
        ensures
            frame == heart_frame(old(self).shown()),
            final(self).shown() == old(self).shown() + 1,
    {
        let frame = match self.0 {
            0 => Some(Frame { image: DisplayImage(HEART0), length: 400 }),
            1 => Some(Frame { image: DisplayImage(HEART1), length: 200 }),
            2 => Some(Frame { image: DisplayImage(HEART2), length: 400 }),
            3 => Some(Frame { image: DisplayImage(HEART1), length: 200 }),
            _ => None,
        };
        self.0 = self.0 + 1;
        frame
    }

    fn frames(&self) -> (n: u32)
        ensures
            n == 4,
    {
        4
    }
}

/// A heart shows exactly `frames()` frames: the first four calls of
/// `next_screen` give a frame and every later call gives `None`.
pub proof fn law_heart_frame_count(shown: u32)
    ensures
        heart_frame(shown) is Some <==> shown < 4,
{
}

/// The beat: the small heart for 400 ms, the middle one for 200 ms, the
/// large one for 400 ms, the middle one again for 200 ms.
pub proof fn law_heart_beat()
    ensures
        heart_frame(0) == Some(Frame { image: DisplayImage(HEART0), length: 400 }),
        heart_frame(1) == Some(Frame { image: DisplayImage(HEART1), length: 200 }),
        heart_frame(2) == Some(Frame { image: DisplayImage(HEART2), length: 400 }),
        heart_frame(3) == Some(Frame { image: DisplayImage(HEART1), length: 200 }),
{
}

} // verus!
