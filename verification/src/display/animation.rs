//! Animations: sequences of timed frames for the LED grid.

pub mod heart;
pub mod letters;
pub mod text;

use vstd::prelude::*;

use super::image::DisplayImage;

verus! {

/// One screen of an animation and how long (in milliseconds) it stays on.
#[derive(Copy, Clone)]
pub struct Frame {
    pub image: DisplayImage,
    pub length: u32,
}

/// A source of frames, shown one after another until it returns `None`.
pub trait Animate {
    /// Whether `next_screen` can run from this state (its counters have room
    /// to advance and its content can be read).
    spec fn can_advance(&self) -> bool;

    /// Whether the frame count fits in a `u32`.
    spec fn count_fits(&self) -> bool;

    /// The next frame, or `None` when the animation has ended.
    fn next_screen(&mut self) -> (frame: Option<Frame>)
        requires
            old(self).can_advance(),
    ;

    /// How many frames the animation shows.
    fn frames(&self) -> (n: u32)
        requires
            self.count_fits(),
    ;
}

} // verus!
