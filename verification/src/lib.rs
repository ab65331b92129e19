//! Logic of a small runtime for the BBC micro:bit: button debouncing,
//! LED-matrix images and animations, interrupt-handler tables and
//! timer arithmetic.

pub mod button;
pub mod display;
pub mod rtc;
pub mod gpio;
pub mod display_old;
pub mod heaps;
pub mod queue;
pub mod schedule;
pub mod serial;
pub mod temp;
