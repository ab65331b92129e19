//! Images for the 5x5 LED matrix and the animations that produce them.

pub mod animation;
pub mod constant;
pub mod image;
