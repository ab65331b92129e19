use vstd::prelude::*;

verus! {

// The pictures below are grids of rows; wrap one in `DisplayImage` to show it.

/// Every other LED lit, starting with the top-left one.
pub const CHECKERBOARD: [[bool; 5]; 5] = [
    [true, false, true, false, true],
    [false, true, false, true, false],
    [true, false, true, false, true],
    [false, true, false, true, false],
    [true, false, true, false, true],
];

/// A smiling face.
pub const SMILEY: [[bool; 5]; 5] = [
    [false, true, false, true, false],
    [false, false, false, false, false],
    [true, false, false, false, true],
    [false, true, true, true, false],
    [false, false, false, false, false],
];

/// A frowning face.
pub const FROWNY: [[bool; 5]; 5] = [
    [false, true, false, true, false],
    [false, false, false, false, false],
    [false, true, true, true, false],
    [true, false, false, false, true],
    [false, false, false, false, false],
];

/// No LED lit.
pub const BLANK: [[bool; 5]; 5] = [
    [false, false, false, false, false],
    [false, false, false, false, false],
    [false, false, false, false, false],
    [false, false, false, false, false],
    [false, false, false, false, false],
];

} // verus!
