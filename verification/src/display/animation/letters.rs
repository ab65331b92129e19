use vstd::prelude::*;

verus! {

// The glyphs of the scrolling-text font: five rows each, three, four or
// five columns wide. `#` marks a lit LED in the comment above each one.

/// Glyph for 'A': .###. / #...# / ##### / #...# / #...#
pub const A_UPPER: [[bool; 5]; 5] = [
    [false, true, true, true, false],
    [true, false, false, false, true],
    [true, true, true, true, true],
    [true, false, false, false, true],
    [true, false, false, false, true],
];

/// Glyph for 'B': ####. / #...# / ####. / #...# / ####.
pub const B_UPPER: [[bool; 5]; 5] = [
    [true, true, true, true, false],
    [true, false, false, false, true],
    [true, true, true, true, false],
    [true, false, false, false, true],
    [true, true, true, true, false],
];

/// Glyph for 'C': .#### / #.... / #.... / #.... / .####
pub const C_UPPER: [[bool; 5]; 5] = [
    [false, true, true, true, true],
    [true, false, false, false, false],
    [true, false, false, false, false],
    [true, false, false, false, false],
    [false, true, true, true, true],
];

/// Glyph for 'D': ####. / #...# / #...# / #...# / ####.
pub const D_UPPER: [[bool; 5]; 5] = [
    [true, true, true, true, false],
    [true, false, false, false, true],
    [true, false, false, false, true],
    [true, false, false, false, true],
    [true, true, true, true, false],
];

/// Glyph for 'E': ##### / #.... / ####. / #.... / #####
pub const E_UPPER: [[bool; 5]; 5] = [
    [true, true, true, true, true],
    [true, false, false, false, false],
    [true, true, true, true, false],
    [true, false, false, false, false],
    [true, true, true, true, true],
];

/// Glyph for 'F': ##### / #.... / ####. / #.... / #....
pub const F_UPPER: [[bool; 5]; 5] = [
    [true, true, true, true, true],
    [true, false, false, false, false],
    [true, true, true, true, false],
    [true, false, false, false, false],
    [true, false, false, false, false],
];

/// Glyph for 'G': .#### / #.... / #..## / #...# / .###.
pub const G_UPPER: [[bool; 5]; 5] = [
    [false, true, true, true, true],
    [true, false, false, false, false],
    [true, false, false, true, true],
    [true, false, false, false, true],
    [false, true, true, true, false],
];

/// Glyph for 'H': #...# / #...# / ##### / #...# / #...#
pub const H_UPPER: [[bool; 5]; 5] = [
    [true, false, false, false, true],
    [true, false, false, false, true],
    [true, true, true, true, true],
    [true, false, false, false, true],
    [true, false, false, false, true],
];

/// Glyph for 'I': ### / .#. / .#. / .#. / ###
pub const I_UPPER: [[bool; 3]; 5] = [
    [true, true, true],
    [false, true, false],
    [false, true, false],
    [false, true, false],
    [true, true, true],
];

/// Glyph for 'J': ..### / ...#. / ...#. / #..#. / .##..
pub const J_UPPER: [[bool; 5]; 5] = [
    [false, false, true, true, true],
    [false, false, false, true, false],
    [false, false, false, true, false],
    [true, false, false, true, false],
    [false, true, true, false, false],
];

/// Glyph for 'K': #...# / #..#. / ###.. / #..#. / #...#
pub const K_UPPER: [[bool; 5]; 5] = [
    [true, false, false, false, true],
    [true, false, false, true, false],
    [true, true, true, false, false],
    [true, false, false, true, false],
    [true, false, false, false, true],
];

/// Glyph for 'L': #.... / #.... / #.... / #.... / #####
pub const L_UPPER: [[bool; 5]; 5] = [
    [true, false, false, false, false],
    [true, false, false, false, false],
    [true, false, false, false, false],
    [true, false, false, false, false],
    [true, true, true, true, true],
];

/// Glyph for 'M': #...# / ##.## / #.#.# / #...# / #...#
pub const M_UPPER: [[bool; 5]; 5] = [
    [true, false, false, false, true],
    [true, true, false, true, true],
    [true, false, true, false, true],
    [true, false, false, false, true],
    [true, false, false, false, true],
];

/// Glyph for 'N': #...# / ##..# / #.#.# / #..## / #...#
pub const N_UPPER: [[bool; 5]; 5] = [
    [true, false, false, false, true],
    [true, true, false, false, true],
    [true, false, true, false, true],
    [true, false, false, true, true],
    [true, false, false, false, true],
];

/// Glyph for 'O': .###. / #...# / #...# / #...# / .###.
pub const O_UPPER: [[bool; 5]; 5] = [
    [false, true, true, true, false],
    [true, false, false, false, true],
    [true, false, false, false, true],
    [true, false, false, false, true],
    [false, true, true, true, false],
];

/// Glyph for 'P': ####. / #...# / ####. / #.... / #....
pub const P_UPPER: [[bool; 5]; 5] = [
    [true, true, true, true, false],
    [true, false, false, false, true],
    [true, true, true, true, false],
    [true, false, false, false, false],
    [true, false, false, false, false],
];

/// Glyph for 'Q': .###. / #...# / #.#.# / #..#. / .##.#
pub const Q_UPPER: [[bool; 5]; 5] = [
    [false, true, true, true, false],
    [true, false, false, false, true],
    [true, false, true, false, true],
    [true, false, false, true, false],
    [false, true, true, false, true],
];

/// Glyph for 'R': ####. / #...# / ####. / #..#. / #...#
pub const R_UPPER: [[bool; 5]; 5] = [
    [true, true, true, true, false],
    [true, false, false, false, true],
    [true, true, true, true, false],
    [true, false, false, true, false],
    [true, false, false, false, true],
];

/// Glyph for 'S': .#### / #.... / .###. / ....# / ####.
pub const S_UPPER: [[bool; 5]; 5] = [
    [false, true, true, true, true],
    [true, false, false, false, false],
    [false, true, true, true, false],
    [false, false, false, false, true],
    [true, true, true, true, false],
];

/// Glyph for 'T': ##### / ..#.. / ..#.. / ..#.. / ..#..
pub const T_UPPER: [[bool; 5]; 5] = [
    [true, true, true, true, true],
    [false, false, true, false, false],
    [false, false, true, false, false],
    [false, false, true, false, false],
    [false, false, true, false, false],
];

/// Glyph for 'U': #...# / #...# / #...# / #...# / .###.
pub const U_UPPER: [[bool; 5]; 5] = [
    [true, false, false, false, true],
    [true, false, false, false, true],
    [true, false, false, false, true],
    [true, false, false, false, true],
    [false, true, true, true, false],
];

/// Glyph for 'V': #...# / #...# / #...# / .#.#. / ..#..
pub const V_UPPER: [[bool; 5]; 5] = [
    [true, false, false, false, true],
    [true, false, false, false, true],
    [true, false, false, false, true],
    [false, true, false, true, false],
    [false, false, true, false, false],
];

/// Glyph for 'W': #...# / #...# / #.#.# / ##.## / #...#
pub const W_UPPER: [[bool; 5]; 5] = [
    [true, false, false, false, true],
    [true, false, false, false, true],
    [true, false, true, false, true],
    [true, true, false, true, true],
    [true, false, false, false, true],
];

/// Glyph for 'X': #...# / .#.#. / ..#.. / .#.#. / #...#
pub const X_UPPER: [[bool; 5]; 5] = [
    [true, false, false, false, true],
    [false, true, false, true, false],
    [false, false, true, false, false],
    [false, true, false, true, false],
    [true, false, false, false, true],
];

/// Glyph for 'Y': #...# / .#.#. / ..#.. / ..#.. / ..#..
pub const Y_UPPER: [[bool; 5]; 5] = [
    [true, false, false, false, true],
    [false, true, false, true, false],
    [false, false, true, false, false],
    [false, false, true, false, false],
    [false, false, true, false, false],
];

/// Glyph for 'Z': ##### / ...#. / ..#.. / .#... / #####
pub const Z_UPPER: [[bool; 5]; 5] = [
    [true, true, true, true, true],
    [false, false, false, true, false],
    [false, false, true, false, false],
    [false, true, false, false, false],
    [true, true, true, true, true],
];

/// Glyph for 'a': .... / .### / #..# / #..# / .###
pub const A_LOWER: [[bool; 4]; 5] = [
    [false, false, false, false],
    [false, true, true, true],
    [true, false, false, true],
    [true, false, false, true],
    [false, true, true, true],
];

/// Glyph for 'b': #... / ###. / #..# / #..# / ###.
pub const B_LOWER: [[bool; 4]; 5] = [
    [true, false, false, false],
    [true, true, true, false],
    [true, false, false, true],
    [true, false, false, true],
    [true, true, true, false],
];

/// Glyph for 'c': .... / .### / #... / #... / .###
pub const C_LOWER: [[bool; 4]; 5] = [
    [false, false, false, false],
    [false, true, true, true],
    [true, false, false, false],
    [true, false, false, false],
    [false, true, true, true],
];

/// Glyph for 'd': ...# / .### / #..# / #..# / .###
pub const D_LOWER: [[bool; 4]; 5] = [
    [false, false, false, true],
    [false, true, true, true],
    [true, false, false, true],
    [true, false, false, true],
    [false, true, true, true],
];

/// Glyph for 'e': .##. / #..# / #### / #... / .###
pub const E_LOWER: [[bool; 4]; 5] = [
    [false, true, true, false],
    [true, false, false, true],
    [true, true, true, true],
    [true, false, false, false],
    [false, true, true, true],
];

/// Glyph for 'f': ..## / .#.. / #### / .#.. / .#..
pub const F_LOWER: [[bool; 4]; 5] = [
    [false, false, true, true],
    [false, true, false, false],
    [true, true, true, true],
    [false, true, false, false],
    [false, true, false, false],
];

/// Glyph for 'g': .### / #..# / .### / ...# / ###.
pub const G_LOWER: [[bool; 4]; 5] = [
    [false, true, true, true],
    [true, false, false, true],
    [false, true, true, true],
    [false, false, false, true],
    [true, true, true, false],
];

/// Glyph for 'h': #... / #... / ###. / #..# / #..#
pub const H_LOWER: [[bool; 4]; 5] = [
    [true, false, false, false],
    [true, false, false, false],
    [true, true, true, false],
    [true, false, false, true],
    [true, false, false, true],
];

/// Glyph for 'i': .#. / ... / .#. / .#. / .#.
pub const I_LOWER: [[bool; 3]; 5] = [
    [false, true, false],
    [false, false, false],
    [false, true, false],
    [false, true, false],
    [false, true, false],
];

/// Glyph for 'j': ..# / ... / ..# / #.# / .#.
pub const J_LOWER: [[bool; 3]; 5] = [
    [false, false, true],
    [false, false, false],
    [false, false, true],
    [true, false, true],
    [false, true, false],
];

/// Glyph for 'k': #... / #..# / ###. / #.#. / #..#
pub const K_LOWER: [[bool; 4]; 5] = [
    [true, false, false, false],
    [true, false, false, true],
    [true, true, true, false],
    [true, false, true, false],
    [true, false, false, true],
];

/// Glyph for 'l': ##. / .#. / .#. / .#. / ###
pub const L_LOWER: [[bool; 3]; 5] = [
    [true, true, false],
    [false, true, false],
    [false, true, false],
    [false, true, false],
    [true, true, true],
];

/// Glyph for 'm': ..... / ##.#. / #.#.# / #.#.# / #.#.#
pub const M_LOWER: [[bool; 5]; 5] = [
    [false, false, false, false, false],
    [true, true, false, true, false],
    [true, false, true, false, true],
    [true, false, true, false, true],
    [true, false, true, false, true],
];

/// Glyph for 'n': .... / ###. / #..# / #..# / #..#
pub const N_LOWER: [[bool; 4]; 5] = [
    [false, false, false, false],
    [true, true, true, false],
    [true, false, false, true],
    [true, false, false, true],
    [true, false, false, true],
];

/// Glyph for 'o': .... / .##. / #..# / #..# / .##.
pub const O_LOWER: [[bool; 4]; 5] = [
    [false, false, false, false],
    [false, true, true, false],
    [true, false, false, true],
    [true, false, false, true],
    [false, true, true, false],
];

/// Glyph for 'p': ###. / #..# / ###. / #... / #...
pub const P_LOWER: [[bool; 4]; 5] = [
    [true, true, true, false],
    [true, false, false, true],
    [true, true, true, false],
    [true, false, false, false],
    [true, false, false, false],
];

/// Glyph for 'q': .### / #..# / .### / ...# / ...#
pub const Q_LOWER: [[bool; 4]; 5] = [
    [false, true, true, true],
    [true, false, false, true],
    [false, true, true, true],
    [false, false, false, true],
    [false, false, false, true],
];

/// Glyph for 'r': .... / #.## / ##.. / #... / #...
pub const R_LOWER: [[bool; 4]; 5] = [
    [false, false, false, false],
    [true, false, true, true],
    [true, true, false, false],
    [true, false, false, false],
    [true, false, false, false],
];

/// Glyph for 's': .### / #... / .##. / ...# / ###.
pub const S_LOWER: [[bool; 4]; 5] = [
    [false, true, true, true],
    [true, false, false, false],
    [false, true, true, false],
    [false, false, false, true],
    [true, true, true, false],
];

/// Glyph for 't': .#. / ### / .#. / .#. / ..#
pub const T_LOWER: [[bool; 3]; 5] = [
    [false, true, false],
    [true, true, true],
    [false, true, false],
    [false, true, false],
    [false, false, true],
];

/// Glyph for 'u': .... / #..# / #..# / #..# / .###
pub const U_LOWER: [[bool; 4]; 5] = [
    [false, false, false, false],
    [true, false, false, true],
    [true, false, false, true],
    [true, false, false, true],
    [false, true, true, true],
];

/// Glyph for 'v': .... / #..# / #..# / .##. / .##.
pub const V_LOWER: [[bool; 4]; 5] = [
    [false, false, false, false],
    [true, false, false, true],
    [true, false, false, true],
    [false, true, true, false],
    [false, true, true, false],
];

/// Glyph for 'w': ..... / #...# / #.#.# / #.#.# / .#.#.
pub const W_LOWER: [[bool; 5]; 5] = [
    [false, false, false, false, false],
    [true, false, false, false, true],
    [true, false, true, false, true],
    [true, false, true, false, true],
    [false, true, false, true, false],
];

/// Glyph for 'x': .... / #..# / .##. / .##. / #..#
pub const X_LOWER: [[bool; 4]; 5] = [
    [false, false, false, false],
    [true, false, false, true],
    [false, true, true, false],
    [false, true, true, false],
    [true, false, false, true],
];

/// Glyph for 'y': #..# / #..# / .### / ...# / .##.
pub const Y_LOWER: [[bool; 4]; 5] = [
    [true, false, false, true],
    [true, false, false, true],
    [false, true, true, true],
    [false, false, false, true],
    [false, true, true, false],
];

/// Glyph for 'z': .... / #### / ..#. / .#.. / ####
pub const Z_LOWER: [[bool; 4]; 5] = [
    [false, false, false, false],
    [true, true, true, true],
    [false, false, true, false],
    [false, true, false, false],
    [true, true, true, true],
];

/// Glyph for '1': .#. / ##. / .#. / .#. / ###
pub const NUMBER1: [[bool; 3]; 5] = [
    [false, true, false],
    [true, true, false],
    [false, true, false],
    [false, true, false],
    [true, true, true],
];

/// Glyph for '2': .##. / #..# / ..#. / .#.. / ####
pub const NUMBER2: [[bool; 4]; 5] = [
    [false, true, true, false],
    [true, false, false, true],
    [false, false, true, false],
    [false, true, false, false],
    [true, true, true, true],
];

/// Glyph for '3': ###. / ...# / .##. / ...# / ###.
pub const NUMBER3: [[bool; 4]; 5] = [
    [true, true, true, false],
    [false, false, false, true],
    [false, true, true, false],
    [false, false, false, true],
    [true, true, true, false],
];

/// Glyph for '4': ..#. / .##. / #.#. / #### / ..#.
pub const NUMBER4: [[bool; 4]; 5] = [
    [false, false, true, false],
    [false, true, true, false],
    [true, false, true, false],
    [true, true, true, true],
    [false, false, true, false],
];

/// Glyph for '5': #### / #... / ###. / ...# / ###.
pub const NUMBER5: [[bool; 4]; 5] = [
    [true, true, true, true],
    [true, false, false, false],
    [true, true, true, false],
    [false, false, false, true],
    [true, true, true, false],
];

/// Glyph for '6': .##. / #... / ###. / #..# / .##.
pub const NUMBER6: [[bool; 4]; 5] = [
    [false, true, true, false],
    [true, false, false, false],
    [true, true, true, false],
    [true, false, false, true],
    [false, true, true, false],
];

/// Glyph for '7': #### / ...# / ..#. / .#.. / .#..
pub const NUMBER7: [[bool; 4]; 5] = [
    [true, true, true, true],
    [false, false, false, true],
    [false, false, true, false],
    [false, true, false, false],
    [false, true, false, false],
];

/// Glyph for '8': .##. / #..# / .##. / #..# / .##.
pub const NUMBER8: [[bool; 4]; 5] = [
    [false, true, true, false],
    [true, false, false, true],
    [false, true, true, false],
    [true, false, false, true],
    [false, true, true, false],
];

/// Glyph for '9': .##. / #..# / .### / ...# / .##.
pub const NUMBER9: [[bool; 4]; 5] = [
    [false, true, true, false],
    [true, false, false, true],
    [false, true, true, true],
    [false, false, false, true],
    [false, true, true, false],
];

/// Glyph for '!': .#. / .#. / .#. / ... / .#.
pub const EXCLAMATION: [[bool; 3]; 5] = [
    [false, true, false],
    [false, true, false],
    [false, true, false],
    [false, false, false],
    [false, true, false],
];

/// Glyph for ',': ... / ... / ... / .#. / #..
pub const COMMA: [[bool; 3]; 5] = [
    [false, false, false],
    [false, false, false],
    [false, false, false],
    [false, true, false],
    [true, false, false],
];

/// Glyph for '?': .##. / #..# / ..#. / .... / ..#.
pub const QUESTION: [[bool; 4]; 5] = [
    [false, true, true, false],
    [true, false, false, true],
    [false, false, true, false],
    [false, false, false, false],
    [false, false, true, false],
];

/// Glyph for space: .... / .... / .... / .... / ....
pub const SPACE: [[bool; 4]; 5] = [
    [false, false, false, false],
    [false, false, false, false],
    [false, false, false, false],
    [false, false, false, false],
    [false, false, false, false],
];

/// Glyph for '.': ... / ... / ... / ... / .#.
pub const PERIOD: [[bool; 3]; 5] = [
    [false, false, false],
    [false, false, false],
    [false, false, false],
    [false, false, false],
    [false, true, false],
];

} // verus!
