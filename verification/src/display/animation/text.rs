use vstd::prelude::*;
use vstd::utf8::encode_utf8;

use super::super::image::DisplayImage;
use super::letters::{
    A_UPPER, B_UPPER, C_UPPER, D_UPPER, E_UPPER, F_UPPER, G_UPPER, H_UPPER, I_UPPER, J_UPPER,
    K_UPPER, L_UPPER, M_UPPER, N_UPPER, O_UPPER, P_UPPER, Q_UPPER, R_UPPER, S_UPPER, T_UPPER,
    U_UPPER, V_UPPER, W_UPPER, X_UPPER, Y_UPPER, Z_UPPER, A_LOWER, B_LOWER, C_LOWER, D_LOWER,
    E_LOWER, F_LOWER, G_LOWER, H_LOWER, I_LOWER, J_LOWER, K_LOWER, L_LOWER, M_LOWER, N_LOWER,
    O_LOWER, P_LOWER, Q_LOWER, R_LOWER, S_LOWER, T_LOWER, U_LOWER, V_LOWER, W_LOWER, X_LOWER,
    Y_LOWER, Z_LOWER, NUMBER1, NUMBER2, NUMBER3, NUMBER4, NUMBER5, NUMBER6, NUMBER7, NUMBER8,
    NUMBER9, EXCLAMATION, COMMA, QUESTION, SPACE, PERIOD,
};
use super::{Animate, Frame};

verus! {

/// A glyph of the scrolling-text font, five rows high and five, four or
/// three columns wide.
#[derive(Copy, Clone)]
pub enum Letter {
    Wide([[bool; 5]; 5]),
    Medium([[bool; 4]; 5]),
    Thin([[bool; 3]; 5]),
}

impl Letter {
    /// Number of columns of the glyph.
    pub open spec fn width(self) -> int {
        match self {
            Letter::Wide(_) => 5,
            Letter::Medium(_) => 4,
            Letter::Thin(_) => 3,
        }
    }

    /// The LED in row `r`, column `c` of the glyph; columns beyond the
    /// glyph's width are dark.
    pub open spec fn px(self, r: int, c: int) -> bool {
        match self {
            Letter::Wide(a) => if 0 <= c < 5 { a[r][c] } else { false },
            Letter::Medium(a) => if 0 <= c < 4 { a[r][c] } else { false },
            Letter::Thin(a) => if 0 <= c < 3 { a[r][c] } else { false },
        }
    }

    /// Number of columns of the glyph.
    pub fn column_width(&self) -> (w: u8)
        ensures
            w == self.width(),
    {
        match self {
            Letter::Wide(_) => 5,
            Letter::Medium(_) => 4,
            Letter::Thin(_) => 3,
        }
    }

    /// Column `column` of the glyph, top to bottom, or `None` past its width.
    pub fn get_column(&self, column: usize) -> (col: Option<[bool; 5]>)
        ensures
            col is Some <==> column < self.width(),
            col matches Some(v) ==> forall|r: int| 0 <= r < 5 ==> #[trigger] v[r] == self.px(r, column as int),
    {
        match self {
            Letter::Wide(array) => {
                if column < 5 {
                    Some([array[0][column], array[1][column], array[2][column], array[3][column], array[4][column]])
                } else {
                    None
                }
            },
            Letter::Medium(array) => {
                if column < 4 {
                    Some([array[0][column], array[1][column], array[2][column], array[3][column], array[4][column]])
                } else {
                    None
                }
            },
            Letter::Thin(array) => {
                if column < 3 {
                    Some([array[0][column], array[1][column], array[2][column], array[3][column], array[4][column]])
                } else {
                    None
                }
            },
        }
    }
}

impl From<[[bool; 5]; 5]> for Letter {
    fn from(other: [[bool; 5]; 5]) -> (l: Self) {
        Letter::Wide(other)
    }
}

impl vstd::std_specs::convert::FromSpecImpl<[[bool; 5]; 5]> for Letter {
    open spec fn obeys_from_spec() -> bool {
        true
    }

    open spec fn from_spec(v: [[bool; 5]; 5]) -> Self {
        Letter::Wide(v)
    }
}

impl From<[[bool; 3]; 5]> for Letter {
    fn from(other: [[bool; 3]; 5]) -> (l: Self) {
        Letter::Thin(other)
    }
}

impl vstd::std_specs::convert::FromSpecImpl<[[bool; 3]; 5]> for Letter {
    open spec fn obeys_from_spec() -> bool {
        true
    }

    open spec fn from_spec(v: [[bool; 3]; 5]) -> Self {
        Letter::Thin(v)
    }
}

/// A glyph as a full grid image: a medium glyph keeps the left four
/// columns, a thin one is centred between two dark columns.
pub open spec fn letter_image(l: Letter) -> DisplayImage {
    match l {
        Letter::Wide(a) => DisplayImage(a),
        Letter::Medium(a) => DisplayImage(
            [
                [a[0][0], a[0][1], a[0][2], a[0][3], false],
                [a[1][0], a[1][1], a[1][2], a[1][3], false],
                [a[2][0], a[2][1], a[2][2], a[2][3], false],
                [a[3][0], a[3][1], a[3][2], a[3][3], false],
                [a[4][0], a[4][1], a[4][2], a[4][3], false],
            ],
        ),
        Letter::Thin(a) => DisplayImage(
            [
                [false, a[0][0], a[0][1], a[0][2], false],
                [false, a[1][0], a[1][1], a[1][2], false],
                [false, a[2][0], a[2][1], a[2][2], false],
                [false, a[3][0], a[3][1], a[3][2], false],
                [false, a[4][0], a[4][1], a[4][2], false],
            ],
        ),
    }
}

/// A glyph shown as a grid image: a wide glyph fills the grid, a medium one
/// fills the left four columns, a thin one the middle three; every other
/// column is dark.
pub proof fn law_letter_image(l: Letter, r: int, c: int)
    requires
        0 <= r < 5,
        0 <= c < 5,
    ensures
        letter_image(l).0[r][c] == (match l {
            Letter::Wide(a) => a[r][c],
            Letter::Medium(a) => c < 4 && a[r][c],
            Letter::Thin(a) => 1 <= c < 4 && a[r][c - 1],
        }),
{
}

impl From<Letter> for DisplayImage {
    fn from(other: Letter) -> (img: Self) {
        match other {
            Letter::Wide(letter) => DisplayImage(letter),
            Letter::Medium(a) => DisplayImage(
                [
                    [a[0][0], a[0][1], a[0][2], a[0][3], false],
                    [a[1][0], a[1][1], a[1][2], a[1][3], false],
                    [a[2][0], a[2][1], a[2][2], a[2][3], false],
                    [a[3][0], a[3][1], a[3][2], a[3][3], false],
                    [a[4][0], a[4][1], a[4][2], a[4][3], false],
                ],
            ),
            Letter::Thin(a) => DisplayImage(
                [
                    [false, a[0][0], a[0][1], a[0][2], false],
                    [false, a[1][0], a[1][1], a[1][2], false],
                    [false, a[2][0], a[2][1], a[2][2], false],
                    [false, a[3][0], a[3][1], a[3][2], false],
                    [false, a[4][0], a[4][1], a[4][2], false],
                ],
            ),
        }
    }
}

impl vstd::std_specs::convert::FromSpecImpl<Letter> for DisplayImage {
    open spec fn obeys_from_spec() -> bool {
        true
    }

    open spec fn from_spec(v: Letter) -> Self {
        letter_image(v)
    }
}

/// The glyph that the font draws for a character; characters without a
/// glyph of their own are drawn as a question mark, and zero as the
/// letter O.
pub open spec fn glyph(c: char) -> Letter {
    match c {
        'A' => Letter::Wide(A_UPPER),
        'B' => Letter::Wide(B_UPPER),
        'C' => Letter::Wide(C_UPPER),
        'D' => Letter::Wide(D_UPPER),
        'E' => Letter::Wide(E_UPPER),
        'F' => Letter::Wide(F_UPPER),
        'G' => Letter::Wide(G_UPPER),
        'H' => Letter::Wide(H_UPPER),
        'I' => Letter::Thin(I_UPPER),
        'J' => Letter::Wide(J_UPPER),
        'K' => Letter::Wide(K_UPPER),
        'L' => Letter::Wide(L_UPPER),
        'M' => Letter::Wide(M_UPPER),
        'N' => Letter::Wide(N_UPPER),
        'O' => Letter::Wide(O_UPPER),
        'P' => Letter::Wide(P_UPPER),
        'Q' => Letter::Wide(Q_UPPER),
        'R' => Letter::Wide(R_UPPER),
        'S' => Letter::Wide(S_UPPER),
        'T' => Letter::Wide(T_UPPER),
        'U' => Letter::Wide(U_UPPER),
        'V' => Letter::Wide(V_UPPER),
        'W' => Letter::Wide(W_UPPER),
        'X' => Letter::Wide(X_UPPER),
        'Y' => Letter::Wide(Y_UPPER),
        'Z' => Letter::Wide(Z_UPPER),
        'a' => Letter::Medium(A_LOWER),
        'b' => Letter::Medium(B_LOWER),
        'c' => Letter::Medium(C_LOWER),
        'd' => Letter::Medium(D_LOWER),
        'e' => Letter::Medium(E_LOWER),
        'f' => Letter::Medium(F_LOWER),
        'g' => Letter::Medium(G_LOWER),
        'h' => Letter::Medium(H_LOWER),
        'i' => Letter::Thin(I_LOWER),
        'j' => Letter::Thin(J_LOWER),
        'k' => Letter::Medium(K_LOWER),
        'l' => Letter::Thin(L_LOWER),
        'm' => Letter::Wide(M_LOWER),
        'n' => Letter::Medium(N_LOWER),
        'o' => Letter::Medium(O_LOWER),
        'p' => Letter::Medium(P_LOWER),
        'q' => Letter::Medium(Q_LOWER),
        'r' => Letter::Medium(R_LOWER),
        's' => Letter::Medium(S_LOWER),
        't' => Letter::Thin(T_LOWER),
        'u' => Letter::Medium(U_LOWER),
        'v' => Letter::Medium(V_LOWER),
        'w' => Letter::Wide(W_LOWER),
        'x' => Letter::Medium(X_LOWER),
        'y' => Letter::Medium(Y_LOWER),
        'z' => Letter::Medium(Z_LOWER),
        '0' => Letter::Wide(O_UPPER),
        '1' => Letter::Thin(NUMBER1),
        '2' => Letter::Medium(NUMBER2),
        '3' => Letter::Medium(NUMBER3),
        '4' => Letter::Medium(NUMBER4),
        '5' => Letter::Medium(NUMBER5),
        '6' => Letter::Medium(NUMBER6),
        '7' => Letter::Medium(NUMBER7),
        '8' => Letter::Medium(NUMBER8),
        '9' => Letter::Medium(NUMBER9),
        '!' => Letter::Thin(EXCLAMATION),
        ',' => Letter::Thin(COMMA),
        '?' => Letter::Medium(QUESTION),
        ' ' => Letter::Medium(SPACE),
        '.' => Letter::Thin(PERIOD),
        _ => Letter::Medium(QUESTION),
    }
}

/// Where the window of the display stands in the strip that scrolls by:
/// at one of the (up to) five columns of the current glyph, or in one of
/// the two dark columns between it and the next glyph.
#[derive(Copy, Clone, PartialEq, Eq, Structural)]
pub enum Column {
    C0,
    C1,
    C2,
    C3,
    C4,
    B0,
    B1,
}

/// The font: every letter, digit and punctuation mark it draws, with its
/// glyph. Zero is drawn as the letter O.
pub proof fn law_font_table()
    ensures
        glyph('A') == Letter::Wide(A_UPPER),
        glyph('B') == Letter::Wide(B_UPPER),
        glyph('C') == Letter::Wide(C_UPPER),
        glyph('D') == Letter::Wide(D_UPPER),
        glyph('E') == Letter::Wide(E_UPPER),
        glyph('F') == Letter::Wide(F_UPPER),
        glyph('G') == Letter::Wide(G_UPPER),
        glyph('H') == Letter::Wide(H_UPPER),
        glyph('I') == Letter::Thin(I_UPPER),
        glyph('J') == Letter::Wide(J_UPPER),
        glyph('K') == Letter::Wide(K_UPPER),
        glyph('L') == Letter::Wide(L_UPPER),
        glyph('M') == Letter::Wide(M_UPPER),
        glyph('N') == Letter::Wide(N_UPPER),
        glyph('O') == Letter::Wide(O_UPPER),
        glyph('P') == Letter::Wide(P_UPPER),
        glyph('Q') == Letter::Wide(Q_UPPER),
        glyph('R') == Letter::Wide(R_UPPER),
        glyph('S') == Letter::Wide(S_UPPER),
        glyph('T') == Letter::Wide(T_UPPER),
        glyph('U') == Letter::Wide(U_UPPER),
        glyph('V') == Letter::Wide(V_UPPER),
        glyph('W') == Letter::Wide(W_UPPER),
        glyph('X') == Letter::Wide(X_UPPER),
        glyph('Y') == Letter::Wide(Y_UPPER),
        glyph('Z') == Letter::Wide(Z_UPPER),
        glyph('a') == Letter::Medium(A_LOWER),
        glyph('b') == Letter::Medium(B_LOWER),
        glyph('c') == Letter::Medium(C_LOWER),
        glyph('d') == Letter::Medium(D_LOWER),
        glyph('e') == Letter::Medium(E_LOWER),
        glyph('f') == Letter::Medium(F_LOWER),
        glyph('g') == Letter::Medium(G_LOWER),
        glyph('h') == Letter::Medium(H_LOWER),
        glyph('i') == Letter::Thin(I_LOWER),
        glyph('j') == Letter::Thin(J_LOWER),
        glyph('k') == Letter::Medium(K_LOWER),
        glyph('l') == Letter::Thin(L_LOWER),
        glyph('m') == Letter::Wide(M_LOWER),
        glyph('n') == Letter::Medium(N_LOWER),
        glyph('o') == Letter::Medium(O_LOWER),
        glyph('p') == Letter::Medium(P_LOWER),
        glyph('q') == Letter::Medium(Q_LOWER),
        glyph('r') == Letter::Medium(R_LOWER),
        glyph('s') == Letter::Medium(S_LOWER),
        glyph('t') == Letter::Thin(T_LOWER),
        glyph('u') == Letter::Medium(U_LOWER),
        glyph('v') == Letter::Medium(V_LOWER),
        glyph('w') == Letter::Wide(W_LOWER),
        glyph('x') == Letter::Medium(X_LOWER),
        glyph('y') == Letter::Medium(Y_LOWER),
        glyph('z') == Letter::Medium(Z_LOWER),
        glyph('0') == Letter::Wide(O_UPPER),
        glyph('1') == Letter::Thin(NUMBER1),
        glyph('2') == Letter::Medium(NUMBER2),
        glyph('3') == Letter::Medium(NUMBER3),
        glyph('4') == Letter::Medium(NUMBER4),
        glyph('5') == Letter::Medium(NUMBER5),
        glyph('6') == Letter::Medium(NUMBER6),
        glyph('7') == Letter::Medium(NUMBER7),
        glyph('8') == Letter::Medium(NUMBER8),
        glyph('9') == Letter::Medium(NUMBER9),
        glyph('!') == Letter::Thin(EXCLAMATION),
        glyph(',') == Letter::Thin(COMMA),
        glyph('?') == Letter::Medium(QUESTION),
        glyph(' ') == Letter::Medium(SPACE),
        glyph('.') == Letter::Thin(PERIOD),
{
}

/// Every character that the font does not draw (anything but ASCII
/// letters, digits, space and `! , ? .`) is drawn as a question mark.
pub proof fn law_font_fallback(c: char)
    requires
        !('A' <= c && c <= 'Z'),
        !('a' <= c && c <= 'z'),
        !('0' <= c && c <= '9'),
        c != '!' && c != ',' && c != '?' && c != ' ' && c != '.',
    ensures
        glyph(c) == Letter::Medium(QUESTION),
{
}

impl Column {
    /// Position as a number: 0 to 4 for the glyph columns, 5 and 6 for the
    /// two dark columns.
    pub open spec fn index(self) -> int {
        match self {
            Column::C0 => 0,
            Column::C1 => 1,
            Column::C2 => 2,
            Column::C3 => 3,
            Column::C4 => 4,
            Column::B0 => 5,
            Column::B1 => 6,
        }
    }

    /// How many columns the window has moved past since the start of the
    /// current glyph.
    pub fn columns_passed(&self) -> (n: u32)
        ensures
            n == self.index(),
    {
        match self {
            Column::C0 => 0,
            Column::C1 => 1,
            Column::C2 => 2,
            Column::C3 => 3,
            Column::C4 => 4,
            Column::B0 => 5,
            Column::B1 => 6,
        }
    }
}

/// The glyph that stands for byte `b` of the text (read as a Latin-1
/// character).
pub open spec fn glyph_of_byte(b: u8) -> Letter {
    glyph(b as char)
}

/// The glyph before the text starts and after it ends.
pub open spec fn space_letter() -> Letter {
    Letter::Medium(SPACE)
}

/// The current glyph and the one that follows it, at byte position `idx`
/// of a non-empty text; before the text has scrolled on (`on` false) the
/// current glyph is a space and the next one the first byte's.
pub open spec fn letters_at(bytes: Seq<u8>, idx: int, on: bool) -> (Letter, Letter) {
    if idx == 0 && !on {
        (space_letter(), glyph_of_byte(bytes[0]))
    } else if idx + 1 >= bytes.len() {
        (glyph_of_byte(bytes[bytes.len() - 1]), space_letter())
    } else {
        (glyph_of_byte(bytes[idx]), glyph_of_byte(bytes[idx + 1]))
    }
}

/// The strip that scrolls by: the current glyph, two dark columns, then
/// the next glyph. `strip_px(cur, nxt, j, r)` is the LED in row `r` of
/// strip column `j`.
pub open spec fn strip_px(cur: Letter, nxt: Letter, j: int, r: int) -> bool {
    if j < cur.width() {
        cur.px(r, j)
    } else if j < cur.width() + 2 {
        false
    } else {
        nxt.px(r, j - cur.width() - 2)
    }
}

/// First strip column in the window for window position `col` (as given by
/// `Column::index`) and current glyph width `w`.
pub open spec fn window_offset(col: int, w: int) -> int {
    if col < 5 {
        col
    } else if col == 5 {
        w
    } else {
        w + 1
    }
}

/// Whether an image shows the five strip columns starting at `off`.
pub open spec fn shows_window(img: DisplayImage, cur: Letter, nxt: Letter, off: int) -> bool {
    forall|r: int, k: int| 0 <= r < 5 && 0 <= k < 5 ==> #[trigger] img.0[r][k] == strip_px(cur, nxt, off + k, r)
}

/// The window position after the one at `col`, for a current glyph of
/// width `w`.
pub open spec fn next_column(col: int, w: int) -> int {
    if col < 5 {
        if col + 1 < w {
            col + 1
        } else {
            5
        }
    } else if col == 5 {
        6
    } else {
        0
    }
}

/// Text that scrolls across the display from right to left, one column
/// per frame, with a space before and after it.
pub struct ScrollingText {
    text: String,
    text_index: usize,
    column_index: Column,
    speed: u32,
    scrolled_on: bool,
}

impl ScrollingText {
    /// The text's bytes (its UTF-8 encoding).
    pub closed spec fn bytes(&self) -> Seq<u8> {
        encode_utf8(self.text@)
    }

    /// The text.
    pub closed spec fn chars(&self) -> Seq<char> {
        self.text@
    }

    /// The bytes are the UTF-8 encoding of the text.
    pub proof fn lemma_bytes(&self)
        ensures
            self.bytes() == encode_utf8(self.chars()),
    {
    }

    /// Byte position of the current glyph.
    pub closed spec fn position(&self) -> int {
        self.text_index as int
    }

    /// Window position, as given by `Column::index`.
    pub closed spec fn column(&self) -> int {
        self.column_index.index()
    }

    /// Whether the leading space has scrolled past.
    pub closed spec fn scrolled_on(&self) -> bool {
        self.scrolled_on
    }

    /// How long each frame stays on, in milliseconds.
    pub closed spec fn speed(&self) -> u32 {
        self.speed
    }

    /// The window position fits the current glyph, and the position only
    /// moves once the text has scrolled on.
    pub open spec fn wf(&self) -> bool {
        &&& (!self.scrolled_on() ==> self.position() == 0)
        &&& self.bytes().len() > 0 ==> {
            let w = letters_at(self.bytes(), self.position(), self.scrolled_on()).0.width();
            (0 <= self.column() < w) || self.column() == 5 || self.column() == 6
        }
    }

    /// Text that has not started to scroll yet.
    pub fn new(text: String, speed: u32) -> (t: Self)
        ensures
            t.chars() == text@,
            t.bytes() == encode_utf8(text@),
            t.speed() == speed,
            t.position() == 0,
            t.column() == 0,
            !t.scrolled_on(),
            t.wf(),
    {
        ScrollingText { text: text, text_index: 0, column_index: Column::C0, speed: speed, scrolled_on: false }
    }

    /// The glyph that the font draws for a character.
    pub fn char_to_image(letter: char) -> (l: Letter)
        ensures
            l == glyph(letter),
    {
        match letter {
            'A' => Letter::Wide(A_UPPER),
            'B' => Letter::Wide(B_UPPER),
            'C' => Letter::Wide(C_UPPER),
            'D' => Letter::Wide(D_UPPER),
            'E' => Letter::Wide(E_UPPER),
            'F' => Letter::Wide(F_UPPER),
            'G' => Letter::Wide(G_UPPER),
            'H' => Letter::Wide(H_UPPER),
            'I' => Letter::Thin(I_UPPER),
            'J' => Letter::Wide(J_UPPER),
            'K' => Letter::Wide(K_UPPER),
            'L' => Letter::Wide(L_UPPER),
            'M' => Letter::Wide(M_UPPER),
            'N' => Letter::Wide(N_UPPER),
            'O' => Letter::Wide(O_UPPER),
            'P' => Letter::Wide(P_UPPER),
            'Q' => Letter::Wide(Q_UPPER),
            'R' => Letter::Wide(R_UPPER),
            'S' => Letter::Wide(S_UPPER),
            'T' => Letter::Wide(T_UPPER),
            'U' => Letter::Wide(U_UPPER),
            'V' => Letter::Wide(V_UPPER),
            'W' => Letter::Wide(W_UPPER),
            'X' => Letter::Wide(X_UPPER),
            'Y' => Letter::Wide(Y_UPPER),
            'Z' => Letter::Wide(Z_UPPER),
            'a' => Letter::Medium(A_LOWER),
            'b' => Letter::Medium(B_LOWER),
            'c' => Letter::Medium(C_LOWER),
            'd' => Letter::Medium(D_LOWER),
            'e' => Letter::Medium(E_LOWER),
            'f' => Letter::Medium(F_LOWER),
            'g' => Letter::Medium(G_LOWER),
            'h' => Letter::Medium(H_LOWER),
            'i' => Letter::Thin(I_LOWER),
            'j' => Letter::Thin(J_LOWER),
            'k' => Letter::Medium(K_LOWER),
            'l' => Letter::Thin(L_LOWER),
            'm' => Letter::Wide(M_LOWER),
            'n' => Letter::Medium(N_LOWER),
            'o' => Letter::Medium(O_LOWER),
            'p' => Letter::Medium(P_LOWER),
            'q' => Letter::Medium(Q_LOWER),
            'r' => Letter::Medium(R_LOWER),
            's' => Letter::Medium(S_LOWER),
            't' => Letter::Thin(T_LOWER),
            'u' => Letter::Medium(U_LOWER),
            'v' => Letter::Medium(V_LOWER),
            'w' => Letter::Wide(W_LOWER),
            'x' => Letter::Medium(X_LOWER),
            'y' => Letter::Medium(Y_LOWER),
            'z' => Letter::Medium(Z_LOWER),
            '0' => Letter::Wide(O_UPPER),
            '1' => Letter::Thin(NUMBER1),
            '2' => Letter::Medium(NUMBER2),
            '3' => Letter::Medium(NUMBER3),
            '4' => Letter::Medium(NUMBER4),
            '5' => Letter::Medium(NUMBER5),
            '6' => Letter::Medium(NUMBER6),
            '7' => Letter::Medium(NUMBER7),
            '8' => Letter::Medium(NUMBER8),
            '9' => Letter::Medium(NUMBER9),
            '!' => Letter::Thin(EXCLAMATION),
            ',' => Letter::Thin(COMMA),
            '?' => Letter::Medium(QUESTION),
            ' ' => Letter::Medium(SPACE),
            '.' => Letter::Thin(PERIOD),
            _ => Letter::Medium(QUESTION),
        }
    }
}

/// Sum over the characters of a text of the glyph width plus two dark
/// columns.
pub open spec fn frame_total(s: Seq<char>) -> int
    decreases s.len(),
{
    if s.len() == 0 {
        0
    } else {
        frame_total(s.drop_last()) + glyph(s.last()).width() + 2
    }
}

proof fn lemma_frame_total_prefix(s: Seq<char>, i: int)
    requires
        0 <= i <= s.len(),
    ensures
        frame_total(s.take(i)) <= frame_total(s),
        frame_total(s.take(i)) >= 0,
    decreases s.len() - i,
{
    if i < s.len() {
        lemma_frame_total_prefix(s, i + 1);
        assert(s.take(i + 1).drop_last() =~= s.take(i));
    } else {
        assert(s.take(i) =~= s);
    }
    lemma_frame_total_nonneg(s.take(i));
}

proof fn lemma_frame_total_nonneg(s: Seq<char>)
    ensures
        frame_total(s) >= 0,
    decreases s.len(),
{
    if s.len() > 0 {
        lemma_frame_total_nonneg(s.drop_last());
    }
}

/// Byte position, window position and scrolled-on flag after one call of
/// `next_screen` from the given ones: the window moves one column; from
/// the second dark column it returns to the start of the next glyph.
pub open spec fn after_step(bytes: Seq<u8>, idx: int, col: int, on: bool) -> (int, int, bool) {
    if col == 6 {
        (if on { idx + 1 } else { idx }, 0, true)
    } else {
        (idx, next_column(col, letters_at(bytes, idx, on).0.width()), on)
    }
}

/// Whether that call gives a frame: it gives `None` only when it moves the
/// window past the last glyph of the text.
pub open spec fn step_gives_frame(bytes: Seq<u8>, idx: int, col: int, on: bool) -> bool {
    col != 6 || after_step(bytes, idx, col, on).0 < bytes.len()
}

/// How many of at most `fuel` calls of `next_screen` in a row, from the
/// given state, give a frame before the first `None`.
pub open spec fn frames_before_end(bytes: Seq<u8>, idx: int, col: int, on: bool, fuel: nat) -> nat
    decreases fuel,
{
    if fuel == 0 || !step_gives_frame(bytes, idx, col, on) {
        0
    } else {
        let a = after_step(bytes, idx, col, on);
        1 + frames_before_end(bytes, a.0, a.1, a.2, (fuel - 1) as nat)
    }
}

/// Sum over the bytes of a text of the glyph width plus two dark columns.
pub open spec fn byte_total(bytes: Seq<u8>) -> int
    decreases bytes.len(),
{
    if bytes.len() == 0 {
        0
    } else {
        byte_total(bytes.drop_last()) + glyph_of_byte(bytes.last()).width() + 2
    }
}

/// Calls left in the current glyph's cycle up to and including the one
/// from the second dark column.
spec fn cycle_left(col: int, w: int) -> int {
    if col < 5 {
        w - col + 2
    } else if col == 5 {
        2
    } else {
        1
    }
}

proof fn lemma_cycle(bytes: Seq<u8>, idx: int, col: int, on: bool, fuel: nat)
    requires
        bytes.len() > 0,
        !on ==> idx == 0,
        ({
            let w = letters_at(bytes, idx, on).0.width();
            (0 <= col < w) || col == 5 || col == 6
        }),
        fuel >= cycle_left(col, letters_at(bytes, idx, on).0.width()),
    ensures
        ({
            let k = cycle_left(col, letters_at(bytes, idx, on).0.width());
            let i2 = if on { idx + 1 } else { idx };
            frames_before_end(bytes, idx, col, on, fuel) == (k - 1) + (if i2 < bytes.len() {
                1 + frames_before_end(bytes, i2, 0, true, (fuel - k) as nat)
            } else {
                0
            })
        }),
    decreases 7 - col,
{
    let w = letters_at(bytes, idx, on).0.width();
    if col != 6 {
        let a = after_step(bytes, idx, col, on);
        assert(a == (idx, next_column(col, w), on));
        lemma_cycle(bytes, idx, next_column(col, w), on, (fuel - 1) as nat);
    }
}

proof fn lemma_glyph_run(bytes: Seq<u8>, i: int, fuel: nat)
    requires
        0 <= i < bytes.len(),
        fuel >= byte_total(bytes) - byte_total(bytes.take(i)),
    ensures
        frames_before_end(bytes, i, 0, true, fuel) == byte_total(bytes) - byte_total(bytes.take(i)) - 1,
    decreases bytes.len() - i,
{
    let w = glyph_of_byte(bytes[i]).width();
    assert(letters_at(bytes, i, true).0 == glyph_of_byte(bytes[i]));
    assert(bytes.take(i + 1).drop_last() =~= bytes.take(i));
    assert(byte_total(bytes.take(i + 1)) == byte_total(bytes.take(i)) + w + 2);
    lemma_byte_total_prefix(bytes, i + 1);
    lemma_cycle(bytes, i, 0, true, fuel);
    if i + 1 < bytes.len() {
        lemma_glyph_run(bytes, i + 1, (fuel - (w + 2)) as nat);
    } else {
        assert(bytes.take(i + 1) =~= bytes);
    }
}

proof fn lemma_byte_total_prefix(bytes: Seq<u8>, i: int)
    requires
        0 <= i <= bytes.len(),
    ensures
        byte_total(bytes.take(i)) <= byte_total(bytes),
    decreases bytes.len() - i,
{
    if i < bytes.len() {
        lemma_byte_total_prefix(bytes, i + 1);
        assert(bytes.take(i + 1).drop_last() =~= bytes.take(i));
    } else {
        assert(bytes.take(i) =~= bytes);
    }
}

proof fn lemma_ascii_byte_char(c: char)
    requires
        (c as nat) < 128,
    ensures
        (c as u8) as char == c,
{
}

proof fn lemma_ascii_totals(chars: Seq<char>, bytes: Seq<u8>)
    requires
        chars.len() == bytes.len(),
        forall|i: int| 0 <= i < chars.len() ==> chars[i] as u8 == #[trigger] bytes[i] && (chars[i] as nat) < 128,
    ensures
        frame_total(chars) == byte_total(bytes),
    decreases chars.len(),
{
    if chars.len() > 0 {
        let c = chars.last();
        assert(bytes.last() == c as u8);
        assert((c as nat) < 128);
        lemma_ascii_byte_char(c);
        lemma_ascii_totals(chars.drop_last(), bytes.drop_last());
    }
}

/// A scrolling text shows exactly `frames()` frames: started as `new`
/// makes it, the first `frames()` calls of `next_screen` each give a frame
/// and the call after them gives `None`. (The count walks the text's
/// bytes and `frames()` its characters, so this holds for ASCII text.)
pub proof fn law_text_frame_count(chars: Seq<char>)
    requires
        chars.len() > 0,
        vstd::utf8::is_ascii_chars(chars),
    ensures
        frames_before_end(encode_utf8(chars), 0, 0, false, (frame_total(chars) + 6) as nat) == frame_total(chars) + 5,
{
    let bytes = encode_utf8(chars);
    vstd::utf8::is_ascii_chars_encode_utf8(chars);
    vstd::utf8::is_ascii_chars_nat_bound(chars);
    lemma_ascii_totals(chars, bytes);
    lemma_byte_total_prefix(bytes, 0);
    assert(bytes.take(0) =~= Seq::<u8>::empty());
    assert(letters_at(bytes, 0, false).0 == space_letter());
    lemma_cycle(bytes, 0, 0, false, (frame_total(chars) + 6) as nat);
    lemma_glyph_run(bytes, 0, (frame_total(chars)) as nat);
}

/// Column `q` (counted from where glyph `i` of the text starts) of the part
/// of the whole strip from glyph `i` on: each glyph followed by two dark
/// columns, then the closing space. Row `r`.
pub open spec fn seg_px(bytes: Seq<u8>, i: int, q: int, r: int) -> bool
    decreases bytes.len() - i,
{
    if i < 0 || i >= bytes.len() {
        space_letter().px(r, q)
    } else {
        let g = glyph_of_byte(bytes[i]);
        if q < g.width() {
            g.px(r, q)
        } else if q < g.width() + 2 {
            false
        } else {
            seg_px(bytes, i + 1, q - g.width() - 2, r)
        }
    }
}

/// The whole strip that a scrolling text shows: the opening space, two
/// dark columns, each byte's glyph followed by two dark columns, and the
/// closing space. `text_strip_px(bytes, p, r)` is row `r` of column `p`.
pub open spec fn text_strip_px(bytes: Seq<u8>, p: int, r: int) -> bool {
    if p < 4 {
        space_letter().px(r, p)
    } else if p < 6 {
        false
    } else {
        seg_px(bytes, 0, p - 6, r)
    }
}

/// Strip column where the glyph of byte `i` starts.
pub open spec fn glyph_start(bytes: Seq<u8>, i: int) -> int {
    6 + byte_total(bytes.take(i))
}

/// Byte position, window position and scrolled-on flag after `k` calls of
/// `next_screen` on a text as `new` makes it.
pub open spec fn state_after(bytes: Seq<u8>, k: nat) -> (int, int, bool)
    decreases k,
{
    if k == 0 {
        (0, 0, false)
    } else {
        let s = state_after(bytes, (k - 1) as nat);
        after_step(bytes, s.0, s.1, s.2)
    }
}

/// Row `r` of column `j` of the frame that a call of `next_screen` from
/// state `s` shows.
pub open spec fn state_window_px(bytes: Seq<u8>, s: (int, int, bool), j: int, r: int) -> bool {
    let (cur, nxt) = letters_at(bytes, s.0, s.2);
    strip_px(cur, nxt, window_offset(s.1, cur.width()) + j, r)
}

/// Number of frames before the end of a text.
pub open spec fn scroll_end(bytes: Seq<u8>) -> int {
    byte_total(bytes) + 5
}

spec fn at_pos(bytes: Seq<u8>, s: (int, int, bool), k: int) -> bool {
    let (idx, col, on) = s;
    if !on {
        idx == 0 && ((0 <= col < 4) || col == 5 || col == 6) && k == window_offset(col, 4)
    } else {
        let w = glyph_of_byte(bytes[idx]).width();
        &&& 0 <= idx < bytes.len()
        &&& ((0 <= col < w) || col == 5 || col == 6)
        &&& k == glyph_start(bytes, idx) + window_offset(col, w)
    }
}

proof fn lemma_byte_total_step(bytes: Seq<u8>, i: int)
    requires
        0 <= i < bytes.len(),
    ensures
        byte_total(bytes.take(i + 1)) == byte_total(bytes.take(i)) + glyph_of_byte(bytes[i]).width() + 2,
{
    assert(bytes.take(i + 1).drop_last() =~= bytes.take(i));
}

proof fn lemma_at_pos_step(bytes: Seq<u8>, s: (int, int, bool), k: int)
    requires
        bytes.len() > 0,
        at_pos(bytes, s, k),
        step_gives_frame(bytes, s.0, s.1, s.2),
    ensures
        at_pos(bytes, after_step(bytes, s.0, s.1, s.2), k + 1),
{
    let (idx, col, on) = s;
    if on {
        assert(letters_at(bytes, idx, on).0 == glyph_of_byte(bytes[idx]));
        if col == 6 {
            lemma_byte_total_step(bytes, idx);
        }
    } else {
        assert(letters_at(bytes, idx, on).0 == space_letter());
        if col == 6 {
            assert(bytes.take(0) =~= Seq::<u8>::empty());
        }
    }
}

proof fn lemma_at_pos_frame(bytes: Seq<u8>, s: (int, int, bool), k: int)
    requires
        bytes.len() > 0,
        at_pos(bytes, s, k),
    ensures
        k < scroll_end(bytes) ==> step_gives_frame(bytes, s.0, s.1, s.2),
        k == scroll_end(bytes) ==> !step_gives_frame(bytes, s.0, s.1, s.2),
{
    let (idx, col, on) = s;
    lemma_byte_total_step(bytes, 0);
    assert(bytes.take(0) =~= Seq::<u8>::empty());
    lemma_byte_total_prefix(bytes, 1);
    if on {
        lemma_byte_total_step(bytes, idx);
        lemma_byte_total_prefix(bytes, idx + 1);
        if idx + 1 < bytes.len() {
            lemma_byte_total_step(bytes, idx + 1);
            lemma_byte_total_prefix(bytes, idx + 2);
        } else {
            assert(bytes.take(idx + 1) =~= bytes);
        }
    }
}

proof fn lemma_seg_from_start(bytes: Seq<u8>, i: int, q: int, r: int)
    requires
        0 <= i <= bytes.len(),
        q >= 0,
    ensures
        seg_px(bytes, 0, byte_total(bytes.take(i)) + q, r) == seg_px(bytes, i, q, r),
    decreases i,
{
    if i == 0 {
        assert(bytes.take(0) =~= Seq::<u8>::empty());
    } else {
        let g = glyph_of_byte(bytes[i - 1]);
        lemma_byte_total_step(bytes, i - 1);
        lemma_seg_from_start(bytes, i - 1, q + g.width() + 2, r);
    }
}

proof fn lemma_at_pos_window(bytes: Seq<u8>, s: (int, int, bool), k: int, j: int, r: int)
    requires
        bytes.len() > 0,
        at_pos(bytes, s, k),
        0 <= j < 5,
        0 <= r < 5,
    ensures
        state_window_px(bytes, s, j, r) == text_strip_px(bytes, k + j, r),
{
    reveal_with_fuel(seg_px, 3);
    let (idx, col, on) = s;
    if on {
        let g = glyph_of_byte(bytes[idx]);
        assert(letters_at(bytes, idx, on).0 == g);
        let q0 = window_offset(col, g.width()) + j;
        assert(bytes.take(idx).len() == idx);
        lemma_seg_from_start(bytes, idx, q0, r);
    }
}

/// A scrolling text, started as `new` makes it, shows the whole strip of
/// its glyphs (`text_strip_px`) through a five-column window that starts
/// at column `k` on the `k`-th call of `next_screen` (counted from 0); the
/// calls up to `scroll_end` give frames and that call gives `None`.
pub proof fn law_text_scrolls(bytes: Seq<u8>, k: nat)
    requires
        bytes.len() > 0,
        k <= scroll_end(bytes),
    ensures
        step_gives_frame(bytes, state_after(bytes, k).0, state_after(bytes, k).1, state_after(bytes, k).2)
            <==> k < scroll_end(bytes),
        forall|j: int, r: int|
            0 <= j < 5 && 0 <= r < 5 ==> #[trigger] state_window_px(bytes, state_after(bytes, k), j, r)
                == text_strip_px(bytes, k + j, r),
{
    lemma_state_after_at_pos(bytes, k);
    let s = state_after(bytes, k);
    lemma_at_pos_frame(bytes, s, k as int);
    assert forall|j: int, r: int| 0 <= j < 5 && 0 <= r < 5 implies #[trigger] state_window_px(bytes, s, j, r)
        == text_strip_px(bytes, k + j, r) by {
        lemma_at_pos_window(bytes, s, k as int, j, r);
    }
}

proof fn lemma_state_after_at_pos(bytes: Seq<u8>, k: nat)
    requires
        bytes.len() > 0,
        k <= scroll_end(bytes),
    ensures
        at_pos(bytes, state_after(bytes, k), k as int),
    decreases k,
{
    if k > 0 {
        lemma_state_after_at_pos(bytes, (k - 1) as nat);
        let s = state_after(bytes, (k - 1) as nat);
        lemma_at_pos_frame(bytes, s, k - 1);
        lemma_at_pos_step(bytes, s, k - 1);
    }
}

/// Between two frames in a row the picture moves left by exactly one
/// column: column `j + 1` of frame `k` is column `j` of frame `k + 1`.
pub proof fn law_text_shifts_one_column(bytes: Seq<u8>, k: nat)
    requires
        bytes.len() > 0,
        k + 1 < scroll_end(bytes),
    ensures
        forall|j: int, r: int|
            0 <= j < 4 && 0 <= r < 5 ==> #[trigger] state_window_px(bytes, state_after(bytes, (k + 1) as nat), j, r)
                == state_window_px(bytes, state_after(bytes, k), j + 1, r),
{
    law_text_scrolls(bytes, k);
    law_text_scrolls(bytes, (k + 1) as nat);
    assert forall|j: int, r: int| 0 <= j < 4 && 0 <= r < 5 implies #[trigger] state_window_px(
        bytes,
        state_after(bytes, (k + 1) as nat),
        j,
        r,
    ) == state_window_px(bytes, state_after(bytes, k), j + 1, r) by {
        assert(state_window_px(bytes, state_after(bytes, k), j + 1, r) == text_strip_px(bytes, k + (j + 1), r));
        assert(state_window_px(bytes, state_after(bytes, (k + 1) as nat), j, r) == text_strip_px(bytes, (k + 1) + j, r));
    }
}

/// One strip column, top to bottom.
fn strip_column(cur: &Letter, nxt: &Letter, j: usize) -> (col: [bool; 5])
    requires
        j < 100,
    ensures
        forall|r: int| 0 <= r < 5 ==> #[trigger] col[r] == strip_px(*cur, *nxt, j as int, r),
{
    let w = cur.column_width() as usize;
    if j < w {
        match cur.get_column(j) {
            Some(c) => c,
            None => [false; 5],
        }
    } else if j < w + 2 {
        [false; 5]
    } else {
        match nxt.get_column(j - w - 2) {
            Some(c) => c,
            None => [false; 5],
        }
    }
}

/// The five strip columns starting at `off`, as a grid image.
fn strip_window(cur: &Letter, nxt: &Letter, off: usize) -> (img: [[bool; 5]; 5])
    requires
        off < 90,
    ensures
        shows_window(DisplayImage(img), *cur, *nxt, off as int),
{
    let mut image: [[bool; 5]; 5] = [[false; 5]; 5];
    for k in 0..5usize
        invariant
            off < 90,
            forall|r: int, kk: int| 0 <= r < 5 && 0 <= kk < k ==> #[trigger] image[r][kk] == strip_px(*cur, *nxt, off + kk, r),
    {
        let column = strip_column(cur, nxt, off + k);
        for r in 0..5usize
            invariant
                0 <= k < 5,
                forall|rr: int| 0 <= rr < 5 ==> #[trigger] column[rr] == strip_px(*cur, *nxt, (off + k) as int, rr),
                forall|rr: int, kk: int| 0 <= rr < 5 && 0 <= kk < k ==> #[trigger] image[rr][kk] == strip_px(*cur, *nxt, off + kk, rr),
                forall|rr: int| 0 <= rr < r ==> #[trigger] image[rr][k as int] == strip_px(*cur, *nxt, (off + k) as int, rr),
        {
            let ghost before = image;
            let mut row = image[r];
            row[k] = column[r];
            image[r] = row;
            assert forall|rr: int, kk: int| 0 <= rr < 5 && 0 <= kk < 5 implies #[trigger] image[rr][kk] == (if rr == r && kk == k {
                column[r as int]
            } else {
                before[rr][kk]
            }) by {}
        }
    }
    image
}

impl Animate for ScrollingText {
    open spec fn can_advance(&self) -> bool {
        &&& self.wf()
        &&& self.bytes().len() > 0
        &&& self.position() < usize::MAX
    }

    open spec fn count_fits(&self) -> bool {
        frame_total(self.chars()) + 5 <= u32::MAX
    }

    fn next_screen(&mut self) -> (frame: Option<Frame>)
        ensures
            ({
                let (cur, nxt) = letters_at(old(self).bytes(), old(self).position(), old(self).scrolled_on());
                let off = window_offset(old(self).column(), cur.width());
                let after = after_step(old(self).bytes(), old(self).position(), old(self).column(), old(self).scrolled_on());
                &&& final(self).chars() == old(self).chars()
                &&& final(self).bytes() == old(self).bytes()
                &&& final(self).speed() == old(self).speed()
                &&& final(self).wf()
                &&& final(self).position() == after.0
                &&& final(self).column() == after.1
                &&& final(self).scrolled_on() == after.2
                &&& (frame is Some <==> step_gives_frame(old(self).bytes(), old(self).position(), old(self).column(), old(self).scrolled_on()))
                &&& (frame matches Some(f) ==> f.length == old(self).speed() && shows_window(f.image, cur, nxt, off))
                &&& (frame matches Some(f) ==> forall|r: int, j: int|
                    0 <= r < 5 && 0 <= j < 5 ==> #[trigger] f.image.0[r][j] == state_window_px(
                        old(self).bytes(),
                        (old(self).position(), old(self).column(), old(self).scrolled_on()),
                        j,
                        r,
                    ))
            }),
    {
        let bytes = self.text.as_str().as_bytes();
        let len = bytes.len();
        let (current, next) = if self.text_index == 0 && !self.scrolled_on {
            (Letter::Medium(SPACE), Self::char_to_image(bytes[0] as char))
        } else if self.text_index + 1 >= len {
            (Self::char_to_image(bytes[len - 1] as char), Letter::Medium(SPACE))
        } else {
            (
                Self::char_to_image(bytes[self.text_index] as char),
                Self::char_to_image(bytes[self.text_index + 1] as char),
            )
        };
        let w = current.column_width();
        let off: usize = match self.column_index {
            Column::B0 => w as usize,
            Column::B1 => w as usize + 1,
            _ => self.column_index.columns_passed() as usize,
        };
        let image = strip_window(&current, &next, off);
        let frame = Frame { image: DisplayImage(image), length: self.speed };
        match self.column_index {
            Column::B1 => {
                self.column_index = Column::C0;
                if !self.scrolled_on {
                    self.scrolled_on = true;
                } else {
                    self.text_index = self.text_index + 1;
                }
                if self.text_index >= len {
                    return None;
                }
                Some(frame)
            },
            Column::B0 => {
                self.column_index = Column::B1;
                Some(frame)
            },
            Column::C0 => {
                self.column_index = if 1 < w { Column::C1 } else { Column::B0 };
                Some(frame)
            },
            Column::C1 => {
                self.column_index = if 2 < w { Column::C2 } else { Column::B0 };
                Some(frame)
            },
            Column::C2 => {
                self.column_index = if 3 < w { Column::C3 } else { Column::B0 };
                Some(frame)
            },
            Column::C3 => {
                self.column_index = if 4 < w { Column::C4 } else { Column::B0 };
                Some(frame)
            },
            Column::C4 => {
                self.column_index = Column::B0;
                Some(frame)
            },
        }
    }

    fn frames(&self) -> (n: u32)
        ensures
            n == frame_total(self.chars()) + 5,
    {
        let s = self.text.as_str();
        let mut total: u32 = 0;
        for c in it: s.chars()
            invariant
                s@ == self.chars(),
                frame_total(self.chars()) + 5 <= u32::MAX,
                it.seq() == self.chars(),
                total == frame_total(self.chars().take(it.index() as int)),
        {
            proof {
                lemma_frame_total_prefix(self.chars(), it.index() + 1);
                assert(self.chars().take(it.index() + 1).drop_last() =~= self.chars().take(it.index() as int));
            }
            total = total + (Self::char_to_image(c).column_width() as u32) + 2;
        }
        proof {
            assert(self.chars().take(self.chars().len() as int) =~= self.chars());
        }
        total + 5
    }
}

} // verus!
