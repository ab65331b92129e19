use vstd::prelude::*;

verus! {

/// Where each LED of the 5x5 grid sits in the 3x9 matrix of row and column
/// lines that drive it: `DISPLAY_MAP[r][c]` is (matrix row, matrix column)
/// of the LED in grid row `r` and grid column `c`.
pub const DISPLAY_MAP: [[(usize, usize); 5]; 5] = [
    [(0, 0), (1, 3), (0, 1), (1, 4), (0, 2)],
    [(2, 3), (2, 4), (2, 5), (2, 6), (2, 7)],
    [(1, 1), (0, 8), (1, 2), (2, 8), (1, 0)],
    [(0, 7), (0, 6), (0, 5), (0, 4), (0, 3)],
    [(2, 2), (1, 6), (2, 0), (1, 5), (2, 1)],
];

/// An image for the LED grid, as an array of five rows of five LEDs.
#[derive(Copy, Clone)]
pub struct DisplayImage(pub [[bool; 5]; 5]);

/// The same image laid out on the 3 row lines and 9 column lines that
/// drive the LEDs.
#[derive(Copy, Clone)]
pub struct MatrixImage(pub [[bool; 9]; 3]);

impl DisplayImage {
    /// The LED in row `r`, column `c`.
    pub open spec fn pixel(self, r: int, c: int) -> bool {
        self.0[r][c]
    }
}

impl MatrixImage {
    /// The cell on matrix row `r`, matrix column `c`.
    pub open spec fn cell(self, r: int, c: int) -> bool {
        self.0[r][c]
    }
}

/// Whether a matrix cell drives an LED: of the 27 cells, two (row 1,
/// columns 7 and 8) drive none.
pub open spec fn is_led_cell(r: int, c: int) -> bool {
    0 <= r < 3 && 0 <= c < 9 && !(r == 1 && c >= 7)
}

/// The matrix layout of a grid image, cell by cell.
#[verifier::opaque]
pub open spec fn matrix_of(img: DisplayImage) -> MatrixImage {
    let p = img.0;
    MatrixImage([
        [p[0][0], p[0][2], p[0][4], p[3][4], p[3][3], p[3][2], p[3][1], p[3][0], p[2][1]],
        [p[2][4], p[2][0], p[2][2], p[0][1], p[0][3], p[4][3], p[4][1], false, false],
        [p[4][2], p[4][4], p[4][0], p[1][0], p[1][1], p[1][2], p[1][3], p[1][4], p[2][3]],
    ])
}



/// The grid LED that a matrix cell drives, for the cells that drive one.
pub open spec fn source_of(r: int, c: int) -> (int, int) {
    if r == 0 && c == 0 {
        (0, 0)
    } else if r == 0 && c == 1 {
        (0, 2)
    } else if r == 0 && c == 2 {
        (0, 4)
    } else if r == 0 && c == 3 {
        (3, 4)
    } else if r == 0 && c == 4 {
        (3, 3)
    } else if r == 0 && c == 5 {
        (3, 2)
    } else if r == 0 && c == 6 {
        (3, 1)
    } else if r == 0 && c == 7 {
        (3, 0)
    } else if r == 0 && c == 8 {
        (2, 1)
    } else if r == 1 && c == 0 {
        (2, 4)
    } else if r == 1 && c == 1 {
        (2, 0)
    } else if r == 1 && c == 2 {
        (2, 2)
    } else if r == 1 && c == 3 {
        (0, 1)
    } else if r == 1 && c == 4 {
        (0, 3)
    } else if r == 1 && c == 5 {
        (4, 3)
    } else if r == 1 && c == 6 {
        (4, 1)
    } else if r == 2 && c == 0 {
        (4, 2)
    } else if r == 2 && c == 1 {
        (4, 4)
    } else if r == 2 && c == 2 {
        (4, 0)
    } else if r == 2 && c == 3 {
        (1, 0)
    } else if r == 2 && c == 4 {
        (1, 1)
    } else if r == 2 && c == 5 {
        (1, 2)
    } else if r == 2 && c == 6 {
        (1, 3)
    } else if r == 2 && c == 7 {
        (1, 4)
    } else if r == 2 && c == 8 {
        (2, 3)
    } else {
        (-1, -1)
    }
}

/// Whether the LED that matrix cell (`i`, `j`) drives comes before grid
/// position (`r`, `c`) in row-major order.
pub open spec fn written_before(i: int, j: int, r: int, c: int) -> bool {
    let s = source_of(i, j);
    is_led_cell(i, j) && (s.0 < r || (s.0 == r && s.1 < c))
}

proof fn lemma_map_entry(r: int, c: int, img: DisplayImage)
    requires
        0 <= r < 5,
        0 <= c < 5,
    ensures
        is_led_cell(DISPLAY_MAP[r][c].0 as int, DISPLAY_MAP[r][c].1 as int),
        source_of(DISPLAY_MAP[r][c].0 as int, DISPLAY_MAP[r][c].1 as int) == (r, c),
        matrix_of(img).0[DISPLAY_MAP[r][c].0 as int][DISPLAY_MAP[r][c].1 as int] == img.0[r][c],
{
    reveal(matrix_of);
}

proof fn lemma_source_inverse(i: int, j: int)
    requires
        is_led_cell(i, j),
    ensures
        0 <= source_of(i, j).0 < 5,
        0 <= source_of(i, j).1 < 5,
        DISPLAY_MAP[source_of(i, j).0][source_of(i, j).1] == (i as usize, j as usize),
{
}

/// Converting a grid image to the matrix layout puts each LED's value on
/// the matrix cell that `DISPLAY_MAP` gives for it, leaves the two cells
/// that drive no LED dark, and no two LEDs share a cell.
pub proof fn law_matrix_layout(img: DisplayImage, r: int, c: int, r2: int, c2: int)
    requires
        0 <= r < 5,
        0 <= c < 5,
        0 <= r2 < 5,
        0 <= c2 < 5,
    ensures
        matrix_of(img).cell(DISPLAY_MAP[r][c].0 as int, DISPLAY_MAP[r][c].1 as int) == img.pixel(r, c),
        is_led_cell(DISPLAY_MAP[r][c].0 as int, DISPLAY_MAP[r][c].1 as int),
        !matrix_of(img).cell(1, 7),
        !matrix_of(img).cell(1, 8),
        DISPLAY_MAP[r][c] == DISPLAY_MAP[r2][c2] ==> r == r2 && c == c2,
{
    lemma_map_entry(r, c, img);
    lemma_map_entry(r2, c2, img);
    lemma_written_all(1, 7, img);
    lemma_written_all(1, 8, img);
}

impl core::ops::Deref for DisplayImage {
    type Target = [[bool; 5]; 5];

    fn deref(&self) -> (rows: &[[bool; 5]; 5])
        ensures
            *rows == self.0,
    {
        &self.0
    }
}

impl core::ops::Deref for MatrixImage {
    type Target = [[bool; 9]; 3];

    fn deref(&self) -> (rows: &[[bool; 9]; 3])
        ensures
            *rows == self.0,
    {
        &self.0
    }
}

impl From<[[bool; 5]; 5]> for DisplayImage {
    fn from(other: [[bool; 5]; 5]) -> (img: Self) {
        DisplayImage(other)
    }
}

impl vstd::std_specs::convert::FromSpecImpl<[[bool; 5]; 5]> for DisplayImage {
    open spec fn obeys_from_spec() -> bool {
        true
    }

    open spec fn from_spec(v: [[bool; 5]; 5]) -> Self {
        DisplayImage(v)
    }
}

impl From<[[bool; 9]; 3]> for MatrixImage {
    fn from(other: [[bool; 9]; 3]) -> (img: Self) {
        MatrixImage(other)
    }
}

impl vstd::std_specs::convert::FromSpecImpl<[[bool; 9]; 3]> for MatrixImage {
    open spec fn obeys_from_spec() -> bool {
        true
    }

    open spec fn from_spec(v: [[bool; 9]; 3]) -> Self {
        MatrixImage(v)
    }
}

impl From<DisplayImage> for MatrixImage {
    /// Places every LED of the grid image on its matrix cell.
    fn from(other: DisplayImage) -> (matrix: Self) {
        let mut matrix: [[bool; 9]; 3] = [[false; 9]; 3];
        let ghost target = matrix_of(other);
        for r in 0..5usize
            invariant
                target == matrix_of(other),
                forall|i: int, j: int|
                    0 <= i < 3 && 0 <= j < 9 ==> #[trigger] matrix[i][j] == (if written_before(i, j, r as int, 0) {
                        target.0[i][j]
                    } else {
                        false
                    }),
        {
            for c in 0..5usize
                invariant
                    0 <= r < 5,
                    target == matrix_of(other),
                    forall|i: int, j: int|
                        0 <= i < 3 && 0 <= j < 9 ==> #[trigger] matrix[i][j] == (if written_before(i, j, r as int, c as int) {
                            target.0[i][j]
                        } else {
                            false
                        }),
            {
                let (mr, mc) = DISPLAY_MAP[r][c];
                proof {
                    lemma_map_entry(r as int, c as int, other);
                    lemma_written_step(r as int, c as int, other);
                    assert(target.0[mr as int][mc as int] == other.0[r as int][c as int]);
                }
                let ghost before = matrix;
                let mut row = matrix[mr];
                row[mc] = other.0[r][c];
                matrix[mr] = row;
                assert forall|i: int, j: int| 0 <= i < 3 && 0 <= j < 9 implies #[trigger] matrix[i][j] == (if i == mr && j == mc {
                    other.0[r as int][c as int]
                } else {
                    before[i][j]
                }) by {}
            }
            proof {
                lemma_written_row(r as int);
            }
        }
        proof {
            assert forall|i: int| 0 <= i < 3 implies #[trigger] matrix[i] =~= target.0[i] by {
                assert forall|j: int| 0 <= j < 9 implies matrix[i][j] == target.0[i][j] by {
                    lemma_written_all(i, j, other);
                }
            }
            assert(matrix =~= target.0);
        }
        MatrixImage(matrix)
    }
}

proof fn lemma_written_step(r: int, c: int, img: DisplayImage)
    requires
        0 <= r < 5,
        0 <= c < 5,
    ensures
        ({
            let (mr, mc) = DISPLAY_MAP[r][c];
            &&& written_before(mr as int, mc as int, r, c + 1)
            &&& !written_before(mr as int, mc as int, r, c)
            &&& forall|i: int, j: int|
                0 <= i < 3 && 0 <= j < 9 && !(i == mr && j == mc) ==> #[trigger] written_before(i, j, r, c + 1)
                    == written_before(i, j, r, c)
        }),
{
    lemma_map_entry(r, c, img);
    let (mr, mc) = DISPLAY_MAP[r][c];
    assert forall|i: int, j: int|
        0 <= i < 3 && 0 <= j < 9 && !(i == mr && j == mc) implies #[trigger] written_before(i, j, r, c + 1)
            == written_before(i, j, r, c) by {
        if is_led_cell(i, j) {
            lemma_source_inverse(i, j);
        }
    }
}

proof fn lemma_written_row(r: int)
    ensures
        forall|i: int, j: int| 0 <= i < 3 && 0 <= j < 9 ==> #[trigger] written_before(i, j, r, 5) == written_before(i, j, r + 1, 0),
{
    assert forall|i: int, j: int| 0 <= i < 3 && 0 <= j < 9 implies #[trigger] written_before(i, j, r, 5) == written_before(i, j, r + 1, 0) by {
        if is_led_cell(i, j) {
            lemma_source_inverse(i, j);
        }
    }
}

proof fn lemma_written_all(i: int, j: int, img: DisplayImage)
    requires
        0 <= i < 3,
        0 <= j < 9,
    ensures
        written_before(i, j, 5, 0) == is_led_cell(i, j),
        !is_led_cell(i, j) ==> !matrix_of(img).0[i][j],
{
    reveal(matrix_of);
    if is_led_cell(i, j) {
        lemma_source_inverse(i, j);
    }
}

impl vstd::std_specs::convert::FromSpecImpl<DisplayImage> for MatrixImage {
    open spec fn obeys_from_spec() -> bool {
        true
    }

    open spec fn from_spec(v: DisplayImage) -> Self {
        matrix_of(v)
    }
}

} // verus!
