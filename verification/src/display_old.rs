//! Driving the LED matrix by hand: the order in which the row and column
//! lines are switched to show a matrix image, and for how long. The pins
//! themselves are switched by the caller, step by step.

use vstd::prelude::*;

pub use crate::display::constant::{CHECKERBOARD, SMILEY};
pub use crate::display::image::{DisplayImage, MatrixImage};

verus! {

/// One action on the matrix lines. A row line high and a column line low
/// light the LED between them.
#[derive(Copy, Clone, PartialEq, Eq, Structural, Debug)]
pub enum PinStep {
    RowHigh(usize),
    RowLow(usize),
    ColumnLow(usize),
    ColumnHigh(usize),
    DelayUs(u32),
}

/// Microseconds that each row stays on at a brightness.
pub open spec fn row_interval(brightness: u8) -> int {
    brightness * 8
}

/// Microseconds of dark time at the end of each refresh at a brightness.
pub open spec fn refresh_pause(brightness: u8) -> int {
    2048 - brightness * 8
}

/// Setting the column lines for row `r` of an image: low where the LED is
/// lit, high elsewhere.
pub open spec fn column_step(img: MatrixImage, r: int, c: int) -> PinStep {
    if img.0[r][c] {
        PinStep::ColumnLow(c as usize)
    } else {
        PinStep::ColumnHigh(c as usize)
    }
}

/// Showing row `r`: set the columns, switch the row on, wait, switch it off.
pub open spec fn row_steps(img: MatrixImage, r: int, interval: u32) -> Seq<PinStep> {
    Seq::new(9, |c: int| column_step(img, r, c)) + seq![
        PinStep::RowHigh(r as usize),
        PinStep::DelayUs(interval),
        PinStep::RowLow(r as usize),
    ]
}

/// The steps for rows 0 up to (not including) `r`.
pub open spec fn rows_before(img: MatrixImage, r: int, interval: u32) -> Seq<PinStep>
    decreases r,
{
    if r <= 0 {
        Seq::empty()
    } else {
        rows_before(img, r - 1, interval) + row_steps(img, r - 1, interval)
    }
}

/// The plan of one refresh, position by position: each row takes twelve
/// steps (its nine columns, low where the LED is lit, then the row line
/// high, the row's time, and the same row line low again), and the dark
/// pause ends the cycle. So every row line that goes high goes low again
/// before the next row starts.
pub proof fn law_refresh_plan(img: MatrixImage, interval: u32, pause: u32)
    ensures
        ({
            let plan = rows_before(img, 3, interval) + seq![PinStep::DelayUs(pause)];
            &&& plan.len() == 37
            &&& plan[36] == PinStep::DelayUs(pause)
            &&& forall|r: int, c: int|
                0 <= r < 3 && 0 <= c < 9 ==> #[trigger] plan[12 * r + c] == (if img.0[r][c] {
                    PinStep::ColumnLow(c as usize)
                } else {
                    PinStep::ColumnHigh(c as usize)
                })
            &&& forall|r: int|
                0 <= r < 3 ==> #[trigger] plan[12 * r + 9] == PinStep::RowHigh(r as usize) && plan[12 * r + 10]
                    == PinStep::DelayUs(interval) && plan[12 * r + 11] == PinStep::RowLow(r as usize)
        }),
{
    lemma_rows_before(img, 3, interval);
    let rows = rows_before(img, 3, interval);
    let plan = rows + seq![PinStep::DelayUs(pause)];
    assert forall|r: int, c: int| 0 <= r < 3 && 0 <= c < 9 implies #[trigger] plan[12 * r + c] == (if img.0[r][c] {
        PinStep::ColumnLow(c as usize)
    } else {
        PinStep::ColumnHigh(c as usize)
    }) by {
        assert(plan[12 * r + c] == rows[12 * r + c]);
    }
    assert forall|r: int| 0 <= r < 3 implies #[trigger] plan[12 * r + 9] == PinStep::RowHigh(r as usize) && plan[12 * r
        + 10] == PinStep::DelayUs(interval) && plan[12 * r + 11] == PinStep::RowLow(r as usize) by {
        assert(plan[12 * r + 9] == rows[12 * r + 9]);
        assert(plan[12 * r + 10] == rows[12 * r + 10]);
        assert(plan[12 * r + 11] == rows[12 * r + 11]);
    }
}

proof fn lemma_rows_before(img: MatrixImage, n: int, interval: u32)
    requires
        0 <= n <= 3,
    ensures
        rows_before(img, n, interval).len() == 12 * n,
        forall|r: int, c: int|
            0 <= r < n && 0 <= c < 9 ==> #[trigger] rows_before(img, n, interval)[12 * r + c] == (if img.0[r][c] {
                PinStep::ColumnLow(c as usize)
            } else {
                PinStep::ColumnHigh(c as usize)
            }),
        forall|r: int|
            0 <= r < n ==> #[trigger] rows_before(img, n, interval)[12 * r + 9] == PinStep::RowHigh(r as usize)
                && rows_before(img, n, interval)[12 * r + 10] == PinStep::DelayUs(interval) && rows_before(
                img,
                n,
                interval,
            )[12 * r + 11] == PinStep::RowLow(r as usize),
    decreases n,
{
    if n > 0 {
        lemma_rows_before(img, n - 1, interval);
        let prev = rows_before(img, n - 1, interval);
        let row = row_steps(img, n - 1, interval);
        let all = rows_before(img, n, interval);
        assert(all == prev + row);
        assert forall|r: int, c: int| 0 <= r < n && 0 <= c < 9 implies #[trigger] all[12 * r + c] == (if img.0[r][c] {
            PinStep::ColumnLow(c as usize)
        } else {
            PinStep::ColumnHigh(c as usize)
        }) by {
            if r < n - 1 {
                assert(all[12 * r + c] == prev[12 * r + c]);
            } else {
                assert(all[12 * r + c] == row[c]);
            }
        }
        assert forall|r: int| 0 <= r < n implies #[trigger] all[12 * r + 9] == PinStep::RowHigh(r as usize) && all[12 * r
            + 10] == PinStep::DelayUs(interval) && all[12 * r + 11] == PinStep::RowLow(r as usize) by {
            if r < n - 1 {
                assert(all[12 * r + 9] == prev[12 * r + 9]);
                assert(all[12 * r + 10] == prev[12 * r + 10]);
                assert(all[12 * r + 11] == prev[12 * r + 11]);
            } else {
                assert(all[12 * r + 9] == row[9]);
                assert(all[12 * r + 10] == row[10]);
                assert(all[12 * r + 11] == row[11]);
            }
        }
    }
}

/// The row and dark-pause times of one refresh at a brightness.
pub fn refresh_timing(brightness: u8) -> (t: (u32, u32))
    ensures
        t.0 == row_interval(brightness),
        t.1 == refresh_pause(brightness),
        t.0 + t.1 == 2048,
{
    let interval = brightness as u32 * 8u32;
    let refresh = 2048 - interval;
    (interval, refresh)
}

/// One refresh of the matrix: the three rows in turn, then the dark pause.
/// Showing an image repeats it for ever. At brightness zero nothing is
/// shown: the plan is empty.
pub fn refresh_cycle(img: &MatrixImage, brightness: u8) -> (steps: Vec<PinStep>)
    ensures
        brightness == 0 ==> steps@ == Seq::<PinStep>::empty(),
        brightness != 0 ==> steps@ == rows_before(*img, 3, row_interval(brightness) as u32) + seq![
            PinStep::DelayUs(refresh_pause(brightness) as u32),
        ],        brightness != 0 ==> steps@.len() == 37 && steps@[36] == PinStep::DelayUs(refresh_pause(brightness) as u32),
        brightness != 0 ==> forall|r: int|
            0 <= r < 3 ==> #[trigger] steps@[12 * r + 9] == PinStep::RowHigh(r as usize) && steps@[12 * r + 10]
                == PinStep::DelayUs(row_interval(brightness) as u32) && steps@[12 * r + 11] == PinStep::RowLow(r as usize),
        brightness != 0 ==> forall|r: int, c: int|
            0 <= r < 3 && 0 <= c < 9 ==> #[trigger] steps@[12 * r + c] == (if img.0[r][c] {
                PinStep::ColumnLow(c as usize)
            } else {
                PinStep::ColumnHigh(c as usize)
            }),
{
    if brightness == 0 {
        return Vec::new();
    }
    let (interval, refresh) = refresh_timing(brightness);
    let mut steps: Vec<PinStep> = Vec::new();
    for r in 0..3usize
        invariant
            interval == row_interval(brightness),
            steps@ == rows_before(*img, r as int, interval),
    {
        let ghost start = steps@;
        for c in 0..9usize
            invariant
                0 <= r < 3,
                start == rows_before(*img, r as int, interval),
                steps@ == start + Seq::new(c as nat, |k: int| column_step(*img, r as int, k)),
        {
            if img.0[r][c] {
                steps.push(PinStep::ColumnLow(c));
            } else {
                steps.push(PinStep::ColumnHigh(c));
            }
            assert(steps@ =~= start + Seq::new((c + 1) as nat, |k: int| column_step(*img, r as int, k)));
        }
        steps.push(PinStep::RowHigh(r));
        steps.push(PinStep::DelayUs(interval));
        steps.push(PinStep::RowLow(r));
        assert(steps@ =~= rows_before(*img, r + 1, interval));
    }
    steps.push(PinStep::DelayUs(refresh));
    proof {
        law_refresh_plan(*img, interval, refresh);
    }
    steps
}

/// Switching every LED off: all rows low, then all columns high.
pub fn clear_steps() -> (steps: Vec<PinStep>)
    ensures
        steps@ == Seq::new(3, |r: int| PinStep::RowLow(r as usize)) + Seq::new(9, |c: int| PinStep::ColumnHigh(c as usize)),
{
    let mut steps: Vec<PinStep> = Vec::new();
    for r in 0..3usize
        invariant
            steps@ == Seq::new(r as nat, |k: int| PinStep::RowLow(k as usize)),
    {
        steps.push(PinStep::RowLow(r));
        assert(steps@ =~= Seq::new((r + 1) as nat, |k: int| PinStep::RowLow(k as usize)));
    }
    for c in 0..9usize
        invariant
            steps@ == Seq::new(3, |k: int| PinStep::RowLow(k as usize)) + Seq::new(c as nat, |k: int| PinStep::ColumnHigh(k as usize)),
    {
        steps.push(PinStep::ColumnHigh(c));
        assert(steps@ =~= Seq::new(3, |k: int| PinStep::RowLow(k as usize)) + Seq::new((c + 1) as nat, |k: int| PinStep::ColumnHigh(k as usize)));
    }
    steps
}

} // verus!
