use punda::display::image::MatrixImage;
use punda::display_old::{clear_steps, refresh_cycle, refresh_timing, PinStep};
use punda::queue::{NotReady, Queue};
use punda::schedule::{Scheduler, Task, TaskKind, MAX, TPMS};
use punda::serial;
use punda::temp::{temperature_from_register, Degrees};

#[test]
fn refresh_timing_splits_2048_microseconds() {
    assert_eq!(refresh_timing(1), (8, 2040));
    assert_eq!(refresh_timing(255), (2040, 8));
    assert_eq!(refresh_timing(0), (0, 2048));
}

#[test]
fn refresh_cycle_scans_three_rows() {
    let mut cells = [[false; 9]; 3];
    cells[1][2] = true;
    let steps = refresh_cycle(&MatrixImage(cells), 10);
    assert_eq!(steps.len(), 3 * 12 + 1);
    assert_eq!(steps[0], PinStep::ColumnHigh(0));
    assert_eq!(steps[9], PinStep::RowHigh(0));
    assert_eq!(steps[10], PinStep::DelayUs(80));
    assert_eq!(steps[11], PinStep::RowLow(0));
    assert_eq!(steps[12 + 2], PinStep::ColumnLow(2));
    assert_eq!(steps[12 + 3], PinStep::ColumnHigh(3));
    assert_eq!(steps[36], PinStep::DelayUs(2048 - 80));
}

#[test]
fn clear_switches_everything_off() {
    let steps = clear_steps();
    assert_eq!(steps.len(), 12);
    assert_eq!(steps[0], PinStep::RowLow(0));
    assert_eq!(steps[2], PinStep::RowLow(2));
    assert_eq!(steps[3], PinStep::ColumnHigh(0));
    assert_eq!(steps[11], PinStep::ColumnHigh(8));
}

#[test]
fn queue_times_the_earliest_call() {
    let mut q = Queue::new();
    let (r, t) = q.enqueue(NotReady { handler: 1, tick: 100 }, 1000);
    assert!(r.is_ok());
    assert_eq!(t, Some(1100));
    // later than the pending one: the timer stays
    let (r, t) = q.enqueue(NotReady { handler: 2, tick: 200 }, 1000);
    assert!(r.is_ok());
    assert_eq!(t, None);
    // full
    let (r, t) = q.enqueue(NotReady { handler: 3, tick: 5 }, 1000);
    assert!(r.is_err());
    assert_eq!(r.unwrap_err().handler, 3);
    assert_eq!(t, None);
    let (first, t) = q.pop(2000);
    let first = first.unwrap();
    assert_eq!((first.handler, first.tick), (1, 100));
    assert_eq!(t, Some(2200));
    let (second, t) = q.pop(2000);
    assert_eq!(second.unwrap().handler, 2);
    assert_eq!(t, None);
    let (none, t) = q.pop(2000);
    assert!(none.is_none());
    assert_eq!(t, None);
}

#[test]
fn queue_sooner_call_moves_the_timer_and_wraps() {
    let mut q = Queue::new();
    q.enqueue(NotReady { handler: 1, tick: 100 }, 0);
    let (r, t) = q.enqueue(NotReady { handler: 2, tick: 10 }, u32::MAX);
    assert!(r.is_ok());
    assert_eq!(t, Some(9));
    let (first, _) = q.pop(0);
    assert_eq!(first.unwrap().handler, 2);
}

#[test]
fn not_ready_compares_by_tick() {
    let a = NotReady { handler: 1, tick: 5 };
    let b = NotReady { handler: 2, tick: 5 };
    let c = NotReady { handler: 0, tick: 6 };
    assert!(a == b);
    assert!(a < c);
}

#[test]
fn trigger_wraps_at_24_bits() {
    assert_eq!(TPMS, 4);
    assert_eq!(Scheduler::set_compare(0, 250), 1000);
    assert_eq!(Scheduler::set_compare(MAX - 1, 1), 3);
    let _s = Scheduler::new();
}

#[test]
fn tasks_compare_by_trigger() {
    let a = Task { trigger: 10, func: 1u8, kind: TaskKind::Single };
    let b = Task { trigger: 10, func: 2u8, kind: TaskKind::Recurring(5) };
    let c = Task { trigger: 11, func: 0u8, kind: TaskKind::Single };
    assert!(a == b);
    assert!(b < c);
}

#[test]
fn writeln_ends_the_line() {
    assert_eq!(serial::writeln("hello"), "hello\n\r");
    assert_eq!(serial::writeln(""), "\n\r");
}

#[test]
fn temperature_register_is_signed_quarters() {
    assert_eq!(temperature_from_register(88), 88);
    assert_eq!(temperature_from_register(0xFFFF_FFFC), -4);
    assert!(Degrees::Celsius != Degrees::Fahrenheit);
}

#[test]
fn refresh_cycle_at_zero_brightness_is_empty() {
    assert!(refresh_cycle(&MatrixImage([[true; 9]; 3]), 0).is_empty());
}

#[test]
fn matrix_image_derefs_to_its_cells() {
    let m = MatrixImage([[true; 9]; 3]);
    assert_eq!(m.len(), 3);
    assert!(m[2][8]);
}
