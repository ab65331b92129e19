//! Fixed-capacity min-heaps from `heapless`, holding pairs of integers
//! ordered lexicographically (first component first), as Rust orders
//! tuples.

use heapless::binary_heap::{BinaryHeap, Min};
use heapless::consts::{U2, U8};
use vstd::multiset::Multiset;
use vstd::prelude::*;

verus! {

/// Whether pair `a` comes no later than pair `b` in tuple order.
pub open spec fn pair_le(a: (u32, u32), b: (u32, u32)) -> bool {
    a.0 < b.0 || (a.0 == b.0 && a.1 <= b.1)
}

/// Whether `x` is a smallest item of `items` in tuple order.
pub open spec fn is_least(items: Multiset<(u32, u32)>, x: (u32, u32)) -> bool {
    items.contains(x) && forall|y: (u32, u32)| #[trigger] items.contains(y) ==> pair_le(x, y)
}

/// A min-heap of at most two (tick, handler) pairs.
#[verifier::external_body]
pub struct TickHeap {
    heap: BinaryHeap<(u32, u32), U2, Min>,
}

/// The pairs that a `TickHeap` holds.
pub uninterp spec fn tick_heap_items(heap: TickHeap) -> Multiset<(u32, u32)>;

/// `heapless::BinaryHeap::new`: an empty heap.
#[verifier::external_body]
pub(crate) fn tick_heap_new() -> (heap: TickHeap)
    ensures
        tick_heap_items(heap) =~= Multiset::empty(),
{
    TickHeap { heap: BinaryHeap::new() }
}

/// `heapless::BinaryHeap::peek` on a min-heap: a copy of the smallest item,
/// `None` when the heap is empty.
#[verifier::external_body]
pub(crate) fn tick_heap_peek(heap: &TickHeap) -> (top: Option<(u32, u32)>)
    ensures
        top is None <==> tick_heap_items(*heap).len() == 0,
        top matches Some(x) ==> is_least(tick_heap_items(*heap), x),
{
    heap.heap.peek().copied()
}

/// `heapless::BinaryHeap::push`: hands the item back when the heap already
/// holds its capacity of two items, else adds it.
#[verifier::external_body]
pub(crate) fn tick_heap_push(heap: &mut TickHeap, item: (u32, u32)) -> (r: Result<(), (u32, u32)>)
    ensures
        r is Err <==> tick_heap_items(*old(heap)).len() >= 2,
        r is Ok ==> tick_heap_items(*final(heap)) == tick_heap_items(*old(heap)).insert(item),
        r matches Err(x) ==> x == item && tick_heap_items(*final(heap)) == tick_heap_items(*old(heap)),
{
    heap.heap.push(item)
}

/// `heapless::BinaryHeap::pop` on a min-heap: removes and returns the
/// smallest item, `None` when the heap is empty.
#[verifier::external_body]
pub(crate) fn tick_heap_pop(heap: &mut TickHeap) -> (top: Option<(u32, u32)>)
    ensures
        top is None <==> tick_heap_items(*old(heap)).len() == 0,
        top is None ==> tick_heap_items(*final(heap)) == tick_heap_items(*old(heap)),
        top matches Some(x) ==> is_least(tick_heap_items(*old(heap)), x) && tick_heap_items(*final(heap))
            == tick_heap_items(*old(heap)).remove(x),
{
    heap.heap.pop()
}

/// A min-heap of at most eight (trigger, task) pairs.
#[verifier::external_body]
pub struct TaskHeap {
    heap: BinaryHeap<(u32, usize), U8, Min>,
}

/// The pairs that a `TaskHeap` holds.
pub uninterp spec fn task_heap_items(heap: TaskHeap) -> Multiset<(u32, usize)>;

/// `heapless::BinaryHeap::new`: an empty heap.
#[verifier::external_body]
pub(crate) fn task_heap_new() -> (heap: TaskHeap)
    ensures
        task_heap_items(heap) =~= Multiset::empty(),
{
    TaskHeap { heap: BinaryHeap::new() }
}

} // verus!
