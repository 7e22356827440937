//! The two closed enumerations that key every metric — storage segment kinds
//! and segment lifecycle operations — and the total, injective mapping from a
//! (segment, operation) pair to its slot in the metric matrix.

use vstd::prelude::*;

verus! {

/// Number of segment kinds.
pub const SEGMENT_COUNT: usize = 3;

/// Number of operation kinds.
pub const OPERATION_COUNT: usize = 6;

/// Number of (segment, operation) pairs; each owns one counter and one
/// histogram.
pub const PAIR_COUNT: usize = 18;

/// A category of static file segment: one immutable, append-then-sealed
/// storage unit per category.
#[derive(Clone, Copy, Debug, PartialEq, Eq, Hash, Structural)]
pub enum SegmentKind {
    Headers,
    Transactions,
    Receipts,
}

/// A lifecycle operation performed against one segment.
#[derive(Clone, Copy, Debug, PartialEq, Eq, Hash, Structural)]
pub enum OperationKind {
    InitCursor,
    OpenWriter,
    Append,
    Prune,
    IncrementBlock,
    CommitWriter,
}

/// Position of a segment kind in the fixed declaration order.
pub open spec fn segment_index(s: SegmentKind) -> int {
    match s {
        SegmentKind::Headers => 0,
        SegmentKind::Transactions => 1,
        SegmentKind::Receipts => 2,
    }
}

/// Position of an operation kind in the fixed declaration order.
pub open spec fn operation_index(o: OperationKind) -> int {
    match o {
        OperationKind::InitCursor => 0,
        OperationKind::OpenWriter => 1,
        OperationKind::Append => 2,
        OperationKind::Prune => 3,
        OperationKind::IncrementBlock => 4,
        OperationKind::CommitWriter => 5,
    }
}

/// Row-major slot of a (segment, operation) pair in the metric matrix.
pub open spec fn pair_index(s: SegmentKind, o: OperationKind) -> int {
    segment_index(s) * (OPERATION_COUNT as int) + operation_index(o)
}

/// Every pair's slot lies inside the matrix.
pub proof fn lemma_pair_index_bounds(s: SegmentKind, o: OperationKind)
    ensures
        0 <= pair_index(s, o) < PAIR_COUNT as int,
{
}

/// The dispatch is exhaustive and collision-free: distinct pairs occupy
/// distinct slots, so no two pairs can ever share a counter or a histogram.
pub proof fn lemma_pair_index_injective(
    s1: SegmentKind,
    o1: OperationKind,
    s2: SegmentKind,
    o2: OperationKind,
)
    ensures
        pair_index(s1, o1) == pair_index(s2, o2) ==> s1 == s2 && o1 == o2,
{
}

/// Slot of a segment kind, as executable code.
pub fn segment_slot(s: SegmentKind) -> (i: usize)
    ensures
        i as int == segment_index(s),
        i < SEGMENT_COUNT,
{
    match s {
        SegmentKind::Headers => 0,
        SegmentKind::Transactions => 1,
        SegmentKind::Receipts => 2,
    }
}

/// Slot of an operation kind, as executable code.
pub fn operation_slot(o: OperationKind) -> (i: usize)
    ensures
        i as int == operation_index(o),
        i < OPERATION_COUNT,
{
    match o {
        OperationKind::InitCursor => 0,
        OperationKind::OpenWriter => 1,
        OperationKind::Append => 2,
        OperationKind::Prune => 3,
        OperationKind::IncrementBlock => 4,
        OperationKind::CommitWriter => 5,
    }
}

/// Slot of a (segment, operation) pair, as executable code.
pub fn pair_slot(s: SegmentKind, o: OperationKind) -> (i: usize)
    ensures
        i as int == pair_index(s, o),
        i < PAIR_COUNT,
{
    segment_slot(s) * OPERATION_COUNT + operation_slot(o)
}

/// Every segment kind, once each, in the fixed declaration order.
pub fn all_segments() -> (v: Vec<SegmentKind>)
    ensures
        v@ == seq![SegmentKind::Headers, SegmentKind::Transactions, SegmentKind::Receipts],
{
    let mut v: Vec<SegmentKind> = Vec::new();
    v.push(SegmentKind::Headers);
    v.push(SegmentKind::Transactions);
    v.push(SegmentKind::Receipts);
    proof {
        assert(v@ =~= seq![
            SegmentKind::Headers,
            SegmentKind::Transactions,
            SegmentKind::Receipts,
        ]);
    }
    v
}

/// Every operation kind, once each, in the fixed declaration order.
pub fn all_operations() -> (v: Vec<OperationKind>)
    ensures
        v@ == seq![
            OperationKind::InitCursor,
            OperationKind::OpenWriter,
            OperationKind::Append,
            OperationKind::Prune,
            OperationKind::IncrementBlock,
            OperationKind::CommitWriter,
        ],
{
    let mut v: Vec<OperationKind> = Vec::new();
    v.push(OperationKind::InitCursor);
    v.push(OperationKind::OpenWriter);
    v.push(OperationKind::Append);
    v.push(OperationKind::Prune);
    v.push(OperationKind::IncrementBlock);
    v.push(OperationKind::CommitWriter);
    proof {
        assert(v@ =~= seq![
            OperationKind::InitCursor,
            OperationKind::OpenWriter,
            OperationKind::Append,
            OperationKind::Prune,
            OperationKind::IncrementBlock,
            OperationKind::CommitWriter,
        ]);
    }
    v
}

} // verus!
