//! The metrics registry: a fixed matrix of call counters and latency
//! histograms keyed by (segment, operation), plus one size-gauge triple per
//! segment. Built once with everything at zero, then mutated in place by each
//! recorded event; recording never fails and never allocates a new slot.

use vstd::prelude::*;

use crate::kinds::{
    pair_index, pair_slot, segment_index, segment_slot, OperationKind, SegmentKind,
    PAIR_COUNT, SEGMENT_COUNT,
};

verus! {

/// The latest observed on-disk footprint of one segment, held as three
/// gauges: byte size, file count, entry count. Overwritten, never
/// accumulated.
#[derive(Clone, Copy, Debug, PartialEq, Eq, Structural)]
pub struct SegmentSizes {
    /// Byte size of the segment on disk.
    pub size: u64,
    /// Number of files the segment occupies.
    pub files: usize,
    /// Number of entries the segment holds.
    pub entries: usize,
}

/// One occurrence of a lifecycle operation on a segment. The duration is
/// absent when the caller only wants the occurrence counted; when present it
/// is the measured latency in nanoseconds.
#[derive(Clone, Copy, Debug)]
pub struct OperationEvent {
    /// The segment the operation ran against.
    pub segment: SegmentKind,
    /// The operation that ran.
    pub operation: OperationKind,
    /// Measured latency in nanoseconds, if the caller timed the operation.
    pub duration_nanos: Option<u64>,
}

/// A counter bump that can never fail: the count sticks at the largest
/// representable value instead of wrapping.
pub open spec fn bumped(c: u64) -> u64 {
    if c < u64::MAX {
        (c + 1) as u64
    } else {
        c
    }
}

/// Metrics registry for the static file provider: one counter and one
/// histogram per (segment, operation) pair, one size-gauge triple per
/// segment.
#[derive(Debug)]
pub struct StaticFileProviderMetrics {
    /// Latest size observation per segment, indexed by `segment_index`.
    sizes: Vec<SegmentSizes>,
    /// Call counts, indexed by `pair_index`.
    counters: Vec<u64>,
    /// Recorded latencies in nanoseconds, indexed by `pair_index`.
    histograms: Vec<Vec<u64>>,
}

impl StaticFileProviderMetrics {
    /// The registry holds exactly one slot per segment and per pair.
    pub closed spec fn wf(self) -> bool {
        &&& self.sizes@.len() == SEGMENT_COUNT as int
        &&& self.counters@.len() == PAIR_COUNT as int
        &&& self.histograms@.len() == PAIR_COUNT as int
    }

    /// The call counter for a (segment, operation) pair.
    pub closed spec fn counter_of(self, s: SegmentKind, o: OperationKind) -> u64 {
        self.counters@[pair_index(s, o)]
    }

    /// The recorded latencies, in nanoseconds and in recording order, for a
    /// (segment, operation) pair.
    pub closed spec fn histogram_of(self, s: SegmentKind, o: OperationKind) -> Seq<u64> {
        self.histograms@[pair_index(s, o)]@
    }

    /// The latest size observation for a segment.
    pub closed spec fn sizes_of(self, s: SegmentKind) -> SegmentSizes {
        self.sizes@[segment_index(s)]
    }

    /// A fresh registry: every counter at zero, every histogram empty, every
    /// gauge at zero.
    pub fn new() -> (r: Self)
        ensures
            r.wf(),
            forall|s: SegmentKind, o: OperationKind| r.counter_of(s, o) == 0,
            forall|s: SegmentKind, o: OperationKind| r.histogram_of(s, o) == Seq::<u64>::empty(),
            forall|s: SegmentKind|
                r.sizes_of(s) == (SegmentSizes { size: 0, files: 0, entries: 0 }),
    {
        let mut sizes: Vec<SegmentSizes> = Vec::new();
        let mut i: usize = 0;
        while i < SEGMENT_COUNT
            invariant
                i <= SEGMENT_COUNT,
                sizes@.len() == i as int,
                forall|j: int| 0 <= j < i as int ==>
                    sizes@[j] == (SegmentSizes { size: 0, files: 0, entries: 0 }),
            decreases SEGMENT_COUNT - i,
        {
            sizes.push(SegmentSizes { size: 0, files: 0, entries: 0 });
            i += 1;
        }
        let mut counters: Vec<u64> = Vec::new();
        let mut k: usize = 0;
        while k < PAIR_COUNT
            invariant
                k <= PAIR_COUNT,
                counters@.len() == k as int,
                forall|j: int| 0 <= j < k as int ==> counters@[j] == 0,
            decreases PAIR_COUNT - k,
        {
            counters.push(0);
            k += 1;
        }
        let mut histograms: Vec<Vec<u64>> = Vec::new();
        let mut m: usize = 0;
        while m < PAIR_COUNT
            invariant
                m <= PAIR_COUNT,
                histograms@.len() == m as int,
                forall|j: int| 0 <= j < m as int ==> histograms@[j]@ == Seq::<u64>::empty(),
            decreases PAIR_COUNT - m,
        {
            let h: Vec<u64> = Vec::new();
            proof {
                assert(h@ =~= Seq::<u64>::empty());
            }
            histograms.push(h);
            m += 1;
        }
        let r = StaticFileProviderMetrics { sizes, counters, histograms };
        proof {
            assert forall|s: SegmentKind, o: OperationKind| r.counter_of(s, o) == 0 by {
                crate::kinds::lemma_pair_index_bounds(s, o);
            }
            assert forall|s: SegmentKind, o: OperationKind|
                r.histogram_of(s, o) == Seq::<u64>::empty() by {
                crate::kinds::lemma_pair_index_bounds(s, o);
            }
        }
        r
    }

    /// What one recorded operation does to the registry: the pair's counter
    /// is bumped by exactly one whether or not a duration came with the
    /// event; the pair's histogram gains exactly the supplied duration, or
    /// stays as it was when none was supplied; every other counter and
    /// histogram, and every size gauge, is left unchanged.
    pub open spec fn operation_step(pre: Self, post: Self, ev: OperationEvent) -> bool {
        &&& pre.wf()
        &&& post.wf()
        &&& post.counter_of(ev.segment, ev.operation)
            == bumped(pre.counter_of(ev.segment, ev.operation))
        &&& forall|s: SegmentKind, o: OperationKind|
                !(s == ev.segment && o == ev.operation)
                    ==> post.counter_of(s, o) == pre.counter_of(s, o)
        &&& (match ev.duration_nanos {
            Some(n) => post.histogram_of(ev.segment, ev.operation)
                == pre.histogram_of(ev.segment, ev.operation).push(n),
            None => post.histogram_of(ev.segment, ev.operation)
                == pre.histogram_of(ev.segment, ev.operation),
        })
        &&& forall|s: SegmentKind, o: OperationKind|
                !(s == ev.segment && o == ev.operation)
                    ==> post.histogram_of(s, o) == pre.histogram_of(s, o)
        &&& forall|s: SegmentKind| post.sizes_of(s) == pre.sizes_of(s)
    }

    /// What one size observation does to the registry: the segment's gauge
    /// triple is overwritten with exactly the observation — not accumulated —
    /// while every other segment's gauges and every counter and histogram are
    /// left unchanged.
    pub open spec fn size_step(
        pre: Self,
        post: Self,
        segment: SegmentKind,
        size: u64,
        files: usize,
        entries: usize,
    ) -> bool {
        &&& pre.wf()
        &&& post.wf()
        &&& post.sizes_of(segment) == (SegmentSizes { size, files, entries })
        &&& forall|s: SegmentKind| s != segment ==> post.sizes_of(s) == pre.sizes_of(s)
        &&& forall|s: SegmentKind, o: OperationKind|
                post.counter_of(s, o) == pre.counter_of(s, o)
        &&& forall|s: SegmentKind, o: OperationKind|
                post.histogram_of(s, o) == pre.histogram_of(s, o)
    }

    /// Record one occurrence of an operation on a segment, with its latency
    /// in nanoseconds when the caller measured one.
    ///
    /// The pair's counter always advances by exactly one; the histogram is
    /// touched only when a duration is present, and then receives exactly
    /// that duration; nothing belonging to any other pair or segment moves.
    pub fn record_segment_operation(
        &mut self,
        segment: SegmentKind,
        operation: OperationKind,
        duration_nanos: Option<u64>,
    )
        requires
            old(self).wf(),
        ensures
            Self::operation_step(
                *old(self),
                *final(self),
                (OperationEvent { segment, operation, duration_nanos }),
            ),
    {
        let idx = pair_slot(segment, operation);
        let current = self.counters[idx];
        self.counters[idx] = if current < u64::MAX {
            current + 1
        } else {
            current
        };
        if let Some(nanos) = duration_nanos {
            self.histograms[idx].push(nanos);
        }
        proof {
            crate::kinds::lemma_pair_index_bounds(segment, operation);
            assert forall|s: SegmentKind, o: OperationKind|
                !(s == segment && o == operation)
                    implies self.counter_of(s, o) == old(self).counter_of(s, o)
                        && self.histogram_of(s, o) == old(self).histogram_of(s, o) by {
                crate::kinds::lemma_pair_index_bounds(s, o);
                crate::kinds::lemma_pair_index_injective(s, o, segment, operation);
            }
        }
    }

    /// Record the latest size observation for a segment, overwriting the
    /// segment's three gauges with exactly the observed byte size, file
    /// count and entry count. Nothing belonging to any other segment, and no
    /// counter or histogram, moves.
    pub fn record_segment(
        &mut self,
        segment: SegmentKind,
        size: u64,
        files: usize,
        entries: usize,
    )
        requires
            old(self).wf(),
        ensures
            Self::size_step(*old(self), *final(self), segment, size, files, entries),
    {
        let i = segment_slot(segment);
        self.sizes[i] = SegmentSizes { size, files, entries };
    }

    /// Read the call counter for one (segment, operation) pair.
    pub fn counter_value(&self, segment: SegmentKind, operation: OperationKind) -> (n: u64)
        requires
            self.wf(),
        ensures
            n == self.counter_of(segment, operation),
    {
        let idx = pair_slot(segment, operation);
        self.counters[idx]
    }

    /// Number of latencies recorded so far for one (segment, operation)
    /// pair.
    pub fn histogram_len(&self, segment: SegmentKind, operation: OperationKind) -> (n: usize)
        requires
            self.wf(),
        ensures
            n as int == self.histogram_of(segment, operation).len(),
    {
        let idx = pair_slot(segment, operation);
        self.histograms[idx].len()
    }

    /// The i-th latency, in nanoseconds, recorded for one (segment,
    /// operation) pair.
    pub fn histogram_sample(
        &self,
        segment: SegmentKind,
        operation: OperationKind,
        i: usize,
    ) -> (n: u64)
        requires
            self.wf(),
            (i as int) < self.histogram_of(segment, operation).len(),
        ensures
            n == self.histogram_of(segment, operation)[i as int],
    {
        let idx = pair_slot(segment, operation);
        self.histograms[idx][i]
    }

    /// The latest size observation recorded for a segment.
    pub fn segment_sizes(&self, segment: SegmentKind) -> (z: SegmentSizes)
        requires
            self.wf(),
        ensures
            z == self.sizes_of(segment),
    {
        let i = segment_slot(segment);
        self.sizes[i]
    }
}

impl Default for StaticFileProviderMetrics {
    /// Same as `new`: a fresh registry with everything at zero.
    fn default() -> (r: Self)
        ensures
            r.wf(),
            forall|s: SegmentKind, o: OperationKind| r.counter_of(s, o) == 0,
            forall|s: SegmentKind, o: OperationKind| r.histogram_of(s, o) == Seq::<u64>::empty(),
            forall|s: SegmentKind|
                r.sizes_of(s) == (SegmentSizes { size: 0, files: 0, entries: 0 }),
    {
        Self::new()
    }
}

} // verus!
