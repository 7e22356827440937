//! General laws of the registry, stated over whole chains of recorded events
//! and proved for every input.

use vstd::prelude::*;

use crate::kinds::{OperationKind, SegmentKind};
use crate::registry::{OperationEvent, SegmentSizes, StaticFileProviderMetrics};

verus! {

/// How many events in a chain are aimed at one (segment, operation) pair.
pub open spec fn events_for(events: Seq<OperationEvent>, s: SegmentKind, o: OperationKind) -> int
    decreases events.len(),
{
    if events.len() == 0 {
        0
    } else {
        (if events[0].segment == s && events[0].operation == o {
            1int
        } else {
            0int
        }) + events_for(events.drop_first(), s, o)
    }
}

/// A chain of registry states linked by recorded operations: state `i + 1`
/// is state `i` after recording event `i`.
pub open spec fn operation_chain(
    chain: Seq<StaticFileProviderMetrics>,
    events: Seq<OperationEvent>,
) -> bool {
    &&& chain.len() == events.len() + 1
    &&& forall|i: int| 0 <= i < events.len()
            ==> StaticFileProviderMetrics::operation_step(chain[i], chain[i + 1], events[i])
}

/// No pair's share of a chain exceeds the chain's length.
proof fn lemma_events_for_bounds(events: Seq<OperationEvent>, s: SegmentKind, o: OperationKind)
    ensures
        0 <= events_for(events, s, o) <= events.len(),
    decreases events.len(),
{
    if events.len() > 0 {
        lemma_events_for_bounds(events.drop_first(), s, o);
    }
}

/// Counter monotonicity: across any chain of recorded operations whose total
/// stays representable, the counter for a pair ends exactly at its start
/// plus the number of events aimed at that pair — whether or not the events
/// carried durations.
pub proof fn lemma_counter_counts_events(
    chain: Seq<StaticFileProviderMetrics>,
    events: Seq<OperationEvent>,
    s: SegmentKind,
    o: OperationKind,
)
    requires
        operation_chain(chain, events),
        chain[0].counter_of(s, o) + events.len() <= u64::MAX,
    ensures
        chain.last().counter_of(s, o) == chain[0].counter_of(s, o) + events_for(events, s, o),
    decreases events.len(),
{
    lemma_events_for_bounds(events, s, o);
    if events.len() == 0 {
    } else {
        let rest_chain = chain.drop_first();
        let rest_events = events.drop_first();
        assert(StaticFileProviderMetrics::operation_step(chain[0], chain[1], events[0]));
        assert forall|i: int| 0 <= i < rest_events.len()
            implies StaticFileProviderMetrics::operation_step(
                rest_chain[i],
                rest_chain[i + 1],
                rest_events[i],
            ) by {
            assert(StaticFileProviderMetrics::operation_step(
                chain[i + 1],
                chain[i + 2],
                events[i + 1],
            ));
        }
        lemma_counter_counts_events(rest_chain, rest_events, s, o);
        assert(rest_chain.last() == chain.last());
    }
}

/// Histogram selectivity, the silent half: an event that carries no duration
/// leaves every histogram in the registry exactly as it was.
pub proof fn lemma_absent_duration_leaves_histograms(
    pre: StaticFileProviderMetrics,
    post: StaticFileProviderMetrics,
    ev: OperationEvent,
)
    requires
        StaticFileProviderMetrics::operation_step(pre, post, ev),
        ev.duration_nanos is None,
    ensures
        forall|s: SegmentKind, o: OperationKind| post.histogram_of(s, o) == pre.histogram_of(s, o),
{
}

/// Histogram selectivity, the recording half: an event that carries a
/// duration appends exactly that duration to the one histogram of its own
/// pair, and leaves every other histogram as it was.
pub proof fn lemma_present_duration_records_exactly(
    pre: StaticFileProviderMetrics,
    post: StaticFileProviderMetrics,
    ev: OperationEvent,
    n: u64,
)
    requires
        StaticFileProviderMetrics::operation_step(pre, post, ev),
        ev.duration_nanos == Some(n),
    ensures
        post.histogram_of(ev.segment, ev.operation)
            == pre.histogram_of(ev.segment, ev.operation).push(n),
        forall|s: SegmentKind, o: OperationKind|
            !(s == ev.segment && o == ev.operation)
                ==> post.histogram_of(s, o) == pre.histogram_of(s, o),
{
}

/// Gauge overwrite, not accumulation: two size observations for the same
/// segment in a row leave that segment's gauges at exactly the second
/// observation, and every other segment's gauges where they started.
pub proof fn lemma_gauge_overwrite(
    r0: StaticFileProviderMetrics,
    r1: StaticFileProviderMetrics,
    r2: StaticFileProviderMetrics,
    segment: SegmentKind,
    size1: u64,
    files1: usize,
    entries1: usize,
    size2: u64,
    files2: usize,
    entries2: usize,
)
    requires
        StaticFileProviderMetrics::size_step(r0, r1, segment, size1, files1, entries1),
        StaticFileProviderMetrics::size_step(r1, r2, segment, size2, files2, entries2),
    ensures
        r2.sizes_of(segment) == (SegmentSizes { size: size2, files: files2, entries: entries2 }),
        forall|s: SegmentKind| s != segment ==> r2.sizes_of(s) == r0.sizes_of(s),
        forall|s: SegmentKind, o: OperationKind| r2.counter_of(s, o) == r0.counter_of(s, o),
        forall|s: SegmentKind, o: OperationKind| r2.histogram_of(s, o) == r0.histogram_of(s, o),
{
}

/// Recording the same size observation twice is idempotent: the second
/// observation changes nothing that the registry exposes.
pub proof fn lemma_size_update_idempotent(
    r0: StaticFileProviderMetrics,
    r1: StaticFileProviderMetrics,
    r2: StaticFileProviderMetrics,
    segment: SegmentKind,
    size: u64,
    files: usize,
    entries: usize,
)
    requires
        StaticFileProviderMetrics::size_step(r0, r1, segment, size, files, entries),
        StaticFileProviderMetrics::size_step(r1, r2, segment, size, files, entries),
    ensures
        forall|s: SegmentKind| r2.sizes_of(s) == r1.sizes_of(s),
        forall|s: SegmentKind, o: OperationKind| r2.counter_of(s, o) == r1.counter_of(s, o),
        forall|s: SegmentKind, o: OperationKind| r2.histogram_of(s, o) == r1.histogram_of(s, o),
{
}

/// Cross-segment isolation for operations: recording an operation on one
/// segment leaves every metric of every other segment unchanged.
pub proof fn lemma_operation_isolates_segments(
    pre: StaticFileProviderMetrics,
    post: StaticFileProviderMetrics,
    ev: OperationEvent,
    other: SegmentKind,
)
    requires
        StaticFileProviderMetrics::operation_step(pre, post, ev),
        other != ev.segment,
    ensures
        forall|o: OperationKind| post.counter_of(other, o) == pre.counter_of(other, o),
        forall|o: OperationKind| post.histogram_of(other, o) == pre.histogram_of(other, o),
        post.sizes_of(other) == pre.sizes_of(other),
{
}

/// Cross-segment isolation for size observations: recording a size for one
/// segment leaves every metric of every other segment unchanged.
pub proof fn lemma_size_update_isolates_segments(
    pre: StaticFileProviderMetrics,
    post: StaticFileProviderMetrics,
    segment: SegmentKind,
    size: u64,
    files: usize,
    entries: usize,
    other: SegmentKind,
)
    requires
        StaticFileProviderMetrics::size_step(pre, post, segment, size, files, entries),
        other != segment,
    ensures
        forall|o: OperationKind| post.counter_of(other, o) == pre.counter_of(other, o),
        forall|o: OperationKind| post.histogram_of(other, o) == pre.histogram_of(other, o),
        post.sizes_of(other) == pre.sizes_of(other),
{
}

/// Cross-segment isolation across a whole chain: if no event in the chain
/// touches a segment, every one of that segment's counters and histograms
/// ends exactly where it started.
pub proof fn lemma_chain_isolates_untouched_segment(
    chain: Seq<StaticFileProviderMetrics>,
    events: Seq<OperationEvent>,
    other: SegmentKind,
)
    requires
        operation_chain(chain, events),
        forall|i: int| 0 <= i < events.len() ==> events[i].segment != other,
    ensures
        forall|o: OperationKind|
            chain.last().counter_of(other, o) == chain[0].counter_of(other, o),
        forall|o: OperationKind|
            chain.last().histogram_of(other, o) == chain[0].histogram_of(other, o),
        chain.last().sizes_of(other) == chain[0].sizes_of(other),
    decreases events.len(),
{
    if events.len() == 0 {
    } else {
        let rest_chain = chain.drop_first();
        let rest_events = events.drop_first();
        assert(StaticFileProviderMetrics::operation_step(chain[0], chain[1], events[0]));
        assert forall|i: int| 0 <= i < rest_events.len()
            implies StaticFileProviderMetrics::operation_step(
                rest_chain[i],
                rest_chain[i + 1],
                rest_events[i],
            ) by {
            assert(StaticFileProviderMetrics::operation_step(
                chain[i + 1],
                chain[i + 2],
                events[i + 1],
            ));
        }
        lemma_chain_isolates_untouched_segment(rest_chain, rest_events, other);
        assert(rest_chain.last() == chain.last());
    }
}

} // verus!
