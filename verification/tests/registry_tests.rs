use static_file_metrics::kinds::{all_operations, all_segments, pair_slot, OperationKind, SegmentKind};
use static_file_metrics::registry::StaticFileProviderMetrics;

#[test]
fn fresh_registry_is_zeroed() {
    let r = StaticFileProviderMetrics::new();
    for &s in all_segments().iter() {
        for &o in all_operations().iter() {
            assert_eq!(r.counter_value(s, o), 0);
            assert_eq!(r.histogram_len(s, o), 0);
        }
        let z = r.segment_sizes(s);
        assert_eq!(z.size, 0);
        assert_eq!(z.files, 0);
        assert_eq!(z.entries, 0);
    }
}

#[test]
fn default_matches_new() {
    let d = StaticFileProviderMetrics::default();
    for &s in all_segments().iter() {
        for &o in all_operations().iter() {
            assert_eq!(d.counter_value(s, o), 0);
            assert_eq!(d.histogram_len(s, o), 0);
        }
        assert_eq!(d.segment_sizes(s).size, 0);
    }
}

#[test]
fn enumeration_is_stable_and_complete() {
    let segments = all_segments();
    assert_eq!(
        segments,
        vec![SegmentKind::Headers, SegmentKind::Transactions, SegmentKind::Receipts]
    );
    let operations = all_operations();
    assert_eq!(
        operations,
        vec![
            OperationKind::InitCursor,
            OperationKind::OpenWriter,
            OperationKind::Append,
            OperationKind::Prune,
            OperationKind::IncrementBlock,
            OperationKind::CommitWriter,
        ]
    );
}

#[test]
fn every_pair_has_a_distinct_slot() {
    let mut slots: Vec<usize> = Vec::new();
    for &s in all_segments().iter() {
        for &o in all_operations().iter() {
            slots.push(pair_slot(s, o));
        }
    }
    assert_eq!(slots.len(), 18);
    for i in 0..slots.len() {
        assert!(slots[i] < 18);
        for j in 0..i {
            assert_ne!(slots[i], slots[j]);
        }
    }
}

#[test]
fn every_pair_updates_exactly_its_own_metrics() {
    let mut r = StaticFileProviderMetrics::new();
    for &s in all_segments().iter() {
        for &o in all_operations().iter() {
            r.record_segment_operation(s, o, Some(7));
        }
    }
    for &s in all_segments().iter() {
        for &o in all_operations().iter() {
            assert_eq!(r.counter_value(s, o), 1);
            assert_eq!(r.histogram_len(s, o), 1);
            assert_eq!(r.histogram_sample(s, o, 0), 7);
        }
    }
}

#[test]
fn counter_counts_every_call_with_or_without_duration() {
    let mut r = StaticFileProviderMetrics::new();
    let s = SegmentKind::Transactions;
    let o = OperationKind::Prune;
    r.record_segment_operation(s, o, Some(1_000));
    r.record_segment_operation(s, o, None);
    r.record_segment_operation(s, o, Some(2_000));
    r.record_segment_operation(s, o, None);
    r.record_segment_operation(s, o, Some(3_000));
    assert_eq!(r.counter_value(s, o), 5);
    assert_eq!(r.histogram_len(s, o), 3);
}

#[test]
fn absent_duration_never_touches_the_histogram() {
    let mut r = StaticFileProviderMetrics::new();
    let s = SegmentKind::Receipts;
    let o = OperationKind::OpenWriter;
    r.record_segment_operation(s, o, None);
    r.record_segment_operation(s, o, None);
    assert_eq!(r.counter_value(s, o), 2);
    assert_eq!(r.histogram_len(s, o), 0);
}

#[test]
fn present_duration_records_exactly_that_value() {
    let mut r = StaticFileProviderMetrics::new();
    let s = SegmentKind::Headers;
    let o = OperationKind::CommitWriter;
    r.record_segment_operation(s, o, Some(123_456_789));
    assert_eq!(r.histogram_len(s, o), 1);
    assert_eq!(r.histogram_sample(s, o, 0), 123_456_789);
    for &s2 in all_segments().iter() {
        for &o2 in all_operations().iter() {
            if !(s2 == s && o2 == o) {
                assert_eq!(r.histogram_len(s2, o2), 0);
            }
        }
    }
}

#[test]
fn gauges_overwrite_and_never_accumulate() {
    let mut r = StaticFileProviderMetrics::new();
    let s = SegmentKind::Headers;
    r.record_segment(s, 100, 2, 50);
    r.record_segment(s, 200, 3, 60);
    let z = r.segment_sizes(s);
    assert_eq!(z.size, 200);
    assert_eq!(z.files, 3);
    assert_eq!(z.entries, 60);
}

#[test]
fn same_snapshot_twice_is_idempotent() {
    let mut r = StaticFileProviderMetrics::new();
    let s = SegmentKind::Receipts;
    r.record_segment(s, 42, 1, 9);
    r.record_segment(s, 42, 1, 9);
    let z = r.segment_sizes(s);
    assert_eq!(z.size, 42);
    assert_eq!(z.files, 1);
    assert_eq!(z.entries, 9);
}

#[test]
fn recording_for_one_segment_leaves_the_others_alone() {
    let mut r = StaticFileProviderMetrics::new();
    r.record_segment(SegmentKind::Transactions, 11, 1, 5);
    r.record_segment(SegmentKind::Headers, 999, 9, 99);
    r.record_segment_operation(SegmentKind::Headers, OperationKind::Append, Some(500));
    r.record_segment_operation(SegmentKind::Headers, OperationKind::Prune, None);
    for &other in [SegmentKind::Transactions, SegmentKind::Receipts].iter() {
        for &o in all_operations().iter() {
            assert_eq!(r.counter_value(other, o), 0);
            assert_eq!(r.histogram_len(other, o), 0);
        }
    }
    let t = r.segment_sizes(SegmentKind::Transactions);
    assert_eq!(t.size, 11);
    assert_eq!(t.files, 1);
    assert_eq!(t.entries, 5);
    let rc = r.segment_sizes(SegmentKind::Receipts);
    assert_eq!(rc.size, 0);
    assert_eq!(rc.files, 0);
    assert_eq!(rc.entries, 0);
}

#[test]
fn end_to_end_headers_append() {
    let mut r = StaticFileProviderMetrics::new();
    let twelve_ms_in_nanos: u64 = 12_000_000;
    r.record_segment_operation(SegmentKind::Headers, OperationKind::Append, Some(twelve_ms_in_nanos));
    r.record_segment_operation(SegmentKind::Headers, OperationKind::Append, Some(twelve_ms_in_nanos));
    r.record_segment_operation(SegmentKind::Headers, OperationKind::Append, Some(twelve_ms_in_nanos));
    r.record_segment_operation(SegmentKind::Headers, OperationKind::Append, None);
    assert_eq!(r.counter_value(SegmentKind::Headers, OperationKind::Append), 4);
    assert_eq!(r.histogram_len(SegmentKind::Headers, OperationKind::Append), 3);
    for i in 0..3 {
        assert_eq!(
            r.histogram_sample(SegmentKind::Headers, OperationKind::Append, i),
            twelve_ms_in_nanos
        );
    }
    assert_eq!(r.counter_value(SegmentKind::Transactions, OperationKind::Append), 0);
}
