use static_file_metrics::kinds::{all_operations, all_segments, OperationKind, SegmentKind};
use static_file_metrics::names::{
    counter_name, entries_gauge_name, files_gauge_name, histogram_name, operation_label,
    operation_metrics_scope, segment_label, size_gauge_name, size_metrics_scope,
};

#[test]
fn scopes_are_bit_exact() {
    assert_eq!(size_metrics_scope(), "static_files.segment");
    assert_eq!(operation_metrics_scope(), "static_files.jar_provider");
}

#[test]
fn labels_are_bit_exact() {
    assert_eq!(segment_label(SegmentKind::Headers), "headers");
    assert_eq!(segment_label(SegmentKind::Transactions), "transactions");
    assert_eq!(segment_label(SegmentKind::Receipts), "receipts");
    assert_eq!(operation_label(OperationKind::InitCursor), "init_cursor");
    assert_eq!(operation_label(OperationKind::OpenWriter), "open_writer");
    assert_eq!(operation_label(OperationKind::Append), "append");
    assert_eq!(operation_label(OperationKind::Prune), "prune");
    assert_eq!(operation_label(OperationKind::IncrementBlock), "increment_block");
    assert_eq!(operation_label(OperationKind::CommitWriter), "commit_writer");
}

#[test]
fn counter_and_histogram_names_follow_the_convention() {
    assert_eq!(
        counter_name(SegmentKind::Headers, OperationKind::InitCursor),
        "headers_init_cursor_calls_total"
    );
    assert_eq!(
        counter_name(SegmentKind::Transactions, OperationKind::IncrementBlock),
        "transactions_increment_block_calls_total"
    );
    assert_eq!(
        histogram_name(SegmentKind::Receipts, OperationKind::CommitWriter),
        "receipts_commit_writer_duration_seconds"
    );
    assert_eq!(
        histogram_name(SegmentKind::Headers, OperationKind::Append),
        "headers_append_duration_seconds"
    );
    for &s in all_segments().iter() {
        for &o in all_operations().iter() {
            let c = counter_name(s, o);
            let h = histogram_name(s, o);
            assert_eq!(c, format!("{}_{}_calls_total", segment_label(s), operation_label(o)));
            assert_eq!(
                h,
                format!("{}_{}_duration_seconds", segment_label(s), operation_label(o))
            );
        }
    }
}

#[test]
fn gauge_names_follow_the_convention() {
    for &s in all_segments().iter() {
        assert_eq!(size_gauge_name(s), format!("{}_size", segment_label(s)));
        assert_eq!(files_gauge_name(s), format!("{}_files", segment_label(s)));
        assert_eq!(entries_gauge_name(s), format!("{}_entries", segment_label(s)));
    }
    assert_eq!(size_gauge_name(SegmentKind::Headers), "headers_size");
    assert_eq!(files_gauge_name(SegmentKind::Transactions), "transactions_files");
    assert_eq!(entries_gauge_name(SegmentKind::Receipts), "receipts_entries");
}

#[test]
fn all_metric_names_are_pairwise_distinct() {
    let mut names: Vec<&'static str> = Vec::new();
    for &s in all_segments().iter() {
        for &o in all_operations().iter() {
            names.push(counter_name(s, o));
            names.push(histogram_name(s, o));
        }
        names.push(size_gauge_name(s));
        names.push(files_gauge_name(s));
        names.push(entries_gauge_name(s));
    }
    assert_eq!(names.len(), 45);
    for i in 0..names.len() {
        for j in 0..i {
            assert_ne!(names[i], names[j]);
        }
    }
}
