use wits::render::u64_to_string;
use wits::snapshot::{ComponentBytes, FieldBytes, IndexSnapshot, SegmentSnapshot};
use wits::space_usage::{ComponentKind, DiskUsage, UsageError};

fn empty_component() -> ComponentBytes {
    ComponentBytes { total_bytes: 0, fields: Vec::new() }
}

fn component(total: u64, fields: Vec<(&str, u64)>) -> ComponentBytes {
    ComponentBytes {
        total_bytes: total,
        fields: fields
            .into_iter()
            .map(|(n, b)| FieldBytes { field_name: n.to_string(), bytes: b })
            .collect(),
    }
}

/// One segment, index total 1000; Postings total 400 with field `body` = 400;
/// Fast fields total 100 with field `rank` = 100; all other components 0.
fn sample_snapshot() -> IndexSnapshot {
    IndexSnapshot {
        total_bytes: 1000,
        segments: vec![SegmentSnapshot {
            id: "seg0".to_string(),
            num_docs: 3,
            deleted_bytes: 0,
            total_bytes: 1000,
            positions: empty_component(),
            postings: component(400, vec![("body", 400)]),
            fast_fields: component(100, vec![("rank", 100)]),
            termdict: empty_component(),
            fieldnorms: empty_component(),
        }],
    }
}

#[test]
fn zero_size_index_is_rejected() {
    let snapshot = IndexSnapshot { total_bytes: 0, segments: Vec::new() };
    let r = DiskUsage::new(&snapshot, None);
    match r {
        Err(e) => assert_eq!(e, UsageError::ZeroSizeIndex),
        Ok(_) => panic!("a zero-size index must not produce a report"),
    }
}

#[test]
fn zero_size_index_with_segmentless_filter_is_still_rejected() {
    let snapshot = IndexSnapshot { total_bytes: 0, segments: Vec::new() };
    let r = DiskUsage::new(&snapshot, Some(vec!["body".to_string()]));
    assert!(r.is_err());
}

#[test]
fn unfiltered_report_carries_all_fields_and_percentages() {
    let usage = DiskUsage::new(&sample_snapshot(), None).unwrap();
    assert_eq!(usage.total_bytes, 1000);
    assert_eq!(usage.segments.len(), 1);

    let seg = &usage.segments[0];
    assert_eq!(seg.id, "seg0");
    assert_eq!(seg.total_bytes, 1000);
    assert_eq!(seg.percent_of_index, 100);
    assert_eq!(seg.num_docs, 3);
    assert_eq!(seg.deleted_bytes, 0);
    assert_eq!(seg.components.len(), 5);

    let postings = &seg.components[1];
    assert_eq!(postings.kind, ComponentKind::Postings);
    assert_eq!(postings.total_bytes, 400);
    assert_eq!(postings.percent_of_index, 40);
    assert_eq!(postings.fields.len(), 1);
    assert_eq!(postings.fields[0].field_name, "body");
    assert_eq!(postings.fields[0].total_bytes, 400);
    assert_eq!(postings.fields[0].percent_of_index, 40);

    let fast = &seg.components[2];
    assert_eq!(fast.kind, ComponentKind::FastFields);
    assert_eq!(fast.total_bytes, 100);
    assert_eq!(fast.percent_of_index, 10);
    assert_eq!(fast.fields.len(), 1);
    assert_eq!(fast.fields[0].field_name, "rank");
    assert_eq!(fast.fields[0].total_bytes, 100);
    assert_eq!(fast.fields[0].percent_of_index, 10);

    for i in [0usize, 3, 4] {
        assert_eq!(seg.components[i].total_bytes, 0);
        assert_eq!(seg.components[i].percent_of_index, 0);
        assert_eq!(seg.components[i].fields.len(), 0);
    }
}

#[test]
fn empty_filter_equals_no_filter() {
    let with_none = DiskUsage::new(&sample_snapshot(), None).unwrap();
    let with_empty = DiskUsage::new(&sample_snapshot(), Some(Vec::new())).unwrap();
    assert_eq!(with_none.render(), with_empty.render());
}

#[test]
fn filter_narrows_listed_fields_but_not_component_totals() {
    let usage = DiskUsage::new(&sample_snapshot(), Some(vec!["rank".to_string()])).unwrap();
    let seg = &usage.segments[0];

    let postings = &seg.components[1];
    assert_eq!(postings.total_bytes, 400);
    assert_eq!(postings.percent_of_index, 40);
    assert_eq!(postings.fields.len(), 0);

    let fast = &seg.components[2];
    assert_eq!(fast.total_bytes, 100);
    assert_eq!(fast.percent_of_index, 10);
    assert_eq!(fast.fields.len(), 1);
    assert_eq!(fast.fields[0].field_name, "rank");
    assert_eq!(fast.fields[0].percent_of_index, 10);
}

#[test]
fn unmatched_filter_keeps_headers_and_lists_no_fields() {
    let r = DiskUsage::new(&sample_snapshot(), Some(vec!["nonexistent".to_string()]));
    let usage = r.unwrap();
    let seg = &usage.segments[0];
    assert_eq!(seg.components.len(), 5);
    for c in &seg.components {
        assert_eq!(c.fields.len(), 0);
    }
    assert_eq!(seg.components[1].total_bytes, 400);
    assert_eq!(seg.components[2].total_bytes, 100);
}

#[test]
fn report_renders_expected_text() {
    let usage = DiskUsage::new(&sample_snapshot(), None).unwrap();
    let want = "Total : 1000 bytes\n\
                Number of segments : 1\n\
                Segment seg0\n\
                \tTotal : 1000 bytes (100%)\n\
                \tNum docs : 3\n\
                \tDeleted : 0 bytes\n\
                \tPositions :\n\
                \t\tTotal : 0 bytes (0%)\n\
                \tPostings :\n\
                \t\tTotal : 400 bytes (40%)\n\
                \t\t'body' : 400 bytes (40%)\n\
                \tFast fields :\n\
                \t\tTotal : 100 bytes (10%)\n\
                \t\t'rank' : 100 bytes (10%)\n\
                \tTerm dict :\n\
                \t\tTotal : 0 bytes (0%)\n\
                \tField norm :\n\
                \t\tTotal : 0 bytes (0%)\n";
    assert_eq!(usage.render(), want);
}

#[test]
fn filtered_report_renders_component_totals_without_field_lines() {
    let usage = DiskUsage::new(&sample_snapshot(), Some(vec!["rank".to_string()])).unwrap();
    let text = usage.render();
    assert!(text.contains("\tPostings :\n\t\tTotal : 400 bytes (40%)\n\tFast fields :"));
    assert!(text.contains("\t\t'rank' : 100 bytes (10%)\n"));
    assert!(!text.contains("'body'"));
}

#[test]
fn segment_totals_sum_to_index_total() {
    let snapshot = IndexSnapshot {
        total_bytes: 300,
        segments: vec![
            SegmentSnapshot {
                id: "a".to_string(),
                num_docs: 1,
                deleted_bytes: 5,
                total_bytes: 100,
                positions: empty_component(),
                postings: empty_component(),
                fast_fields: empty_component(),
                termdict: empty_component(),
                fieldnorms: empty_component(),
            },
            SegmentSnapshot {
                id: "b".to_string(),
                num_docs: 2,
                deleted_bytes: 0,
                total_bytes: 200,
                positions: empty_component(),
                postings: empty_component(),
                fast_fields: empty_component(),
                termdict: empty_component(),
                fieldnorms: empty_component(),
            },
        ],
    };
    let usage = DiskUsage::new(&snapshot, None).unwrap();
    let sum: u64 = usage.segments.iter().map(|s| s.total_bytes).sum();
    assert_eq!(sum, usage.total_bytes);
    assert_eq!(usage.segments[0].percent_of_index, 33);
    assert_eq!(usage.segments[1].percent_of_index, 66);
}

#[test]
fn decimal_rendering_is_exact() {
    assert_eq!(u64_to_string(0), "0");
    assert_eq!(u64_to_string(7), "7");
    assert_eq!(u64_to_string(40), "40");
    assert_eq!(u64_to_string(100), "100");
    assert_eq!(u64_to_string(12345), "12345");
    assert_eq!(u64_to_string(u64::MAX), "18446744073709551615");
}

#[test]
fn zero_size_error_has_a_description() {
    let e = UsageError::ZeroSizeIndex;
    assert!(e.message().contains("zero"));
}
