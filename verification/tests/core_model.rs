use wits::fields::{Field, FieldKind, Fields};
use wits::filter::filter_fields;
use wits::percent::percent;
use wits::snapshot::FieldBytes;

fn fb(name: &str, bytes: u64) -> FieldBytes {
    FieldBytes { field_name: name.to_string(), bytes }
}

fn names(v: &[FieldBytes]) -> Vec<String> {
    v.iter().map(|f| f.field_name.clone()).collect()
}

#[test]
fn percent_zero_part_is_zero() {
    assert_eq!(percent(0, 1000), 0);
    assert_eq!(percent(0, 1), 0);
}

#[test]
fn percent_whole_is_hundred() {
    assert_eq!(percent(1000, 1000), 100);
    assert_eq!(percent(1, 1), 100);
}

#[test]
fn percent_truncates() {
    assert_eq!(percent(400, 1000), 40);
    assert_eq!(percent(100, 1000), 10);
    assert_eq!(percent(1, 3), 33);
    assert_eq!(percent(2, 3), 66);
    assert_eq!(percent(999, 1000), 99);
}

#[test]
fn percent_large_values_do_not_overflow() {
    assert_eq!(percent(u64::MAX, u64::MAX), 100);
    assert_eq!(percent(u64::MAX / 2, u64::MAX), 49);
}

#[test]
fn filter_empty_request_keeps_everything_in_order() {
    let avail = vec![fb("body", 400), fb("rank", 100), fb("title", 7)];
    let kept = filter_fields(&avail, &Vec::new());
    assert_eq!(names(&kept), vec!["body", "rank", "title"]);
    assert_eq!(kept[0].bytes, 400);
    assert_eq!(kept[1].bytes, 100);
    assert_eq!(kept[2].bytes, 7);
}

#[test]
fn filter_all_present_matches_empty_request() {
    let avail = vec![fb("body", 400), fb("rank", 100)];
    let all = filter_fields(&avail, &Vec::new());
    let listed = filter_fields(&avail, &vec!["rank".to_string(), "body".to_string()]);
    assert_eq!(names(&all), names(&listed));
    assert_eq!(all.len(), 2);
}

#[test]
fn filter_keeps_available_order_not_request_order() {
    let avail = vec![fb("a", 1), fb("b", 2), fb("c", 3)];
    let kept = filter_fields(&avail, &vec!["c".to_string(), "a".to_string()]);
    assert_eq!(names(&kept), vec!["a", "c"]);
}

#[test]
fn filter_absent_name_yields_nothing() {
    let avail = vec![fb("body", 400), fb("rank", 100)];
    let kept = filter_fields(&avail, &vec!["nonexistent".to_string()]);
    assert_eq!(kept.len(), 0);
}

#[test]
fn filter_duplicate_requests_do_not_duplicate_matches() {
    let avail = vec![fb("body", 400)];
    let kept = filter_fields(&avail, &vec!["body".to_string(), "body".to_string()]);
    assert_eq!(kept.len(), 1);
    assert_eq!(kept[0].field_name, "body");
}

#[test]
fn filter_is_case_sensitive() {
    let avail = vec![fb("Body", 400)];
    let kept = filter_fields(&avail, &vec!["body".to_string()]);
    assert_eq!(kept.len(), 0);
}

#[test]
fn type_tags_cover_the_closed_enumeration() {
    let tags = [
        (FieldKind::Text, "text"),
        (FieldKind::U64, "u64"),
        (FieldKind::I64, "i64"),
        (FieldKind::F64, "f64"),
        (FieldKind::Date, "date"),
        (FieldKind::Facet, "facet"),
        (FieldKind::Bytes, "bytes"),
        (FieldKind::JsonObject, "JSON object"),
        (FieldKind::Unknown, "unknown"),
    ];
    for (kind, want) in tags {
        let f = Field::new("x".to_string(), kind);
        assert_eq!(f.type_tag(), want);
    }
}

#[test]
fn from_entries_keeps_names_and_order() {
    let fs = Fields::from_entries(vec![
        ("title".to_string(), FieldKind::Text),
        ("rank".to_string(), FieldKind::U64),
    ]);
    assert_eq!(fs.0.len(), 2);
    assert_eq!(fs.0[0].name, "title");
    assert_eq!(fs.0[0].kind, FieldKind::Text);
    assert_eq!(fs.0[1].name, "rank");
    assert_eq!(fs.0[1].kind, FieldKind::U64);
}

#[test]
fn schema_listing_renders_header_and_lines() {
    let fs = Fields::from_entries(vec![
        ("title".to_string(), FieldKind::Text),
        ("rank".to_string(), FieldKind::U64),
    ]);
    assert_eq!(
        fs.render(),
        "Available fields\nField 'title' (text)\nField 'rank' (u64)\n"
    );
}
