//! Range header parsing and MIME type selection.

use yarhs::mime::get_content_type;
use yarhs::range::{parse_range_header, RangeParseResult};

#[test]
fn test_no_range() {
    assert!(matches!(
        parse_range_header(None, 100),
        RangeParseResult::NoRange
    ));
}

#[test]
fn test_standard_range() {
    match parse_range_header(Some("bytes=0-9"), 100) {
        RangeParseResult::Valid(r) => {
            assert_eq!(r.start, 0);
            assert_eq!(r.end, Some(9));
            assert_eq!(r.content_length(100), 10);
        }
        _ => panic!("Expected Valid"),
    }
}

#[test]
fn test_open_range() {
    match parse_range_header(Some("bytes=50-"), 100) {
        RangeParseResult::Valid(r) => {
            assert_eq!(r.start, 50);
            assert_eq!(r.end, None);
            assert_eq!(r.end_position(100), 99);
            assert_eq!(r.content_length(100), 50);
        }
        _ => panic!("Expected Valid"),
    }
}

#[test]
fn test_suffix_range() {
    match parse_range_header(Some("bytes=-20"), 100) {
        RangeParseResult::Valid(r) => {
            assert_eq!(r.start, 80);
            assert_eq!(r.end, Some(99));
        }
        _ => panic!("Expected Valid"),
    }
}

#[test]
fn test_not_satisfiable() {
    assert!(matches!(
        parse_range_header(Some("bytes=200-"), 100),
        RangeParseResult::NotSatisfiable
    ));
}

#[test]
fn test_invalid_format() {
    assert!(matches!(
        parse_range_header(Some("bytes=a-b"), 100),
        RangeParseResult::NoRange
    ));
    assert!(matches!(
        parse_range_header(Some("bytes=0-9,20-29"), 100),
        RangeParseResult::NoRange
    ));
}

#[test]
fn test_suffix_zero_not_satisfiable() {
    assert!(matches!(
        parse_range_header(Some("bytes=-0"), 100),
        RangeParseResult::NotSatisfiable
    ));
}

#[test]
fn test_end_clamped_to_file_size() {
    match parse_range_header(Some("bytes=90-200"), 100) {
        RangeParseResult::Valid(r) => {
            assert_eq!(r.start, 90);
            assert_eq!(r.end, Some(99));
        }
        _ => panic!("Expected Valid"),
    }
}

#[test]
fn test_common_types() {
    assert_eq!(get_content_type(Some("html")), "text/html; charset=utf-8");
    assert_eq!(get_content_type(Some("css")), "text/css");
    assert_eq!(get_content_type(Some("js")), "application/javascript");
    assert_eq!(get_content_type(Some("json")), "application/json");
    assert_eq!(get_content_type(Some("png")), "image/png");
    assert_eq!(get_content_type(Some("mp4")), "video/mp4");
}

#[test]
fn test_unknown_extension() {
    assert_eq!(get_content_type(Some("xyz")), "application/octet-stream");
    assert_eq!(get_content_type(None), "application/octet-stream");
}
