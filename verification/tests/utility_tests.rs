//! Tests of the size formatter and the localization-table loader.

use gmhandbook::utility::{format_file_size, parse_text_map, text_map_label, TextMapError};

#[test]
fn test_format_file_size() {
    assert_eq!(format_file_size(0), "0 bytes");
    assert_eq!(format_file_size(1023), "1023 bytes");
    assert_eq!(format_file_size(1024), "1.00 KB");
    assert_eq!(format_file_size(1500), "1.46 KB");
    assert_eq!(format_file_size(1_048_576), "1.00 MB");
    assert_eq!(format_file_size(1_500_000), "1.43 MB");
    assert_eq!(format_file_size(1_073_741_824), "1.00 GB");
    assert_eq!(format_file_size(1_500_000_000), "1.40 GB");
}

#[test]
fn format_file_size_rounds_ties_to_even() {
    // 1152 / 1024 is exactly 1.125, which rounds to the even hundredth.
    assert_eq!(format_file_size(1152), "1.12 KB");
    // 1408 / 1024 is exactly 1.375, whose even neighbour is above.
    assert_eq!(format_file_size(1408), "1.38 KB");
}

#[test]
fn parse_text_map_reads_a_flat_string_map() {
    let tm = parse_text_map("{\"100\": \"Hello\", \"200\": \"World\"}").unwrap();
    assert_eq!(tm.len(), 2);
    assert_eq!(tm.get(100), Some(&"Hello".to_string()));
    assert_eq!(tm.get(200), Some(&"World".to_string()));
    assert_eq!(tm.get(300), None);
}

#[test]
fn parse_text_map_takes_only_canonical_keys() {
    // Keys that are not the canonical decimal rendering of a number
    // can never be hit by a hash lookup, and are left out.
    let tm = parse_text_map("{\"007\": \"a\", \"+8\": \"b\", \"x\": \"c\", \"-9\": \"d\"}")
        .unwrap();
    assert_eq!(tm.get(7), None);
    assert_eq!(tm.get(8), None);
    assert_eq!(tm.get(-9), Some(&"d".to_string()));
}

#[test]
fn parse_text_map_rejects_bad_shapes() {
    assert!(matches!(
        parse_text_map("invalid json content"),
        Err(TextMapError::JsonError(_))
    ));
    assert!(matches!(parse_text_map("[1, 2]"), Err(TextMapError::JsonError(_))));
    assert!(matches!(
        parse_text_map("{\"1\": 2}"),
        Err(TextMapError::JsonError(_))
    ));
}

#[test]
fn text_map_error_messages() {
    let e = TextMapError::IoError("gone".to_string());
    assert_eq!(e.message(), "IO error: gone");
    let e = TextMapError::JsonError("bad".to_string());
    assert_eq!(e.message(), "JSON error: bad");
}

#[test]
fn text_map_label_reads_the_language_out_of_a_file_name() {
    assert_eq!(text_map_label("TextMapEN.json"), Some("EN".to_string()));
    assert_eq!(text_map_label("TextMapCHS.json"), Some("CHS".to_string()));
    assert_eq!(text_map_label("TextMap.json"), Some("".to_string()));
    assert_eq!(text_map_label("SomethingEN.json"), None);
    assert_eq!(text_map_label("TextMapEN.txt"), None);
}
