use mixdial::parse::has_hidraw_prefix;
use mixdial::parse::parse_sink_id;

#[test]
fn hidraw_names_are_candidates() {
    assert!(has_hidraw_prefix(b"hidraw0"));
    assert!(has_hidraw_prefix(b"hidraw17"));
    assert!(has_hidraw_prefix(b"hidraw"));
}

#[test]
fn other_device_names_are_not_candidates() {
    assert!(!has_hidraw_prefix(b"event3"));
    assert!(!has_hidraw_prefix(b"hidra"));
    assert!(!has_hidraw_prefix(b""));
    assert!(!has_hidraw_prefix(b"Hidraw0"));
    assert!(!has_hidraw_prefix(b"xhidraw0"));
}

#[test]
fn sink_id_is_the_first_column_of_the_listing() {
    assert_eq!(parse_sink_id(b"42\tGame\tmodule-null-sink.c\n"), Some(42));
    assert_eq!(parse_sink_id(b"7 something else"), Some(7));
}

#[test]
fn leading_whitespace_before_the_id_is_skipped() {
    assert_eq!(parse_sink_id(b"  \t 19 rest"), Some(19));
    assert_eq!(parse_sink_id(b"\n5"), Some(5));
}

#[test]
fn leading_zeroes_do_not_change_the_id() {
    assert_eq!(parse_sink_id(b"007 x"), Some(7));
    assert_eq!(parse_sink_id(b"0"), Some(0));
}

#[test]
fn empty_or_blank_listing_yields_no_id() {
    assert_eq!(parse_sink_id(b""), None);
    assert_eq!(parse_sink_id(b"   \t\n"), None);
}

#[test]
fn non_numeric_first_column_yields_no_id() {
    assert_eq!(parse_sink_id(b"alsa_output 3"), None);
    assert_eq!(parse_sink_id(b"12a 3"), None);
    assert_eq!(parse_sink_id(b"-4"), None);
}

#[test]
fn ids_at_the_range_edge_parse_and_beyond_it_do_not() {
    assert_eq!(parse_sink_id(b"4294967295"), Some(4294967295));
    assert_eq!(parse_sink_id(b"4294967296"), None);
    assert_eq!(parse_sink_id(b"00000000004294967295"), Some(4294967295));
    assert_eq!(parse_sink_id(b"999999999999999999999"), None);
}
