use alfred_pinboard_rs::workflow_config::{bool_str, parse_bool, parse_count};

#[test]
fn parses_alfreds_own_checkbox_values() {
    assert_eq!(parse_bool("1"), Some(true));
    assert_eq!(parse_bool("0"), Some(false));
}

#[test]
fn parses_hand_written_checkbox_values() {
    for s in ["true", "TRUE", " yes ", "On"] {
        assert_eq!(parse_bool(s), Some(true), "{s:?} should parse as true");
    }
    for s in ["false", "FALSE", " no ", "Off"] {
        assert_eq!(parse_bool(s), Some(false), "{s:?} should parse as false");
    }
}

/// An unparseable value must not be read as `false`, or a typo in the
/// configuration sheet would silently turn a setting off.
#[test]
fn rejects_unparseable_booleans_rather_than_defaulting() {
    for s in ["", "  ", "maybe", "2", "y"] {
        assert_eq!(parse_bool(s), None, "{s:?} should not parse");
    }
}

#[test]
fn round_trips_booleans_through_alfreds_format() {
    assert_eq!(parse_bool(&bool_str(true)), Some(true));
    assert_eq!(parse_bool(&bool_str(false)), Some(false));
}

#[test]
fn parses_row_counts() {
    assert_eq!(parse_count("10"), Some(10));
    assert_eq!(parse_count(" 25 "), Some(25));
    assert_eq!(parse_count("255"), Some(255));
}

/// Zero would render an empty Alfred window that reads as a broken
/// workflow, and out-of-range values must not wrap.
#[test]
fn rejects_zero_and_out_of_range_counts() {
    for s in ["0", "256", "-1", "", "ten", "1.5"] {
        assert_eq!(parse_count(s), None, "{s:?} should not parse");
    }
}
