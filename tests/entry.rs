use metanote::decimal::{format_i32, parse_i32};
use metanote::entry::{entry_for_number, entry_for_text, number_from_entry, text_from_entry, EntryState};
use metanote::error::TagError;

fn entry(text: &str, placeholder: Option<&str>) -> EntryState {
    EntryState { text: text.to_string(), placeholder: placeholder.map(|p| p.to_string()) }
}

#[test]
fn parses_like_std() {
    assert_eq!(parse_i32("42"), Some(42));
    assert_eq!(parse_i32("-17"), Some(-17));
    assert_eq!(parse_i32("+8"), Some(8));
    assert_eq!(parse_i32("007"), Some(7));
    assert_eq!(parse_i32("2147483647"), Some(i32::MAX));
    assert_eq!(parse_i32("-2147483648"), Some(i32::MIN));
    assert_eq!(parse_i32("2147483648"), None);
    assert_eq!(parse_i32("-2147483649"), None);
    assert_eq!(parse_i32("99999999999999999999"), None);
    assert_eq!(parse_i32(""), None);
    assert_eq!(parse_i32("-"), None);
    assert_eq!(parse_i32("+"), None);
    assert_eq!(parse_i32("1a"), None);
    assert_eq!(parse_i32(" 1"), None);
    for s in ["0", "12", "-5", "+3", "x", "", "2147483648"] {
        assert_eq!(parse_i32(s), s.parse::<i32>().ok());
    }
}

#[test]
fn formats_like_std() {
    for n in [0, 7, 10, 42, -1, -10, 1000, i32::MAX, i32::MIN] {
        assert_eq!(format_i32(n), n.to_string());
    }
    assert_eq!(format_i32(-305), "-305");
}

#[test]
fn text_field_entries() {
    assert_eq!(entry_for_text(&Some("<Keep>".to_string())), entry("", Some("<Keep>")));
    assert_eq!(entry_for_text(&Some("Band".to_string())), entry("Band", None));
    assert_eq!(entry_for_text(&None), entry("", None));
}

#[test]
fn number_field_entries() {
    assert_eq!(entry_for_number(Some(-1)), entry("", Some("<Keep>")));
    assert_eq!(entry_for_number(Some(12)), entry("12", None));
    assert_eq!(entry_for_number(Some(-4)), entry("-4", None));
    assert_eq!(entry_for_number(None), entry("", None));
}

#[test]
fn text_read_back_from_entries() {
    assert_eq!(text_from_entry(&entry("", Some("<Keep>"))), Some("<Keep>".to_string()));
    assert_eq!(text_from_entry(&entry("New", Some("<Keep>"))), Some("New".to_string()));
    assert_eq!(text_from_entry(&entry("New", None)), Some("New".to_string()));
    assert_eq!(text_from_entry(&entry("", None)), None);
}

#[test]
fn numbers_read_back_from_entries() {
    assert_eq!(number_from_entry(&entry("", Some("<Keep>"))), Ok(Some(-1)));
    assert_eq!(number_from_entry(&entry("5", Some("<Keep>"))), Ok(Some(5)));
    assert_eq!(number_from_entry(&entry("5", None)), Ok(Some(5)));
    assert_eq!(number_from_entry(&entry("", None)), Ok(None));
    assert_eq!(number_from_entry(&entry("five", None)), Err(TagError::ParseError));
}

#[test]
fn entries_round_trip() {
    for v in [Some("<Keep>".to_string()), Some("Title".to_string()), None] {
        assert_eq!(text_from_entry(&entry_for_text(&v)), v);
    }
    for v in [Some(-1), Some(0), Some(12), Some(i32::MIN), None] {
        assert_eq!(number_from_entry(&entry_for_number(v)), Ok(v));
    }
    // a present but empty text comes back absent
    assert_eq!(text_from_entry(&entry_for_text(&Some(String::new()))), None);
}
