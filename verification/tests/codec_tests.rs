use clipboard::Lpwstr;

#[test]
fn test_lpwstr_round_trip() {
    let s = Lpwstr::from_str("abcdef");

    assert_eq!(s.to_text(), "abcdef");
}

#[test]
fn round_trip_beyond_ascii() {
    let text = "h\u{E9}llo \u{1F30D}";
    let s = Lpwstr::from_str(text);

    assert_eq!(s.to_text(), text);
}

#[test]
fn encode_appends_terminator() {
    let s = Lpwstr::from_str("A");

    assert_eq!(s.into_inner(), vec![0x41, 0]);
}

#[test]
fn encode_splits_into_surrogate_pair() {
    let s = Lpwstr::from_str("\u{1F30D}");

    assert_eq!(s.into_inner(), vec![0xD83C, 0xDF0D, 0]);
}

#[test]
fn decode_of_empty_buffer_is_empty() {
    let s = Lpwstr::from_units(Vec::new());

    assert_eq!(s.to_text(), "");
}

#[test]
fn decode_of_bare_terminator_is_empty() {
    let s = Lpwstr::from_units(vec![0]);

    assert_eq!(s.to_text(), "");
}

#[test]
fn decode_stops_at_first_terminator() {
    let s = Lpwstr::from_units(vec![0x61, 0, 0x62]);

    assert_eq!(s.to_text(), "a");
}

#[test]
fn decode_pairs_surrogates() {
    let s = Lpwstr::from_units(vec![0xD83C, 0xDF0D, 0]);

    assert_eq!(s.to_text(), "\u{1F30D}");
}

#[test]
fn decode_replaces_unpaired_surrogates() {
    let s = Lpwstr::from_units(vec![0x61, 0xD800, 0x62, 0xDF0D, 0]);

    assert_eq!(s.to_text(), "a\u{FFFD}b\u{FFFD}");
}
