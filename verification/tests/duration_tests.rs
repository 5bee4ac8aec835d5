use loadgen::duration::{parse_duration, render_millis, string_to_millis_u128, time_to_millis};

#[test]
fn parses_seconds() {
    assert_eq!(parse_duration("5s"), Some(5000));
    assert_eq!(string_to_millis_u128("5s"), 5000);
    assert_eq!(time_to_millis("5s"), 5000);
}

#[test]
fn parses_minutes() {
    assert_eq!(parse_duration("10m"), Some(600000));
}

#[test]
fn parses_hours() {
    assert_eq!(parse_duration("2t"), Some(7200000));
}

#[test]
fn parses_milliseconds() {
    assert_eq!(parse_duration("1500ms"), Some(1500));
}

#[test]
fn missing_unit_counts_milliseconds() {
    assert_eq!(parse_duration("250"), Some(250));
}

#[test]
fn unknown_unit_counts_milliseconds() {
    assert_eq!(parse_duration("7x"), Some(7));
}

#[test]
fn digits_and_unit_can_interleave() {
    // The digit characters form the number wherever they stand.
    assert_eq!(parse_duration("1s5"), Some(15000));
}

#[test]
fn empty_string_is_rejected() {
    assert_eq!(parse_duration(""), None);
}

#[test]
fn unit_without_digits_is_rejected() {
    assert_eq!(parse_duration("ms"), None);
}

#[test]
fn value_too_large_is_rejected() {
    let huge = "9999999999999999999999999999999999999999ms";
    assert_eq!(parse_duration(huge), None);
}

#[test]
fn hour_factor_can_overflow() {
    // In range as plain milliseconds, out of range once scaled to hours.
    let large = "99999999999999999999999999999999999999";
    assert!(parse_duration(large).is_some());
    let large_hours = "99999999999999999999999999999999999999t";
    assert_eq!(parse_duration(large_hours), None);
}

#[test]
fn renders_canonically() {
    assert_eq!(render_millis(0).as_str(), "0ms");
    assert_eq!(render_millis(7).as_str(), "7ms");
    assert_eq!(render_millis(1500).as_str(), "1500ms");
    assert_eq!(render_millis(600000).as_str(), "600000ms");
}

#[test]
fn parser_is_idempotent_on_canonical_output() {
    let first = parse_duration("1500ms").unwrap();
    let again = parse_duration(render_millis(first).as_str()).unwrap();
    assert_eq!(first, again);
    assert_eq!(again, 1500);
}

#[test]
fn parse_render_parse_round_trips() {
    for s in ["90s", "10m", "2t", "1500ms", "250", "7x", "0ms"] {
        let v = parse_duration(s).unwrap();
        let rendered = render_millis(v);
        assert_eq!(parse_duration(rendered.as_str()), Some(v));
    }
}
