use promql_ast::duration::{SignedDuration, UnsignedDuration};
use promql_ast::error::Error;
use promql_ast::text::{display_duration, parse_duration, resolve, signed_text, split_sign};

fn seconds(secs: u64) -> SignedDuration {
    SignedDuration::from_unsigned(UnsignedDuration { secs, nanos: 0 }).unwrap()
}

#[test]
fn compound_units_are_read() {
    assert_eq!(parse_duration("1h30m"), Ok(seconds(5400)));
    assert_eq!(parse_duration("5d"), Ok(seconds(5 * 86_400)));
    assert_eq!(parse_duration("2w"), Ok(seconds(14 * 86_400)));
    let d = parse_duration("1s500ms").unwrap();
    assert_eq!(d.num_seconds(), 1);
    assert_eq!(d.subsec_nanos(), 500_000_000);
}

#[test]
fn a_leading_minus_sign_negates() {
    let d = parse_duration("-5m").unwrap();
    assert_eq!(d, seconds(300).neg());
    assert_eq!(d.num_seconds(), -300);
}

#[test]
fn durations_are_written_in_the_grammar_s_units() {
    assert_eq!(display_duration(seconds(300)), "5m");
    assert_eq!(display_duration(seconds(5400)), "1h30m");
    assert_eq!(display_duration(seconds(14 * 86_400)), "2w");
}

#[test]
fn negative_durations_are_written_with_a_minus_sign() {
    assert_eq!(display_duration(seconds(300).neg()), "-5m");
}

#[test]
fn zero_is_written_and_read_back() {
    let text = display_duration(SignedDuration::zero());
    assert_eq!(text, "0s");
    assert_eq!(parse_duration(&text), Ok(SignedDuration::zero()));
}

#[test]
fn round_trip_is_on_value_not_text() {
    for s in ["90m", "1h30m", "14d", "2w", "1y", "365d", "-90m", "3s250ms", "-1ms", "0s"] {
        let d = parse_duration(s).unwrap();
        assert_eq!(parse_duration(&display_duration(d)), Ok(d), "{}", s);
    }
    assert_eq!(display_duration(parse_duration("90m").unwrap()), "1h30m");
    assert_eq!(display_duration(parse_duration("14d").unwrap()), "2w");
}

#[test]
fn text_outside_the_grammar_is_a_syntax_error() {
    assert_eq!(
        parse_duration("abc"),
        Err(Error::Syntax("not a valid duration string: abc".to_string()))
    );
    assert_eq!(parse_duration(""), Err(Error::Syntax("empty duration string".to_string())));
    assert_eq!(
        parse_duration("--5m"),
        Err(Error::Syntax("not a valid duration string: -5m".to_string()))
    );
    assert_eq!(parse_duration("-"), Err(Error::Syntax("empty duration string".to_string())));
}

#[test]
fn a_magnitude_beyond_the_signed_range_overflows() {
    assert_eq!(parse_duration("4000000000y"), Err(Error::Overflow));
    assert_eq!(parse_duration("-4000000000y"), Err(Error::Overflow));
}

#[test]
fn a_count_beyond_32_bits_is_written_but_not_read_back() {
    let d = parse_duration("11770000y1d").unwrap();
    let text = display_duration(d);
    assert_eq!(text, "4296050001d");
    assert_eq!(
        parse_duration(&text),
        Err(Error::Syntax("duration must be greater than 0".to_string()))
    );
}

#[test]
fn durations_finer_than_a_millisecond_are_written_to_the_millisecond() {
    let d = SignedDuration::from_unsigned(UnsignedDuration { secs: 1, nanos: 1_999_999 }).unwrap();
    assert_eq!(display_duration(d), "1s1ms");
    assert_eq!(display_duration(d.neg()), "-1s1ms");
}

#[test]
fn the_sign_is_split_from_the_rest() {
    assert_eq!(split_sign("-5m"), (true, "5m"));
    assert_eq!(split_sign("5m"), (false, "5m"));
    assert_eq!(split_sign(""), (false, ""));
    assert_eq!(split_sign("-"), (true, ""));
    assert_eq!(split_sign("--1s"), (true, "-1s"));
    assert_eq!(split_sign("5m-"), (false, "5m-"));
    assert_eq!(split_sign("-\u{e9}t\u{e9}"), (true, "\u{e9}t\u{e9}"));
}

#[test]
fn a_read_magnitude_resolves_to_a_signed_duration() {
    let five = UnsignedDuration { secs: 300, nanos: 0 };
    assert_eq!(resolve(false, Ok(five), false), Ok(seconds(300)));
    assert_eq!(resolve(true, Ok(five), false), Ok(seconds(300).neg()));
    assert_eq!(resolve(true, Ok(five), true), Ok(seconds(300).neg()));
    let over = UnsignedDuration { secs: 9_223_372_036_854_775, nanos: 807_000_001 };
    assert_eq!(resolve(false, Ok(over), false), Err(Error::Overflow));
    assert_eq!(resolve(true, Ok(over), false), Err(Error::Overflow));
}

#[test]
fn a_rejected_text_resolves_to_zero_only_if_it_is_the_text_for_zero() {
    let message = "duration must be greater than 0".to_string();
    assert_eq!(resolve(false, Err(message.clone()), true), Ok(SignedDuration::zero()));
    assert_eq!(resolve(true, Err(message.clone()), true), Ok(SignedDuration::zero()));
    assert_eq!(resolve(false, Err(message.clone()), false), Err(Error::Syntax(message.clone())));
    assert_eq!(resolve(true, Err(message.clone()), false), Err(Error::Syntax(message)));
}

#[test]
fn the_sign_is_put_before_the_magnitude() {
    assert_eq!(signed_text(true, "5m".to_string()), "-5m");
    assert_eq!(signed_text(false, "5m".to_string()), "5m");
    assert_eq!(signed_text(true, String::new()), "-");
}
