use pcloud::duration::parse_duration;
use pcloud::error::RedirectError;

#[test]
fn minutes_hours_weeks() {
    assert_eq!(parse_duration("10m"), Ok(600));
    assert_eq!(parse_duration("2h"), Ok(7200));
    assert_eq!(parse_duration("1w"), Ok(604800));
}

#[test]
fn bogus_is_invalid_format() {
    assert_eq!(parse_duration("bogus"), Err(RedirectError::InvalidFormat));
}

#[test]
fn every_unit_has_its_multiplier() {
    assert_eq!(parse_duration("1s"), Ok(1));
    assert_eq!(parse_duration("1m"), Ok(60));
    assert_eq!(parse_duration("1h"), Ok(3600));
    assert_eq!(parse_duration("1d"), Ok(86400));
    assert_eq!(parse_duration("1w"), Ok(604800));
    assert_eq!(parse_duration("1y"), Ok(31536000));
    assert_eq!(parse_duration("3d"), Ok(259200));
}

#[test]
fn units_in_upper_case() {
    assert_eq!(parse_duration("10M"), Ok(600));
    assert_eq!(parse_duration("2H"), Ok(7200));
    assert_eq!(parse_duration("5S"), Ok(5));
    assert_eq!(parse_duration("1D"), Ok(86400));
    assert_eq!(parse_duration("1W"), Ok(604800));
    assert_eq!(parse_duration("1Y"), Ok(31536000));
}

#[test]
fn what_follows_the_unit_is_ignored() {
    assert_eq!(parse_duration("10mxyz"), Ok(600));
    assert_eq!(parse_duration("10m30s"), Ok(600));
    assert_eq!(parse_duration("2h "), Ok(7200));
}

#[test]
fn what_precedes_the_count_is_refused() {
    assert_eq!(parse_duration("abc10m"), Err(RedirectError::InvalidFormat));
    assert_eq!(parse_duration(" 10m"), Err(RedirectError::InvalidFormat));
    assert_eq!(parse_duration("-10m"), Err(RedirectError::InvalidFormat));
    assert_eq!(parse_duration("+10m"), Err(RedirectError::InvalidFormat));
}

#[test]
fn count_and_unit_are_both_needed() {
    assert_eq!(parse_duration(""), Err(RedirectError::InvalidFormat));
    assert_eq!(parse_duration("m"), Err(RedirectError::InvalidFormat));
    assert_eq!(parse_duration("10"), Err(RedirectError::InvalidFormat));
    assert_eq!(parse_duration("10 m"), Err(RedirectError::InvalidFormat));
    assert_eq!(parse_duration("10x"), Err(RedirectError::InvalidFormat));
    assert_eq!(parse_duration("1.5h"), Err(RedirectError::InvalidFormat));
}

#[test]
fn zero_and_leading_zeros() {
    assert_eq!(parse_duration("0s"), Ok(0));
    assert_eq!(parse_duration("0y"), Ok(0));
    assert_eq!(parse_duration("007s"), Ok(7));
    assert_eq!(parse_duration("0000000000000000000000001h"), Ok(3600));
}

#[test]
fn largest_count_of_seconds() {
    assert_eq!(parse_duration("4294967295s"), Ok(u32::MAX));
    assert_eq!(parse_duration("4294967296s"), Err(RedirectError::InvalidFormat));
    assert_eq!(
        parse_duration("99999999999999999999999999999999s"),
        Err(RedirectError::InvalidFormat)
    );
}

#[test]
fn seconds_beyond_the_range_are_refused() {
    assert_eq!(parse_duration("71582788m"), Ok(4294967280));
    assert_eq!(parse_duration("71582789m"), Err(RedirectError::InvalidFormat));
    assert_eq!(parse_duration("136y"), Ok(4288896000));
    assert_eq!(parse_duration("137y"), Err(RedirectError::InvalidFormat));
    assert_eq!(parse_duration("4294967295y"), Err(RedirectError::InvalidFormat));
}

#[test]
fn only_ascii_digits_and_letters_count() {
    assert_eq!(parse_duration("\u{0663}s"), Err(RedirectError::InvalidFormat));
    assert_eq!(parse_duration("1\u{017f}"), Err(RedirectError::InvalidFormat));
    assert_eq!(parse_duration("1\u{00e9}"), Err(RedirectError::InvalidFormat));
    assert_eq!(parse_duration("12h\u{00e9}"), Ok(43200));
}
