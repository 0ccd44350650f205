use postman::substitutions::{fmt_displacement, substitute, substitute_at};

#[test]
fn timefrom_day_count() {
    // At now = 172800 (two days past the epoch), a reference of 0 with a
    // day format renders the day count.
    assert_eq!(substitute_at("<<timefrom:0:%d days>>", 172800), "2 days");
}

#[test]
fn timefrom_is_direction_agnostic() {
    // A reference in the future renders the same absolute difference.
    assert_eq!(substitute_at("<<timefrom:172800:%d days>>", 0), "2 days");
}

#[test]
fn timefrom_keeps_surrounding_text() {
    assert_eq!(
        substitute_at("due <<timefrom:0:%h h>> ago!", 7200),
        "due 2 h ago!"
    );
}

#[test]
fn timefrom_component_breakdown() {
    // 90061 s = 1 day, 1 hour, 1 minute, 1 second.
    assert_eq!(
        substitute_at("<<timefrom:0:%d:%h:%m:%s>>", 90061),
        "1:1:1:1"
    );
    // Without a day code, hours absorb the days.
    assert_eq!(substitute_at("<<timefrom:0:%h h %m m>>", 90061), "25 h 1 m");
    // A trailing seconds code absorbs the remainder.
    assert_eq!(substitute_at("<<timefrom:0:%s seconds>>", 90061), "90061 seconds");
}

#[test]
fn untouched_without_tokens() {
    assert_eq!(substitute_at("hello world", 12345), "hello world");
    assert_eq!(substitute_at("", 12345), "");
    assert_eq!(substitute_at("<<timefrom:12", 12345), "<<timefrom:12");
    assert_eq!(substitute_at("<<timefrom:abc:%d>>", 12345), "<<timefrom:abc:%d>>");
    let s = substitute("no tokens here");
    assert_eq!(s, "no tokens here");
}

#[test]
fn only_first_timefrom_token_is_substituted() {
    assert_eq!(
        substitute_at("<<timefrom:0:%s s>> and <<timefrom:0:%s s>>", 5),
        "5 s and <<timefrom:0:%s s>>"
    );
}

#[test]
fn overlong_reference_renders_empty() {
    // 20 digits exceed i64::MAX: the token is removed.
    assert_eq!(substitute_at("x<<timefrom:99999999999999999999:%s>>y", 0), "xy");
}

#[test]
fn timenow_in_utc() {
    // At epoch second 0 in UTC the year is 1970.
    assert_eq!(substitute_at("<<timenow:UTC:%Y>>", 0), "1970");
    // 1971 begins 365 days later.
    assert_eq!(substitute_at("<<timenow:UTC:%Y>>", 365 * 86400), "1971");
}

#[test]
fn timenow_unknown_zone_renders_empty() {
    assert_eq!(substitute_at("a<<timenow:No/Such_Zone:%Y>>b", 0), "ab");
}

#[test]
fn timenow_named_zone() {
    // Midnight UTC on 1970-01-01 is the previous evening in New York.
    assert_eq!(substitute_at("<<timenow:America/New_York:%Y-%m-%d>>", 0), "1969-12-31");
}

#[test]
fn both_token_kinds_in_one_text() {
    assert_eq!(
        substitute_at("<<timefrom:0:%s s>> / <<timenow:UTC:%Y>>", 7),
        "7 s / 1970"
    );
}

#[test]
fn fmt_displacement_exact_values() {
    assert_eq!(fmt_displacement("%d days", 172800), "2 days");
    assert_eq!(fmt_displacement("%h:%m:%s", 3725), "1:2:5");
    assert_eq!(fmt_displacement("no codes", 999), "no codes");
    assert_eq!(fmt_displacement("", 999), "");
    assert_eq!(fmt_displacement("%s", 0), "0");
}
