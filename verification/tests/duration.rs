use postman::duration_fmt::{longhand_displacement, shorthand_displacement};

#[test]
fn shorthand_exact_values() {
    // 90061 s = 1 day, 1 hour, 1 minute, 1 second.
    assert_eq!(shorthand_displacement(90061), "1 days, 01:01:01");
    assert_eq!(shorthand_displacement(0), "0 days, 00:00:00");
    assert_eq!(shorthand_displacement(86399), "0 days, 23:59:59");
    assert_eq!(shorthand_displacement(172800), "2 days, 00:00:00");
}

#[test]
fn longhand_names_only_nonzero_units() {
    assert_eq!(longhand_displacement(90061), "1 days, 1 hours, 1 minutes, 1 seconds");
    assert_eq!(longhand_displacement(0), "");
    assert_eq!(longhand_displacement(3600), "1 hours");
    assert_eq!(longhand_displacement(61), "1 minutes, 1 seconds");
    assert_eq!(longhand_displacement(86400 * 2), "2 days");
}
