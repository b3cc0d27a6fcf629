use nickel_jwt_session::clock::{current_numeric_date, numeric_date};

#[test]
fn a_reading_is_its_seconds() {
    assert_eq!(numeric_date(Some(1_700_000_000)), 1_700_000_000);
    assert_eq!(numeric_date(Some(0)), 0);
    assert_eq!(numeric_date(Some(u64::MAX)), u64::MAX);
}

#[test]
fn a_clock_before_the_epoch_reads_as_the_epoch() {
    assert_eq!(numeric_date(None), 0);
}

#[test]
fn the_clock_has_passed_the_year_2020() {
    assert!(current_numeric_date() > 1_577_836_800);
}
