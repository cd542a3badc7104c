use streaker::instant::UtcInstant;

fn at(secs: i64, nanos: u32) -> UtcInstant {
    UtcInstant { secs, nanos }
}

#[test]
fn day_start_is_midnight_utc() {
    assert_eq!(at(1_577_869_200, 5).day_start(), at(1_577_836_800, 0));
    assert_eq!(at(1_577_836_800, 0).day_start(), at(1_577_836_800, 0));
    // before the epoch the day still starts at the preceding midnight
    assert_eq!(at(-1, 0).day_start(), at(-86_400, 0));
    assert_eq!(at(-86_400, 0).day_start(), at(-86_400, 0));
    assert_eq!(at(-86_401, 0).day_start(), at(-172_800, 0));
}

#[test]
fn second_of_day_is_never_negative() {
    assert_eq!(at(-1, 0).second_of_day_exec(), 86_399);
    assert_eq!(at(86_401, 0).second_of_day_exec(), 1);
}

#[test]
fn spans_round_toward_zero() {
    let start = at(0, 0);
    assert_eq!(at(86_399, 999_999_999).days_since(&start), 0);
    assert_eq!(at(86_400, 0).days_since(&start), 1);
    assert_eq!(at(-86_399, 0).days_since(&start), 0);
    assert_eq!(at(-86_400, 0).days_since(&start), -1);
    // half a second short of minus one day is still no whole day
    assert_eq!(at(-86_400, 500_000_000).days_since(&start), 0);
    assert_eq!(at(7_199, 0).hours_since(&start), 1);
    assert_eq!(at(-7_199, 0).hours_since(&start), -1);
    assert_eq!(at(119, 0).minutes_since(&start), 1);
    assert_eq!(at(-1, 500_000_000).seconds_since(&start), 0);
    assert_eq!(at(3, 250_000_000).nanos_since(&at(1, 750_000_000)), 1_500_000_000);
}

#[test]
fn leap_second_counts_in_spans() {
    // 23:59:60.5 on the day of the epoch, measured from its midnight
    let leap = at(86_399, 1_500_000_000);
    assert_eq!(leap.nanos_since(&at(0, 0)), 86_400_500_000_000);
    assert_eq!(leap.days_since(&at(0, 0)), 1);
    assert_eq!(leap.day_start(), at(0, 0));
}

#[test]
fn one_day_later_drops_a_leap_second() {
    assert_eq!(at(10, 5).one_day_later(), at(86_410, 5));
    assert_eq!(at(86_399, 1_200_000_000).one_day_later(), at(172_799, 200_000_000));
}
