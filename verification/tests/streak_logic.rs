use streaker::instant::UtcInstant;
use streaker::rewards_program::RewardsProgram;
use streaker::streak_logic::{StreakLogic, StreakState};

/// 2020-01-01 09:00:00 UTC
const LAST_SCAN: i64 = 1_577_869_200;

static MINING_RATIO: &[f64] = &[
    0.1250, 0.1500, 0.1750, 0.2000, 0.2250, 0.2500, 0.2750, 0.3000, 0.3250, 0.3500, 0.3750,
];

fn mining_ratio(bucket: i32) -> f64 {
    MINING_RATIO[RewardsProgram::mining_ratio_index(bucket as u32)] / 50.
}

fn at(secs: i64) -> UtcInstant {
    UtcInstant { secs, nanos: 0 }
}

fn add_hours(hours: i64) -> UtcInstant {
    at(LAST_SCAN + hours * 3600)
}

fn state(
    streak_current: i32,
    streak_bucket: i32,
    streak_missed: i32,
    bucket: i32,
    days_since_last_scan: i32,
) -> StreakState {
    StreakState { streak_current, streak_bucket, streak_missed, bucket, days_since_last_scan }
}

#[test]
fn test_evaluate() {
    let last_scan = at(LAST_SCAN);

    // lets start from the beginning
    let logic = StreakLogic::new(0, 0, None);
    let s = logic.evaluate(&add_hours(8));
    assert_eq!(s, state(0, 0, 0, 0, 0));
    assert_eq!(mining_ratio(s.bucket), 0.0025);

    // now we have one streak
    let logic = StreakLogic::new(1, 1, Some(last_scan));
    let s = logic.evaluate(&add_hours(2));
    assert_eq!(s, state(1, 1, 0, 0, 0));
    assert_eq!(mining_ratio(s.bucket), 0.0025);

    // now we are moving! 15 days in!
    let logic = StreakLogic::new(15, 15, Some(last_scan));
    let s = logic.evaluate(&add_hours(8));
    assert_eq!(s, state(15, 15, 0, 3, 0));
    assert_eq!(mining_ratio(s.bucket), 0.004);

    // now we are in the new streak zone!
    let s = logic.evaluate(&add_hours(24));
    assert_eq!(s, state(16, 16, 0, 3, 1));
    assert_eq!(mining_ratio(s.bucket), 0.004);

    // now we missed a day
    let s = logic.evaluate(&add_hours(48));
    assert_eq!(s, state(0, 6, 1, 2, 2));
    assert_eq!(mining_ratio(s.bucket), 0.1750 / 50.);

    // now we missed 2 days
    let s = logic.evaluate(&add_hours(64));
    assert_eq!(s, state(0, 4, 2, 1, 3));
    assert_eq!(mining_ratio(s.bucket), 0.003);

    // now we missed a lot
    let s = logic.evaluate(&add_hours(640));
    assert_eq!(s, state(0, 0, 26, 0, 27));
    assert_eq!(mining_ratio(s.bucket), 0.0025);

    // other edge case, we are streaking out!
    let logic = StreakLogic::new(200, 200, Some(last_scan));
    let s = logic.evaluate(&add_hours(8));
    assert_eq!(s, state(200, 200, 0, 10, 0));
    assert_eq!(mining_ratio(s.bucket), 0.0075);
}

#[test]
fn evaluate_counts_calendar_days() {
    // last scan late in the evening, next scan early the next morning
    let logic = StreakLogic::new(3, 3, Some(at(1_577_919_540))); // 2020-01-01 22:59
    let s = logic.evaluate(&at(1_577_923_260)); // 2020-01-02 00:01
    assert_eq!(s, state(4, 4, 0, 1, 1));
    // the very last second of the next day still counts as one day
    let s = logic.evaluate(&UtcInstant { secs: 1_578_009_599, nanos: 999_999_999 });
    assert_eq!(s.days_since_last_scan, 1);
    // midnight two days later is a missed day
    let s = logic.evaluate(&at(1_578_009_600));
    assert_eq!(s, state(0, 0, 1, 0, 2));
}

#[test]
fn evaluate_before_the_last_scan_day() {
    // a clock behind the last scan: the days go negative and no streak is missed
    let logic = StreakLogic::new(7, 7, Some(at(LAST_SCAN)));
    let s = logic.evaluate(&at(LAST_SCAN - 2 * 86_400));
    assert_eq!(s.days_since_last_scan, -1);
    assert_eq!(s.streak_missed, -2);
    assert_eq!(s.bucket, 4);
    assert_eq!(s.streak_bucket, 21);
    assert_eq!(s.streak_current, 0);
}

#[test]
fn evaluate_negative_streak_counts_as_bucket_zero() {
    let logic = StreakLogic::new(-5, -5, Some(at(LAST_SCAN)));
    let s = logic.evaluate(&add_hours(1));
    assert_eq!(s, state(-5, -5, 0, 0, 0));
}

#[test]
fn waiting_longer_never_raises_the_bucket() {
    // a streak of 64 (bucket 8), last scanned 2020-01-01 09:00
    let logic = StreakLogic::new(64, 64, Some(at(LAST_SCAN)));
    let mut previous = logic.evaluate(&add_hours(15));
    assert_eq!(previous, state(65, 65, 0, 8, 1));
    for hours in (16..=400).step_by(7) {
        let now = logic.evaluate(&add_hours(hours));
        assert!(now.days_since_last_scan >= previous.days_since_last_scan);
        assert!(now.streak_missed >= previous.streak_missed);
        assert!(now.bucket <= previous.bucket);
        assert!(mining_ratio(now.bucket) <= mining_ratio(previous.bucket));
        previous = now;
    }
    // sixteen days on, every bucket is lost
    assert_eq!(previous.bucket, 0);
}
