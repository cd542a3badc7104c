use streaker::attribution::{
    deserialize, parse, scan_outcome, source_of, Source, SourceAction, SourceParseError,
};
use streaker::instant::UtcInstant;
use streaker::streak_logic::{StreakLogic, StreakState};

const SUUID: u128 = 0xbe42b325_c990_43fa_a1e4_384aef09df1d;

#[test]
fn parse_login_source() {
    let source = parse("login:be42b325-c990-43fa-a1e4-384aef09df1d").unwrap();
    assert_eq!(source, Source { action: SourceAction::Login, suuid: SUUID });
}

#[test]
fn parse_scan_source_ignores_further_parts() {
    let source = parse("scan:be42b325-c990-43fa-a1e4-384aef09df1d:extra").unwrap();
    assert_eq!(source, Source { action: SourceAction::Scan, suuid: SUUID });
}

#[test]
fn parse_source_without_colon_is_malformed() {
    assert_eq!(parse("login"), Err(SourceParseError::Malformed));
    assert_eq!(parse(""), Err(SourceParseError::Malformed));
}

#[test]
fn parse_source_with_bad_uuid() {
    assert_eq!(parse("login:not-a-uuid"), Err(SourceParseError::InvalidSuuid));
    assert_eq!(parse("anything:"), Err(SourceParseError::InvalidSuuid));
}

#[test]
fn source_of_reads_action_word() {
    assert_eq!(source_of("login", Some(7)), Ok(Source { action: SourceAction::Login, suuid: 7 }));
    assert_eq!(source_of("scan", Some(7)), Ok(Source { action: SourceAction::Scan, suuid: 7 }));
    assert_eq!(source_of("whatever", None), Err(SourceParseError::InvalidSuuid));
}

#[test]
fn deserialize_claim_date() {
    let t = deserialize("Fri Jul 10 10:58:34 GMT 2020").unwrap();
    assert_eq!(t, UtcInstant { secs: 1_594_378_714, nanos: 0 });
    assert!(deserialize("Fri Jul 10 10:58:34 UTC 2020").is_err());
    assert!(deserialize("yesterday").is_err());
}

fn state(current: i32, bucket_streak: i32, missed: i32, bucket: i32, days: i32) -> StreakState {
    StreakState {
        streak_current: current,
        streak_bucket: bucket_streak,
        streak_missed: missed,
        bucket,
        days_since_last_scan: days,
    }
}

#[test]
fn scan_on_the_same_day_changes_nothing() {
    let outcome = scan_outcome(state(0, 0, 0, 0, 0));
    assert_eq!(outcome.member_update, None);
    assert_eq!(outcome.streak_state, state(0, 0, 0, 0, 0));
}

#[test]
fn scan_on_the_next_day_records_the_streak() {
    // the member had (0, 0): the evaluation already counted the new day
    let outcome = scan_outcome(state(1, 1, 0, 0, 1));
    assert_eq!(outcome.member_update, Some((1, 1)));
    assert_eq!(outcome.streak_state, state(1, 1, 0, 0, 1));
    let outcome = scan_outcome(state(4, 4, 0, 1, 1));
    assert_eq!(outcome.member_update, Some((4, 4)));
}

#[test]
fn scan_after_a_missed_day_applies_the_penalty() {
    // streak 7 (bucket 2), one day missed: back to bucket 1, starting at 4
    let outcome = scan_outcome(state(0, 4, 1, 1, 2));
    assert_eq!(outcome.member_update, Some((0, 4)));
    assert_eq!(outcome.streak_state, state(0, 4, 0, 1, 0));
}

/// A member's streak over the days of January 2020, scanning at noon: the
/// recorded streak and the reported state after each scan, and the state a
/// login reports after a missed day.
#[test]
fn registration_of_streaks_over_days() {
    const JAN_1_2020_NOON: i64 = 1_577_880_000;
    let noon = |day: i64| UtcInstant { secs: JAN_1_2020_NOON + day * 86_400, nanos: 0 };

    // (current, bucket) as recorded, and the moment of the last scan
    let mut member: (i32, i32) = (0, 0);
    let mut last_scan: Option<UtcInstant> = None;
    let mut scan = |day: i64, member: &mut (i32, i32)| {
        let state = StreakLogic::new(member.0, member.1, last_scan).evaluate(&noon(day));
        let outcome = scan_outcome(state);
        if let Some(update) = outcome.member_update {
            *member = update;
        }
        last_scan = Some(noon(day));
        outcome.streak_state
    };

    // the first scan, and a second one on the same day
    assert_eq!(scan(0, &mut member), state(0, 0, 0, 0, 0));
    assert_eq!(member, (0, 0));
    assert_eq!(scan(0, &mut member), state(0, 0, 0, 0, 0));
    assert_eq!(member, (0, 0));

    // one scan a day: the streak grows, and moves to bucket 1 at 4 days and
    // to bucket 2 at 6
    assert_eq!(scan(1, &mut member), state(1, 1, 0, 0, 1));
    assert_eq!(member, (1, 1));
    assert_eq!(scan(2, &mut member), state(2, 2, 0, 0, 1));
    assert_eq!(scan(3, &mut member), state(3, 3, 0, 0, 1));
    assert_eq!(member, (3, 3));
    assert_eq!(scan(4, &mut member), state(4, 4, 0, 1, 1));
    assert_eq!(member, (4, 4));
    scan(5, &mut member);
    assert_eq!(scan(6, &mut member), state(6, 6, 0, 2, 1));
    assert_eq!(member, (6, 6));
    assert_eq!(scan(7, &mut member), state(7, 7, 0, 2, 1));
    assert_eq!(member, (7, 7));

    // day 8 is missed: on day 9 the evaluation reports the penalty before any scan
    let at_login = StreakLogic::new(member.0, member.1, Some(noon(7))).evaluate(&noon(9));
    assert_eq!(at_login, state(0, 4, 1, 1, 2));
    assert_eq!(member, (7, 7));

    // and the scan records it, starting afresh
    assert_eq!(scan(9, &mut member), state(0, 4, 0, 1, 0));
    assert_eq!(member, (0, 4));
}
