use streaker::member::{Member, StreakUpdateError};

#[test]
fn new_member_starts_empty() {
    let member = Member::new("VISITORID");
    assert_eq!(member.visitorid, "VISITORID");
    assert_eq!(member.streak_current, 0);
    assert_eq!(member.streak_bucket, 0);
    assert_eq!(f64::from_bits(member.balance_bits), 0.0);
    assert_eq!(member.email, None);
}

#[test]
fn streak_update_of_one_row_is_taken_over() {
    let mut member = Member::new("v");
    assert_eq!(member.record_streak_update(1, 3, 4), Ok(true));
    assert_eq!((member.streak_current, member.streak_bucket), (3, 4));
    let state = member.member_state();
    assert_eq!((state.streak_current, state.streak_bucket), (3, 4));
    assert_eq!(state.visitorid, "v");
}

#[test]
fn streak_update_of_other_row_counts_fails() {
    let mut member = Member::new("v");
    assert_eq!(member.record_streak_update(0, 3, 4), Err(StreakUpdateError { rows_affected: 0 }));
    assert_eq!(member.record_streak_update(2, 3, 4), Err(StreakUpdateError { rows_affected: 2 }));
    assert_eq!((member.streak_current, member.streak_bucket), (0, 0));
}
