use streaker::instant::UtcInstant;
use streaker::scan_session::{current_session, scan_session_state, SessionChoice};
use streaker::ws::AccessNode;

const NOON: i64 = 1_577_880_000; // 2020-01-01 12:00:00 UTC
const MIDNIGHT: i64 = 1_577_836_800; // 2020-01-01 00:00:00 UTC

fn at(secs: i64) -> UtcInstant {
    UtcInstant { secs, nanos: 0 }
}

#[test]
fn session_of_today_is_kept() {
    assert_eq!(current_session(Some(at(MIDNIGHT)), &at(NOON)), SessionChoice::KeepLatest);
}

#[test]
fn session_of_yesterday_is_replaced() {
    assert_eq!(
        current_session(Some(at(MIDNIGHT - 86_400)), &at(NOON)),
        SessionChoice::Create(at(MIDNIGHT))
    );
    assert_eq!(current_session(None, &at(NOON)), SessionChoice::Create(at(MIDNIGHT)));
}

#[test]
fn scan_session_state_counts_scans() {
    let anode = AccessNode {
        label: "opesgames".to_string(),
        url: "https://access-node.opesgames.com".to_string(),
        weight_bits: 1.0f64.to_bits(),
        description: None,
    };
    let state =
        scan_session_state(42, at(MIDNIGHT), Some(31), &vec![false, true, false], Some(anode));
    assert_eq!(state.uuid, 42);
    assert_eq!(state.count, 2);
    assert_eq!(state.skipped, 1);
    assert_eq!(state.total, 31);
    assert_eq!(state.begin, at(MIDNIGHT));
    assert_eq!(state.next_anode.as_ref().unwrap().label, "opesgames");
    assert_eq!(state.scans_left(), 29);
}

#[test]
fn scan_session_counts_wrap_at_16_bits() {
    let state = scan_session_state(1, at(MIDNIGHT), Some(65_537), &vec![false; 65_538], None);
    assert_eq!(state.count, 2);
    assert_eq!(state.skipped, 0);
    assert_eq!(state.total, 1);
}

#[test]
fn scan_session_ends_a_day_after_it_began() {
    let state = scan_session_state(1, at(MIDNIGHT), Some(1), &vec![], None);
    assert_eq!(state.end(), at(MIDNIGHT + 86_400));
}
