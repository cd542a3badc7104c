use streaker::jwt::{authenticated_token_claims, token_claims};
use streaker::sessions::{ConnectOutcome, Sessions};

#[test]
fn second_connection_displaces_the_first() {
    let mut sessions = Sessions::new();
    assert_eq!(sessions.connect(7, None, 1), None);
    assert_eq!(sessions.connect(7, Some("v".to_string()), 2), Some(1));
    assert_eq!(sessions.login_channel(7), Some(2));
    assert_eq!(sessions.scan_target(7), Some(("v".to_string(), 2)));
}

#[test]
fn scans_need_a_visitor() {
    let mut sessions = Sessions::new();
    sessions.connect(7, None, 1);
    assert_eq!(sessions.login_channel(7), Some(1));
    assert_eq!(sessions.scan_target(7), None);
    assert_eq!(sessions.login_channel(8), None);
}

#[test]
fn disconnect_forgets_the_session() {
    let mut sessions = Sessions::new();
    sessions.connect(7, None, 1);
    sessions.connect(8, None, 2);
    sessions.disconnect(7);
    assert!(sessions.lookup(7).is_none());
    assert_eq!(sessions.lookup(8).unwrap().channel, 2);
}

#[test]
fn open_refuses_without_claims() {
    let mut sessions = Sessions::new();
    assert!(matches!(sessions.open(None, 1), ConnectOutcome::Refused));
    assert!(sessions.lookup(0).is_none());
}

#[test]
fn open_with_unauthenticated_token() {
    let mut sessions = Sessions::new();
    let claims = token_claims(1_577_880_000, 5);
    match sessions.open(Some(&claims), 3) {
        ConnectOutcome::Accepted { displaced, member } => {
            assert_eq!(displaced, None);
            assert_eq!(member, None);
        }
        ConnectOutcome::Refused => panic!("refused"),
    }
    assert_eq!(sessions.login_channel(5), Some(3));
}

#[test]
fn open_with_authenticated_token_sends_member_state() {
    let mut sessions = Sessions::new();
    sessions.connect(5, None, 3);
    let claims = authenticated_token_claims(1_577_880_000, 5, "IhG87".to_string());
    match sessions.open(Some(&claims), 4) {
        ConnectOutcome::Accepted { displaced, member } => {
            assert_eq!(displaced, Some(3));
            assert_eq!(member, Some("IhG87".to_string()));
        }
        ConnectOutcome::Refused => panic!("refused"),
    }
    assert_eq!(sessions.scan_target(5), Some(("IhG87".to_string(), 4)));
}
