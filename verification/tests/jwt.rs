use streaker::jwt::{authenticated_token_claims, fetch, token_claims, token_member};

#[test]
fn token_claims_expire_after_a_day() {
    let claims = token_claims(1_577_880_000, 9);
    assert_eq!(claims.exp, 1_577_966_400);
    assert_eq!(claims.suuid, 9);
    assert!(!claims.authenticated);
    assert_eq!(claims.visitorid, None);
    assert_eq!(claims.company, "OPES Unite");
    assert_eq!(claims.concept, "Streaker");
    assert_eq!(token_member(&claims), None);
}

#[test]
fn authenticated_claims_keep_the_session() {
    let claims = authenticated_token_claims(0, 9, "IhG87".to_string());
    assert_eq!(claims.exp, 86_400);
    assert_eq!(claims.suuid, 9);
    assert!(claims.authenticated);
    assert_eq!(token_member(&claims), Some("IhG87".to_string()));
}

#[test]
fn expiry_of_a_timestamp_before_the_epoch() {
    let claims = token_claims(-86_401, 1);
    assert_eq!(claims.exp, u64::MAX);
    let claims = token_claims(i64::MIN, 1);
    assert_eq!(claims.exp, (1u64 << 63) + 86_400);
}

#[test]
fn fetch_does_nothing() {
    fetch();
}
