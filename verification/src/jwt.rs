use vstd::prelude::*;

verus! {

/// How long a token stays valid: 24 hours.
pub const TOKEN_LIFETIME_SECS: u64 = 86_400;

/// The company that issues the tokens.
pub const COMPANY: &'static str = "OPES Unite";

/// The concept the tokens are issued for.
pub const CONCEPT: &'static str = "Streaker";

/// The claims that a session token carries.
#[derive(Clone, Debug)]
pub struct Claims {
    pub exp: u64,
    pub suuid: u128,
    pub authenticated: bool,
    pub visitorid: Option<String>,
    pub company: String,
    pub concept: String,
}

/// The expiry of a token issued at timestamp `now`: the timestamp read as an
/// unsigned number, plus the lifetime.
pub open spec fn expiry_of(now: i64) -> int {
    (if now >= 0 {
        now as int
    } else {
        now + 0x1_0000_0000_0000_0000
    }) + TOKEN_LIFETIME_SECS
}

/// The issue times whose expiry fits the unsigned 64-bit range.
pub open spec fn expiry_defined(now: i64) -> bool {
    expiry_of(now) <= u64::MAX
}

/// The expiry of a token issued at `now`.
fn expiry(now: i64) -> (exp: u64)
    requires
        expiry_defined(now),
    ensures
        exp == expiry_of(now),
{
    let base: u64 = if now >= 0 {
        now as u64
    } else {
        ((now + i64::MAX + 1) as u64) + 0x8000_0000_0000_0000
    };
    base + TOKEN_LIFETIME_SECS
}

/// The claims of a fresh, unauthenticated token for the session `suuid`,
/// issued at timestamp `now`.
pub fn token_claims(now: i64, suuid: u128) -> (claims: Claims)
    requires
        expiry_defined(now),
    ensures
        claims.exp == expiry_of(now),
        claims.suuid == suuid,
        !claims.authenticated,
        claims.visitorid is None,
        claims.company@ == COMPANY@,
        claims.concept@ == CONCEPT@,
{
    Claims {
        exp: expiry(now),
        suuid,
        authenticated: false,
        visitorid: None,
        company: String::from_str(COMPANY),
        concept: String::from_str(CONCEPT),
    }
}

/// The claims of a token that authenticates `visitorid` on the session
/// `suuid` (the session of the websocket it was logged in from), issued at
/// timestamp `now`.
pub fn authenticated_token_claims(now: i64, suuid: u128, visitorid: String) -> (claims: Claims)
    requires
        expiry_defined(now),
    ensures
        claims.exp == expiry_of(now),
        claims.suuid == suuid,
        claims.authenticated,
        claims.visitorid == Some(visitorid),
        claims.company@ == COMPANY@,
        claims.concept@ == CONCEPT@,
{
    Claims {
        exp: expiry(now),
        suuid,
        authenticated: true,
        visitorid: Some(visitorid),
        company: String::from_str(COMPANY),
        concept: String::from_str(CONCEPT),
    }
}

/// The member that a token speaks for: its visitor, when it is authenticated
/// and names one.
pub fn token_member(claims: &Claims) -> (visitorid: Option<String>)
    ensures
        visitorid == (if claims.authenticated {
            claims.visitorid
        } else {
            None
        }),
{
    if claims.authenticated {
        claims.visitorid.clone()
    } else {
        None
    }
}

/// Fetching a token needs nothing from this module.
pub fn fetch() {
}

} // verus!
