use vstd::prelude::*;

use crate::instant::{UtcInstant, MAX_TIMESTAMP, SECS_PER_DAY};
pub use crate::streak_logic::StreakState;

verus! {

/// A request that the web client sends over its websocket.
#[derive(Clone, Debug)]
pub enum WsRequest {
    /// The member skips the access node with this label.
    SkipCurrentScan(String),
}

/// A member as the web client sees it. The balance is a floating-point
/// amount that the library carries by its IEEE-754 bits and never reads.
#[derive(Clone, Debug)]
pub struct MemberState {
    pub visitorid: String,
    pub streak_current: i32,
    pub streak_bucket: i32,
    pub balance_bits: u64,
    pub email: Option<String>,
}

/// An access node to scan. The weight is a floating-point value that the
/// library carries by its IEEE-754 bits and never reads.
#[derive(Clone, Debug)]
pub struct AccessNode {
    pub label: String,
    pub url: String,
    pub weight_bits: u64,
    pub description: Option<String>,
}

/// The scans of the current daily scan session.
#[derive(Clone, Debug)]
pub struct ScanSessionState {
    pub uuid: u128,
    pub count: u16,
    pub skipped: u16,
    pub total: u16,
    pub next_anode: Option<AccessNode>,
    pub begin: UtcInstant,
}

/// What the backend sends over a websocket.
#[derive(Clone, Debug)]
pub enum WsResponse {
    Connected,
    Attribution(String),
    /// The token used to connect was refused; a fresh one comes along so
    /// that the client can reconnect.
    BadToken(String),
    MemberState(MemberState),
    ScanSessionState(ScanSessionState),
    StreakState(StreakState),
    DoubleConnection,
    Error(String),
}

impl ScanSessionState {
    /// The session that a client shows before it has heard from the backend:
    /// nothing scanned yet, beginning at midnight of `now`.
    pub fn default_at(now: &UtcInstant) -> (state: ScanSessionState)
        requires
            now.valid(),
        ensures
            state.uuid == 0,
            state.count == 0,
            state.skipped == 0,
            state.total == 0,
            state.next_anode is None,
            state.begin == now.spec_day_start(),
    {
        ScanSessionState {
            uuid: 0,
            count: 0,
            skipped: 0,
            total: 0,
            next_anode: None,
            begin: now.day_start(),
        }
    }

    /// The end of the session: one day after it began.
    pub fn end(&self) -> (end: UtcInstant)
        requires
            self.begin.valid(),
            self.begin.secs + SECS_PER_DAY <= MAX_TIMESTAMP,
        ensures
            end == self.begin.spec_one_day_later(),
    {
        self.begin.one_day_later()
    }

    /// The scans that are left in the session.
    pub fn scans_left(&self) -> (left: u16)
        requires
            self.count <= self.total,
        ensures
            left == self.total - self.count,
    {
        self.total - self.count
    }
}

} // verus!
