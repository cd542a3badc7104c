use vstd::prelude::*;

use crate::instant::UtcInstant;
use crate::ws::{AccessNode, ScanSessionState};

verus! {

/// How many entries of `s` equal `v`.
pub open spec fn count_of(s: Seq<bool>, v: bool) -> nat
    decreases s.len(),
{
    if s.len() == 0 {
        0
    } else {
        count_of(s.drop_last(), v) + if s.last() == v {
            1nat
        } else {
            0nat
        }
    }
}

/// What to do for the scan session of a member at some moment.
#[derive(Clone, Copy, Debug, PartialEq, Eq, Structural)]
pub enum SessionChoice {
    /// The latest session is today's: keep it.
    KeepLatest,
    /// Open a session beginning at this midnight.
    Create(UtcInstant),
}

/// Picks the scan session for `time`: sessions are aligned to 0:00 UTC, so
/// the latest session is kept when it began at midnight of `time`'s day, and
/// otherwise (or when there is none) a new one begins then.
pub fn current_session(latest_begin: Option<UtcInstant>, time: &UtcInstant) -> (choice: SessionChoice)
    requires
        time.valid(),
    ensures
        choice == (match latest_begin {
            Some(begin) if begin == time.spec_day_start() => SessionChoice::KeepLatest,
            _ => SessionChoice::Create(time.spec_day_start()),
        }),
{
    let begin = time.day_start();
    match latest_begin {
        Some(latest) => {
            if latest == begin {
                SessionChoice::KeepLatest
            } else {
                SessionChoice::Create(begin)
            }
        },
        None => SessionChoice::Create(begin),
    }
}

/// How many entries of `skipped` equal `v`.
fn count_matching(skipped: &Vec<bool>, v: bool) -> (n: usize)
    ensures
        n == count_of(skipped@, v),
{
    let mut n: usize = 0;
    let mut i: usize = 0;
    while i < skipped.len()
        invariant
            i <= skipped.len(),
            n == count_of(skipped@.take(i as int), v),
            n <= i,
        decreases skipped.len() - i,
    {
        assert(skipped@.take(i + 1).drop_last() =~= skipped@.take(i as int));
        if skipped[i] == v {
            n = n + 1;
        }
        i = i + 1;
    }
    assert(skipped@.take(skipped.len() as int) =~= skipped@);
    n
}

/// Builds the state of a scan session from what the store holds: the number
/// of access nodes, whether each scan of the session was skipped, and the
/// next access node to scan. The counts are kept as 16-bit numbers, which
/// wrap past 65535.
pub fn scan_session_state(
    uuid: u128,
    begin: UtcInstant,
    anode_count: Option<i64>,
    skipped: &Vec<bool>,
    next_anode: Option<AccessNode>,
) -> (state: ScanSessionState)
    requires
        anode_count is Some,
    ensures
        state.uuid == uuid,
        state.begin == begin,
        state.count == count_of(skipped@, false) as u16,
        state.skipped == count_of(skipped@, true) as u16,
        state.total == anode_count->0 as u16,
        state.next_anode == next_anode,
{
    let performed = count_matching(skipped, false);
    let skips = count_matching(skipped, true);
    let total = match anode_count {
        Some(n) => n,
        None => 0,
    };
    ScanSessionState {
        uuid,
        count: performed as u16,
        skipped: skips as u16,
        total: total as u16,
        next_anode,
        begin,
    }
}

/// Every scan of a session is either performed or skipped.
pub proof fn law_scans_performed_or_skipped(skipped: Seq<bool>)
    ensures
        count_of(skipped, false) + count_of(skipped, true) == skipped.len(),
    decreases skipped.len(),
{
    if skipped.len() > 0 {
        law_scans_performed_or_skipped(skipped.drop_last());
    }
}

} // verus!
