use vstd::prelude::*;

use crate::ws::MemberState;

verus! {

/// A member of the streak program as the store holds it. The balance is a
/// floating-point amount that the library carries by its IEEE-754 bits and
/// never reads.
#[derive(Clone, Debug)]
pub struct Member {
    pub visitorid: String,
    pub streak_current: i32,
    pub streak_bucket: i32,
    pub balance_bits: u64,
    pub email: Option<String>,
}

/// The store changed some other number of rows than the one member.
#[derive(Clone, Copy, Debug, PartialEq, Eq, Structural)]
pub struct StreakUpdateError {
    pub rows_affected: u64,
}

impl Member {
    /// A new member with no streak, a zero balance and no e-mail address.
    pub fn new(visitorid: &str) -> (member: Member)
        ensures
            member.visitorid@ == visitorid@,
            member.streak_current == 0,
            member.streak_bucket == 0,
            member.balance_bits == 0,
            member.email is None,
    {
        Member {
            visitorid: String::from_str(visitorid),
            streak_current: 0,
            streak_bucket: 0,
            balance_bits: 0,
            email: None,
        }
    }

    /// Takes over a streak that the store has just written: when exactly the
    /// member's row changed, the member now holds the new streak; otherwise
    /// the update failed and the member stays as it was.
    pub fn record_streak_update(
        &mut self,
        rows_affected: u64,
        streak_current: i32,
        streak_bucket: i32,
    ) -> (result: Result<bool, StreakUpdateError>)
        ensures
            rows_affected == 1 ==> {
                &&& result == Ok::<bool, StreakUpdateError>(true)
                &&& final(self).streak_current == streak_current
                &&& final(self).streak_bucket == streak_bucket
                &&& final(self).visitorid == old(self).visitorid
                &&& final(self).balance_bits == old(self).balance_bits
                &&& final(self).email == old(self).email
            },
            rows_affected != 1 ==> {
                &&& result == Err::<bool, StreakUpdateError>(StreakUpdateError { rows_affected })
                &&& *final(self) == *old(self)
            },
    {
        if rows_affected == 1 {
            self.streak_current = streak_current;
            self.streak_bucket = streak_bucket;
            Ok(true)
        } else {
            Err(StreakUpdateError { rows_affected })
        }
    }

    /// The member as the web client sees it.
    pub fn member_state(self) -> (state: MemberState)
        ensures
            state.visitorid == self.visitorid,
            state.streak_current == self.streak_current,
            state.streak_bucket == self.streak_bucket,
            state.balance_bits == self.balance_bits,
            state.email == self.email,
    {
        MemberState {
            visitorid: self.visitorid,
            streak_current: self.streak_current,
            streak_bucket: self.streak_bucket,
            balance_bits: self.balance_bits,
            email: self.email,
        }
    }
}

} // verus!
