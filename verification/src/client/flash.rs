use vstd::prelude::*;

use crate::instant::UtcInstant;
use crate::text::text_equals;

verus! {

/// A message that is shown for a while, and since when it is shown.
#[derive(Clone, Debug)]
pub struct FlashState {
    pub message: Option<String>,
    pub message_time: Option<UtcInstant>,
}

pub open spec fn same_message(a: Option<String>, b: Option<String>) -> bool {
    match (a, b) {
        (Some(x), Some(y)) => x@ == y@,
        (None, None) => true,
        _ => false,
    }
}

impl FlashState {
    pub fn new() -> (flash: FlashState)
        ensures
            flash.message is None,
            flash.message_time is None,
    {
        FlashState { message: None, message_time: None }
    }

    /// Takes a message handed down at `now`: a different message is shown
    /// from now on (and asks for rendering); the same message changes nothing.
    pub fn change(&mut self, message: Option<String>, now: UtcInstant) -> (render: bool)
        ensures
            render == !same_message(message, old(self).message),
            render ==> final(self).message == message && final(self).message_time == Some(now),
            !render ==> *final(self) == *old(self),
    {
        let same = match (&message, &self.message) {
            (Some(x), Some(y)) => text_equals(x.as_str(), y.as_str()),
            (None, None) => true,
            _ => false,
        };
        if !same {
            self.message = message;
            self.message_time = Some(now);
            return true;
        }
        false
    }

    /// Checks the message at `now`: once it has been shown for longer than
    /// `duration_nanos`, it is cleared and the owner is told to clear its
    /// copy (the result).
    pub fn tick(&mut self, now: &UtcInstant, duration_nanos: i128) -> (expired: bool)
        requires
            now.valid(),
            old(self).message_time matches Some(t) ==> t.valid(),
        ensures
            expired == (match old(self).message_time {
                Some(t) => now.spec_nanos_since(t) > duration_nanos,
                None => false,
            }),
            expired ==> final(self).message is None && final(self).message_time is None,
            !expired ==> *final(self) == *old(self),
    {
        match self.message_time {
            Some(t) => {
                if now.nanos_since(&t) > duration_nanos {
                    self.message = None;
                    self.message_time = None;
                    true
                } else {
                    false
                }
            },
            None => false,
        }
    }
}

} // verus!
