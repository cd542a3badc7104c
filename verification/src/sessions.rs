use std::collections::HashMap;
use vstd::prelude::*;

use crate::jwt::{token_member, Claims};

verus! {

broadcast use vstd::std_specs::hash::group_hash_axioms;

/// An open websocket: the visitor its token names, if any, and the channel
/// that reaches it.
#[derive(Clone, Debug)]
pub struct SessionEntry {
    pub visitorid: Option<String>,
    pub channel: u64,
}

/// The open websockets, by the session UUID of the token they connected with.
pub struct Sessions {
    map: HashMap<u128, SessionEntry>,
}

/// What connecting a websocket with a token leads to.
#[derive(Clone, Debug)]
pub enum ConnectOutcome {
    /// The token was refused: the socket gets a fresh token instead.
    Refused,
    /// The socket is registered under the token's session.
    Accepted {
        /// The channel of an earlier socket of the same session, which is
        /// now replaced and told so.
        displaced: Option<u64>,
        /// The member whose state the socket receives right away.
        member: Option<String>,
    },
}

impl Sessions {
    /// The open websockets by session UUID.
    pub closed spec fn view(&self) -> Map<u128, SessionEntry> {
        self.map@
    }

    pub fn new() -> (sessions: Sessions)
        ensures
            sessions@ == Map::<u128, SessionEntry>::empty(),
    {
        Sessions { map: HashMap::new() }
    }

    /// Registers a socket under `suuid`, replacing any socket of the same
    /// session, whose channel is returned.
    pub fn connect(&mut self, suuid: u128, visitorid: Option<String>, channel: u64) -> (displaced:
        Option<u64>)
        ensures
            final(self)@ == old(self)@.insert(suuid, SessionEntry { visitorid, channel }),
            displaced == (if old(self)@.contains_key(suuid) {
                Some(old(self)@[suuid].channel)
            } else {
                None
            }),
    {
        match self.map.insert(suuid, SessionEntry { visitorid, channel }) {
            Some(old_entry) => Some(old_entry.channel),
            None => None,
        }
    }

    /// Forgets the socket of `suuid`.
    pub fn disconnect(&mut self, suuid: u128)
        ensures
            final(self)@ == old(self)@.remove(suuid),
    {
        self.map.remove(&suuid);
    }

    /// The socket registered under `suuid`.
    pub fn lookup(&self, suuid: u128) -> (entry: Option<SessionEntry>)
        ensures
            entry == (if self@.contains_key(suuid) {
                Some(self@[suuid])
            } else {
                None
            }),
    {
        match self.map.get(&suuid) {
            Some(e) => Some(SessionEntry { visitorid: e.visitorid.clone(), channel: e.channel }),
            None => None,
        }
    }

    /// The channel to answer a login attribution for `suuid` on: any socket
    /// of that session.
    pub fn login_channel(&self, suuid: u128) -> (channel: Option<u64>)
        ensures
            channel == (if self@.contains_key(suuid) {
                Some(self@[suuid].channel)
            } else {
                None
            }),
    {
        match self.lookup(suuid) {
            Some(e) => Some(e.channel),
            None => None,
        }
    }

    /// The visitor and channel to register a scan attribution for `suuid`
    /// with: only a socket that connected with a token naming a visitor.
    pub fn scan_target(&self, suuid: u128) -> (target: Option<(String, u64)>)
        ensures
            target == (if self@.contains_key(suuid) && self@[suuid].visitorid is Some {
                Some((self@[suuid].visitorid->0, self@[suuid].channel))
            } else {
                None
            }),
    {
        match self.lookup(suuid) {
            Some(e) => match e.visitorid {
                Some(v) => Some((v, e.channel)),
                None => None,
            },
            None => None,
        }
    }

    /// Connects a websocket on `channel` with the claims of its token (none
    /// when the token was refused). An accepted socket is registered under
    /// the token's session with the token's visitor, and receives the state
    /// of the member when the token authenticates one.
    pub fn open(&mut self, claims: Option<&Claims>, channel: u64) -> (outcome: ConnectOutcome)
        ensures
            match claims {
                None => outcome is Refused && final(self)@ == old(self)@,
                Some(c) => {
                    &&& final(self)@ == old(self)@.insert(
                        c.suuid,
                        SessionEntry { visitorid: c.visitorid, channel },
                    )
                    &&& outcome == ConnectOutcome::Accepted {
                        displaced: if old(self)@.contains_key(c.suuid) {
                            Some(old(self)@[c.suuid].channel)
                        } else {
                            None
                        },
                        member: if c.authenticated {
                            c.visitorid
                        } else {
                            None
                        },
                    }
                },
            },
    {
        match claims {
            None => ConnectOutcome::Refused,
            Some(c) => {
                let displaced = self.connect(c.suuid, c.visitorid.clone(), channel);
                ConnectOutcome::Accepted { displaced, member: token_member(c) }
            },
        }
    }
}

/// A second socket of the same session displaces the first, which is told
/// so, and the session then reaches the second.
pub proof fn law_reconnect_displaces(
    m: Map<u128, SessionEntry>,
    suuid: u128,
    first: SessionEntry,
    second: SessionEntry,
)
    ensures
        m.insert(suuid, first).contains_key(suuid),
        m.insert(suuid, first)[suuid].channel == first.channel,
        m.insert(suuid, first).insert(suuid, second)[suuid] == second,
{
}

/// A socket that disconnects is gone from the sessions, whatever was
/// registered before.
pub proof fn law_disconnect_forgets(m: Map<u128, SessionEntry>, suuid: u128, entry: SessionEntry)
    ensures
        !m.insert(suuid, entry).remove(suuid).contains_key(suuid),
        forall|other: u128|
            other != suuid ==> m.insert(suuid, entry).remove(suuid).contains_key(other)
                == m.contains_key(other),
{
}

} // verus!
