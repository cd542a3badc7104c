use vstd::prelude::*;

use crate::instant::UtcInstant;
use crate::instant::NANOS_PER_SEC;
use crate::streak_logic::{law_streak_by_calendar_day, StreakLogic, StreakState};
use crate::text::{char_count, find_char, first_index_from, lemma_first_index_from, text_equals};

verus! {

/// The UUID that `s` spells, as `uuid::Uuid::parse_str` reads it (simple,
/// hyphenated or `urn:uuid:` form), taken as its 128-bit value.
pub uninterp spec fn spec_parse_uuid(s: Seq<char>) -> Option<u128>;

/// The UTC date-time that `s` spells in the strftime-style format `fmt`, as
/// `chrono::TimeZone::datetime_from_str` reads it for `Utc`, taken as its
/// timestamp and sub-second nanoseconds.
pub uninterp spec fn spec_parse_utc_datetime(s: Seq<char>, fmt: Seq<char>) -> Option<(i64, u32)>;

/// Calls `uuid::Uuid::parse_str` and keeps the value of the UUID
/// (`Uuid::as_u128`). The contract names the result; what the parser accepts
/// is not restated here.
#[verifier::external_body]
fn parse_uuid(s: &str) -> (id: Option<u128>)
    ensures
        id == spec_parse_uuid(s@),
{
    match uuid::Uuid::parse_str(s) {
        Ok(u) => Some(u.as_u128()),
        Err(_) => None,
    }
}

/// Calls `chrono::TimeZone::datetime_from_str` on `chrono::Utc` and keeps the
/// timestamp and sub-second nanoseconds of the result. The contract names the
/// result and states the one fact the source shows of every date-time it can
/// return: it lies in the representable range.
#[verifier::external_body]
fn parse_utc_datetime(s: &str, fmt: &str) -> (t: Option<(i64, u32)>)
    ensures
        t == spec_parse_utc_datetime(s@, fmt@),
        t matches Some((secs, nanos)) ==> (UtcInstant { secs, nanos }).valid(),
{
    #[allow(deprecated)]
    match chrono::TimeZone::datetime_from_str(&chrono::Utc, s, fmt) {
        Ok(dt) => Some((dt.timestamp(), dt.timestamp_subsec_nanos())),
        Err(_) => None,
    }
}

/// Whether an attribution logs a visitor in or registers a scan.
#[derive(Clone, Copy, Debug, PartialEq, Eq, Structural)]
pub enum SourceAction {
    Login,
    Scan,
}

/// The source of an attribution: the action and the session (by its UUID)
/// that it belongs to.
#[derive(Clone, Copy, Debug, PartialEq, Eq, Structural)]
pub struct Source {
    pub action: SourceAction,
    pub suuid: u128,
}

/// Why a source could not be read.
#[derive(Clone, Copy, Debug, PartialEq, Eq, Structural)]
pub enum SourceParseError {
    /// The source has no `:` between an action and a session UUID.
    Malformed,
    /// The session part is no UUID.
    InvalidSuuid,
}

/// The date of a claim could not be read.
#[derive(Clone, Copy, Debug, PartialEq, Eq, Structural)]
pub struct DateParseError;

/// The claim that an access node makes about a visitor.
#[derive(Clone, Debug)]
pub struct Claim {
    pub action: String,
    pub source: Source,
    pub exp: UtcInstant,
    pub visitorid: String,
}

/// An attribution as an access node posts it.
#[derive(Clone, Debug)]
pub struct Attribution {
    pub access_node_name: String,
    pub claim: Claim,
}

/// The format of the dates in claims, such as `Fri Jul 10 10:58:34 GMT 2020`.
pub const CLAIM_DATE_FORMAT: &'static str = "%a %b %e %H:%M:%S GMT %Y";

/// The action word of a source: the text before its first `:`.
pub open spec fn source_action_text(s: Seq<char>) -> Seq<char> {
    s.subrange(0, first_index_from(s, ':', 0))
}

/// The session word of a source: the text after its first `:`, up to the next.
pub open spec fn source_suuid_text(s: Seq<char>) -> Seq<char> {
    let i = first_index_from(s, ':', 0);
    s.subrange(i + 1, first_index_from(s, ':', i + 1))
}

/// A source holds at least an action and a session word.
pub open spec fn source_has_parts(s: Seq<char>) -> bool {
    first_index_from(s, ':', 0) < s.len()
}

/// An action word that the backend knows.
pub open spec fn known_action(a: Seq<char>) -> bool {
    a == "login"@ || a == "scan"@
}

/// The source that an action word and an optional session UUID make.
pub open spec fn spec_source_of(action: Seq<char>, suuid: Option<u128>) -> Result<
    Source,
    SourceParseError,
> {
    match suuid {
        None => Err(SourceParseError::InvalidSuuid),
        Some(id) => Ok(
            Source {
                action: if action == "login"@ {
                    SourceAction::Login
                } else {
                    SourceAction::Scan
                },
                suuid: id,
            },
        ),
    }
}

/// The source that a source text spells.
pub open spec fn spec_parse_source(s: Seq<char>) -> Result<Source, SourceParseError> {
    if !source_has_parts(s) {
        Err(SourceParseError::Malformed)
    } else {
        spec_source_of(source_action_text(s), spec_parse_uuid(source_suuid_text(s)))
    }
}

/// Builds a source from its action word and the session UUID read from its
/// second word. An unknown action word with a readable UUID is no valid input.
pub fn source_of(action: &str, suuid: Option<u128>) -> (source: Result<Source, SourceParseError>)
    requires
        suuid is Some ==> known_action(action@),
    ensures
        source == spec_source_of(action@, suuid),
{
    proof {
        reveal_strlit("login");
    }
    match suuid {
        None => Err(SourceParseError::InvalidSuuid),
        Some(id) => Ok(
            Source {
                suuid: id,
                action: if text_equals(action, "login") {
                    SourceAction::Login
                } else {
                    SourceAction::Scan
                },
            },
        ),
    }
}

/// Reads a source such as `login:be42b325-c990-43fa-a1e4-384aef09df1d`: the
/// action before the first `:` and the session UUID after it (up to a
/// second `:`, if any). A source with a readable UUID and an action other than
/// `login` or `scan` is no valid input.
pub fn parse(source: &str) -> (parsed: Result<Source, SourceParseError>)
    requires
        source_has_parts(source@) && spec_parse_uuid(source_suuid_text(source@)) is Some
            ==> known_action(source_action_text(source@)),
    ensures
        parsed == spec_parse_source(source@),
{
    let n = char_count(source);
    let i = find_char(source, ':', 0);
    proof {
        lemma_first_index_from(source@, ':', 0);
    }
    if i >= n {
        return Err(SourceParseError::Malformed);
    }
    let j = find_char(source, ':', i + 1);
    proof {
        lemma_first_index_from(source@, ':', i + 1);
    }
    let action = source.substring_char(0, i);
    let suuid_text = source.substring_char(i + 1, j);
    let suuid = parse_uuid(suuid_text);
    source_of(action, suuid)
}

/// The source texts on which reading the source stops the program: a
/// readable session UUID with an action other than `login` or `scan`.
pub open spec fn source_refused(s: Seq<char>) -> bool {
    source_has_parts(s) && spec_parse_uuid(source_suuid_text(s)) is Some && !known_action(
        source_action_text(s),
    )
}

/// Reads a source, and gives none for a source with an unknown action and a
/// readable session UUID, which `parse` does not take.
pub fn try_parse(source: &str) -> (parsed: Option<Result<Source, SourceParseError>>)
    ensures
        parsed == (if source_refused(source@) {
            None
        } else {
            Some(spec_parse_source(source@))
        }),
{
    proof {
        reveal_strlit("login");
        reveal_strlit("scan");
    }
    let n = char_count(source);
    let i = find_char(source, ':', 0);
    proof {
        lemma_first_index_from(source@, ':', 0);
    }
    if i < n {
        let j = find_char(source, ':', i + 1);
        proof {
            lemma_first_index_from(source@, ':', i + 1);
        }
        let action = source.substring_char(0, i);
        let suuid = parse_uuid(source.substring_char(i + 1, j));
        if suuid.is_some() && !(text_equals(action, "login") || text_equals(action, "scan")) {
            return None;
        }
    }
    Some(parse(source))
}

/// The date-time that a parsed timestamp and sub-second nanoseconds make.
pub fn instant_from_parsed(parsed: Option<(i64, u32)>) -> (t: Result<UtcInstant, DateParseError>)
    ensures
        t == (match parsed {
            Some((secs, nanos)) => Ok(UtcInstant { secs, nanos }),
            None => Err(DateParseError),
        }),
{
    match parsed {
        Some((secs, nanos)) => Ok(UtcInstant { secs, nanos }),
        None => Err(DateParseError),
    }
}

/// Reads the date of a claim, such as `Fri Jul 10 10:58:34 GMT 2020`.
pub fn deserialize(s: &str) -> (t: Result<UtcInstant, DateParseError>)
    ensures
        t == (match spec_parse_utc_datetime(s@, CLAIM_DATE_FORMAT@) {
            Some((secs, nanos)) => Ok(UtcInstant { secs, nanos }),
            None => Err(DateParseError),
        }),
        t matches Ok(instant) ==> instant.valid(),
{
    instant_from_parsed(parse_utc_datetime(s, CLAIM_DATE_FORMAT))
}

/// What a scan attribution does to the member's recorded streak and which
/// streak state it reports.
#[derive(Clone, Copy, Debug)]
pub struct ScanOutcome {
    /// The new `(streak_current, streak_bucket)` of the member, if it changes.
    pub member_update: Option<(i32, i32)>,
    /// The streak state sent to the member after the scan.
    pub streak_state: StreakState,
}

/// What a scan does, given the streak state evaluated at the time of the
/// scan.
pub open spec fn spec_scan_outcome(state: StreakState) -> ScanOutcome {
    if state.streak_missed > 0 {
        ScanOutcome {
            member_update: Some((state.streak_current, state.streak_bucket)),
            streak_state: StreakState { streak_missed: 0, days_since_last_scan: 0, ..state },
        }
    } else if state.days_since_last_scan == 1 {
        ScanOutcome {
            member_update: Some((state.streak_current, state.streak_bucket)),
            streak_state: state,
        }
    } else {
        ScanOutcome { member_update: None, streak_state: state }
    }
}

/// Decides what a scan does to the member's streak. A missed streak applies
/// its penalty to the member, and the penalised streak starts afresh with
/// this scan; a scan on the day after the last one records the extended
/// streak; any other scan leaves the member as it is.
pub fn scan_outcome(state: StreakState) -> (outcome: ScanOutcome)
    ensures
        outcome == spec_scan_outcome(state),
{
    if state.streak_missed > 0 {
        ScanOutcome {
            member_update: Some((state.streak_current, state.streak_bucket)),
            streak_state: StreakState { streak_missed: 0, days_since_last_scan: 0, ..state },
        }
    } else if state.days_since_last_scan == 1 {
        ScanOutcome {
            member_update: Some((state.streak_current, state.streak_bucket)),
            streak_state: state,
        }
    } else {
        ScanOutcome { member_update: None, streak_state: state }
    }
}

/// A scan records in the member exactly the streak that the evaluation
/// reports whenever the streak grew or was penalised, and never changes the
/// member otherwise.
pub proof fn law_scan_records_evaluated_streak(state: StreakState)
    ensures
        spec_scan_outcome(state).member_update is Some <==> (state.streak_missed > 0
            || state.days_since_last_scan == 1),
        spec_scan_outcome(state).member_update is Some ==> spec_scan_outcome(state).member_update
            == Some((state.streak_current, state.streak_bucket)),
        spec_scan_outcome(state).streak_state.streak_missed == 0 || state.streak_missed < 0,
{
}

/// A member who scans on the day after their last scan has their recorded
/// streak extended by one day; one who scans two or more days later has the
/// current streak reset to 0.
pub proof fn law_next_day_scan_extends_member(logic: StreakLogic, last: UtcInstant, at: UtcInstant)
    requires
        logic.last_scan == Some(last),
        logic.evaluate_defined(at),
        at.day() >= last.day() + 1,
        at.nanos < NANOS_PER_SEC,
    ensures
        at.day() == last.day() + 1 ==> spec_scan_outcome(logic.spec_evaluate(at)).member_update
            == Some(((logic.streak_current + 1) as i32, (logic.streak_bucket + 1) as i32)),
        at.day() >= last.day() + 2 ==> (spec_scan_outcome(logic.spec_evaluate(at)).member_update
            matches Some((current, _)) && current == 0),
{
    law_streak_by_calendar_day(logic, last, at);
}

} // verus!
