use vstd::prelude::*;

use crate::config::DisplayConfig;
use crate::config::DisplayConfigView;
use crate::error::TomoError;
use crate::track::get_progress_bar;
use crate::track::render_spec;
use crate::track::wrap_output;

verus! {

/// Latest second of the year 9999, the last start instant the session
/// store will encode.
pub const MAX_TIMESTAMP_SECS: i64 = 253_402_300_799;

/// Every instant chrono can represent lies within this many seconds of the
/// epoch, so every timestamp read back from a status file does too.
pub const PARSED_SECS_BOUND: i64 = 9_000_000_000_000;

/// What the timer is doing right now: running since a start instant
/// (seconds since the Unix epoch), on a break, or stopped.
#[derive(Clone, Copy, Debug, PartialEq, Eq, Structural)]
pub enum SessionState {
    Running(i64),
    OnBreak,
    Stopped,
}

/// The literal stored in the status file for the stopped state.
pub open spec fn stop_token() -> Seq<char> {
    "stop"@
}

/// The literal stored in the status file for the break state.
pub open spec fn break_token() -> Seq<char> {
    "break"@
}

/// The RFC 3339 text chrono writes for the instant `secs` seconds after
/// the Unix epoch.
pub uninterp spec fn rfc3339_of(secs: int) -> Seq<char>;

/// The instant chrono reads from `s` (once surrounding whitespace is
/// trimmed away), as seconds since the Unix epoch; `None` when `s` is not
/// a valid RFC 3339 timestamp.
pub uninterp spec fn rfc3339_time_of(s: Seq<char>) -> Option<int>;

/// Relies on chrono's `DateTime::from_timestamp_secs` and
/// `DateTime::to_rfc3339`: for seconds in range the conversion succeeds,
/// the output is an RFC 3339 timestamp (at least 20 characters, no
/// surrounding whitespace), and chrono's RFC 3339 parser reads the same
/// instant back from it.
#[verifier::external_body]
fn format_rfc3339(secs: i64) -> (r: String)
    requires
        0 <= secs <= MAX_TIMESTAMP_SECS,
    ensures
        r@ == rfc3339_of(secs as int),
        r@.len() >= 20,
        rfc3339_time_of(r@) == Some(secs as int),
{
    let time = chrono::DateTime::from_timestamp_secs(secs).expect("timestamp in range");
    time.to_rfc3339()
}

/// Relies on `str::trim` and chrono's `DateTime::parse_from_rfc3339`: the
/// parsed instant is a function of the text alone, and chrono only
/// represents instants within `PARSED_SECS_BOUND` of the epoch.
#[verifier::external_body]
fn parse_rfc3339(s: &str) -> (r: Option<i64>)
    ensures
        r is Some <==> rfc3339_time_of(s@) is Some,
        r matches Some(v) ==> rfc3339_time_of(s@) == Some(v as int) && -PARSED_SECS_BOUND <= v
            <= PARSED_SECS_BOUND,
{
    match chrono::DateTime::parse_from_rfc3339(s.trim()) {
        Ok(time) => Some(time.timestamp()),
        Err(_) => None,
    }
}

/// The exact file contents written for each state.
pub open spec fn encode_spec(state: SessionState) -> Seq<char> {
    match state {
        SessionState::Stopped => stop_token(),
        SessionState::OnBreak => break_token(),
        SessionState::Running(t) => rfc3339_of(t as int),
    }
}

/// What `encode_state` guarantees of a running entry: the stored text is
/// the timestamp's RFC 3339 form, parses back to the same instant, and is
/// too long to collide with either literal token.
pub open spec fn is_start_entry(s: Seq<char>, t: int) -> bool {
    &&& s == rfc3339_of(t)
    &&& rfc3339_time_of(s) == Some(t)
    &&& s.len() >= 20
}

/// The state a given status-file text decodes to, or the parse error.
pub open spec fn decode_spec(s: Seq<char>) -> Result<SessionState, TomoError> {
    if s == stop_token() {
        Ok(SessionState::Stopped)
    } else if s == break_token() {
        Ok(SessionState::OnBreak)
    } else {
        match rfc3339_time_of(s) {
            Some(t) => if i64::MIN <= t <= i64::MAX {
                Ok(SessionState::Running(t as i64))
            } else {
                Err(TomoError::StatusParse)
            },
            None => Err(TomoError::StatusParse),
        }
    }
}

/// Whether two string slices hold the same characters.
fn str_eq(a: &str, b: &str) -> (r: bool)
    ensures
        r == (a@ == b@),
{
    let left: String = a.to_owned();
    let right: String = b.to_owned();
    left == right
}

/// Produces the one-line file contents that persist a session state.
pub fn encode_state(state: &SessionState) -> (r: String)
    requires
        *state matches SessionState::Running(t) ==> 0 <= t <= MAX_TIMESTAMP_SECS,
    ensures
        r@ == encode_spec(*state),
        *state matches SessionState::Running(t) ==> is_start_entry(r@, t as int),
{
    match state {
        SessionState::Stopped => String::from_str("stop"),
        SessionState::OnBreak => String::from_str("break"),
        SessionState::Running(t) => format_rfc3339(*t),
    }
}

/// Classifies the raw status-file contents: an exact literal token for the
/// stopped and break states, otherwise an RFC 3339 start timestamp.
pub fn decode_state(contents: &str) -> (r: Result<SessionState, TomoError>)
    ensures
        r == decode_spec(contents@),
        r matches Ok(SessionState::Running(t)) ==> -PARSED_SECS_BOUND <= t <= PARSED_SECS_BOUND,
{
    if str_eq(contents, "stop") {
        Ok(SessionState::Stopped)
    } else if str_eq(contents, "break") {
        Ok(SessionState::OnBreak)
    } else {
        match parse_rfc3339(contents) {
            Some(t) => Ok(SessionState::Running(t)),
            None => Err(TomoError::StatusParse),
        }
    }
}

/// The break-state output: the break message between the two pads.
pub fn break_output(config: &DisplayConfig) -> (r: String)
    ensures
        r@ == wrap_output(config@, config@.break_msg),
{
    let mut out = config.left_pad.clone();
    out.append(config.break_msg.as_str());
    out.append(config.right_pad.as_str());
    out
}

/// What the show action prints for given file contents and current time:
/// nothing when stopped, the break message on a break, the bar for a
/// running timer, and the parse error for unrecognized contents.
pub open spec fn show_spec(contents: Seq<char>, now: int, c: DisplayConfigView) -> Result<
    Option<Seq<char>>,
    TomoError,
> {
    match decode_spec(contents) {
        Ok(SessionState::Stopped) => Ok(None),
        Ok(SessionState::OnBreak) => Ok(Some(wrap_output(c, c.break_msg))),
        Ok(SessionState::Running(t)) => Ok(Some(render_spec(now - t, c))),
        Err(e) => Err(e),
    }
}

/// Computes the output of the show action from the status-file contents
/// and the current time, `None` meaning that nothing is printed.
pub fn show_output(contents: &str, now_secs: i64, config: &DisplayConfig) -> (r: Result<
    Option<String>,
    TomoError,
>)
    requires
        config@.wf(),
        -PARSED_SECS_BOUND <= now_secs <= PARSED_SECS_BOUND,
    ensures
        match r {
            Ok(None) => show_spec(contents@, now_secs as int, config@) == Ok::<
                Option<Seq<char>>,
                TomoError,
            >(None),
            Ok(Some(s)) => show_spec(contents@, now_secs as int, config@) == Ok::<
                Option<Seq<char>>,
                TomoError,
            >(Some(s@)),
            Err(e) => show_spec(contents@, now_secs as int, config@) == Err::<
                Option<Seq<char>>,
                TomoError,
            >(e),
        },
{
    match decode_state(contents) {
        Err(e) => Err(e),
        Ok(SessionState::Stopped) => Ok(None),
        Ok(SessionState::OnBreak) => Ok(Some(break_output(config))),
        Ok(SessionState::Running(t)) => Ok(Some(get_progress_bar(now_secs - t, config))),
    }
}

/// Law: decoding the text that `encode_state` wrote for a state yields
/// that state back.
pub proof fn lemma_decode_after_encode(state: SessionState, s: Seq<char>)
    requires
        match state {
            SessionState::Running(t) => is_start_entry(s, t as int),
            SessionState::OnBreak => s == break_token(),
            SessionState::Stopped => s == stop_token(),
        },
    ensures
        decode_spec(s) == Ok::<SessionState, TomoError>(state),
{
    reveal_strlit("stop");
    reveal_strlit("break");
    assert(stop_token().len() == 4);
    assert(break_token().len() == 5);
}

/// Law: showing immediately after a start entry was written renders the
/// bar at zero elapsed time.
pub proof fn lemma_show_after_start(entry: Seq<char>, t: i64, c: DisplayConfigView)
    requires
        c.wf(),
        is_start_entry(entry, t as int),
    ensures
        show_spec(entry, t as int, c) == Ok::<Option<Seq<char>>, TomoError>(
            Some(render_spec(0, c)),
        ),
{
    reveal_strlit("stop");
    reveal_strlit("break");
    assert(stop_token().len() == 4);
    assert(break_token().len() == 5);
    assert(decode_spec(entry) == Ok::<SessionState, TomoError>(SessionState::Running(t)));
}

} // verus!
