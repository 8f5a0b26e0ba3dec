//! The workout record: one line that tells the vision process which workout
//! is on, and whether a session is running.
use vstd::prelude::*;
use crate::json::{object_text, write_object};
use crate::text::{eq_ignore_ascii_case, matches_ignoring_ascii_case};

verus! {

/// The session flag that is written for `session`: `on` where `session` is
/// that word in any mix of capital and small letters, `off` for everything
/// else.
pub open spec fn session_flag(session: Seq<char>) -> Seq<char> {
    if matches_ignoring_ascii_case(session, "on"@) {
        "on"@
    } else {
        "off"@
    }
}

/// The line written for a workout and a session value: the JSON object with
/// the members `workout_id` and `session`, and a line feed after it.
pub open spec fn workout_record(workout_id: Seq<char>, session: Seq<char>) -> Seq<char> {
    object_text("workout_id"@, workout_id, "session"@, session_flag(session)).push('\n')
}

/// Reduces a session value to one of the two flags that the record can hold.
pub fn normalize_session(session: &str) -> (flag: &'static str)
    ensures
        flag@ == session_flag(session@),
{
    if eq_ignore_ascii_case(session, "on") {
        "on"
    } else {
        "off"
    }
}

/// `record` as a line of its own: with a line feed after it.
pub fn record_line(record: String) -> (line: String)
    ensures
        line@ == record@.push('\n'),
{
    let mut line = record;
    line.push('\n');
    line
}

/// The whole content of the workout file for `workout_id` and `session`. It
/// is one line: the line feed that ends it is its only one.
pub fn workout_id_line(workout_id: &str, session: &str) -> (line: String)
    ensures
        line@ == workout_record(workout_id@, session@),
        line@.len() > 0,
        line@.last() == '\n',
        !line@.drop_last().contains('\n'),
{
    let record = write_object("workout_id", workout_id, "session", normalize_session(session));
    let line = record_line(record);
    assert(line@.drop_last() == record@);
    line
}

} // verus!
