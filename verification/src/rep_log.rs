//! The rep log: one record per line, appended by the vision process while a
//! session runs, and read back whole whenever the count is asked for.
use vstd::prelude::*;
use crate::lines::{nonempty_lines, nonempty_lines_of};

verus! {

/// One record of the rep log, as far as it is understood: when the rep was
/// counted, in milliseconds since the session began, and a summary that is
/// handed on unread.
#[derive(Debug, PartialEq)]
pub struct RepLogEntry {
    pub timestamp_ms: Option<u64>,
    pub summary: Option<serde_json::Value>,
}

/// What is reported of the rep log.
#[derive(Debug, PartialEq)]
pub struct RepCountResult {
    pub count: u32,
    pub last_summary: Option<serde_json::Value>,
    pub rep_timestamps: Vec<u64>,
}

/// The time stamp that a line of the log gives: none where the line could
/// not be read as a record, and none where the record holds none.
pub open spec fn timestamp_of(line: Option<RepLogEntry>) -> Option<u64> {
    match line {
        Some(entry) => entry.timestamp_ms,
        None => None,
    }
}

/// The summary that a line of the log gives, under the same conditions.
pub open spec fn summary_of(line: Option<RepLogEntry>) -> Option<serde_json::Value> {
    match line {
        Some(entry) => entry.summary,
        None => None,
    }
}

/// The time stamps of the log, in the order of its lines. A line without one
/// is passed over.
pub open spec fn rep_timestamps(log: Seq<Option<RepLogEntry>>) -> Seq<u64> {
    log.filter_map(|line: Option<RepLogEntry>| timestamp_of(line))
}

/// The most recent summary: that of the last line, if the log has a line and
/// its last one gives a summary. Earlier lines are not looked at.
pub open spec fn last_summary(log: Seq<Option<RepLogEntry>>) -> Option<serde_json::Value> {
    if log.len() == 0 {
        None
    } else {
        summary_of(log.last())
    }
}

/// The lines of the rep log that stand for a rep: the non-empty ones, in
/// order. `content` is `None` where the log could not be read; a session
/// that has counted no rep yet has no log, and that is no error.
pub fn rep_log_lines(content: Option<&str>) -> (found: Vec<String>)
    ensures
        found.deep_view() == match content {
            Some(text) => nonempty_lines(text@),
            None => Seq::empty(),
        },
        content is None ==> found@.len() == 0,
{
    match content {
        Some(text) => nonempty_lines_of(text),
        None => {
            let found: Vec<String> = Vec::new();
            assert(found.deep_view() == Seq::<Seq<char>>::empty());
            found
        },
    }
}

/// The count, the most recent summary and the time stamps of a log. `log`
/// holds one item for each line of `rep_log_lines`, in order: the record
/// that the line was read as, or `None` where it could not be read. Such a
/// line is still counted. The count is kept in 32 bits. A log without lines
/// gives a count of zero, no summary and no time stamp.
pub fn get_rep_count(log: Vec<Option<RepLogEntry>>) -> (result: RepCountResult)
    ensures
        result.count == log@.len() % 0x1_0000_0000,
        result.last_summary == last_summary(log@),
        result.rep_timestamps@ == rep_timestamps(log@),
        log@.len() == 0 ==> result.count == 0 && result.last_summary is None
            && result.rep_timestamps@.len() == 0,
{
    let mut log = log;
    let ghost whole = log@;
    let lines: u64 = log.len() as u64;
    let count = (lines % 0x1_0000_0000) as u32;
    let mut timestamps: Vec<u64> = Vec::new();
    let mut i: usize = 0;
    assert(whole.take(0) == Seq::<Option<RepLogEntry>>::empty());
    while i < log.len()
        invariant
            log@ == whole,
            i <= log.len(),
            timestamps@ == rep_timestamps(whole.take(i as int)),
        decreases log.len() - i,
    {
        proof {
            whole.lemma_filter_map_take_succ(
                |line: Option<RepLogEntry>| timestamp_of(line),
                i as int,
            );
        }
        match &log[i] {
            Some(entry) => match entry.timestamp_ms {
                Some(timestamp) => {
                    timestamps.push(timestamp);
                },
                None => {},
            },
            None => {},
        }
        i += 1;
    }
    assert(whole.take(whole.len() as int) == whole);
    let summary = match log.pop() {
        Some(Some(entry)) => entry.summary,
        _ => None,
    };
    RepCountResult { count, last_summary: summary, rep_timestamps: timestamps }
}

} // verus!
