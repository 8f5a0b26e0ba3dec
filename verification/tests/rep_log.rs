use cv_session::rep_log::{get_rep_count, rep_log_lines, RepCountResult, RepLogEntry};
use serde_json::Value;

fn ok_summary() -> Value {
    let mut members = serde_json::Map::new();
    members.insert("ok".to_string(), Value::Bool(true));
    Value::Object(members)
}

fn entry(timestamp_ms: Option<u64>, summary: Option<Value>) -> Option<RepLogEntry> {
    Some(RepLogEntry { timestamp_ms, summary })
}

#[test]
fn rep_count_on_missing_log() {
    assert_eq!(rep_log_lines(None), Vec::<String>::new());
    assert_eq!(
        get_rep_count(Vec::new()),
        RepCountResult { count: 0, last_summary: None, rep_timestamps: vec![] }
    );
}

#[test]
fn rep_count_on_empty_log() {
    assert_eq!(rep_log_lines(Some("")), Vec::<String>::new());
    assert_eq!(rep_log_lines(Some("\n\r\n\n")), Vec::<String>::new());
}

#[test]
fn rep_log_lines_are_the_nonempty_lines() {
    let content =
        "{\"timestamp_ms\":100}\nnot json\n\n{\"timestamp_ms\":200,\"summary\":{\"ok\":true}}\n";
    assert_eq!(
        rep_log_lines(Some(content)),
        vec![
            "{\"timestamp_ms\":100}".to_string(),
            "not json".to_string(),
            "{\"timestamp_ms\":200,\"summary\":{\"ok\":true}}".to_string(),
        ]
    );
}

/// Reads one line of the log as a record: a JSON object whose time stamp,
/// where it has one, is an unsigned integer.
fn record_in(line: &str) -> Option<RepLogEntry> {
    let value = serde_json::from_str::<Value>(line).ok()?;
    let members = value.as_object()?;
    let timestamp_ms = match members.get("timestamp_ms") {
        None | Some(Value::Null) => None,
        Some(timestamp) => Some(timestamp.as_u64()?),
    };
    let summary = match members.get("summary") {
        None | Some(Value::Null) => None,
        Some(summary) => Some(summary.clone()),
    };
    Some(RepLogEntry { timestamp_ms, summary })
}

#[test]
fn rep_count_parsing() {
    // Three lines: a record, a line that is no record, and a record with a
    // summary.
    let log = vec![entry(Some(100), None), None, entry(Some(200), Some(ok_summary()))];
    let result = get_rep_count(log);
    assert_eq!(result.count, 3);
    assert_eq!(result.last_summary, Some(ok_summary()));
    assert_eq!(result.rep_timestamps, vec![100, 200]);
}

#[test]
fn rep_count_from_the_text_of_a_log() {
    let content = [
        "{\"timestamp_ms\":100}",
        "{not a record",
        "{\"timestamp_ms\":200,\"summary\":{\"ok\":true}}",
        "",
    ]
    .join("\n");
    let content = content.as_str();
    let lines = rep_log_lines(Some(content));
    assert_eq!(lines.len(), 3);
    let log: Vec<Option<RepLogEntry>> = lines.iter().map(|line| record_in(line)).collect();
    assert_eq!(log, vec![entry(Some(100), None), None, entry(Some(200), Some(ok_summary()))]);
    assert_eq!(
        get_rep_count(log),
        RepCountResult {
            count: 3,
            last_summary: Some(ok_summary()),
            rep_timestamps: vec![100, 200],
        }
    );
}

#[test]
fn unreadable_line_is_counted_wherever_it_stands() {
    let first =
        get_rep_count(vec![None, entry(Some(100), None), entry(Some(200), Some(ok_summary()))]);
    assert_eq!(first.count, 3);
    assert_eq!(first.last_summary, Some(ok_summary()));
    assert_eq!(first.rep_timestamps, vec![100, 200]);
}

#[test]
fn summary_comes_from_the_last_line_only() {
    // The last line is no record: there is no summary, though an earlier
    // line has one.
    let result = get_rep_count(vec![entry(Some(5), Some(ok_summary())), None]);
    assert_eq!(result.count, 2);
    assert_eq!(result.last_summary, None);
    assert_eq!(result.rep_timestamps, vec![5]);

    // The last line is a record without a summary.
    let result =
        get_rep_count(vec![entry(Some(5), Some(ok_summary())), entry(Some(6), None)]);
    assert_eq!(result.last_summary, None);
    assert_eq!(result.rep_timestamps, vec![5, 6]);
}

#[test]
fn records_without_time_stamp_are_counted_but_give_none() {
    let result = get_rep_count(vec![
        entry(None, None),
        entry(Some(u64::MAX), None),
        entry(None, Some(Value::Null)),
    ]);
    assert_eq!(result.count, 3);
    assert_eq!(result.rep_timestamps, vec![u64::MAX]);
    assert_eq!(result.last_summary, Some(Value::Null));
}

#[test]
fn time_stamps_keep_the_order_of_the_lines() {
    let result =
        get_rep_count(vec![entry(Some(30), None), entry(Some(10), None), entry(Some(30), None)]);
    assert_eq!(result.rep_timestamps, vec![30, 10, 30]);
}
