//! The live metrics that the vision process keeps overwriting in one file.
//! The file is read on a best effort: it may not exist yet, and it may be
//! half written at the moment it is read.
use vstd::prelude::*;
use crate::json::{parse, parsed};

verus! {

/// The metrics to report once the file was read as JSON: the value that was
/// read, and nothing where the content was refused. A refusal is no error.
pub fn metrics_of(outcome: Result<serde_json::Value, serde_json::Error>) -> (metrics: Option<
    serde_json::Value,
>)
    ensures
        metrics == match outcome {
            Ok(value) => Some(value),
            Err(_) => None,
        },
{
    match outcome {
        Ok(value) => Some(value),
        Err(_) => None,
    }
}

/// The metrics to report for what was read of the live-metrics file: `None`
/// for `content` where the file could not be read. There are metrics exactly
/// when the file was read and holds one JSON value; a missing or half-written
/// file is no error.
pub fn get_live_metrics(content: Option<&str>) -> (metrics: Option<serde_json::Value>)
    ensures
        metrics == match content {
            Some(text) => parsed(text@),
            None => None,
        },
{
    match content {
        Some(text) => metrics_of(parse(text)),
        None => None,
    }
}

} // verus!
