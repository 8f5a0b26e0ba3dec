//! Session orchestration for a computer-vision feed.
//!
//! A session is one run of an external vision process, whose output is
//! published record by record, and of the auxiliary processes that a
//! configuration file names. This library holds the rules of a session and
//! leaves the acting to its caller: it decides what to launch and how, which
//! handles to keep and which to terminate, what to publish, and what the
//! files that the vision process writes are read as. The caller launches,
//! terminates, reads, writes and publishes.
//!
//! - [`supervisor`]: the handles of a session, and the decisions of a start
//!   and of a stop.
//! - [`launch`] and [`config`]: the processes to launch, and the command
//!   lines of the auxiliary ones.
//! - [`pump`]: what becomes of each record of the vision process's output.
//! - [`rep_log`], [`metrics`] and [`workout`]: the files shared with the
//!   vision process.
//! - [`paths`]: where those files lie.
//! - [`text`], [`lines`] and [`words`]: text as sequences of characters.
//! - [`json`]: what is taken from `serde_json`, on trust.
pub mod config;
pub mod json;
pub mod launch;
pub mod lines;
pub mod metrics;
pub mod paths;
pub mod pump;
pub mod rep_log;
pub mod supervisor;
pub mod text;
pub mod words;
pub mod workout;
