//! Where the session's files lie below the repository root, and what to
//! report when the root or the vision script cannot be found. Paths are
//! text, with `/` between their parts.
use vstd::prelude::*;
use crate::text::chars_of;

verus! {

/// `base` and the relative path `relative` as one path: a `/` is put between
/// them unless `base` is empty or ends with one.
pub open spec fn joined(base: Seq<char>, relative: Seq<char>) -> Seq<char> {
    if base.len() == 0 || base.last() == '/' {
        base + relative
    } else {
        base.push('/') + relative
    }
}

/// Appends the relative path `relative` to `base`.
pub fn join(base: &str, relative: &str) -> (path: String)
    ensures
        path@ == joined(base@, relative@),
{
    let chars = chars_of(base);
    let mut path = base.to_owned();
    if chars.len() > 0 && chars[chars.len() - 1] != '/' {
        path.push('/');
    }
    path.append(relative);
    path
}

/// The repository root as seen from the directory `manifest_dir` of the
/// application's package, two levels below it. The path is not resolved:
/// whether it exists is for the caller to find out.
pub fn repo_root(manifest_dir: &str) -> (root: String)
    ensures
        root@ == joined(manifest_dir@, "../.."@),
{
    join(manifest_dir, "../..")
}

/// The vision script that writes the frames to its standard output, below
/// `root`. The path is not resolved.
pub fn cv_stdout_frames_path(root: &str) -> (script: String)
    ensures
        script@ == joined(root@, "cv/cv_stdout_frames.py"@),
{
    join(root, "cv/cv_stdout_frames.py")
}

/// The session configuration file below `root`.
pub fn session_config_path(root: &str) -> (path: String)
    ensures
        path@ == joined(root@, "session_config.json"@),
{
    join(root, "session_config.json")
}

/// The workout file below `root`.
pub fn workout_id_path(root: &str) -> (path: String)
    ensures
        path@ == joined(root@, "workout_id.json"@),
{
    join(root, "workout_id.json")
}

/// The rep log below `root`.
pub fn rep_log_path(root: &str) -> (path: String)
    ensures
        path@ == joined(root@, "cv/reps_log.jsonl"@),
{
    join(root, "cv/reps_log.jsonl")
}

/// The live-metrics file below `root`.
pub fn live_metrics_path(root: &str) -> (path: String)
    ensures
        path@ == joined(root@, "cv/session_live.json"@),
{
    join(root, "cv/session_live.json")
}

/// What is reported when the repository root cannot be resolved, `cause`
/// being the system's words for it.
pub fn repo_root_error(cause: &str) -> (message: String)
    ensures
        message@ == "repo root: "@ + cause@,
{
    let mut message = "repo root: ".to_owned();
    message.append(cause);
    message
}

/// What is reported when the vision script is not at `script`, `cause` being
/// the system's words for it.
pub fn script_not_found_error(script: &str, cause: &str) -> (message: String)
    ensures
        message@ == "cv_stdout_frames.py not found at "@ + script@ + ": "@ + cause@,
{
    let mut message = "cv_stdout_frames.py not found at ".to_owned();
    message.append(script);
    message.append(": ");
    message.append(cause);
    message
}

} // verus!
