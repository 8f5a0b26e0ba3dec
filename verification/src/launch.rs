//! How the processes of a session are launched: the interpreter that runs
//! the vision script, the one tried when the first cannot be started, and
//! what each child's standard streams are connected to.
use vstd::prelude::*;

verus! {

/// What a standard stream of a child process is connected to.
#[derive(Debug, Clone, Copy, PartialEq, Eq, Structural)]
pub enum Stream {
    /// Captured, for the parent to read.
    Piped,
    /// The parent's own stream: what the child writes stays visible to the
    /// operator.
    Inherited,
    /// Thrown away.
    Discarded,
}

/// The interpreters that the vision script is started with, in the order in
/// which they are tried.
#[derive(Debug, Clone, Copy, PartialEq, Eq, Structural)]
pub enum Launcher {
    Preferred,
    Fallback,
}

/// A process to start: the program, its arguments, the directory it runs in
/// and its output streams.
#[derive(Debug, PartialEq, Eq)]
pub struct SpawnRequest {
    pub program: String,
    pub args: Vec<String>,
    pub current_dir: String,
    pub stdout: Stream,
    pub stderr: Stream,
}

/// A `SpawnRequest` with its texts as sequences of characters.
pub struct SpawnRequestView {
    pub program: Seq<char>,
    pub args: Seq<Seq<char>>,
    pub current_dir: Seq<char>,
    pub stdout: Stream,
    pub stderr: Stream,
}

impl View for SpawnRequest {
    type V = SpawnRequestView;

    open spec fn view(&self) -> SpawnRequestView {
        SpawnRequestView {
            program: self.program@,
            args: self.args.deep_view(),
            current_dir: self.current_dir@,
            stdout: self.stdout,
            stderr: self.stderr,
        }
    }
}

/// What becomes of a start after a launcher failed.
#[derive(Debug, PartialEq, Eq)]
pub enum Retry {
    /// Try again with this launcher.
    With(Launcher),
    /// No launcher is left: the start fails with this message.
    GiveUp(String),
}

impl Launcher {
    /// The program name of the launcher.
    pub open spec fn program_name(self) -> Seq<char> {
        match self {
            Launcher::Preferred => "python3"@,
            Launcher::Fallback => "python"@,
        }
    }

    /// The launcher to try after this one, if there is one.
    pub open spec fn successor(self) -> Option<Launcher> {
        match self {
            Launcher::Preferred => Some(Launcher::Fallback),
            Launcher::Fallback => None,
        }
    }

    /// The number of launchers that are tried after this one.
    pub open spec fn remaining(self) -> nat {
        match self {
            Launcher::Preferred => 1,
            Launcher::Fallback => 0,
        }
    }

    /// The launcher that a start tries first.
    pub fn first() -> (launcher: Launcher)
        ensures
            launcher == Launcher::Preferred,
    {
        Launcher::Preferred
    }

    /// The program name of the launcher.
    pub fn program(self) -> (name: &'static str)
        ensures
            name@ == self.program_name(),
    {
        match self {
            Launcher::Preferred => "python3",
            Launcher::Fallback => "python",
        }
    }

    /// The launcher to try after this one, if there is one.
    pub fn next(self) -> (following: Option<Launcher>)
        ensures
            following == self.successor(),
    {
        match self {
            Launcher::Preferred => Some(Launcher::Fallback),
            Launcher::Fallback => None,
        }
    }
}

/// The request that starts the vision script `script` in the directory
/// `root`: its standard output is captured, since the frames come that way,
/// and its standard error stays with the operator.
pub open spec fn primary_request_for(
    launcher: Launcher,
    script: Seq<char>,
    root: Seq<char>,
) -> SpawnRequestView {
    SpawnRequestView {
        program: launcher.program_name(),
        args: seq![script],
        current_dir: root,
        stdout: Stream::Piped,
        stderr: Stream::Inherited,
    }
}

/// The request that starts the vision script with `launcher`.
pub fn primary_request(launcher: Launcher, script: &str, root: &str) -> (request: SpawnRequest)
    ensures
        request@ == primary_request_for(launcher, script@, root@),
{
    let mut args: Vec<String> = Vec::new();
    args.push(script.to_owned());
    assert(args.deep_view() == seq![script@]);
    SpawnRequest {
        program: launcher.program().to_owned(),
        args,
        current_dir: root.to_owned(),
        stdout: Stream::Piped,
        stderr: Stream::Inherited,
    }
}

/// The message of a start that could launch the vision script with no
/// launcher, `cause` being the system's words for the last failure.
pub open spec fn launch_error(cause: Seq<char>) -> Seq<char> {
    "Failed to run cv.py pipeline: "@ + cause
}

/// What to do after `launcher` could not be started for `cause`: the next
/// launcher is tried, and after the last one the start gives up.
pub fn after_launch_failure(launcher: Launcher, cause: &str) -> (retry: Retry)
    ensures
        match launcher.successor() {
            Some(following) => retry == Retry::With(following),
            None => retry matches Retry::GiveUp(message) && message@ == launch_error(cause@),
        },
{
    match launcher.next() {
        Some(following) => Retry::With(following),
        None => {
            let mut message = "Failed to run cv.py pipeline: ".to_owned();
            message.append(cause);
            Retry::GiveUp(message)
        },
    }
}

/// The message of a start whose vision process came up without a standard
/// output to read.
pub fn missing_stdout_error() -> (message: String)
    ensures
        message@ == "No stdout from cv process"@,
{
    "No stdout from cv process".to_owned()
}

} // verus!
