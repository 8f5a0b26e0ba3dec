//! The session configuration: the command lines of the auxiliary processes
//! that run beside the vision process.
use vstd::prelude::*;
use crate::launch::{SpawnRequest, SpawnRequestView, Stream};
use crate::words::{is_solid, lemma_words_are_solid, split_whitespace, words};

verus! {

/// The configuration of a session: the commands of its auxiliary processes,
/// in the order in which they are started.
#[derive(Debug, PartialEq, Eq)]
pub struct SessionConfig {
    pub session_scripts: Vec<String>,
}

/// The request that `command` stands for, run in `root`: its first word is
/// the program, the words after it are the arguments, and both output
/// streams are thrown away. A command without a word stands for nothing.
pub open spec fn auxiliary_request_for(command: Seq<char>, root: Seq<char>) -> Option<
    SpawnRequestView,
> {
    let parts = words(command);
    if parts.len() == 0 {
        None
    } else {
        Some(
            SpawnRequestView {
                program: parts[0],
                args: parts.skip(1),
                current_dir: root,
                stdout: Stream::Discarded,
                stderr: Stream::Discarded,
            },
        )
    }
}

/// The commands that a start runs: those of the configuration, and none
/// where there is no configuration.
pub open spec fn commands_of(config: Option<&SessionConfig>) -> Seq<Seq<char>> {
    match config {
        Some(config) => config.session_scripts.deep_view(),
        None => Seq::empty(),
    }
}

/// The requests for all of `commands`, in order, without the commands that
/// stand for nothing.
pub open spec fn auxiliary_requests_for(commands: Seq<Seq<char>>, root: Seq<char>) -> Seq<
    SpawnRequestView,
> {
    commands.filter_map(|command: Seq<char>| auxiliary_request_for(command, root))
}

/// The request that starts the auxiliary process `command` in `root`, or
/// `None` where `command` is empty or white space only. The program of a
/// request is never empty.
pub fn auxiliary_request(command: &str, root: &str) -> (request: Option<SpawnRequest>)
    ensures
        request.is_some() == auxiliary_request_for(command@, root@).is_some(),
        request matches Some(r) ==> Some(r@) == auxiliary_request_for(command@, root@),
        request matches Some(r) ==> is_solid(r@.program),
{
    let mut parts = split_whitespace(command);
    if parts.len() == 0 {
        return None;
    }
    let ghost all = parts.deep_view();
    proof {
        lemma_words_are_solid(command@);
        assert(is_solid(all[0]));
    }
    let program = parts.remove(0);
    assert(parts.deep_view() == all.skip(1));
    Some(
        SpawnRequest {
            program,
            args: parts,
            current_dir: root.to_owned(),
            stdout: Stream::Discarded,
            stderr: Stream::Discarded,
        },
    )
}

/// The view of each request of `requests`.
pub open spec fn request_views(requests: Seq<SpawnRequest>) -> Seq<SpawnRequestView> {
    requests.map_values(|request: SpawnRequest| request@)
}

/// The requests for the auxiliary processes of a session. `config` is `None`
/// where the configuration file is missing or cannot be read as one: such a
/// session has no auxiliary process, and starts all the same.
pub fn auxiliary_requests(config: Option<&SessionConfig>, root: &str) -> (requests: Vec<
    SpawnRequest,
>)
    ensures
        request_views(requests@) == auxiliary_requests_for(commands_of(config), root@),
        config is None ==> requests@.len() == 0,
{
    let mut requests: Vec<SpawnRequest> = Vec::new();
    match config {
        None => {
            assert(request_views(requests@) == Seq::<SpawnRequestView>::empty());
        },
        Some(config) => {
            let ghost commands = config.session_scripts.deep_view();
            let ghost decide = |command: Seq<char>| auxiliary_request_for(command, root@);
            let mut i: usize = 0;
            assert(commands.take(0) == Seq::<Seq<char>>::empty());
            assert(request_views(requests@) == Seq::<SpawnRequestView>::empty());
            while i < config.session_scripts.len()
                invariant
                    commands == config.session_scripts.deep_view(),
                    decide == |command: Seq<char>| auxiliary_request_for(command, root@),
                    i <= config.session_scripts.len(),
                    request_views(requests@) == commands.take(i as int).filter_map(decide),
                decreases config.session_scripts.len() - i,
            {
                proof {
                    commands.lemma_filter_map_take_succ(decide, i as int);
                }
                let ghost before = request_views(requests@);
                match auxiliary_request(config.session_scripts[i].as_str(), root) {
                    Some(request) => {
                        requests.push(request);
                        assert(request_views(requests@) == before + seq![request@]);
                    },
                    None => {},
                }
                i += 1;
            }
            assert(commands.take(commands.len() as int) == commands);
        },
    }
    requests
}

} // verus!
