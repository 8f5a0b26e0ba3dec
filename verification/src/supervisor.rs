//! The supervisor of a session: the one owner of the handle of the vision
//! process and of the handles of the auxiliary processes.
//!
//! The supervisor starts and stops nothing itself. It decides: whether a
//! start has anything to launch, which handles it keeps, and which handles a
//! stop has to terminate. Its caller launches and terminates, under one lock
//! from the first decision of a start or a stop to the last.
use vstd::prelude::*;
use crate::config::{auxiliary_requests_for, commands_of};
use crate::launch::{missing_stdout_error, Launcher};

verus! {

/// The handles of a session. `H` is whatever stands for a running process;
/// the supervisor keeps such values and hands them back, and reads none.
pub struct Supervisor<H> {
    primary: Option<H>,
    auxiliary: Vec<H>,
}

/// What a supervisor holds: the handle of the vision process while a session
/// runs, and the handles of the auxiliary processes in the order in which
/// they were started.
pub struct Session<H> {
    pub primary: Option<H>,
    pub auxiliary: Seq<H>,
}

/// The first decision of a start.
#[derive(Debug, Clone, Copy, PartialEq, Eq, Structural)]
pub enum StartDecision {
    /// A session runs: the start launches nothing and reports success.
    AlreadyRunning,
    /// No session runs: the vision process is launched, with this launcher
    /// first.
    Launch(Launcher),
}

impl<H> Session<H> {
    /// The session in which nothing runs.
    pub open spec fn idle() -> Session<H> {
        Session { primary: None, auxiliary: Seq::empty() }
    }

    /// Whether a session runs: whether a start has succeeded and no stop has
    /// come since.
    pub open spec fn is_running(self) -> bool {
        self.primary is Some
    }

    /// Auxiliary processes are held only while a session runs.
    pub open spec fn wf(self) -> bool {
        !self.is_running() ==> self.auxiliary.len() == 0
    }

    /// The first decision of a start in this state.
    pub open spec fn start_decision(self) -> StartDecision {
        if self.is_running() {
            StartDecision::AlreadyRunning
        } else {
            StartDecision::Launch(Launcher::Preferred)
        }
    }

    /// This state once the vision process runs under `handle`.
    pub open spec fn with_primary(self, handle: H) -> Session<H> {
        Session { primary: Some(handle), auxiliary: self.auxiliary }
    }

    /// This state after one attempt to launch an auxiliary process: its
    /// handle is kept where the launch succeeded, and a failed launch leaves
    /// no trace.
    pub open spec fn with_auxiliary(self, outcome: Option<H>) -> Session<H> {
        match outcome {
            Some(handle) => Session {
                primary: self.primary,
                auxiliary: self.auxiliary.push(handle),
            },
            None => self,
        }
    }

    /// This state after the attempts `outcomes` to launch auxiliary
    /// processes, one after the other.
    pub open spec fn with_all_auxiliary(self, outcomes: Seq<Option<H>>) -> Session<H>
        decreases outcomes.len(),
    {
        if outcomes.len() == 0 {
            self
        } else {
            self.with_all_auxiliary(outcomes.drop_last()).with_auxiliary(outcomes.last())
        }
    }

    /// Every handle held, the vision process first.
    pub open spec fn handles(self) -> Seq<H> {
        match self.primary {
            Some(handle) => seq![handle] + self.auxiliary,
            None => self.auxiliary,
        }
    }

    /// Whether a start in this state reports success: it does while a
    /// session runs, and else where the vision process comes up with an
    /// output to read. Nothing else is asked: not a configuration, and not
    /// that any auxiliary process starts.
    pub open spec fn start_succeeds(self, launches: Launches<H>) -> bool {
        self.is_running() || launches.brings_up()
    }

    /// The state that a stop leaves.
    pub open spec fn after_stop(self) -> Session<H> {
        Session::idle()
    }

    /// The state that `operation` leaves.
    pub open spec fn after(self, operation: Operation<H>) -> Session<H> {
        match operation {
            Operation::Start(launches) => self.after_start(launches),
            Operation::Stop => self.after_stop(),
        }
    }

    /// The state that `operations` leave, one after the other.
    pub open spec fn after_all(self, operations: Seq<Operation<H>>) -> Session<H>
        decreases operations.len(),
    {
        if operations.len() == 0 {
            self
        } else {
            self.after_all(operations.drop_last()).after(operations.last())
        }
    }

    /// The state that a whole start leaves, `launches` being what became of
    /// the launches it asked for. A start that fails, and one that finds a
    /// session running, leave the state as it was.
    pub open spec fn after_start(self, launches: Launches<H>) -> Session<H> {
        if !self.is_running() && launches.has_stdout {
            match launches.primary() {
                Some(handle) => self.with_primary(handle).with_all_auxiliary(launches.auxiliary),
                None => self,
            }
        } else {
            self
        }
    }
}

/// One call on the control path.
pub enum Operation<H> {
    /// A start, with what became of its launches.
    Start(Launches<H>),
    /// A stop.
    Stop,
}

/// What became of the launches of one start.
pub struct Launches<H> {
    /// The vision process as the preferred launcher brought it up, or `None`
    /// where that launch failed.
    pub preferred: Option<H>,
    /// The same for the fallback launcher.
    pub fallback: Option<H>,
    /// Whether the vision process came up with a standard output to read.
    pub has_stdout: bool,
    /// What became of the launch of each auxiliary process, in order.
    pub auxiliary: Seq<Option<H>>,
}

impl<H> Launches<H> {
    /// What became of the launch with `launcher`.
    pub open spec fn outcome(self, launcher: Launcher) -> Option<H> {
        match launcher {
            Launcher::Preferred => self.preferred,
            Launcher::Fallback => self.fallback,
        }
    }

    /// The vision process that a start ends with when it begins with
    /// `launcher`: the first one to come up, each launcher being tried only
    /// after the one before it has failed.
    pub open spec fn launched_from(self, launcher: Launcher) -> Option<H>
        decreases launcher.remaining(),
    {
        match self.outcome(launcher) {
            Some(handle) => Some(handle),
            None => match launcher.successor() {
                Some(following) => self.launched_from(following),
                None => None,
            },
        }
    }

    /// The vision process that a start ends with, if any.
    pub open spec fn primary(self) -> Option<H> {
        self.launched_from(Launcher::Preferred)
    }

    /// Whether these launches bring a session up: the vision process comes
    /// up, with an output to read.
    pub open spec fn brings_up(self) -> bool {
        self.primary() is Some && self.has_stdout
    }
}

impl<H> Operation<H> {
    /// Whether this is a start whose launches bring a session up.
    pub open spec fn brings_up(self) -> bool {
        self matches Operation::Start(launches) && launches.brings_up()
    }
}

impl<H> View for Supervisor<H> {
    type V = Session<H>;

    closed spec fn view(&self) -> Session<H> {
        Session { primary: self.primary, auxiliary: self.auxiliary@ }
    }
}

impl<H> Supervisor<H> {
    #[verifier::type_invariant]
    spec fn holds_auxiliary_only_while_running(self) -> bool {
        self.primary is None ==> self.auxiliary@.len() == 0
    }

    /// A supervisor with nothing running.
    pub fn new() -> (supervisor: Self)
        ensures
            supervisor@ == Session::<H>::idle(),
    {
        Supervisor { primary: None, auxiliary: Vec::new() }
    }

    /// Whether a session runs. Whatever the answer, the supervisor holds
    /// auxiliary processes only while one does.
    pub fn is_running(&self) -> (running: bool)
        ensures
            running == self@.is_running(),
            self@.wf(),
    {
        proof {
            use_type_invariant(self);
        }
        self.primary.is_some()
    }

    /// The number of auxiliary processes held.
    pub fn auxiliary_count(&self) -> (count: usize)
        ensures
            count == self@.auxiliary.len(),
    {
        self.auxiliary.len()
    }

    /// The first decision of a start. While a session runs a start is a
    /// no-op: nothing is launched, and the caller reports success. A session
    /// runs for as long as its handle is held; whether the process behind the
    /// handle is still alive is not asked.
    pub fn begin_start(&self) -> (decision: StartDecision)
        ensures
            decision == self@.start_decision(),
            self@.wf(),
    {
        proof {
            use_type_invariant(self);
        }
        if self.primary.is_some() {
            StartDecision::AlreadyRunning
        } else {
            StartDecision::Launch(Launcher::first())
        }
    }

    /// Takes the vision process that a start has launched. With its standard
    /// output captured the session runs from here on: the caller hands the
    /// output to a pump, once, and goes on to the auxiliary processes.
    /// Without it the start has failed: the handle goes back to the caller
    /// with the message to report, and the supervisor is left as it was.
    pub fn primary_launched(&mut self, handle: H, has_stdout: bool) -> (refused: Result<
        (),
        (H, String),
    >)
        requires
            !old(self)@.is_running(),
        ensures
            has_stdout ==> refused is Ok && final(self)@ == old(self)@.with_primary(handle),
            !has_stdout ==> final(self)@ == old(self)@,
            !has_stdout ==> (refused matches Err((returned, message)) && returned == handle
                && message@ == "No stdout from cv process"@),
    {
        if has_stdout {
            self.primary = Some(handle);
            Ok(())
        } else {
            Err((handle, missing_stdout_error()))
        }
    }

    /// Records one attempt of a running session to launch an auxiliary
    /// process: `Some` with the handle of the process, or `None` where the
    /// launch failed. A failure is passed over in silence.
    pub fn auxiliary_launched(&mut self, outcome: Option<H>)
        requires
            old(self)@.is_running(),
        ensures
            final(self)@ == old(self)@.with_auxiliary(outcome),
    {
        match outcome {
            Some(handle) => {
                let mut auxiliary: Vec<H> = Vec::new();
                core::mem::swap(&mut self.auxiliary, &mut auxiliary);
                auxiliary.push(handle);
                self.auxiliary = auxiliary;
            },
            None => {},
        }
    }

    /// Ends the session. The supervisor gives up every handle it holds, the
    /// vision process first and the auxiliary processes in the order in
    /// which they were started, for the caller to terminate; it holds
    /// nothing afterwards. With nothing running the result is empty.
    pub fn stop(&mut self) -> (handles: Vec<H>)
        ensures
            handles@ == old(self)@.handles(),
            final(self)@ == old(self)@.after_stop(),
            !final(self)@.is_running(),
            final(self)@.auxiliary.len() == 0,
    {
        let mut auxiliary: Vec<H> = Vec::new();
        core::mem::swap(&mut self.auxiliary, &mut auxiliary);
        let mut primary: Option<H> = None;
        core::mem::swap(&mut self.primary, &mut primary);
        let mut handles: Vec<H> = Vec::new();
        match primary {
            Some(handle) => {
                handles.push(handle);
            },
            None => {},
        }
        handles.append(&mut auxiliary);
        handles
    }
}

/// A start that comes after a successful start, with no stop between them,
/// launches nothing, reports success and changes nothing: the session keeps
/// the one vision process that the first start brought up.
pub proof fn lemma_start_is_idempotent<H>(
    session: Session<H>,
    first: Launches<H>,
    second: Launches<H>,
)
    requires
        session.start_succeeds(first),
    ensures
        session.after_start(first).is_running(),
        session.after_start(first).start_decision() == StartDecision::AlreadyRunning,
        session.after_start(first).start_succeeds(second),
        session.after_start(first).after_start(second) == session.after_start(first),
        !session.is_running() ==> session.after_start(first).primary == first.primary(),
{
    if !session.is_running() {
        lemma_auxiliary_leaves_primary(
            session.with_primary(first.primary()->0),
            first.auxiliary,
        );
    }
}

/// The fallback launcher counts only where the preferred one has failed, and
/// a start without a running session fails exactly when it brings no vision
/// process up, or one without an output to read. A failed start leaves
/// nothing behind: the supervisor is as it was, and no session runs.
pub proof fn lemma_failed_start_leaves_no_trace<H>(session: Session<H>, launches: Launches<H>)
    ensures
        launches.preferred is Some ==> launches.primary() == launches.preferred,
        launches.preferred is None ==> launches.primary() == launches.fallback,
        !session.start_succeeds(launches) <==> !session.is_running() && (launches.preferred is None
            && launches.fallback is None || !launches.has_stdout),
        !session.start_succeeds(launches) ==> session.after_start(launches) == session
            && !session.after_start(launches).is_running(),
{
    assert(launches.launched_from(Launcher::Fallback) == launches.fallback);
}

/// Launching auxiliary processes never touches the vision process, and adds
/// no more handles than there were attempts.
pub proof fn lemma_auxiliary_leaves_primary<H>(session: Session<H>, outcomes: Seq<Option<H>>)
    ensures
        session.with_all_auxiliary(outcomes).primary == session.primary,
        session.auxiliary.len() <= session.with_all_auxiliary(outcomes).auxiliary.len()
            <= session.auxiliary.len() + outcomes.len(),
    decreases outcomes.len(),
{
    if outcomes.len() > 0 {
        lemma_auxiliary_leaves_primary(session, outcomes.drop_last());
    }
}

/// A start keeps the supervisor well formed, whatever becomes of its
/// launches.
pub proof fn lemma_start_keeps_wf<H>(session: Session<H>, launches: Launches<H>)
    requires
        session.wf(),
    ensures
        session.after_start(launches).wf(),
{
    if !session.is_running() && launches.has_stdout && launches.primary() is Some {
        lemma_auxiliary_leaves_primary(
            session.with_primary(launches.primary()->0),
            launches.auxiliary,
        );
    }
}

/// A start needs no configuration. Without one there is no auxiliary process
/// to launch; where the vision process comes up, the start succeeds and the
/// session runs with that process alone.
pub proof fn lemma_start_without_configuration<H>(
    session: Session<H>,
    launches: Launches<H>,
    root: Seq<char>,
)
    requires
        session.wf(),
        !session.is_running(),
        launches.primary() is Some,
        launches.has_stdout,
        launches.auxiliary.len() == auxiliary_requests_for(commands_of(None), root).len(),
    ensures
        auxiliary_requests_for(commands_of(None), root).len() == 0,
        session.start_succeeds(launches),
        session.after_start(launches).primary == launches.primary(),
        session.after_start(launches).auxiliary.len() == 0,
{
}

/// Whether a session that the start at position `at` of `operations` brings
/// up is still running after all of them: position `at` holds a start whose
/// launches bring a session up, and no stop comes after it.
pub open spec fn up_since<H>(operations: Seq<Operation<H>>, at: int) -> bool {
    &&& 0 <= at < operations.len()
    &&& operations[at].brings_up()
    &&& forall|later: int|
        at < later < operations.len() ==> !(#[trigger] operations[later] is Stop)
}

/// From an idle supervisor on, a session runs exactly when a start has
/// brought one up and no stop has come since. Auxiliary processes are held
/// only while it runs.
pub proof fn lemma_running_since_start<H>(operations: Seq<Operation<H>>)
    ensures
        Session::<H>::idle().after_all(operations).wf(),
        Session::<H>::idle().after_all(operations).is_running() <==> exists|at: int|
            up_since(operations, at),
    decreases operations.len(),
{
    if operations.len() > 0 {
        let earlier = operations.drop_last();
        let last = operations.len() - 1;
        let before = Session::<H>::idle().after_all(earlier);
        lemma_running_since_start(earlier);
        assert forall|at: int| at < last && up_since(operations, at) implies up_since(
            earlier,
            at,
        ) by {
            assert forall|later: int| at < later < earlier.len() implies !(
            #[trigger] earlier[later] is Stop) by {
                assert(earlier[later] == operations[later]);
            }
        }
        match operations.last() {
            Operation::Start(launches) => {
                lemma_start_keeps_wf(before, launches);
                if before.is_running() {
                    let at = choose|at: int| up_since(earlier, at);
                    assert(operations[at] == earlier[at]);
                    assert forall|later: int| at < later < operations.len() implies !(
                    #[trigger] operations[later] is Stop) by {
                        if later < last {
                            assert(operations[later] == earlier[later]);
                        }
                    }
                    assert(up_since(operations, at));
                } else if launches.brings_up() {
                    lemma_auxiliary_leaves_primary(
                        before.with_primary(launches.primary()->0),
                        launches.auxiliary,
                    );
                    assert(up_since(operations, last));
                }
            },
            Operation::Stop => {
                assert forall|at: int| !up_since(operations, at) by {
                    assert(operations[last] is Stop);
                }
            },
        }
    }
}

/// A stop ends whatever session there was. Nothing is held after it, so a
/// second stop finds nothing to terminate, and the next start launches the
/// vision process anew.
pub proof fn lemma_stop_tears_down<H>(session: Session<H>)
    ensures
        !session.after_stop().is_running(),
        session.after_stop().auxiliary.len() == 0,
        session.after_stop().handles().len() == 0,
        session.after_stop().after_stop() == session.after_stop(),
        session.after_stop().start_decision() == StartDecision::Launch(Launcher::Preferred),
        session.after_stop().wf(),
{
}

} // verus!
