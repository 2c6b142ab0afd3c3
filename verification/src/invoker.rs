//! The copy invoker: endpoint validation, executable lookup, and the
//! lifecycle of one launched copy process.
//!
//! Supervision is launch-and-wait: the caller spawns the resolved command,
//! blocks until the child exits, and feeds what happened back into the
//! state machine below. The three ways a launch can go wrong — the tool is
//! absent from the search path, the operating system refuses to start it,
//! or the tool runs and exits nonzero — are kept apart as distinct error
//! values and are never collapsed or retried: a copy with deletion enabled
//! is destructive, so an unsupervised retry could compound data loss.

use vstd::prelude::*;

use crate::options::CopyEndpoints;
use crate::resolver::ResolvedCommand;

verus! {

/// Every way one copy request can fail, kept distinct so the caller can
/// react to each. None of these is ever produced by the resolver, which is
/// total; they arise before or around the launch of the external tool.
#[derive(Debug, Clone, PartialEq, Eq)]
pub enum CopyError {
    /// Source or target failed the directory-validity check. A caller
    /// error: it must be ruled out before any command is resolved.
    InvalidEndpoint,
    /// The named executable is absent from the search path. Not retriable;
    /// the user must install or configure the tool.
    ToolNotFound,
    /// The operating system refused to start the process; the reason is the
    /// system's own wording. Possibly transient (resource exhaustion), but
    /// this layer never retries.
    SpawnFailed(String),
    /// The tool ran and reported failure through its exit code. The code is
    /// carried uninterpreted: the underlying tools use nonzero codes for
    /// various partial-success conditions, and this layer does not decode
    /// them.
    ChildExitedNonZero(i32),
}

impl CopyError {
    /// What each error's user-facing message says.
    pub open spec fn spec_message(self) -> Seq<char> {
        match self {
            CopyError::InvalidEndpoint => "source or target is not an existing directory"@,
            CopyError::ToolNotFound => "executable not found"@,
            CopyError::SpawnFailed(reason) => reason@,
            CopyError::ChildExitedNonZero(_) => "the copy tool exited with a nonzero status"@,
        }
    }

    /// A short, distinguishable message for each failure kind; for a spawn
    /// failure, the system's own reason.
    pub fn message(&self) -> (r: String)
        ensures
            r@ == self.spec_message(),
    {
        match self {
            CopyError::InvalidEndpoint => "source or target is not an existing directory"
                .to_owned(),
            CopyError::ToolNotFound => "executable not found".to_owned(),
            CopyError::SpawnFailed(reason) => reason.clone(),
            CopyError::ChildExitedNonZero(_) => "the copy tool exited with a nonzero status"
                .to_owned(),
        }
    }
}

/// Relies on `std::path::Path::is_dir`, documented to return true exactly
/// when the path exists on disk and points at a directory. The check is
/// point-in-time and depends on the filesystem, so nothing is assumed of
/// the result.
#[verifier::external_body]
pub fn is_existing_directory(path: &String) -> bool {
    std::path::Path::new(path.as_str()).is_dir()
}

/// Relies on `which::which`, which returns `Ok` exactly when it finds the
/// named executable on the host's search path (`$PATH`). The result depends
/// on the environment, so nothing is assumed of it.
#[verifier::external_body]
fn locate_executable(name: &String) -> bool {
    which::which(name.as_str()).is_ok()
}

/// Checks the precondition every invocation owes: source and target must
/// each name an existing directory. Rejected requests surface as
/// `InvalidEndpoint` before any command is resolved or any process spawned.
/// The check is point-in-time only — no lock is held against concurrent
/// filesystem mutation.
pub fn validate_endpoints(endpoints: &CopyEndpoints) -> (r: Result<(), CopyError>)
    ensures
        r matches Err(e) ==> e == CopyError::InvalidEndpoint,
{
    if is_existing_directory(&endpoints.source) && is_existing_directory(&endpoints.target) {
        Ok(())
    } else {
        Err(CopyError::InvalidEndpoint)
    }
}

/// Locates the command's executable on the search path. When it is absent
/// the invocation fails fast with `ToolNotFound` and the spawn step is
/// never reached — no process side effect is observable. On `Ok` the caller
/// may spawn the command and, under launch-and-wait supervision, block
/// until the child exits.
pub fn start_invocation(command: &ResolvedCommand) -> (r: Result<(), CopyError>)
    ensures
        r matches Err(e) ==> e == CopyError::ToolNotFound,
{
    if locate_executable(&command.executable) {
        Ok(())
    } else {
        Err(CopyError::ToolNotFound)
    }
}

/// Classifies the exit status of the waited-on child: exit code zero is
/// success, and exactly every other code is reported as
/// `ChildExitedNonZero` carrying that code.
pub fn classify_exit(exit_code: i32) -> (r: Result<(), CopyError>)
    ensures
        r is Ok <==> exit_code == 0,
        exit_code != 0 ==> r == Result::<(), CopyError>::Err(
            CopyError::ChildExitedNonZero(exit_code),
        ),
{
    if exit_code == 0 {
        Ok(())
    } else {
        Err(CopyError::ChildExitedNonZero(exit_code))
    }
}

/// The lifecycle of one invocation under launch-and-wait supervision.
#[derive(Debug, Clone, PartialEq, Eq)]
pub enum InvocationState {
    /// No request in flight.
    Idle,
    /// Locating the executable on the search path.
    Resolving,
    /// Asking the operating system to start the child.
    Spawning,
    /// The child runs; the caller is blocked waiting on it.
    Running,
    /// The child exited with this code. Terminal.
    Completed(i32),
    /// The invocation failed for this reason. Terminal.
    Failed(CopyError),
}

/// What the outside world reports back to the state machine.
#[derive(Debug, Clone, PartialEq, Eq)]
pub enum InvocationEvent {
    /// A copy was requested.
    Requested,
    /// The executable was found on the search path.
    ToolLocated,
    /// The executable is absent from the search path.
    ToolMissing,
    /// The operating system started the child.
    Launched,
    /// The operating system refused to start the child, with its reason.
    LaunchRefused(String),
    /// The waited-on child exited with this code.
    Exited(i32),
}

/// The transition relation of one invocation: `Idle` to `Resolving` to
/// `Spawning` to `Running` to `Completed`, with `Failed` reachable from
/// `Resolving` (tool missing) and from `Spawning` (launch refused), and in
/// no other way. An event that does not belong to the current state leaves
/// the machine where it stands; terminal states never move.
pub open spec fn spec_invocation_step(
    state: InvocationState,
    event: InvocationEvent,
) -> InvocationState {
    match (state, event) {
        (InvocationState::Idle, InvocationEvent::Requested) => InvocationState::Resolving,
        (InvocationState::Resolving, InvocationEvent::ToolLocated) => InvocationState::Spawning,
        (InvocationState::Resolving, InvocationEvent::ToolMissing) => InvocationState::Failed(
            CopyError::ToolNotFound,
        ),
        (InvocationState::Spawning, InvocationEvent::Launched) => InvocationState::Running,
        (InvocationState::Spawning, InvocationEvent::LaunchRefused(reason)) => {
            InvocationState::Failed(CopyError::SpawnFailed(reason))
        },
        (InvocationState::Running, InvocationEvent::Exited(code)) => InvocationState::Completed(
            code,
        ),
        (other, _) => other,
    }
}

/// Advances one invocation by one observed event, exactly along the
/// transition relation. The caller performs the outside work between steps
/// — look the tool up, spawn, wait — and hands the outcome in as the next
/// event.
pub fn invocation_step(state: InvocationState, event: InvocationEvent) -> (next: InvocationState)
    ensures
        next == spec_invocation_step(state, event),
{
    match (state, event) {
        (InvocationState::Idle, InvocationEvent::Requested) => InvocationState::Resolving,
        (InvocationState::Resolving, InvocationEvent::ToolLocated) => InvocationState::Spawning,
        (InvocationState::Resolving, InvocationEvent::ToolMissing) => InvocationState::Failed(
            CopyError::ToolNotFound,
        ),
        (InvocationState::Spawning, InvocationEvent::Launched) => InvocationState::Running,
        (InvocationState::Spawning, InvocationEvent::LaunchRefused(reason)) => {
            InvocationState::Failed(CopyError::SpawnFailed(reason))
        },
        (InvocationState::Running, InvocationEvent::Exited(code)) => InvocationState::Completed(
            code,
        ),
        (other, _) => other,
    }
}

/// A missing tool never reaches the spawn step. From `Resolving`, the
/// `ToolMissing` event moves the machine straight to
/// `Failed(ToolNotFound)`; a failed machine never leaves its failure; and
/// the only transition into `Spawning` is `ToolLocated` received in
/// `Resolving`.
pub proof fn lemma_missing_tool_never_spawns(state: InvocationState, event: InvocationEvent)
    ensures
        spec_invocation_step(InvocationState::Resolving, InvocationEvent::ToolMissing)
            == InvocationState::Failed(CopyError::ToolNotFound),
        state is Failed ==> spec_invocation_step(state, event) == state,
        spec_invocation_step(state, event) is Spawning ==> state is Spawning || (state is Resolving
            && event is ToolLocated),
{
}

} // verus!
