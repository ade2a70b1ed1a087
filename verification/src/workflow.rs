//! What a caller does around the waits when it runs several operations in
//! a row: it undoes what was begun when a wait times out, and tells a forced
//! stop from a clean one.

use crate::error::SimpleError;
use crate::management::vm::InstanceView;
use crate::time::Span;
use vstd::prelude::*;

verus! {

/// The seconds that the start of a machine, and then its agent, may take.
pub const START_TIMEOUT_SECS: u64 = 120;

/// The seconds that the start script may take.
pub const SCRIPT_TIMEOUT_SECS: u64 = 300;

/// The seconds that the stop script may take.
pub const STOP_TIMEOUT_SECS: u64 = 300;

/// The seconds between two looks at the agent.
pub const AGENT_POLL_SECS: u64 = 10;

/// What follows a step of a workflow that may have timed out.
#[derive(Debug)]
pub enum OnTimeout<T> {
    /// The step timed out: deallocate the machine and wait for that, then
    /// report as `after_compensation` says.
    Compensate,
    /// The step did not time out: its result stands.
    Yield(Result<T, SimpleError>),
}

/// Decides whether the result of a step calls for the machine to be
/// deallocated: it does exactly when the step timed out. Any other result
/// stands as it is.
pub fn stop_on_timeout<T>(result: Result<T, SimpleError>) -> (next: OnTimeout<T>)
    ensures
        match result {
            Err(SimpleError::Timeout) => next is Compensate,
            _ => next == OnTimeout::Yield(result),
        },
{
    match result {
        Err(SimpleError::Timeout) => OnTimeout::Compensate,
        other => OnTimeout::Yield(other),
    }
}

/// What a step that timed out reports once the deallocation has been tried:
/// the timeout, where the deallocation went through; else the failure of
/// the deallocation.
pub fn after_compensation<T>(deallocated: Result<(), SimpleError>) -> (r: Result<T, SimpleError>)
    ensures
        match deallocated {
            Ok(_) => r == Err::<T, SimpleError>(SimpleError::Timeout),
            Err(e) => r == Err::<T, SimpleError>(e),
        },
{
    match deallocated {
        Ok(_) => Err(SimpleError::Timeout),
        Err(e) => Err(e),
    }
}

/// What the caller does next while it waits for the agent of a machine.
#[derive(Debug, Clone, Copy, PartialEq, Eq, Structural)]
pub enum AgentWait {
    /// The agent is ready.
    Ready,
    /// The agent did not get ready in time.
    TimedOut,
    /// Look at the agent now.
    Look,
    /// Sleep for the time between two looks, then go on.
    Sleep,
}

/// Decides, before a look at the agent, whether the wait for it has gone on
/// for too long: it has once more than the start timeout has passed.
pub fn before_agent_look(elapsed: &Span) -> (next: AgentWait)
    ensures
        next == if elapsed@ > START_TIMEOUT_SECS * 1_000_000_000 {
            AgentWait::TimedOut
        } else {
            AgentWait::Look
        },
{
    let limit = Span::from_secs(START_TIMEOUT_SECS);
    if elapsed.is_longer_than(&limit) {
        AgentWait::TimedOut
    } else {
        AgentWait::Look
    }
}

/// Decides, after a look at the agent, whether the wait is over: it is once
/// the agent says that it is ready; else the caller sleeps.
pub fn after_agent_look(view: &InstanceView) -> (next: AgentWait)
    ensures
        next == if view.spec_is_ready() {
            AgentWait::Ready
        } else {
            AgentWait::Sleep
        },
{
    if view.is_ready() {
        AgentWait::Ready
    } else {
        AgentWait::Sleep
    }
}

/// Decides how a stop goes on after the stop script: when the script ran,
/// the stop is clean; when it timed out, the stop goes on by force; any
/// other failure ends the stop.
pub fn after_stop_script<T>(result: Result<T, SimpleError>) -> (force: Result<bool, SimpleError>)
    ensures
        match result {
            Ok(_) => force == Ok::<bool, SimpleError>(false),
            Err(SimpleError::Timeout) => force == Ok::<bool, SimpleError>(true),
            Err(e) => force == Err::<bool, SimpleError>(e),
        },
{
    match result {
        Ok(_) => Ok(false),
        Err(SimpleError::Timeout) => Ok(true),
        Err(e) => Err(e),
    }
}

/// What the user is told at the end of a stop.
pub fn stop_message(force: bool) -> (text: &'static str)
    ensures
        text@ == if force {
            "Stopped the server forcefully."@
        } else {
            "Stopped the server."@
        },
{
    if force {
        "Stopped the server forcefully."
    } else {
        "Stopped the server."
    }
}

/// Where the start of a server stands: what the caller is waiting for.
#[derive(Debug, Clone, Copy, PartialEq, Eq, Structural)]
pub enum StartStage {
    /// The machine is being started.
    Boot,
    /// The agent on the machine is getting ready.
    Agent,
    /// The start script runs.
    Script,
    /// A step timed out, and the machine is being deallocated.
    Compensation,
    /// The start is over.
    Finished,
}

/// What the caller does next in the start of a server.
#[derive(Debug)]
pub enum StartAction {
    /// Wait until the agent is ready, for the start timeout at most.
    WaitForAgent,
    /// Run the start script, for the script timeout at most.
    RunScript,
    /// Deallocate the machine and wait for that, without a limit.
    Deallocate,
    /// End the start with this result.
    Finish(Result<(), SimpleError>),
}

/// The stage and the action that follow when the step of the stage `stage`
/// has ended with `result`. A step that timed out is followed by the
/// deallocation of the machine, and only such a step is; when the
/// deallocation is over, the timeout is reported, or the failure of the
/// deallocation. Any other failure ends the start at once.
pub open spec fn spec_start_step(stage: StartStage, result: Result<(), SimpleError>) -> (
    StartStage,
    StartAction,
) {
    match stage {
        StartStage::Boot | StartStage::Agent | StartStage::Script => match result {
            Err(SimpleError::Timeout) => (StartStage::Compensation, StartAction::Deallocate),
            Err(e) => (StartStage::Finished, StartAction::Finish(Err(e))),
            Ok(_) => match stage {
                StartStage::Boot => (StartStage::Agent, StartAction::WaitForAgent),
                StartStage::Agent => (StartStage::Script, StartAction::RunScript),
                _ => (StartStage::Finished, StartAction::Finish(Ok(()))),
            },
        },
        StartStage::Compensation => match result {
            Ok(_) => (StartStage::Finished, StartAction::Finish(Err(SimpleError::Timeout))),
            Err(e) => (StartStage::Finished, StartAction::Finish(Err(e))),
        },
        StartStage::Finished => (StartStage::Finished, StartAction::Finish(result)),
    }
}

/// Decides how the start of a server goes on when the step of the stage
/// `stage` has ended with `result`.
pub fn start_step(stage: StartStage, result: Result<(), SimpleError>) -> (next: (
    StartStage,
    StartAction,
))
    ensures
        next == spec_start_step(stage, result),
{
    match stage {
        StartStage::Boot => match stop_on_timeout(result) {
            OnTimeout::Compensate => (StartStage::Compensation, StartAction::Deallocate),
            OnTimeout::Yield(Ok(_)) => (StartStage::Agent, StartAction::WaitForAgent),
            OnTimeout::Yield(Err(e)) => (StartStage::Finished, StartAction::Finish(Err(e))),
        },
        StartStage::Agent => match stop_on_timeout(result) {
            OnTimeout::Compensate => (StartStage::Compensation, StartAction::Deallocate),
            OnTimeout::Yield(Ok(_)) => (StartStage::Script, StartAction::RunScript),
            OnTimeout::Yield(Err(e)) => (StartStage::Finished, StartAction::Finish(Err(e))),
        },
        StartStage::Script => match stop_on_timeout(result) {
            OnTimeout::Compensate => (StartStage::Compensation, StartAction::Deallocate),
            OnTimeout::Yield(Ok(_)) => (StartStage::Finished, StartAction::Finish(Ok(()))),
            OnTimeout::Yield(Err(e)) => (StartStage::Finished, StartAction::Finish(Err(e))),
        },
        StartStage::Compensation => (
            StartStage::Finished,
            StartAction::Finish(after_compensation(result)),
        ),
        StartStage::Finished => (StartStage::Finished, StartAction::Finish(result)),
    }
}

/// What the user is told when the start of a server takes the action
/// `action`, if anything.
pub fn start_progress(action: &StartAction) -> (text: Option<&'static str>)
    ensures
        match *action {
            StartAction::WaitForAgent => text matches Some(t) && t@
                == "Server booted. Waiting for agent ..."@,
            StartAction::RunScript => text matches Some(t) && t@ == "Executing start script ..."@,
            StartAction::Finish(Ok(_)) => text matches Some(t) && t@ == "Started the server."@,
            _ => text is None,
        },
{
    match action {
        StartAction::WaitForAgent => Some("Server booted. Waiting for agent ..."),
        StartAction::RunScript => Some("Executing start script ..."),
        StartAction::Finish(Ok(_)) => Some("Started the server."),
        _ => None,
    }
}

/// The stages and the actions of a start whose steps end with `results`,
/// one after the other, from the stage `stage` on: the number of times the
/// machine is deallocated, and the result, where the start comes to an end.
pub struct StartRun {
    pub deallocations: nat,
    pub result: Option<Result<(), SimpleError>>,
}

/// How a start goes from the stage `stage` on when its steps end with
/// `results`, one after the other.
pub open spec fn spec_start_run(stage: StartStage, results: Seq<Result<(), SimpleError>>)
    -> StartRun
    decreases results.len(),
{
    if results.len() == 0 {
        StartRun { deallocations: 0, result: None }
    } else {
        let (next, action) = spec_start_step(stage, results[0]);
        match action {
            StartAction::Finish(result) => StartRun { deallocations: 0, result: Some(result) },
            StartAction::Deallocate => {
                let rest = spec_start_run(next, results.drop_first());
                StartRun { deallocations: rest.deallocations + 1, result: rest.result }
            },
            _ => spec_start_run(next, results.drop_first()),
        }
    }
}

/// Whether `result` is a timeout.
pub open spec fn is_timeout(result: Result<(), SimpleError>) -> bool {
    result matches Err(SimpleError::Timeout)
}

/// A start never deallocates the machine more than once, and it does so
/// only after a step that timed out: a start in which no step times out
/// deallocates nothing.
pub proof fn law_start_deallocates_only_after_a_timeout(
    stage: StartStage,
    results: Seq<Result<(), SimpleError>>,
)
    requires
        stage != StartStage::Compensation,
    ensures
        spec_start_run(stage, results).deallocations <= 1,
        (forall|i: int| 0 <= i < results.len() ==> !is_timeout(#[trigger] results[i]))
            ==> spec_start_run(stage, results).deallocations == 0,
    decreases results.len(),
{
    if results.len() > 0 {
        let (next, action) = spec_start_step(stage, results[0]);
        let rest = results.drop_first();
        match action {
            StartAction::Finish(_) => {},
            StartAction::Deallocate => {
                assert(spec_start_run(next, rest).deallocations == 0);
            },
            _ => {
                law_start_deallocates_only_after_a_timeout(next, rest);
            },
        }
    }
}

/// A step of a start that times out is followed by the deallocation of the
/// machine, and once that is over the start ends with the timeout, or with
/// the failure of the deallocation.
pub proof fn law_start_timeout_is_compensated(
    stage: StartStage,
    deallocated: Result<(), SimpleError>,
)
    requires
        stage == StartStage::Boot || stage == StartStage::Agent || stage == StartStage::Script,
    ensures
        spec_start_step(stage, Err(SimpleError::Timeout)) == (
            StartStage::Compensation,
            StartAction::Deallocate,
        ),
        spec_start_run(stage, seq![Err(SimpleError::Timeout), deallocated]) == (StartRun {
            deallocations: 1,
            result: Some(
                match deallocated {
                    Ok(_) => Err(SimpleError::Timeout),
                    Err(e) => Err(e),
                },
            ),
        }),
{
    reveal_with_fuel(spec_start_run, 3);
}

/// Where the stop of a server stands: what the caller is waiting for.
#[derive(Debug, Clone, Copy, PartialEq, Eq, Structural)]
pub enum StopStage {
    /// The stop script runs.
    Script,
    /// The machine is being deallocated, after a script that ran or, by
    /// force, after one that timed out.
    Deallocation { force: bool },
    /// The stop is over.
    Finished,
}

/// What the caller does next in the stop of a server.
#[derive(Debug)]
pub enum StopAction {
    /// Deallocate the machine and wait for that, without a limit.
    Deallocate,
    /// End the stop with this result: whether it went by force, or why it
    /// failed.
    Finish(Result<bool, SimpleError>),
}

/// The stage and the action that follow when the step of the stage `stage`
/// has ended with `result`. After the stop script the machine is
/// deallocated, by force if the script timed out; any other failure ends
/// the stop.
pub open spec fn spec_stop_step(stage: StopStage, result: Result<(), SimpleError>) -> (
    StopStage,
    StopAction,
) {
    match stage {
        StopStage::Script => match result {
            Ok(_) => (StopStage::Deallocation { force: false }, StopAction::Deallocate),
            Err(SimpleError::Timeout) => (
                StopStage::Deallocation { force: true },
                StopAction::Deallocate,
            ),
            Err(e) => (StopStage::Finished, StopAction::Finish(Err(e))),
        },
        StopStage::Deallocation { force } => match result {
            Ok(_) => (StopStage::Finished, StopAction::Finish(Ok(force))),
            Err(e) => (StopStage::Finished, StopAction::Finish(Err(e))),
        },
        StopStage::Finished => match result {
            Ok(_) => (StopStage::Finished, StopAction::Finish(Ok(false))),
            Err(e) => (StopStage::Finished, StopAction::Finish(Err(e))),
        },
    }
}

/// Decides how the stop of a server goes on when the step of the stage
/// `stage` has ended with `result`.
pub fn stop_step(stage: StopStage, result: Result<(), SimpleError>) -> (next: (
    StopStage,
    StopAction,
))
    ensures
        next == spec_stop_step(stage, result),
{
    match stage {
        StopStage::Script => match after_stop_script(result) {
            Ok(force) => (StopStage::Deallocation { force }, StopAction::Deallocate),
            Err(e) => (StopStage::Finished, StopAction::Finish(Err(e))),
        },
        StopStage::Deallocation { force } => match result {
            Ok(_) => (StopStage::Finished, StopAction::Finish(Ok(force))),
            Err(e) => (StopStage::Finished, StopAction::Finish(Err(e))),
        },
        StopStage::Finished => match result {
            Ok(_) => (StopStage::Finished, StopAction::Finish(Ok(false))),
            Err(e) => (StopStage::Finished, StopAction::Finish(Err(e))),
        },
    }
}

} // verus!
