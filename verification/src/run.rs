//! The life cycle of a run: from the command line to `Completed` or
//! `Failed`, one stage at a time.
//!
//! The host performs each stage (it resolves the entry file, has the engine
//! load the main module, drains the event loop, and awaits the module's
//! evaluation) and reports how it went. What follows is decided here.

use vstd::prelude::*;
use vstd::string::StringExecFns;

verus! {

/// The stages of a run that can fail, in the order they are taken.
#[derive(Clone, Copy, Debug, PartialEq, Eq, Structural)]
pub enum Stage {
    /// Turn the entry file into a module identifier.
    ResolveEntry,
    /// Load the entry module and all that it imports.
    LoadMainModule,
    /// Drain the engine's pending work.
    DrainEventLoop,
    /// Take the result of the entry module's evaluation.
    AwaitEvaluation,
}

/// Why a run failed.
#[derive(Debug, PartialEq, Eq)]
pub enum RunError {
    /// No entry file was named on the command line.
    Usage,
    /// The entry file could not be made into a module identifier.
    Resolution(String),
    /// Loading, draining or evaluating raised an error.
    Evaluation(String),
}

/// A `RunError` as plain text.
pub ghost enum RunFailure {
    Usage,
    Resolution(Seq<char>),
    Evaluation(Seq<char>),
}

impl View for RunError {
    type V = RunFailure;

    open spec fn view(&self) -> RunFailure {
        match self {
            RunError::Usage => RunFailure::Usage,
            RunError::Resolution(message) => RunFailure::Resolution(message@),
            RunError::Evaluation(message) => RunFailure::Evaluation(message@),
        }
    }
}

/// Where a run stands.
#[derive(Debug, PartialEq, Eq)]
pub enum RunState {
    /// The host is to perform this stage next.
    Running(Stage),
    /// Every stage succeeded and no work is pending.
    Completed,
    /// A stage failed; the run is over and holds that stage's error.
    Failed(RunError),
}

/// A `RunState` as plain text.
pub ghost enum RunPhase {
    Running(Stage),
    Completed,
    Failed(RunFailure),
}

impl View for RunState {
    type V = RunPhase;

    open spec fn view(&self) -> RunPhase {
        match self {
            RunState::Running(stage) => RunPhase::Running(*stage),
            RunState::Completed => RunPhase::Completed,
            RunState::Failed(error) => RunPhase::Failed(error@),
        }
    }
}

/// The stage that follows `stage`, if any.
pub open spec fn stage_after(stage: Stage) -> Option<Stage> {
    match stage {
        Stage::ResolveEntry => Some(Stage::LoadMainModule),
        Stage::LoadMainModule => Some(Stage::DrainEventLoop),
        Stage::DrainEventLoop => Some(Stage::AwaitEvaluation),
        Stage::AwaitEvaluation => None,
    }
}

/// The error of a run that failed at `stage` with `message`.
pub open spec fn failure_at(stage: Stage, message: Seq<char>) -> RunFailure {
    match stage {
        Stage::ResolveEntry => RunFailure::Resolution(message),
        _ => RunFailure::Evaluation(message),
    }
}

/// The state that follows `phase` once the stage it was waiting for has
/// ended with `outcome`. A run that is over stays as it is.
pub open spec fn phase_after(phase: RunPhase, outcome: Result<(), Seq<char>>) -> RunPhase {
    match phase {
        RunPhase::Running(stage) => match outcome {
            Ok(_) => match stage_after(stage) {
                Some(next) => RunPhase::Running(next),
                None => RunPhase::Completed,
            },
            Err(message) => RunPhase::Failed(failure_at(stage, message)),
        },
        _ => phase,
    }
}

/// The state after a series of outcomes, taken in order.
pub open spec fn phase_after_all(phase: RunPhase, outcomes: Seq<Result<(), Seq<char>>>) -> RunPhase
    decreases outcomes.len(),
{
    if outcomes.len() == 0 {
        phase
    } else {
        phase_after(phase_after_all(phase, outcomes.drop_last()), outcomes.last())
    }
}

/// A stage's outcome as plain text.
pub open spec fn outcome_text(outcome: Result<(), String>) -> Result<(), Seq<char>> {
    match outcome {
        Ok(_) => Ok(()),
        Err(message) => Err(message@),
    }
}

/// The state a run begins in, given the command line's arguments after the
/// program's name: with none it has failed before any engine exists,
/// otherwise the first argument is the entry file and is handed back.
pub fn start(args: &Vec<String>) -> (begun: (RunState, Option<String>))
    ensures
        args.len() == 0 ==> begun.0@ == RunPhase::Failed(RunFailure::Usage) && begun.1 is None,
        args.len() > 0 ==> begun.0@ == RunPhase::Running(Stage::ResolveEntry) && begun.1 is Some
            && begun.1->0@ == args[0]@,
{
    if args.len() == 0 {
        (RunState::Failed(RunError::Usage), None)
    } else {
        (RunState::Running(Stage::ResolveEntry), Some(args[0].clone()))
    }
}

/// Moves the run on once the stage it was waiting for has ended.
pub fn advance(state: RunState, outcome: Result<(), String>) -> (next: RunState)
    ensures
        next@ == phase_after(state@, outcome_text(outcome)),
{
    match state {
        RunState::Running(stage) => match outcome {
            Ok(_) => match stage {
                Stage::ResolveEntry => RunState::Running(Stage::LoadMainModule),
                Stage::LoadMainModule => RunState::Running(Stage::DrainEventLoop),
                Stage::DrainEventLoop => RunState::Running(Stage::AwaitEvaluation),
                Stage::AwaitEvaluation => RunState::Completed,
            },
            Err(message) => match stage {
                Stage::ResolveEntry => RunState::Failed(RunError::Resolution(message)),
                _ => RunState::Failed(RunError::Evaluation(message)),
            },
        },
        RunState::Completed => RunState::Completed,
        RunState::Failed(error) => RunState::Failed(error),
    }
}

/// The status the process exits with: 1 where no entry file was named, 0 in
/// every other state, a failed run included.
pub open spec fn status_of(phase: RunPhase) -> u8 {
    if phase == RunPhase::Failed(RunFailure::Usage) {
        1
    } else {
        0
    }
}

/// The line for the error stream, if the state calls for one.
pub open spec fn report_of(phase: RunPhase) -> Option<Seq<char>> {
    match phase {
        RunPhase::Failed(RunFailure::Usage) => Some("Usage: runjs <file>"@),
        RunPhase::Failed(RunFailure::Resolution(message)) => Some("error: "@ + message),
        RunPhase::Failed(RunFailure::Evaluation(message)) => Some("error: "@ + message),
        _ => None,
    }
}

/// The process's exit status in `state`.
pub fn exit_status(state: &RunState) -> (status: u8)
    ensures
        status == status_of(state@),
{
    match state {
        RunState::Failed(RunError::Usage) => 1,
        _ => 0,
    }
}

/// What the host prints to the error stream in `state`: the usage line, the
/// error's message behind `error: `, or nothing.
pub fn report(state: &RunState) -> (line: Option<String>)
    ensures
        line is Some <==> report_of(state@) is Some,
        line matches Some(text) ==> report_of(state@) == Some(text@),
{
    match state {
        RunState::Failed(RunError::Usage) => Some(String::from_str("Usage: runjs <file>")),
        RunState::Failed(RunError::Resolution(message)) => Some(
            String::from_str("error: ").concat(message.as_str()),
        ),
        RunState::Failed(RunError::Evaluation(message)) => Some(
            String::from_str("error: ").concat(message.as_str()),
        ),
        _ => None,
    }
}

/// A run that is over stays as it is, whatever is reported to it.
pub proof fn finished_run_is_final(phase: RunPhase, outcomes: Seq<Result<(), Seq<char>>>)
    requires
        !(phase is Running),
    ensures
        phase_after_all(phase, outcomes) == phase,
    decreases outcomes.len(),
{
    if outcomes.len() > 0 {
        finished_run_is_final(phase, outcomes.drop_last());
    }
}

/// A run fails with the error of the first stage that failed, and nothing
/// that is reported afterwards changes it.
pub proof fn first_failure_decides(
    stage: Stage,
    message: Seq<char>,
    later: Seq<Result<(), Seq<char>>>,
)
    ensures
        phase_after_all(
            RunPhase::Running(stage),
            seq![Err::<(), Seq<char>>(message)] + later,
        ) == RunPhase::Failed(failure_at(stage, message)),
    decreases later.len(),
{
    let first = seq![Err::<(), Seq<char>>(message)];
    let all = first + later;
    if later.len() == 0 {
        assert(all.drop_last() =~= Seq::<Result<(), Seq<char>>>::empty());
        assert(phase_after_all(RunPhase::Running(stage), all.drop_last()) == RunPhase::Running(
            stage,
        ));
    } else {
        first_failure_decides(stage, message, later.drop_last());
        assert(all.drop_last() =~= first + later.drop_last());
    }
}

/// A run completes exactly when each of its four stages has succeeded.
pub proof fn completes_when_every_stage_succeeds(outcomes: Seq<Result<(), Seq<char>>>)
    ensures
        phase_after_all(RunPhase::Running(Stage::ResolveEntry), outcomes) is Completed <==> (
        outcomes.len() >= 4 && forall|i: int| 0 <= i < 4 ==> (#[trigger] outcomes[i]) is Ok),
{
    let begin = RunPhase::Running(Stage::ResolveEntry);
    if outcomes.len() >= 4 {
        let head = outcomes.take(4);
        let tail = outcomes.skip(4);
        steps_then_rest(begin, head, tail);
        assert(head + tail =~= outcomes);
        reveal_with_fuel(phase_after_all, 5);
        assert(head.drop_last() =~= outcomes.take(3));
        assert(head.drop_last().drop_last() =~= outcomes.take(2));
        assert(head.drop_last().drop_last().drop_last() =~= outcomes.take(1));
        assert(head.drop_last().drop_last().drop_last().drop_last() =~= outcomes.take(0));
        assert(head.last() == outcomes[3]);
        assert(outcomes.take(3).last() == outcomes[2]);
        assert(outcomes.take(2).last() == outcomes[1]);
        assert(outcomes.take(1).last() == outcomes[0]);
        let reached = phase_after_all(begin, head);
        if !(reached is Running) {
            finished_run_is_final(reached, tail);
        }
    } else {
        reveal_with_fuel(phase_after_all, 5);
        if outcomes.len() >= 1 {
            assert(outcomes.drop_last().len() == outcomes.len() - 1);
        }
        if outcomes.len() >= 2 {
            assert(outcomes.drop_last().drop_last().len() == outcomes.len() - 2);
        }
        if outcomes.len() >= 3 {
            assert(outcomes.drop_last().drop_last().drop_last().len() == outcomes.len() - 3);
        }
    }
}

/// Taking outcomes in two parts is taking them all.
proof fn steps_then_rest(
    phase: RunPhase,
    head: Seq<Result<(), Seq<char>>>,
    tail: Seq<Result<(), Seq<char>>>,
)
    ensures
        phase_after_all(phase, head + tail) == phase_after_all(phase_after_all(phase, head), tail),
    decreases tail.len(),
{
    if tail.len() == 0 {
        assert(head + tail =~= head);
    } else {
        steps_then_rest(phase, head, tail.drop_last());
        assert((head + tail).drop_last() =~= head + tail.drop_last());
    }
}

} // verus!
