//! The decisions of evaluating a task's JavaScript file: evaluate the source,
//! drain the micro-task queue, then call the global `main` function if there
//! is one, and wait on the promise it returns if it returns one.
use vstd::prelude::*;
use crate::error::Error;
use crate::task::ModuleOutcome;

verus! {

/// Where the evaluation of a task's JavaScript file is.
#[derive(Debug, Clone, Copy, PartialEq, Eq, Structural)]
pub enum EvalPhase {
    /// The source text is being evaluated.
    EvaluatingScript,
    /// The micro-task queue is being drained after the evaluation.
    DrainingAfterScript,
    /// The global object is being asked for a `main` property.
    CheckingMain,
    /// `main` is being called.
    CallingMain,
    /// The micro-task queue is being drained after `main` returned; `promise`
    /// says whether it returned a promise.
    DrainingAfterMain {
        /// Whether `main` returned a promise.
        promise: bool,
    },
    /// The evaluation is over.
    Done,
}

/// What happened during the evaluation.
#[derive(Debug)]
pub enum EvalEvent {
    /// The source text was evaluated: an error describes the exception.
    ScriptEvaluated(Result<(), Error>),
    /// The micro-task queue was drained, with the given result.
    MicroTasksDrained(Result<(), Error>),
    /// The global object was asked for `main`: whether it has one.
    MainChecked(bool),
    /// `main` was called: whether it returned a promise (which is then rooted
    /// and waited on), or the error that describes its exception.
    MainCalled(Result<bool, Error>),
}

/// What the evaluation must do next.
#[derive(Debug)]
pub enum EvalAction {
    /// Drain the micro-task queue and check for unhandled rejected promises.
    DrainMicroTasks,
    /// Ask the global object for a `main` property.
    CheckForMain,
    /// Call `main` with no arguments.
    CallMain,
    /// The evaluation is over with this outcome; first run the pending jobs
    /// (without checking for rejected promises) if `run_jobs` says so.
    Finish {
        /// Whether to run the pending jobs first.
        run_jobs: bool,
        /// How the evaluation went.
        outcome: ModuleOutcome,
    },
}

/// Which events the evaluation takes in each phase.
pub open spec fn eval_accepts(phase: EvalPhase, event: EvalEvent) -> bool {
    match phase {
        EvalPhase::EvaluatingScript => event is ScriptEvaluated,
        EvalPhase::DrainingAfterScript => event is MicroTasksDrained,
        EvalPhase::CheckingMain => event is MainChecked,
        EvalPhase::CallingMain => event is MainCalled,
        EvalPhase::DrainingAfterMain { .. } => event is MicroTasksDrained,
        EvalPhase::Done => false,
    }
}

/// One step of the evaluation.
pub open spec fn eval_step_spec(
    pre: EvalPhase,
    event: EvalEvent,
    post: EvalPhase,
    action: EvalAction,
) -> bool {
    match (pre, event) {
        (EvalPhase::EvaluatingScript, EvalEvent::ScriptEvaluated(Ok(()))) => post
            == EvalPhase::DrainingAfterScript && action is DrainMicroTasks,
        (EvalPhase::EvaluatingScript, EvalEvent::ScriptEvaluated(Err(e))) => post == EvalPhase::Done
            && action == EvalAction::Finish { run_jobs: true, outcome: ModuleOutcome::Failed(e) },
        (EvalPhase::DrainingAfterScript, EvalEvent::MicroTasksDrained(Ok(()))) => post
            == EvalPhase::CheckingMain && action is CheckForMain,
        (EvalPhase::CheckingMain, EvalEvent::MainChecked(true)) => post == EvalPhase::CallingMain
            && action is CallMain,
        (EvalPhase::CheckingMain, EvalEvent::MainChecked(false)) => post == EvalPhase::Done
            && action == EvalAction::Finish { run_jobs: false, outcome: ModuleOutcome::NoPromise },
        (EvalPhase::CallingMain, EvalEvent::MainCalled(Ok(promise))) => post
            == EvalPhase::DrainingAfterMain { promise } && action is DrainMicroTasks,
        (EvalPhase::CallingMain, EvalEvent::MainCalled(Err(e))) => post == EvalPhase::Done && action
            == EvalAction::Finish { run_jobs: true, outcome: ModuleOutcome::Failed(e) },
        (EvalPhase::DrainingAfterMain { promise }, EvalEvent::MicroTasksDrained(Ok(()))) => post
            == EvalPhase::Done && action == EvalAction::Finish {
            run_jobs: false,
            outcome: if promise {
                ModuleOutcome::Promise
            } else {
                ModuleOutcome::NoPromise
            },
        },
        (_, EvalEvent::MicroTasksDrained(Err(e))) => post == EvalPhase::Done && action
            == EvalAction::Finish { run_jobs: false, outcome: ModuleOutcome::Failed(e) },
        _ => false,
    }
}

/// How many steps at most remain in the evaluation.
pub open spec fn eval_rank(phase: EvalPhase) -> nat {
    match phase {
        EvalPhase::EvaluatingScript => 5,
        EvalPhase::DrainingAfterScript => 4,
        EvalPhase::CheckingMain => 3,
        EvalPhase::CallingMain => 2,
        EvalPhase::DrainingAfterMain { .. } => 1,
        EvalPhase::Done => 0,
    }
}

/// The evaluation of a task's JavaScript file.
#[derive(Debug)]
pub struct Evaluation {
    phase: EvalPhase,
}

impl Evaluation {
    /// Where the evaluation is.
    pub closed spec fn view(&self) -> EvalPhase {
        self.phase
    }

    /// An evaluation that is about to evaluate the source text.
    pub fn new() -> (e: Self)
        ensures
            e@ == EvalPhase::EvaluatingScript,
    {
        Evaluation { phase: EvalPhase::EvaluatingScript }
    }

    /// Where the evaluation is.
    pub fn phase(&self) -> (p: EvalPhase)
        ensures
            p == self@,
    {
        self.phase
    }

    /// Whether the evaluation, where it is now, waits for `event`.
    pub fn accepts(&self, event: &EvalEvent) -> (b: bool)
        ensures
            b == eval_accepts(self@, *event),
    {
        match (self.phase, event) {
            (EvalPhase::EvaluatingScript, EvalEvent::ScriptEvaluated(_)) => true,
            (EvalPhase::DrainingAfterScript, EvalEvent::MicroTasksDrained(_)) => true,
            (EvalPhase::CheckingMain, EvalEvent::MainChecked(_)) => true,
            (EvalPhase::CallingMain, EvalEvent::MainCalled(_)) => true,
            (EvalPhase::DrainingAfterMain { .. }, EvalEvent::MicroTasksDrained(_)) => true,
            _ => false,
        }
    }

    /// Take one step of the evaluation.
    pub fn step(&mut self, event: EvalEvent) -> (action: EvalAction)
        requires
            eval_accepts(old(self)@, event),
        ensures
            eval_step_spec(old(self)@, event, final(self)@, action),
    {
        match event {
            EvalEvent::ScriptEvaluated(Ok(())) => {
                self.phase = EvalPhase::DrainingAfterScript;
                EvalAction::DrainMicroTasks
            },
            EvalEvent::ScriptEvaluated(Err(e)) => {
                self.phase = EvalPhase::Done;
                EvalAction::Finish { run_jobs: true, outcome: ModuleOutcome::Failed(e) }
            },
            EvalEvent::MicroTasksDrained(Err(e)) => {
                self.phase = EvalPhase::Done;
                EvalAction::Finish { run_jobs: false, outcome: ModuleOutcome::Failed(e) }
            },
            EvalEvent::MicroTasksDrained(Ok(())) => match self.phase {
                EvalPhase::DrainingAfterMain { promise } => {
                    self.phase = EvalPhase::Done;
                    let outcome = if promise {
                        ModuleOutcome::Promise
                    } else {
                        ModuleOutcome::NoPromise
                    };
                    EvalAction::Finish { run_jobs: false, outcome }
                },
                _ => {
                    self.phase = EvalPhase::CheckingMain;
                    EvalAction::CheckForMain
                },
            },
            EvalEvent::MainChecked(true) => {
                self.phase = EvalPhase::CallingMain;
                EvalAction::CallMain
            },
            EvalEvent::MainChecked(false) => {
                self.phase = EvalPhase::Done;
                EvalAction::Finish { run_jobs: false, outcome: ModuleOutcome::NoPromise }
            },
            EvalEvent::MainCalled(Ok(promise)) => {
                self.phase = EvalPhase::DrainingAfterMain { promise };
                EvalAction::DrainMicroTasks
            },
            EvalEvent::MainCalled(Err(e)) => {
                self.phase = EvalPhase::Done;
                EvalAction::Finish { run_jobs: true, outcome: ModuleOutcome::Failed(e) }
            },
        }
    }
}

/// Every step of an evaluation brings it closer to its end, and it finishes
/// exactly when it reaches its end: an evaluation takes at most five steps.
pub proof fn law_evaluation_terminates(
    pre: EvalPhase,
    event: EvalEvent,
    post: EvalPhase,
    action: EvalAction,
)
    requires
        eval_accepts(pre, event),
        eval_step_spec(pre, event, post, action),
    ensures
        eval_rank(post) < eval_rank(pre),
        post == EvalPhase::Done <==> action is Finish,
{
}

/// A file whose evaluation throws never has its `main` called.
pub proof fn law_failed_script_skips_main(
    error: Error,
    post: EvalPhase,
    action: EvalAction,
)
    requires
        eval_step_spec(EvalPhase::EvaluatingScript, EvalEvent::ScriptEvaluated(Err(error)), post, action),
    ensures
        post == EvalPhase::Done,
        action == (EvalAction::Finish { run_jobs: true, outcome: ModuleOutcome::Failed(error) }),
{
}

/// Every error the evaluation meets ends it with exactly that error: an
/// exception from the script or from `main`, or a failed micro-task drain
/// (such as an unhandled rejected promise), in whichever phase it comes.
pub proof fn law_errors_fail_the_evaluation(
    pre: EvalPhase,
    event: EvalEvent,
    post: EvalPhase,
    action: EvalAction,
    error: Error,
)
    requires
        eval_accepts(pre, event),
        eval_step_spec(pre, event, post, action),
        event == EvalEvent::ScriptEvaluated(Err(error)) || event == EvalEvent::MicroTasksDrained(
            Err(error),
        ) || event == EvalEvent::MainCalled(Err(error)),
    ensures
        post == EvalPhase::Done,
        action matches EvalAction::Finish { outcome, .. } && outcome == ModuleOutcome::Failed(
            error,
        ),
{
}

/// The evaluation's outcome always has a cause: it fails only with an error
/// that it was handed; it ends without a promise only when there is no
/// `main`, or `main` returned no promise and the queue drained cleanly; it
/// ends with a promise only when `main` returned one and the queue drained
/// cleanly. Pending jobs are run exactly when an exception ended it.
pub proof fn law_outcome_has_a_cause(
    pre: EvalPhase,
    event: EvalEvent,
    post: EvalPhase,
    run_jobs: bool,
    outcome: ModuleOutcome,
)
    requires
        eval_accepts(pre, event),
        eval_step_spec(pre, event, post, (EvalAction::Finish { run_jobs, outcome })),
    ensures
        outcome matches ModuleOutcome::Failed(e) ==> (event == EvalEvent::ScriptEvaluated(Err(e))
            || event == EvalEvent::MicroTasksDrained(Err(e)) || event == EvalEvent::MainCalled(
            Err(e),
        )),
        outcome is NoPromise ==> (event == EvalEvent::MainChecked(false) || (pre
            == (EvalPhase::DrainingAfterMain { promise: false }) && (event matches EvalEvent::MicroTasksDrained(Ok(_))))),
        outcome is Promise ==> (pre == (EvalPhase::DrainingAfterMain { promise: true }) && (event matches EvalEvent::MicroTasksDrained(Ok(_)))),
        !(outcome is NotReady),
        run_jobs <==> (event is ScriptEvaluated || event is MainCalled),
{
}

/// `main` is looked for only after the script ran and the queue drained
/// cleanly, and called only when it exists.
pub proof fn law_main_only_after_clean_start(
    pre: EvalPhase,
    event: EvalEvent,
    post: EvalPhase,
    action: EvalAction,
)
    requires
        eval_accepts(pre, event),
        eval_step_spec(pre, event, post, action),
    ensures
        action is CheckForMain ==> (pre == EvalPhase::DrainingAfterScript && (event matches EvalEvent::MicroTasksDrained(Ok(_)))),
        action is CallMain ==> (pre == EvalPhase::CheckingMain && event
            == EvalEvent::MainChecked(true)),
{
}

/// A clean run of the script leads to a drain; a returning `main` leads to a
/// drain that remembers whether it returned a promise.
pub proof fn law_clean_steps_drain(
    pre: EvalPhase,
    event: EvalEvent,
    post: EvalPhase,
    action: EvalAction,
)
    requires
        eval_accepts(pre, event),
        eval_step_spec(pre, event, post, action),
    ensures
        event matches EvalEvent::ScriptEvaluated(Ok(_)) ==> (post == EvalPhase::DrainingAfterScript
            && action is DrainMicroTasks),
        event matches EvalEvent::MainCalled(Ok(p)) ==> (post == (EvalPhase::DrainingAfterMain {
            promise: p,
        }) && action is DrainMicroTasks),
        event == EvalEvent::MainChecked(true) ==> (post == EvalPhase::CallingMain
            && action is CallMain),
        event == EvalEvent::MainChecked(false) ==> (post == EvalPhase::Done && action
            == (EvalAction::Finish { run_jobs: false, outcome: ModuleOutcome::NoPromise })),
{
}

} // verus!
