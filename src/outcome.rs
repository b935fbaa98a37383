use vstd::prelude::*;
use crate::role::WorkerRole;

verus! {

/// What a guest threw or rejected with.
pub struct GuestError {
    pub description: String,
    /// Classified error class, such as `TypeError`.
    pub class_name: String,
}

/// The closed set of terminal outcomes of one run.
pub enum ExecutionOutcome {
    Completed,
    /// The deadline passed after the root module settled, with work still pending.
    TimedOut,
    /// The deadline passed before the root module's evaluation settled.
    ModuleEvaluationTimedOut,
    HeapLimitReached,
    ErrorThrown(GuestError),
    ForceQuit,
    /// A scheduler fault that is not the guest's doing.
    Unknown,
}

/// State of the guest's cooperative scheduler.
pub enum SchedulerState {
    /// Work is still scheduled.
    Pending,
    /// No further work is scheduled.
    Idle,
    /// The scheduler itself failed.
    Fault,
}

/// State of the root module's evaluation.
pub enum EvaluationState {
    Unsettled,
    Fulfilled,
    Rejected(GuestError),
}

/// What the host observed of a run at one moment.
pub struct RunObservation {
    pub force_quit: bool,
    /// Milliseconds since the run began.
    pub elapsed_ms: u64,
    /// The heap ceiling was hit, or an allocation was refused for it.
    pub heap_limit_hit: bool,
    pub scheduler: SchedulerState,
    pub evaluation: EvaluationState,
}

/// The deadline of `role` has passed after `elapsed_ms` milliseconds.
pub open spec fn deadline_passed(role: WorkerRole, elapsed_ms: u64) -> bool {
    match role.spec_deadline_ms() {
        Some(t) => elapsed_ms >= t,
        None => false,
    }
}

/// The outcome of a run of `role` given `obs`, or `None` while the run goes on.
/// Stop conditions in priority order: force-quit, deadline, heap ceiling,
/// scheduler fault, and last the root module's result once nothing is pending.
/// A root module that has not settled ends a run only through the deadline.
pub open spec fn outcome_of(role: WorkerRole, obs: RunObservation) -> Option<ExecutionOutcome> {
    if obs.force_quit {
        Some(ExecutionOutcome::ForceQuit)
    } else if deadline_passed(role, obs.elapsed_ms) {
        match obs.evaluation {
            EvaluationState::Unsettled => Some(ExecutionOutcome::ModuleEvaluationTimedOut),
            _ => Some(ExecutionOutcome::TimedOut),
        }
    } else if obs.heap_limit_hit {
        Some(ExecutionOutcome::HeapLimitReached)
    } else {
        match obs.scheduler {
            SchedulerState::Fault => Some(ExecutionOutcome::Unknown),
            SchedulerState::Idle => match obs.evaluation {
                EvaluationState::Fulfilled => Some(ExecutionOutcome::Completed),
                EvaluationState::Rejected(e) => Some(ExecutionOutcome::ErrorThrown(e)),
                // the root module may still settle; only the deadline ends this
                EvaluationState::Unsettled => None,
            },
            SchedulerState::Pending => match obs.evaluation {
                EvaluationState::Rejected(e) => Some(ExecutionOutcome::ErrorThrown(e)),
                _ => None,
            },
        }
    }
}

/// Decides the outcome of a run from one observation of it: `None` means the
/// run goes on. At most one outcome is ever produced for one observation.
pub fn classify(role: &WorkerRole, obs: RunObservation) -> (r: Option<ExecutionOutcome>)
    ensures
        r == outcome_of(*role, obs),
{
    if obs.force_quit {
        return Some(ExecutionOutcome::ForceQuit);
    }
    let passed = match role.deadline_ms() {
        Some(t) => obs.elapsed_ms >= t,
        None => false,
    };
    if passed {
        return match obs.evaluation {
            EvaluationState::Unsettled => Some(ExecutionOutcome::ModuleEvaluationTimedOut),
            _ => Some(ExecutionOutcome::TimedOut),
        };
    }
    if obs.heap_limit_hit {
        return Some(ExecutionOutcome::HeapLimitReached);
    }
    match obs.scheduler {
        SchedulerState::Fault => Some(ExecutionOutcome::Unknown),
        SchedulerState::Idle => match obs.evaluation {
            EvaluationState::Fulfilled => Some(ExecutionOutcome::Completed),
            EvaluationState::Rejected(e) => Some(ExecutionOutcome::ErrorThrown(e)),
            EvaluationState::Unsettled => None,
        },
        SchedulerState::Pending => match obs.evaluation {
            EvaluationState::Rejected(e) => Some(ExecutionOutcome::ErrorThrown(e)),
            _ => None,
        },
    }
}

} // verus!
