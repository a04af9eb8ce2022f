//! The lifecycle contract of a background encryption task: one task is
//! spawned per request, runs to completion or failure without a cancel path,
//! and delivers exactly one outcome to the context that spawned it.
//!
//! The thread and the channel themselves live with the caller; this tracker
//! is the verified state machine they must follow, and its contracts make a
//! second completion, or an outcome read before completion, impossible.

use crate::method::EncryptError;
use vstd::prelude::*;

verus! {

/// Where a task stands in its life.
#[derive(Clone, Copy, Debug, PartialEq, Eq, Structural)]
pub enum TaskPhase {
    /// Created, not yet handed to a worker.
    NotStarted,
    /// Handed to a worker; no outcome has arrived.
    Running,
    /// The single outcome has arrived.
    Done,
}

/// Tracks one task from creation to its single completion.
pub struct TaskTracker {
    phase: TaskPhase,
    outcome: Option<Result<(), EncryptError>>,
}

impl TaskTracker {
    /// The phase the task is in.
    pub closed spec fn phase(self) -> TaskPhase {
        self.phase
    }

    /// The outcome delivered so far, if any.
    pub closed spec fn outcome(self) -> Option<Result<(), EncryptError>> {
        self.outcome
    }

    /// An outcome exists exactly when the task is done.
    pub open spec fn wf(self) -> bool {
        self.outcome() is Some <==> self.phase() is Done
    }

    /// A fresh tracker for a request that has not been handed to a worker.
    pub fn new() -> (r: TaskTracker)
        ensures
            r.wf(),
            r.phase() is NotStarted,
    {
        TaskTracker { phase: TaskPhase::NotStarted, outcome: None }
    }

    /// Records that the request was handed to a worker. Allowed once: a
    /// running or finished task cannot be started again.
    pub fn start(&mut self)
        requires
            old(self).wf(),
            old(self).phase() is NotStarted,
        ensures
            final(self).wf(),
            final(self).phase() is Running,
            final(self).outcome() is None,
    {
        self.phase = TaskPhase::Running;
    }

    /// Records the task's single outcome. Allowed only while the task is
    /// running, so exactly one outcome is ever recorded per started task.
    pub fn complete(&mut self, outcome: Result<(), EncryptError>)
        requires
            old(self).wf(),
            old(self).phase() is Running,
        ensures
            final(self).wf(),
            final(self).phase() is Done,
            final(self).outcome() == Some(outcome),
    {
        self.outcome = Some(outcome);
        self.phase = TaskPhase::Done;
    }

    /// The phase, for a caller that must test it before `start` or
    /// `complete`.
    pub fn current_phase(&self) -> (r: TaskPhase)
        ensures
            r == self.phase(),
    {
        self.phase
    }

    /// Hands the outcome out, once the task is done.
    pub fn take_outcome(self) -> (r: Result<(), EncryptError>)
        requires
            self.wf(),
            self.phase() is Done,
        ensures
            Some(r) == self.outcome(),
    {
        match self.outcome {
            Some(o) => o,
            // Unreachable: a done task always holds its outcome.
            None => Err(EncryptError::NoInputs),
        }
    }
}

} // verus!
