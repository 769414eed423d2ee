//! Carrying out the commands of one phase, one after the other, up to the
//! first that fails.

use crate::sync::entity::SyncEntity;
use crate::sync::errors::SyncError;
use crate::sync::orchestrator::PhaseOutcome;
use crate::sync::reconcile::{conflict_count, synced_count, SyncPlan, SyncStep};
use vstd::prelude::*;

verus! {

/// How far a phase has come.
pub struct PhaseRunView<T> {
    /// The commands of the phase.
    pub steps: Seq<SyncStep<T>>,
    /// How many of them have been carried out.
    pub applied: nat,
    /// Why the phase stopped, if a command failed.
    pub failure: Option<Seq<char>>,
}

impl<T> PhaseRunView<T> {
    /// The command to carry out next: the first that has not been carried
    /// out, unless a command failed or none is left.
    pub open spec fn next(self) -> Option<SyncStep<T>> {
        if self.failure is None && self.applied < self.steps.len() {
            Some(self.steps[self.applied as int])
        } else {
            None
        }
    }

    /// The state after the command that was next ended as `result` says:
    /// carried out, it counts; failed, it stops the phase, and what was
    /// carried out before it stays carried out.
    pub open spec fn after(self, result: Result<(), SyncError>) -> PhaseRunView<T> {
        match result {
            Ok(_) => PhaseRunView { applied: self.applied + 1, ..self },
            Err(e) => PhaseRunView { failure: Some(e.description()), ..self },
        }
    }
}

/// A phase in progress: its commands, and how far it has come with them.
pub struct PhaseRun<E: SyncEntity> {
    plan: SyncPlan<E>,
    applied: usize,
    failure: Option<String>,
}

impl<E: SyncEntity> View for PhaseRun<E> {
    type V = PhaseRunView<E::V>;

    closed spec fn view(&self) -> PhaseRunView<E::V> {
        PhaseRunView {
            steps: self.plan@,
            applied: self.applied as nat,
            failure: self.failure.deep_view(),
        }
    }
}

impl<E: SyncEntity> PhaseRun<E> {
    #[verifier::type_invariant]
    closed spec fn well_formed(self) -> bool {
        self.applied <= self.plan@.len() <= u32::MAX
    }

    /// A phase with all of `plan` ahead. The counts of the phase have to
    /// fit the result of the run.
    pub fn begin(plan: SyncPlan<E>) -> (run: Self)
        requires
            plan@.len() <= u32::MAX,
        ensures
            run@ == (PhaseRunView { steps: plan@, applied: 0, failure: None }),
    {
        PhaseRun { plan, applied: 0, failure: None }
    }

    /// The command to carry out next, or `None` once the phase has come to
    /// its end or a command has failed.
    pub fn next_step(&self) -> (step: Option<&SyncStep<E>>)
        ensures
            match step {
                Some(s) => self@.next() == Some(s@),
                None => self@.next() is None,
            },
    {
        proof {
            use_type_invariant(self);
        }
        if self.failure.is_none() && self.applied < self.plan.steps.len() {
            Some(&self.plan.steps[self.applied])
        } else {
            None
        }
    }

    /// Takes note of how the command that was next ended.
    pub fn step_done(&mut self, result: Result<(), SyncError>)
        requires
            old(self)@.next() is Some,
        ensures
            final(self)@ == old(self)@.after(result),
    {
        proof {
            use_type_invariant(&*self);
        }
        match result {
            Ok(_) => {
                self.applied = self.applied + 1;
            },
            Err(e) => {
                self.failure = Some(e.describe());
            },
        }
    }

    /// How the phase ended: the counts over the commands that were carried
    /// out, and the failure that stopped it, if one did.
    pub fn finish(self) -> (outcome: PhaseOutcome)
        ensures
            outcome.tally.synced == synced_count(self@.steps.take(self@.applied as int)),
            outcome.tally.conflicts == conflict_count(self@.steps.take(self@.applied as int)),
            outcome.failure.deep_view() == self@.failure,
    {
        proof {
            use_type_invariant(&self);
        }
        let tally = self.plan.tally(self.applied);
        PhaseOutcome { tally, failure: self.failure }
    }
}

/// A phase stops at the first command that fails: no command is next after
/// a failure, whatever is left, and the commands carried out before it are
/// not taken back.
pub proof fn law_failure_stops_the_phase<T>(run: PhaseRunView<T>, error: SyncError)
    ensures
        run.after(Err(error)).next() is None,
        run.after(Err(error)).applied == run.applied,
        run.after(Err(error)).steps == run.steps,
{
}

} // verus!
