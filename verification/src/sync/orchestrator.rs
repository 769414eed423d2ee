//! The sync orchestrator: three phases in a fixed order, each failing on its
//! own, gathered into one result.

use crate::models::SyncResult;
use crate::sync::reconcile::Tally;
use crate::text::joined;
use crate::time::Timestamp;
use vstd::prelude::*;

verus! {

/// One of the three reconciliations of a run.
#[derive(Clone, Copy, Debug, PartialEq, Eq, Structural)]
pub enum SyncPhase {
    Tasks,
    Sessions,
    Settings,
}

impl SyncPhase {
    /// The phase that follows, if any: tasks, then sessions, then settings.
    pub open spec fn following(self) -> Option<SyncPhase> {
        match self {
            SyncPhase::Tasks => Some(SyncPhase::Sessions),
            SyncPhase::Sessions => Some(SyncPhase::Settings),
            SyncPhase::Settings => None,
        }
    }

    /// What the description of a failure of this phase starts with.
    pub open spec fn error_prefix(self) -> Seq<char> {
        match self {
            SyncPhase::Tasks => "Task sync error: "@,
            SyncPhase::Sessions => "Session sync error: "@,
            SyncPhase::Settings => "Settings sync error: "@,
        }
    }

    /// The phase that follows, if any.
    pub fn next(&self) -> (next: Option<SyncPhase>)
        ensures
            next == self.following(),
    {
        match self {
            SyncPhase::Tasks => Some(SyncPhase::Sessions),
            SyncPhase::Sessions => Some(SyncPhase::Settings),
            SyncPhase::Settings => None,
        }
    }

    /// The description of a failure of this phase with the cause `cause`.
    pub fn describe_failure(&self, cause: &str) -> (line: String)
        ensures
            line@ == self.error_prefix() + cause@,
    {
        match self {
            SyncPhase::Tasks => joined("Task sync error: ", cause),
            SyncPhase::Sessions => joined("Session sync error: ", cause),
            SyncPhase::Settings => joined("Settings sync error: ", cause),
        }
    }
}

/// How one phase ended: what it synced before it ended, and the cause of its
/// failure if it failed.
#[derive(Debug)]
pub struct PhaseOutcome {
    /// The counts over the commands that were carried out. The settings
    /// phase counts nothing.
    pub tally: Tally,
    /// Why the phase failed, if it did.
    pub failure: Option<String>,
}

impl PhaseOutcome {
    /// A phase that ran to its end.
    pub fn completed(tally: Tally) -> (outcome: PhaseOutcome)
        ensures
            outcome.tally == tally,
            outcome.failure is None,
    {
        PhaseOutcome { tally, failure: None }
    }

    /// A phase that failed with `cause` after the commands counted in `tally`.
    pub fn failed(tally: Tally, cause: String) -> (outcome: PhaseOutcome)
        ensures
            outcome.tally == tally,
            outcome.failure == Some(cause),
    {
        PhaseOutcome { tally, failure: Some(cause) }
    }
}

/// The counts and failures gathered so far.
pub struct RunView {
    pub pending: Option<SyncPhase>,
    pub synced_tasks: nat,
    pub synced_sessions: nat,
    pub conflicts: nat,
    pub errors: Seq<Seq<char>>,
}

/// The state of a run before its first phase.
pub open spec fn run_start() -> RunView {
    RunView {
        pending: Some(SyncPhase::Tasks),
        synced_tasks: 0,
        synced_sessions: 0,
        conflicts: 0,
        errors: Seq::empty(),
    }
}

/// The state of a run after its pending phase ended with `tally` and
/// `failure`. The counts of the phase enter whether it failed or not, a
/// failure adds one description, and the next phase is pending either way.
pub open spec fn run_after(
    run: RunView,
    phase: SyncPhase,
    tally: Tally,
    failure: Option<Seq<char>>,
) -> RunView {
    RunView {
        pending: phase.following(),
        synced_tasks: if phase == SyncPhase::Tasks {
            tally.synced as nat
        } else {
            run.synced_tasks
        },
        synced_sessions: if phase == SyncPhase::Sessions {
            tally.synced as nat
        } else {
            run.synced_sessions
        },
        conflicts: if phase == SyncPhase::Settings {
            run.conflicts
        } else {
            run.conflicts + tally.conflicts as nat
        },
        errors: match failure {
            Some(cause) => run.errors.push(phase.error_prefix() + cause),
            None => run.errors,
        },
    }
}

/// A synchronization run in progress.
pub struct SyncRun {
    pending: Option<SyncPhase>,
    synced_tasks: u32,
    synced_sessions: u32,
    conflicts: u32,
    errors: Vec<String>,
}

impl View for SyncRun {
    type V = RunView;

    closed spec fn view(&self) -> RunView {
        RunView {
            pending: self.pending,
            synced_tasks: self.synced_tasks as nat,
            synced_sessions: self.synced_sessions as nat,
            conflicts: self.conflicts as nat,
            errors: self.errors.deep_view(),
        }
    }
}

impl SyncRun {
    /// A run with all three phases ahead.
    pub fn start() -> (run: SyncRun)
        ensures
            run@ == run_start(),
    {
        let run = SyncRun {
            pending: Some(SyncPhase::Tasks),
            synced_tasks: 0,
            synced_sessions: 0,
            conflicts: 0,
            errors: Vec::new(),
        };
        assert(run.errors.deep_view() =~= Seq::empty());
        run
    }

    /// The phase to run next, or `None` once all three have ended.
    pub fn pending(&self) -> (phase: Option<SyncPhase>)
        ensures
            phase == self@.pending,
            self@.synced_tasks <= u32::MAX,
            self@.synced_sessions <= u32::MAX,
            self@.conflicts <= u32::MAX,
    {
        self.pending
    }

    /// Takes note of how the pending phase ended and moves on to the next
    /// one, whether the phase failed or not.
    pub fn record(&mut self, outcome: PhaseOutcome)
        requires
            old(self)@.pending is Some,
            old(self)@.pending != Some(SyncPhase::Settings) ==> old(self)@.conflicts
                + outcome.tally.conflicts <= u32::MAX,
        ensures
            final(self)@ == run_after(
                old(self)@,
                old(self)@.pending->0,
                outcome.tally,
                outcome.failure.deep_view(),
            ),
    {
        let phase = match self.pending {
            Some(phase) => phase,
            None => SyncPhase::Settings,
        };
        match phase {
            SyncPhase::Tasks => {
                self.synced_tasks = outcome.tally.synced;
                self.conflicts = self.conflicts + outcome.tally.conflicts;
            },
            SyncPhase::Sessions => {
                self.synced_sessions = outcome.tally.synced;
                self.conflicts = self.conflicts + outcome.tally.conflicts;
            },
            SyncPhase::Settings => {},
        }
        let ghost before = self.errors.deep_view();
        match outcome.failure {
            Some(cause) => {
                let line = phase.describe_failure(cause.as_str());
                self.errors.push(line);
                assert(self.errors.deep_view() =~= before.push(phase.error_prefix() + cause@));
            },
            None => {},
        }
        self.pending = phase.next();
    }

    /// The result of the run, finished at `at`.
    pub fn finish(self, at: Timestamp) -> (result: SyncResult)
        ensures
            result_matches(result, self@, at),
    {
        SyncResult {
            success: self.errors.len() == 0,
            synced_tasks: self.synced_tasks,
            synced_sessions: self.synced_sessions,
            conflicts: self.conflicts,
            errors: self.errors,
            last_sync: at,
        }
    }
}

/// `result` reports the counts and failures of `run`, finished at `at`: it
/// is a success if and only if no phase failed, whatever the conflicts.
pub open spec fn result_matches(result: SyncResult, run: RunView, at: Timestamp) -> bool {
    &&& result.success == (run.errors.len() == 0)
    &&& result.synced_tasks == run.synced_tasks
    &&& result.synced_sessions == run.synced_sessions
    &&& result.conflicts == run.conflicts
    &&& result.errors.deep_view() == run.errors
    &&& result.last_sync == at
}

/// Gathers the outcomes of the three phases, in their order, into the result
/// of the run. A phase that failed takes nothing from the others: their
/// counts appear as they are, and its own counts up to the failure too.
pub fn sync_data(
    tasks: PhaseOutcome,
    sessions: PhaseOutcome,
    settings: PhaseOutcome,
    finished_at: Timestamp,
) -> (result: SyncResult)
    requires
        tasks.tally.conflicts + sessions.tally.conflicts <= u32::MAX,
    ensures
        result_matches(
            result,
            run_after(
                run_after(
                    run_after(run_start(), SyncPhase::Tasks, tasks.tally, tasks.failure.deep_view()),
                    SyncPhase::Sessions,
                    sessions.tally,
                    sessions.failure.deep_view(),
                ),
                SyncPhase::Settings,
                settings.tally,
                settings.failure.deep_view(),
            ),
            finished_at,
        ),
        result.synced_tasks == tasks.tally.synced,
        result.synced_sessions == sessions.tally.synced,
        result.conflicts == tasks.tally.conflicts + sessions.tally.conflicts,
        result.success == (tasks.failure is None && sessions.failure is None && settings.failure
            is None),
{
    let mut run = SyncRun::start();
    run.record(tasks);
    run.record(sessions);
    run.record(settings);
    run.finish(finished_at)
}

/// Partial-failure isolation: a phase that fails adds its description and
/// nothing else. The phase after it is pending as if it had not failed, the
/// counts of the other phases stay as they are, and its own counts up to
/// the failure enter the result.
pub proof fn law_failed_phase_is_isolated(
    run: RunView,
    phase: SyncPhase,
    tally: Tally,
    cause: Seq<char>,
)
    ensures
        ({
            let failed = run_after(run, phase, tally, Some(cause));
            let passed = run_after(run, phase, tally, None);
            &&& failed.pending == phase.following()
            &&& failed.pending == passed.pending
            &&& failed.synced_tasks == passed.synced_tasks
            &&& failed.synced_sessions == passed.synced_sessions
            &&& failed.conflicts == passed.conflicts
            &&& failed.errors == run.errors.push(phase.error_prefix() + cause)
            &&& passed.errors == run.errors
            &&& phase != SyncPhase::Tasks ==> failed.synced_tasks == run.synced_tasks
            &&& phase != SyncPhase::Sessions ==> failed.synced_sessions == run.synced_sessions
        }),
{
}

/// A run in which the session phase alone fails reports exactly one error,
/// the one of the session phase with its cause, and is no success; the
/// counts of the task phase, and those of the session phase up to its
/// failure, stand in the result all the same.
pub proof fn law_only_the_session_phase_fails(
    tasks: Tally,
    sessions: Tally,
    settings: Tally,
    cause: Seq<char>,
    result: SyncResult,
    at: Timestamp,
)
    requires
        result_matches(
            result,
            run_after(
                run_after(
                    run_after(run_start(), SyncPhase::Tasks, tasks, None),
                    SyncPhase::Sessions,
                    sessions,
                    Some(cause),
                ),
                SyncPhase::Settings,
                settings,
                None,
            ),
            at,
        ),
    ensures
        result.errors.deep_view() == seq!["Session sync error: "@ + cause],
        !result.success,
        result.synced_tasks == tasks.synced,
        result.synced_sessions == sessions.synced,
        result.conflicts == tasks.conflicts + sessions.conflicts,
{
    let errors = Seq::<Seq<char>>::empty().push("Session sync error: "@ + cause);
    assert(errors =~= seq!["Session sync error: "@ + cause]);
}

} // verus!
