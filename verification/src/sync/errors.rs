//! What can go wrong in a phase, and how it is described.

use crate::sync::orchestrator::PhaseOutcome;
use crate::sync::reconcile::Tally;
use vstd::prelude::*;

verus! {

/// A collection of records that are kept under identifiers.
#[derive(Clone, Copy, Debug, PartialEq, Eq, Structural)]
pub enum Collection {
    Tasks,
    Sessions,
}

/// Why a phase failed.
#[derive(Debug)]
pub enum SyncError {
    /// The remote service did not answer with a success, or could not be
    /// reached; the text says which.
    Transport(String),
    /// What the remote service sent is not what was expected of it.
    Serialization(String),
    /// The local store failed.
    Storage(String),
    /// The local store changed a record and then did not find it.
    NotFound(Collection),
}

impl SyncError {
    /// The description of the error.
    pub open spec fn description(self) -> Seq<char> {
        match self {
            SyncError::Transport(text) => text@,
            SyncError::Serialization(text) => text@,
            SyncError::Storage(text) => text@,
            SyncError::NotFound(Collection::Tasks) => "Task not found after update"@,
            SyncError::NotFound(Collection::Sessions) => "Session not found after update"@,
        }
    }

    /// The description of the error.
    pub fn describe(&self) -> (text: String)
        ensures
            text@ == self.description(),
    {
        match self {
            SyncError::Transport(text) => text.clone(),
            SyncError::Serialization(text) => text.clone(),
            SyncError::Storage(text) => text.clone(),
            SyncError::NotFound(Collection::Tasks) => "Task not found after update".to_owned(),
            SyncError::NotFound(Collection::Sessions) => "Session not found after update".to_owned(),
        }
    }
}

impl PhaseOutcome {
    /// How a phase ended that carried out the commands counted in `tally`
    /// and then came to its end or to `error`. Whatever the kind of the
    /// error, the phase reports its description and nothing else of it.
    pub fn of(tally: Tally, error: Option<SyncError>) -> (outcome: PhaseOutcome)
        ensures
            outcome.tally == tally,
            outcome.failure.deep_view() == match error {
                Some(e) => Some(e.description()),
                None => None,
            },
    {
        match error {
            Some(e) => PhaseOutcome::failed(tally, e.describe()),
            None => PhaseOutcome::completed(tally),
        }
    }
}

} // verus!
