//! Result records: the durable ledger of one task's execution.

use vstd::prelude::*;

use crate::enums::ResultStatus;

verus! {

/// The persisted record of one task's execution: which node ran, how far
/// the run has come, and — once terminal — the captured output.
#[derive(Clone, Debug, PartialEq, Eq)]
pub struct Model {
    /// Row identity, assigned by storage on insertion.
    pub id: i32,
    /// The task this record belongs to; exactly one record exists per task.
    pub task_id: u128,
    /// The code node the task runs.
    pub code_node_id: i32,
    pub status: ResultStatus,
    /// Captured combined output, present exactly on a terminal status.
    pub output: Option<String>,
}

impl Model {
    /// A record is well formed when it carries output exactly on a
    /// terminal status.
    pub open spec fn well_formed(self) -> bool {
        self.output is Some <==> self.status.spec_is_terminal()
    }

    /// One record advances to another when the identities are unchanged
    /// and the status has not regressed; a terminal status never changes.
    pub open spec fn advances_to(self, later: Model) -> bool {
        &&& later.task_id == self.task_id
        &&& later.code_node_id == self.code_node_id
        &&& self.status.rank() <= later.status.rank()
        &&& self.status.spec_is_terminal() ==> later.status == self.status
    }

    /// A faithful copy, usable where the record is both kept and handed out.
    pub fn duplicate(&self) -> (r: Self)
        ensures
            r == *self,
    {
        Model {
            id: self.id,
            task_id: self.task_id,
            code_node_id: self.code_node_id,
            status: self.status,
            output: match &self.output {
                Some(text) => Some(text.clone()),
                None => None,
            },
        }
    }
}

} // verus!
