//! Sealed receipts: the only value a worker hands back up to the manager.

use vstd::prelude::*;

verus! {

/// The outcome of one task, as a worker reports it.
#[derive(Debug)]
pub struct ExecutionReceipt {
    pub task_id: usize,
    pub success: bool,
    pub log: String,
}

/// The status word a receipt is shown with.
pub open spec fn status_text(success: bool) -> Seq<char> {
    if success {
        "SUCCESS"@
    } else {
        "FAILED"@
    }
}

impl ExecutionReceipt {
    /// A receipt for a task that completed.
    pub fn success(task_id: usize, log: String) -> (r: ExecutionReceipt)
        ensures
            r.task_id == task_id,
            r.success,
            r.log == log,
    {
        ExecutionReceipt { task_id, success: true, log }
    }

    /// A receipt for a task that was stopped.
    pub fn failure(task_id: usize, log: String) -> (r: ExecutionReceipt)
        ensures
            r.task_id == task_id,
            !r.success,
            r.log == log,
    {
        ExecutionReceipt { task_id, success: false, log }
    }

    /// `SUCCESS` or `FAILED`, as the manager prints it.
    pub fn status_label(&self) -> (s: &'static str)
        ensures
            s@ == status_text(self.success),
    {
        if self.success {
            "SUCCESS"
        } else {
            "FAILED"
        }
    }
}

} // verus!
