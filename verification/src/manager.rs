//! The manager's decisions: where a translated task goes, and when to stop
//! collecting receipts.

use vstd::prelude::*;
use crate::moat1_translator::{translator_rejection, with_task_id, StructuredCommand, TranslatorGate};

verus! {

/// What becomes of one raw task.
pub enum Assignment {
    /// Send `command` down the pipeline of worker `worker_index`.
    Deliver { worker_index: usize, command: StructuredCommand },
    /// The command was admitted but there is no worker `worker_index`; the
    /// task is dropped.
    NoWorker { worker_index: usize, task_id: usize },
    /// The translator gate refused the task with `reason`.
    Rejected { task_id: usize, reason: &'static str },
}

/// Decides where task number `task_counter`, given as `raw_json`, goes when
/// the manager has `worker_count` pipelines and the caller asked for worker
/// `worker_index`. `parsed` is the schema reading of the trimmed input, as
/// for [`TranslatorGate::sanitize_and_translate`].
pub fn route_task(
    worker_count: usize,
    worker_index: usize,
    raw_json: &str,
    task_counter: usize,
    parsed: Option<StructuredCommand>,
) -> (a: Assignment)
    ensures
        match translator_rejection(raw_json@, parsed) {
            Some(why) => a matches Assignment::Rejected { task_id, reason } && task_id
                == task_counter && reason@ == why.text(),
            None => if worker_index < worker_count {
                a == (Assignment::Deliver {
                    worker_index,
                    command: with_task_id(parsed->0, task_counter),
                })
            } else {
                a == (Assignment::NoWorker { worker_index, task_id: task_counter })
            },
        },
{
    match TranslatorGate::sanitize_and_translate(raw_json, task_counter, parsed) {
        Ok(command) => {
            if worker_index < worker_count {
                Assignment::Deliver { worker_index, command }
            } else {
                Assignment::NoWorker { worker_index, task_id: task_counter }
            }
        },
        Err(reason) => Assignment::Rejected { task_id: task_counter, reason },
    }
}

/// How many receipts the manager has collected of those it expects.
pub struct DrainProgress {
    collected: usize,
    expected: usize,
}

impl DrainProgress {
    #[verifier::type_invariant]
    spec fn within_expected(self) -> bool {
        self.collected <= self.expected
    }

    /// Receipts collected so far.
    pub closed spec fn collected_count(self) -> nat {
        self.collected as nat
    }

    /// Receipts expected in all.
    pub closed spec fn expected_count(self) -> nat {
        self.expected as nat
    }

    /// Nothing collected yet of `expected` receipts.
    pub fn new(expected: usize) -> (d: DrainProgress)
        ensures
            d.collected_count() == 0,
            d.expected_count() == expected,
    {
        DrainProgress { collected: 0, expected }
    }

    /// Receipts collected so far.
    pub fn collected(&self) -> (n: usize)
        ensures
            n == self.collected_count(),
    {
        self.collected
    }

    /// Whether another receipt is still expected.
    pub fn wants_more(&self) -> (b: bool)
        ensures
            b == (self.collected_count() < self.expected_count()),
    {
        self.collected < self.expected
    }

    /// Counts one more receipt. The count never passes the number expected.
    pub fn record(&mut self)
        requires
            old(self).collected_count() < old(self).expected_count(),
        ensures
            final(self).collected_count() == old(self).collected_count() + 1,
            final(self).expected_count() == old(self).expected_count(),
            final(self).collected_count() <= final(self).expected_count(),
    {
        proof {
            use_type_invariant(&*self);
        }
        self.collected = self.collected + 1;
    }
}

} // verus!
