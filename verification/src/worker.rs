//! The worker's decisions. A worker takes each command through inspection,
//! the sandbox, a snapshot, the write and a health check, in that order, and
//! answers every command with exactly one receipt. The file system, the
//! channels and the health sampling are outside work: the worker asks for
//! them as actions and is told their outcome as events.

use vstd::prelude::*;
use vstd::string::*;
use crate::moat1_translator::StructuredCommand;
use crate::moat2_sandbox::{minimal_wasm_bytes, sandbox_verdict, BurnerSandbox};
use crate::moat3_inspector::{is_clean, string_views, violations_of, CodeInspector};
use crate::moat4_pipes::ExecutionReceipt;
use crate::moat5_rollback::{breach_text, restore_plan_of, HealthVerdict, RollbackPlan, TargetSnapshot};

verus! {

/// The `Debug` rendering of a list of strings, as `format!("{:?}", v)`
/// gives it for a `Vec<String>`.
pub uninterp spec fn debug_string_list(items: Seq<Seq<char>>) -> Seq<char>;

/// `format!("{:?}", items)` on a `Vec<String>` (std's `Debug` for vectors and
/// strings). Its text is named, not stated: it depends on the strings alone.
#[verifier::external_body]
fn debug_format_strings(items: &Vec<String>) -> (s: String)
    ensures
        s@ == debug_string_list(string_views(items@)),
{
    format!("{:?}", items)
}

/// Where a worker stands with the command it is working on.
pub enum WorkerPhase {
    /// Waiting for the next command.
    Idle,
    /// Inspection and sandbox passed; waiting for the snapshot of the target.
    Snapshotting { cmd: StructuredCommand },
    /// Waiting for the target's directory to be created.
    PreparingDirectory { cmd: StructuredCommand, snapshot: TargetSnapshot },
    /// Waiting for the payload to be written.
    Writing { cmd: StructuredCommand, snapshot: TargetSnapshot },
    /// Waiting for the post-deployment health sample.
    Checking { cmd: StructuredCommand, snapshot: TargetSnapshot },
    /// Waiting for the rollback to be carried out.
    RollingBack { task_id: usize, reason: String },
    /// The command channel closed; the worker has shut down.
    Stopped,
}

/// What the outside world reports to a worker.
pub enum WorkerEvent {
    /// A command arrived on the worker's channel.
    CommandReceived(StructuredCommand),
    /// The command channel closed.
    ChannelClosed,
    /// The requested snapshot was taken.
    SnapshotTaken(TargetSnapshot),
    /// The target's directory was created, or creating it failed with the
    /// given error text.
    DirectoryPrepared(Result<(), String>),
    /// The payload was written, or writing failed with the given error text.
    PayloadWritten(Result<(), String>),
    /// The health sample: whether each ceiling was breached, and the
    /// sampled figures as text.
    HealthSampled { cpu_breach: bool, mem_breach: bool, cpu_text: String, mem_text: String },
    /// The requested rollback was carried out.
    RollbackApplied,
}

/// What a worker asks the outside world to do next.
pub enum WorkerAction {
    /// Read the current contents of `path`.
    TakeSnapshot { path: String },
    /// Create the parent directory of `path`.
    PrepareDirectory { path: String },
    /// Write `payload` to `path`.
    WritePayload { path: String, payload: String },
    /// Sample CPU and memory usage.
    SampleHealth,
    /// Carry out `plan`.
    Rollback { plan: RollbackPlan },
    /// Send `receipt` to the manager, then wait for the next command.
    SendReceipt { receipt: ExecutionReceipt },
    /// Stop.
    Shutdown,
}

/// Receipt text for a payload stopped by inspection.
pub open spec fn inspection_failure_text(code: Seq<char>) -> Seq<char> {
    "Code inspection blocked: "@ + debug_string_list(violations_of(code))
}

/// Receipt text prefix for a sandbox failure.
pub open spec fn sandbox_failure_prefix() -> Seq<char> {
    "Sandbox execution failed: "@
}

/// Receipt text for a directory that could not be created.
pub open spec fn directory_failure_text(e: Seq<char>) -> Seq<char> {
    "Failed to create output directory: "@ + e
}

/// Receipt text for a write that failed.
pub open spec fn write_failure_text(e: Seq<char>) -> Seq<char> {
    "Disk write failed: "@ + e
}

/// Receipt text for a deployment that stayed healthy.
pub open spec fn deployed_text(path: Seq<char>) -> Seq<char> {
    "Feature deployed to "@ + path + " \u{2014} system nominal."@
}

/// `a` sends a receipt for task `task_id` with the given outcome and text.
pub open spec fn sends_receipt(a: WorkerAction, task_id: usize, success: bool, log: Seq<char>) -> bool {
    a matches WorkerAction::SendReceipt { receipt } && receipt.task_id == task_id && receipt.success
        == success && receipt.log@ == log
}

/// What the sandbox reports for the minimal module that every command is
/// dry-run against.
pub open spec fn runtime_check_verdict() -> Result<(), Seq<char>> {
    sandbox_verdict(minimal_wasm_bytes())
}

/// `a` asks for a snapshot of `path`.
pub open spec fn asks_snapshot(a: WorkerAction, path: String) -> bool {
    a matches WorkerAction::TakeSnapshot { path: p } && p == path
}

/// `a` asks for the parent directory of `path`.
pub open spec fn asks_directory(a: WorkerAction, path: String) -> bool {
    a matches WorkerAction::PrepareDirectory { path: p } && p == path
}

/// `a` asks for `payload` to be written to `path`.
pub open spec fn asks_write(a: WorkerAction, path: String, payload: String) -> bool {
    a matches WorkerAction::WritePayload { path: p, payload: b } && p == path && b == payload
}

/// `a` asks for a rollback that does `plan`.
pub open spec fn asks_rollback(a: WorkerAction, plan: crate::moat5_rollback::FileAction) -> bool {
    a matches WorkerAction::Rollback { plan: p } && p@ == plan
}

/// `q` waits for a rollback, after which it reports `reason` for `task_id`.
pub open spec fn is_rolling_back(q: WorkerPhase, task_id: usize, reason: Seq<char>) -> bool {
    q matches WorkerPhase::RollingBack { task_id: t, reason: r } && t == task_id && r@ == reason
}

impl WorkerPhase {
    /// The command the phase holds, if any.
    pub open spec fn command(self) -> Option<StructuredCommand> {
        match self {
            WorkerPhase::Snapshotting { cmd } => Some(cmd),
            WorkerPhase::PreparingDirectory { cmd, .. } => Some(cmd),
            WorkerPhase::Writing { cmd, .. } => Some(cmd),
            WorkerPhase::Checking { cmd, .. } => Some(cmd),
            _ => None,
        }
    }

    /// The snapshot the phase holds, if any.
    pub open spec fn snapshot(self) -> Option<TargetSnapshot> {
        match self {
            WorkerPhase::PreparingDirectory { snapshot, .. } => Some(snapshot),
            WorkerPhase::Writing { snapshot, .. } => Some(snapshot),
            WorkerPhase::Checking { snapshot, .. } => Some(snapshot),
            _ => None,
        }
    }

    /// Every command the worker holds past the checks passed inspection, and
    /// every snapshot it holds is of that command's target.
    pub open spec fn well_formed(self) -> bool {
        &&& self.command() matches Some(cmd) ==> is_clean(cmd.code_payload@)
        &&& self.snapshot() matches Some(s) ==> s.filepath@ == self.command()->0.target_path@
    }

    /// The task the worker is answering in this phase, if any.
    pub open spec fn task_in_flight(self) -> Option<usize> {
        match self {
            WorkerPhase::RollingBack { task_id, .. } => Some(task_id),
            _ => match self.command() {
                Some(cmd) => Some(cmd.task_id),
                None => None,
            },
        }
    }

    /// `e` is an event the worker can be told in this phase.
    pub open spec fn expects(self, e: WorkerEvent) -> bool {
        match self {
            WorkerPhase::Idle => e is CommandReceived || e is ChannelClosed,
            WorkerPhase::Snapshotting { cmd } => e matches WorkerEvent::SnapshotTaken(s)
                && s.filepath@ == cmd.target_path@,
            WorkerPhase::PreparingDirectory { .. } => e is DirectoryPrepared,
            WorkerPhase::Writing { .. } => e is PayloadWritten,
            WorkerPhase::Checking { .. } => e is HealthSampled,
            WorkerPhase::RollingBack { .. } => e is RollbackApplied,
            WorkerPhase::Stopped => false,
        }
    }
}

/// The allowed effect of event `e` on phase `p`: the next phase `q` and the
/// action `a`.
pub open spec fn transition(p: WorkerPhase, e: WorkerEvent, q: WorkerPhase, a: WorkerAction) -> bool {
    match e {
        WorkerEvent::CommandReceived(cmd) => if !is_clean(cmd.code_payload@) {
            q is Idle && sends_receipt(
                a,
                cmd.task_id,
                false,
                inspection_failure_text(cmd.code_payload@),
            )
        } else {
            match runtime_check_verdict() {
                Err(t) => q is Idle && sends_receipt(
                    a,
                    cmd.task_id,
                    false,
                    sandbox_failure_prefix() + t,
                ),
                Ok(_) => q == (WorkerPhase::Snapshotting { cmd }) && asks_snapshot(
                    a,
                    cmd.target_path,
                ),
            }
        },
        WorkerEvent::ChannelClosed => q is Stopped && a is Shutdown,
        WorkerEvent::SnapshotTaken(snapshot) => match p {
            WorkerPhase::Snapshotting { cmd } => q == (WorkerPhase::PreparingDirectory {
                cmd,
                snapshot,
            }) && asks_directory(a, cmd.target_path),
            _ => false,
        },
        WorkerEvent::DirectoryPrepared(outcome) => match p {
            WorkerPhase::PreparingDirectory { cmd, snapshot } => match outcome {
                Err(err) => q is Idle && sends_receipt(
                    a,
                    cmd.task_id,
                    false,
                    directory_failure_text(err@),
                ),
                Ok(_) => q == (WorkerPhase::Writing { cmd, snapshot }) && asks_write(
                    a,
                    cmd.target_path,
                    cmd.code_payload,
                ),
            },
            _ => false,
        },
        WorkerEvent::PayloadWritten(outcome) => match p {
            WorkerPhase::Writing { cmd, snapshot } => match outcome {
                Err(err) => q is Idle && sends_receipt(
                    a,
                    cmd.task_id,
                    false,
                    write_failure_text(err@),
                ),
                Ok(_) => q == (WorkerPhase::Checking { cmd, snapshot }) && a is SampleHealth,
            },
            _ => false,
        },
        WorkerEvent::HealthSampled { cpu_breach, mem_breach, cpu_text, mem_text } => match p {
            WorkerPhase::Checking { cmd, snapshot } => if cpu_breach || mem_breach {
                is_rolling_back(q, cmd.task_id, breach_text(cpu_text@, mem_text@)) && asks_rollback(
                    a,
                    restore_plan_of(snapshot),
                )
            } else {
                q is Idle && sends_receipt(
                    a,
                    cmd.task_id,
                    true,
                    deployed_text(cmd.target_path@),
                )
            },
            _ => false,
        },
        WorkerEvent::RollbackApplied => match p {
            WorkerPhase::RollingBack { task_id, reason } => q is Idle && sends_receipt(
                a,
                task_id,
                false,
                reason@,
            ),
            _ => false,
        },
    }
}

/// The decision core of one worker.
pub struct WorkerMote {
    pub worker_id: usize,
    pub phase: WorkerPhase,
}

impl WorkerMote {
    /// A worker waiting for its first command.
    pub fn new(worker_id: usize) -> (w: WorkerMote)
        ensures
            w.worker_id == worker_id,
            w.phase is Idle,
            w.phase.well_formed(),
    {
        WorkerMote { worker_id, phase: WorkerPhase::Idle }
    }

    /// Decides what follows a sandbox run on a command that passed
    /// inspection: a failure receipt when the sandbox failed, otherwise a
    /// snapshot of the command's target.
    pub fn after_sandbox(&mut self, cmd: StructuredCommand, sandbox: Result<(), String>) -> (a:
        WorkerAction)
        requires
            old(self).phase is Idle,
            is_clean(cmd.code_payload@),
        ensures
            final(self).worker_id == old(self).worker_id,
            final(self).phase.well_formed(),
            match sandbox {
                Err(e) => final(self).phase is Idle && sends_receipt(
                    a,
                    cmd.task_id,
                    false,
                    sandbox_failure_prefix() + e@,
                ),
                Ok(_) => final(self).phase == (WorkerPhase::Snapshotting { cmd }) && asks_snapshot(
                    a,
                    cmd.target_path,
                ),
            },
    {
        match sandbox {
            Err(e) => {
                let log = String::from_str("Sandbox execution failed: ").concat(e.as_str());
                WorkerAction::SendReceipt { receipt: ExecutionReceipt::failure(cmd.task_id, log) }
            },
            Ok(_) => {
                let path = cmd.target_path.clone();
                self.phase = WorkerPhase::Snapshotting { cmd };
                WorkerAction::TakeSnapshot { path }
            },
        }
    }

    /// Advances the worker on `event` and returns what it asks for next.
    ///
    /// The worker's invariant holds throughout: no payload is written
    /// unless it passed inspection, and every snapshot is of the target
    /// being written. Every receipt names the task in flight, and after a
    /// receipt the worker waits for its next command.
    pub fn step(&mut self, event: WorkerEvent) -> (a: WorkerAction)
        requires
            old(self).phase.well_formed(),
            old(self).phase.expects(event),
        ensures
            final(self).worker_id == old(self).worker_id,
            final(self).phase.well_formed(),
            transition(old(self).phase, event, final(self).phase, a),
            a matches WorkerAction::WritePayload { payload, .. } ==> is_clean(payload@),
            event matches WorkerEvent::CommandReceived(cmd) ==> (is_clean(cmd.code_payload@) ==> (
            a is TakeSnapshot <==> runtime_check_verdict() is Ok)),
            a matches WorkerAction::SendReceipt { receipt } ==> final(self).phase is Idle && Some(
                receipt.task_id,
            ) == match event {
                WorkerEvent::CommandReceived(cmd) => Some(cmd.task_id),
                _ => old(self).phase.task_in_flight(),
            },
            a is SendReceipt ==> (a->receipt.success <==> (old(self).phase is Checking
                && crate::laws::within_ceilings(event))),
    {
        let mut phase = WorkerPhase::Idle;
        std::mem::swap(&mut phase, &mut self.phase);
        match event {
            WorkerEvent::CommandReceived(cmd) => {
                let report = CodeInspector::inspect(cmd.code_payload.as_str());
                if !report.passed {
                    let listed = debug_format_strings(&report.violations);
                    let log = String::from_str("Code inspection blocked: ").concat(
                        listed.as_str(),
                    );
                    return WorkerAction::SendReceipt {
                        receipt: ExecutionReceipt::failure(cmd.task_id, log),
                    };
                }
                let wasm = BurnerSandbox::minimal_valid_wasm();
                proof {
                    crate::laws::lemma_minimal_module_passes_header();
                }
                let sandbox = BurnerSandbox::test_execute(wasm.as_slice());
                self.after_sandbox(cmd, sandbox)
            },
            WorkerEvent::ChannelClosed => {
                self.phase = WorkerPhase::Stopped;
                WorkerAction::Shutdown
            },
            WorkerEvent::SnapshotTaken(snapshot) => match phase {
                WorkerPhase::Snapshotting { cmd } => {
                    let path = cmd.target_path.clone();
                    self.phase = WorkerPhase::PreparingDirectory { cmd, snapshot };
                    WorkerAction::PrepareDirectory { path }
                },
                _ => {
                    assert(false);
                    WorkerAction::Shutdown
                },
            },
            WorkerEvent::DirectoryPrepared(outcome) => match phase {
                WorkerPhase::PreparingDirectory { cmd, snapshot } => match outcome {
                    Err(err) => {
                        let log = String::from_str("Failed to create output directory: ").concat(
                            err.as_str(),
                        );
                        WorkerAction::SendReceipt {
                            receipt: ExecutionReceipt::failure(cmd.task_id, log),
                        }
                    },
                    Ok(_) => {
                        let path = cmd.target_path.clone();
                        let payload = cmd.code_payload.clone();
                        self.phase = WorkerPhase::Writing { cmd, snapshot };
                        WorkerAction::WritePayload { path, payload }
                    },
                },
                _ => {
                    assert(false);
                    WorkerAction::Shutdown
                },
            },
            WorkerEvent::PayloadWritten(outcome) => match phase {
                WorkerPhase::Writing { cmd, snapshot } => match outcome {
                    Err(err) => {
                        let log = String::from_str("Disk write failed: ").concat(err.as_str());
                        WorkerAction::SendReceipt {
                            receipt: ExecutionReceipt::failure(cmd.task_id, log),
                        }
                    },
                    Ok(_) => {
                        self.phase = WorkerPhase::Checking { cmd, snapshot };
                        WorkerAction::SampleHealth
                    },
                },
                _ => {
                    assert(false);
                    WorkerAction::Shutdown
                },
            },
            WorkerEvent::HealthSampled { cpu_breach, mem_breach, cpu_text, mem_text } => match phase {
                WorkerPhase::Checking { cmd, snapshot } => {
                    match snapshot.evaluate(
                        cpu_breach,
                        mem_breach,
                        cpu_text.as_str(),
                        mem_text.as_str(),
                    ) {
                        HealthVerdict::Breach { plan, reason } => {
                            self.phase = WorkerPhase::RollingBack { task_id: cmd.task_id, reason };
                            WorkerAction::Rollback { plan }
                        },
                        HealthVerdict::Nominal => {
                            let log = String::from_str("Feature deployed to ").concat(
                                cmd.target_path.as_str(),
                            ).concat(" \u{2014} system nominal.");
                            WorkerAction::SendReceipt {
                                receipt: ExecutionReceipt::success(cmd.task_id, log),
                            }
                        },
                    }
                },
                _ => {
                    assert(false);
                    WorkerAction::Shutdown
                },
            },
            WorkerEvent::RollbackApplied => match phase {
                WorkerPhase::RollingBack { task_id, reason } => {
                    WorkerAction::SendReceipt { receipt: ExecutionReceipt::failure(task_id, reason) }
                },
                _ => {
                    assert(false);
                    WorkerAction::Shutdown
                },
            },
        }
    }
}

} // verus!
