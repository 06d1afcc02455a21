//! Snapshots and rollback: before a write goes live the target's contents are
//! kept, and when health telemetry breaches a ceiling the target is put back.

use vstd::prelude::*;

verus! {

/// The contents of a target path before deployment.
pub struct TargetSnapshot {
    pub filepath: String,
    /// Empty when the file did not exist (or was empty) before deployment.
    pub backup_content: Vec<u8>,
}

/// What restoring a snapshot does to the file system.
pub enum RollbackPlan {
    /// The file did not exist before (or was empty): remove it.
    RemoveFile { path: String },
    /// Write the kept bytes back.
    RestoreFile { path: String, content: Vec<u8> },
}

/// What a rollback plan does, over string and byte views.
pub enum FileAction {
    Remove(Seq<char>),
    Write(Seq<char>, Seq<u8>),
}

impl View for RollbackPlan {
    type V = FileAction;

    open spec fn view(&self) -> FileAction {
        match self {
            RollbackPlan::RemoveFile { path } => FileAction::Remove(path@),
            RollbackPlan::RestoreFile { path, content } => FileAction::Write(path@, content@),
        }
    }
}

/// A model of the file system: the files that exist, with their bytes.
pub type FileTree = Map<Seq<char>, Seq<u8>>;

/// What a read of `path` gives when a failed read counts as empty.
pub open spec fn read_or_empty(fs: FileTree, path: Seq<char>) -> Seq<u8> {
    if fs.contains_key(path) {
        fs[path]
    } else {
        Seq::empty()
    }
}

/// The file system after a write of `bytes` to `path`.
pub open spec fn write_file(fs: FileTree, path: Seq<char>, bytes: Seq<u8>) -> FileTree {
    fs.insert(path, bytes)
}

/// The file system after carrying out `plan`.
pub open spec fn apply_plan(fs: FileTree, plan: FileAction) -> FileTree {
    match plan {
        FileAction::Remove(path) => fs.remove(path),
        FileAction::Write(path, content) => fs.insert(path, content),
    }
}

/// The plan that restores `s`.
pub open spec fn restore_plan_of(s: TargetSnapshot) -> FileAction {
    if s.backup_content@.len() == 0 {
        FileAction::Remove(s.filepath@)
    } else {
        FileAction::Write(s.filepath@, s.backup_content@)
    }
}

/// Message prefix of a rollback caused by a health breach.
pub open spec fn breach_text(cpu_text: Seq<char>, mem_text: Seq<char>) -> Seq<char> {
    "[MOAT5] Breach detected \u{2014} CPU: "@ + cpu_text + "% MEM: "@ + mem_text
        + "%. Rollback to pre-deploy snapshot executed."@
}

/// The result of a post-deployment health check.
pub enum HealthVerdict {
    /// The system is within both ceilings.
    Nominal,
    /// A ceiling was breached: carry out `plan`, then report `reason`.
    Breach { plan: RollbackPlan, reason: String },
}

impl TargetSnapshot {
    /// The snapshot of `path` given what reading it returned (`None` when the
    /// read failed, as for a file that does not exist).
    pub fn from_read(path: &str, read: Option<Vec<u8>>) -> (s: TargetSnapshot)
        ensures
            s.filepath@ == path@,
            s.backup_content@ == match read {
                Some(b) => b@,
                None => Seq::<u8>::empty(),
            },
    {
        let backup_content = match read {
            Some(b) => b,
            None => Vec::new(),
        };
        TargetSnapshot { filepath: path.to_owned(), backup_content }
    }

    /// The plan that puts the target back as it was: remove the file when
    /// nothing was kept, otherwise write the kept bytes back.
    pub fn rollback_plan(&self) -> (p: RollbackPlan)
        ensures
            p@ == restore_plan_of(*self),
    {
        if self.backup_content.len() == 0 {
            RollbackPlan::RemoveFile { path: self.filepath.clone() }
        } else {
            let content = self.backup_content.clone();
            assert(content@ =~= self.backup_content@);
            RollbackPlan::RestoreFile { path: self.filepath.clone(), content }
        }
    }

    /// Decides the outcome of a health check that found the CPU ceiling
    /// breached (`cpu_breach`) and the memory ceiling breached
    /// (`mem_breach`); `cpu_text` and `mem_text` are the sampled figures as
    /// they are to appear in the report.
    pub fn evaluate(&self, cpu_breach: bool, mem_breach: bool, cpu_text: &str, mem_text: &str) -> (v:
        HealthVerdict)
        ensures
            !(cpu_breach || mem_breach) ==> v is Nominal,
            (cpu_breach || mem_breach) ==> (v matches HealthVerdict::Breach { plan, reason } && plan@
                == restore_plan_of(*self) && reason@ == breach_text(cpu_text@, mem_text@)),
    {
        if cpu_breach || mem_breach {
            let reason = String::from_str("[MOAT5] Breach detected \u{2014} CPU: ").concat(
                cpu_text,
            ).concat("% MEM: ").concat(mem_text).concat(
                "%. Rollback to pre-deploy snapshot executed.",
            );
            HealthVerdict::Breach { plan: self.rollback_plan(), reason }
        } else {
            HealthVerdict::Nominal
        }
    }
}

/// Rolling back after a deployment gives back what the target held before
/// it: when `snapshot` was taken as a read of `path` in `before`, and
/// `bytes` were then written to `path`, carrying out the snapshot's plan
/// leaves a read of `path` giving what it gave before, and every other path
/// as it was.
pub proof fn lemma_rollback_restores(
    before: FileTree,
    snapshot: TargetSnapshot,
    bytes: Seq<u8>,
)
    requires
        snapshot.backup_content@ == read_or_empty(before, snapshot.filepath@),
    ensures
        ({
            let after = apply_plan(write_file(before, snapshot.filepath@, bytes), restore_plan_of(snapshot));
            &&& read_or_empty(after, snapshot.filepath@) == read_or_empty(before, snapshot.filepath@)
            &&& forall|q: Seq<char>| q != snapshot.filepath@ ==> (#[trigger] after.contains_key(q)
                == before.contains_key(q) && (before.contains_key(q) ==> after[q] == before[q]))
        }),
{
}

} // verus!
