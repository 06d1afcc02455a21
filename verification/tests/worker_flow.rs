use titan_factory::moat1_translator::{FeatureType, StructuredCommand};
use titan_factory::moat5_rollback::{RollbackPlan, TargetSnapshot};
use titan_factory::worker::{WorkerAction, WorkerEvent, WorkerMote, WorkerPhase};

fn cmd(task_id: usize, payload: &str, path: &str) -> StructuredCommand {
    StructuredCommand {
        task_id,
        target_feature: FeatureType::DeployPatch,
        code_payload: payload.to_string(),
        target_path: path.to_string(),
    }
}

fn health(cpu_breach: bool, mem_breach: bool) -> WorkerEvent {
    WorkerEvent::HealthSampled {
        cpu_breach,
        mem_breach,
        cpu_text: "95.5".to_string(),
        mem_text: "40.0".to_string(),
    }
}

/// Drives a worker through a command up to the health sample.
fn deploy(w: &mut WorkerMote, c: StructuredCommand, backup: Vec<u8>) {
    let path = c.target_path.clone();
    match w.step(WorkerEvent::CommandReceived(c)) {
        WorkerAction::TakeSnapshot { path: p } => assert_eq!(p, path),
        _ => panic!("expected a snapshot request"),
    }
    let snap = TargetSnapshot::from_read(&path, Some(backup));
    match w.step(WorkerEvent::SnapshotTaken(snap)) {
        WorkerAction::PrepareDirectory { path: p } => assert_eq!(p, path),
        _ => panic!("expected a directory request"),
    }
    match w.step(WorkerEvent::DirectoryPrepared(Ok(()))) {
        WorkerAction::WritePayload { path: p, payload } => {
            assert_eq!(p, path);
            assert_eq!(payload, "fn ok() {}");
        }
        _ => panic!("expected a write request"),
    }
    match w.step(WorkerEvent::PayloadWritten(Ok(()))) {
        WorkerAction::SampleHealth => {}
        _ => panic!("expected a health sample request"),
    }
}

#[test]
fn healthy_deployment_succeeds() {
    let mut w = WorkerMote::new(0);
    deploy(&mut w, cmd(1, "fn ok() {}", "./output/feature_one.rs"), vec![]);
    match w.step(health(false, false)) {
        WorkerAction::SendReceipt { receipt } => {
            assert_eq!(receipt.task_id, 1);
            assert!(receipt.success);
            assert_eq!(
                receipt.log,
                "Feature deployed to ./output/feature_one.rs \u{2014} system nominal."
            );
        }
        _ => panic!("expected a receipt"),
    }
    assert!(matches!(w.phase, WorkerPhase::Idle));
}

#[test]
fn breach_rolls_back_then_fails() {
    let mut w = WorkerMote::new(1);
    deploy(&mut w, cmd(2, "fn ok() {}", "./output/route_patch.rs"), vec![1, 2, 3]);
    match w.step(health(true, false)) {
        WorkerAction::Rollback { plan: RollbackPlan::RestoreFile { path, content } } => {
            assert_eq!(path, "./output/route_patch.rs");
            assert_eq!(content, vec![1, 2, 3]);
        }
        _ => panic!("expected a restoring rollback"),
    }
    match w.step(WorkerEvent::RollbackApplied) {
        WorkerAction::SendReceipt { receipt } => {
            assert_eq!(receipt.task_id, 2);
            assert!(!receipt.success);
            assert_eq!(
                receipt.log,
                "[MOAT5] Breach detected \u{2014} CPU: 95.5% MEM: 40.0%. Rollback to pre-deploy snapshot executed."
            );
        }
        _ => panic!("expected a receipt"),
    }
}

#[test]
fn breach_on_new_file_removes_it() {
    let mut w = WorkerMote::new(1);
    deploy(&mut w, cmd(5, "fn ok() {}", "./output/new.rs"), vec![]);
    match w.step(health(false, true)) {
        WorkerAction::Rollback { plan: RollbackPlan::RemoveFile { path } } => {
            assert_eq!(path, "./output/new.rs");
        }
        _ => panic!("expected a removing rollback"),
    }
}

#[test]
fn blacklisted_payload_never_reaches_disk() {
    let mut w = WorkerMote::new(0);
    let c = cmd(
        4,
        "use std::process::Command; fn evil() { Command::new(\"rm\").spawn().unwrap(); }",
        "./output/evil_patch.rs",
    );
    match w.step(WorkerEvent::CommandReceived(c)) {
        WorkerAction::SendReceipt { receipt } => {
            assert_eq!(receipt.task_id, 4);
            assert!(!receipt.success);
            assert_eq!(
                receipt.log,
                "Code inspection blocked: [\"[MOAT3] BLOCKED \u{2014} EXEC: shell command spawning forbidden (token: `std::process::Command`)\"]"
            );
        }
        _ => panic!("expected a failure receipt"),
    }
    assert!(matches!(w.phase, WorkerPhase::Idle));
}

#[test]
fn directory_and_write_failures_are_reported() {
    let mut w = WorkerMote::new(0);
    let c = cmd(6, "fn ok() {}", "./output/a.rs");
    assert!(matches!(w.step(WorkerEvent::CommandReceived(c)), WorkerAction::TakeSnapshot { .. }));
    let snap = TargetSnapshot::from_read("./output/a.rs", None);
    assert!(matches!(w.step(WorkerEvent::SnapshotTaken(snap)), WorkerAction::PrepareDirectory { .. }));
    match w.step(WorkerEvent::DirectoryPrepared(Err("denied".to_string()))) {
        WorkerAction::SendReceipt { receipt } => {
            assert_eq!(receipt.task_id, 6);
            assert_eq!(receipt.log, "Failed to create output directory: denied");
        }
        _ => panic!("expected a receipt"),
    }
    let c = cmd(7, "fn ok() {}", "./output/b.rs");
    assert!(matches!(w.step(WorkerEvent::CommandReceived(c)), WorkerAction::TakeSnapshot { .. }));
    let snap = TargetSnapshot::from_read("./output/b.rs", None);
    w.step(WorkerEvent::SnapshotTaken(snap));
    w.step(WorkerEvent::DirectoryPrepared(Ok(())));
    match w.step(WorkerEvent::PayloadWritten(Err("disk full".to_string()))) {
        WorkerAction::SendReceipt { receipt } => {
            assert_eq!(receipt.task_id, 7);
            assert!(!receipt.success);
            assert_eq!(receipt.log, "Disk write failed: disk full");
        }
        _ => panic!("expected a receipt"),
    }
}

#[test]
fn sandbox_failure_is_reported() {
    let mut w = WorkerMote::new(3);
    let c = cmd(8, "fn ok() {}", "./output/c.rs");
    match w.after_sandbox(c, Err("[MOAT2] Module start/trap: boom".to_string())) {
        WorkerAction::SendReceipt { receipt } => {
            assert_eq!(receipt.task_id, 8);
            assert!(!receipt.success);
            assert_eq!(receipt.log, "Sandbox execution failed: [MOAT2] Module start/trap: boom");
        }
        _ => panic!("expected a receipt"),
    }
    assert!(matches!(w.phase, WorkerPhase::Idle));
}

#[test]
fn closed_channel_shuts_down() {
    let mut w = WorkerMote::new(2);
    assert!(matches!(w.step(WorkerEvent::ChannelClosed), WorkerAction::Shutdown));
    assert!(matches!(w.phase, WorkerPhase::Stopped));
    assert_eq!(w.worker_id, 2);
}

#[test]
fn one_receipt_per_command_over_a_run() {
    let mut w = WorkerMote::new(0);
    let mut receipts = Vec::new();
    let commands = vec![
        cmd(1, "fn ok() {}", "./output/a.rs"),
        cmd(2, "std::process::exit(1)", "./output/b.rs"),
        cmd(3, "fn ok() {}", "./output/c.rs"),
    ];
    for c in commands {
        let path = c.target_path.clone();
        let mut action = w.step(WorkerEvent::CommandReceived(c));
        loop {
            let event = match action {
                WorkerAction::TakeSnapshot { .. } => {
                    WorkerEvent::SnapshotTaken(TargetSnapshot::from_read(&path, None))
                }
                WorkerAction::PrepareDirectory { .. } => WorkerEvent::DirectoryPrepared(Ok(())),
                WorkerAction::WritePayload { .. } => WorkerEvent::PayloadWritten(Ok(())),
                WorkerAction::SampleHealth => health(false, false),
                WorkerAction::Rollback { .. } => WorkerEvent::RollbackApplied,
                WorkerAction::SendReceipt { receipt } => {
                    receipts.push(receipt.task_id);
                    break;
                }
                WorkerAction::Shutdown => panic!("unexpected shutdown"),
            };
            action = w.step(event);
        }
    }
    assert!(matches!(w.step(WorkerEvent::ChannelClosed), WorkerAction::Shutdown));
    assert_eq!(receipts, vec![1, 2, 3]);
}
