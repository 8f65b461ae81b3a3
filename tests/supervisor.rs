use codex_sidecar::config::LaunchConfig;
use codex_sidecar::store::HandleSlot;
use codex_sidecar::supervisor::{Supervisor, SupervisorAction, SupervisorError, SupervisorPhase};

fn launched(slot: &mut HandleSlot<u32>) -> Supervisor {
    let mut s = Supervisor::new(LaunchConfig::for_home("/home/ana"));
    assert_eq!(s.start(), SupervisorAction::CreateDataDir);
    assert_eq!(s.on_data_dir(true), SupervisorAction::Spawn);
    let (a, previous) = s.on_spawned(31, slot);
    assert_eq!(a, SupervisorAction::ReadLine);
    assert_eq!(previous, None);
    s
}

#[test]
fn supervisor_runs_to_ready() {
    let mut slot: HandleSlot<u32> = HandleSlot::new();
    let mut s = launched(&mut slot);
    assert!(slot.is_occupied());
    assert_eq!(s.phase(), SupervisorPhase::Monitoring);
    assert_eq!(s.on_line("starting"), SupervisorAction::ReadLine);
    assert_eq!(s.on_line("Bootstrapped 50%"), SupervisorAction::ReadLine);
    assert!(!s.is_ready());
    assert_eq!(s.on_line("Bootstrapped 100%"), SupervisorAction::Sleep(5));
    assert!(!s.is_ready());
    assert_eq!(s.on_settle_elapsed(), SupervisorAction::Finish);
    assert!(s.is_ready());
    assert_eq!(s.phase(), SupervisorPhase::Ready);
    assert_eq!(s.on_line("late"), SupervisorAction::Idle);
    assert_eq!(slot.take(), Some(31));
}

#[test]
fn data_dir_failure_aborts() {
    let mut s = Supervisor::new(LaunchConfig::for_home("/root"));
    assert_eq!(s.on_data_dir(false), SupervisorAction::Abort(SupervisorError::DataDir));
    assert_eq!(s.phase(), SupervisorPhase::Failed(SupervisorError::DataDir));
    assert_eq!(s.on_spawn_failed(), SupervisorAction::Idle);
    assert_eq!(s.start(), SupervisorAction::Idle);
}

#[test]
fn spawn_failure_aborts() {
    let mut s = Supervisor::new(LaunchConfig::for_home("/root"));
    assert_eq!(s.on_data_dir(true), SupervisorAction::Spawn);
    assert_eq!(s.on_spawn_failed(), SupervisorAction::Abort(SupervisorError::Spawn));
    assert_eq!(s.phase(), SupervisorPhase::Failed(SupervisorError::Spawn));
    let mut slot: HandleSlot<u32> = HandleSlot::new();
    assert_eq!(s.on_line("Bootstrapped 100%"), SupervisorAction::Idle);
    assert!(!slot.is_occupied());
    assert_eq!(slot.take(), None);
}

#[test]
fn stream_end_before_marker_finishes_unready() {
    let mut slot: HandleSlot<u32> = HandleSlot::new();
    let mut s = launched(&mut slot);
    assert_eq!(s.on_line("starting"), SupervisorAction::ReadLine);
    assert_eq!(s.on_stream_closed(), SupervisorAction::Finish);
    assert_eq!(s.phase(), SupervisorPhase::StreamClosed);
    assert!(!s.is_ready());
    assert_eq!(s.on_settle_elapsed(), SupervisorAction::Idle);
}

#[test]
fn events_out_of_order_are_ignored() {
    let mut s = Supervisor::new(LaunchConfig::for_home("/root"));
    assert_eq!(s.on_line("Bootstrapped 100%"), SupervisorAction::Idle);
    assert_eq!(s.on_settle_elapsed(), SupervisorAction::Idle);
    assert_eq!(s.on_stream_closed(), SupervisorAction::Idle);
    assert_eq!(s.on_spawn_failed(), SupervisorAction::Idle);
    assert_eq!(s.phase(), SupervisorPhase::Preparing);
    assert_eq!(s.config().port, 3213);
    assert_eq!(s.config().data_dir, "/root/.codex/data");
}
