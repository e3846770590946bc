use rtbox::config::RtBoxConfig;
use rtbox::engine::RtBoxEngine;
use rtbox::init::{InitAction, InitEvent, InitPhase, RtBoxInit};

#[test]
fn init_refuses_any_process_but_pid1() {
    let e = RtBoxInit::start(1234).err().expect("only process 1 may supervise");
    assert_eq!(e.command, Some("init".to_string()));
    assert_eq!(
        e.message,
        Some("this is only supposed to be run as the init system of a container".to_string())
    );
    assert_eq!(e.root_cause, Some("we are not running as PID 1".to_string()));
}

#[test]
fn engine_init_guards_before_any_supervision() {
    let config = RtBoxConfig::default();
    let engine = RtBoxEngine::new(&config);
    let refused = engine.init(2, 1000, 1000, "akdev", "/home/akdev", "/bin/bash");
    assert!(refused.is_err());
    let (supervisor, state) = engine
        .init(1, 1000, 1000, "akdev", "/home/akdev", "/bin/bash")
        .ok()
        .expect("process 1 may supervise");
    assert_eq!(supervisor.phase, InitPhase::BlockingSignals);
    assert_eq!(state.uid, 1000);
    assert_eq!(state.username, "akdev");
    assert_eq!(state.home, "/home/akdev");
    assert_eq!(state.shell, "/bin/bash");
}

#[test]
fn parent_walks_mask_fork_session_then_supervises() {
    let mut sup = RtBoxInit::start(1).ok().expect("process 1 may supervise");
    assert_eq!(sup.pending_action(), InitAction::BlockSignals);
    sup.step(InitEvent::Succeeded);
    assert_eq!(sup.pending_action(), InitAction::ForkReaper);
    sup.step(InitEvent::ForkedParent);
    assert_eq!(sup.pending_action(), InitAction::EstablishSession);
    sup.step(InitEvent::Succeeded);
    // Bootstrap runs once, then the monitoring loop polls forever.
    assert_eq!(sup.pending_action(), InitAction::RunBootstrap);
    sup.step(InitEvent::Succeeded);
    assert_eq!(sup.pending_action(), InitAction::PollHealth);
    sup.step(InitEvent::Succeeded);
    assert_eq!(sup.pending_action(), InitAction::PollHealth);
    assert_eq!(sup.phase, InitPhase::Supervising);
}

#[test]
fn forked_child_reaps_forever() {
    let mut sup = RtBoxInit::new();
    sup.step(InitEvent::Succeeded);
    sup.step(InitEvent::ForkedChild);
    assert_eq!(sup.phase, InitPhase::Reaping);
    for _ in 0..3 {
        assert_eq!(sup.pending_action(), InitAction::WaitForChild);
        sup.step(InitEvent::Succeeded);
        assert_eq!(sup.phase, InitPhase::Reaping);
    }
}

#[test]
fn setup_failure_is_fatal() {
    let mut sup = RtBoxInit::new();
    sup.step(InitEvent::Failed);
    assert_eq!(sup.phase, InitPhase::Aborted);
    assert_eq!(sup.pending_action(), InitAction::Abort);

    let mut sup2 = RtBoxInit::new();
    sup2.step(InitEvent::Succeeded);
    sup2.step(InitEvent::Failed);
    assert_eq!(sup2.phase, InitPhase::Aborted);

    let mut sup3 = RtBoxInit::new();
    sup3.step(InitEvent::Succeeded);
    sup3.step(InitEvent::ForkedParent);
    sup3.step(InitEvent::Failed);
    assert_eq!(sup3.phase, InitPhase::Aborted);
    assert_eq!(sup3.pending_action(), InitAction::Abort);
}
