use dji_live_bridge::process::{exit_reason_text, ProcessStatus, RestartPolicy, Supervision};

#[test]
fn failed_exits_back_off_exponentially() {
    let mut s = Supervision::started("mediamtx".into(), Some(10), RestartPolicy::OnFailure);
    assert_eq!(s.snapshot.status, ProcessStatus::Running);
    s.record_exit(1_000, false, "exit status: 1");
    assert_eq!(s.snapshot.status, ProcessStatus::BackingOff);
    assert_eq!(s.snapshot.pid, None);
    assert_eq!(s.next_restart_ms, Some(2_000));
    assert_eq!(s.snapshot.last_error.as_deref(), Some("process exited with exit status: 1"));
    assert!(!s.restart_due(1_999));
    assert!(s.restart_due(2_000));
    s.record_restart(Some(11));
    assert_eq!(s.snapshot.status, ProcessStatus::Running);
    assert_eq!(s.snapshot.restart_count, 1);
    assert_eq!(s.next_restart_ms, None);
    s.record_exit(3_000, false, "exit status: 1");
    assert_eq!(s.next_restart_ms, Some(5_000));
}

#[test]
fn five_exits_within_a_minute_are_a_crash_loop() {
    let mut s = Supervision::started("ffmpeg".into(), None, RestartPolicy::Always);
    for t in [0u64, 10_000, 20_000, 30_000] {
        s.record_exit(t, false, "signal: 9");
        assert_eq!(s.snapshot.status, ProcessStatus::BackingOff);
        s.record_restart(None);
    }
    s.record_exit(40_000, false, "signal: 9");
    assert_eq!(s.snapshot.status, ProcessStatus::CrashLoop);
    assert_eq!(s.next_restart_ms, None);
}

#[test]
fn old_exits_leave_the_window() {
    let mut s = Supervision::started("ffmpeg".into(), None, RestartPolicy::Always);
    for t in [0u64, 1_000, 2_000, 3_000] {
        s.record_exit(t, true, "exit status: 0");
        s.record_restart(None);
    }
    s.record_exit(70_000, true, "exit status: 0");
    assert_eq!(s.exits, vec![70_000]);
    assert_eq!(s.snapshot.status, ProcessStatus::BackingOff);
}

#[test]
fn restart_policies_decide_after_an_exit() {
    let mut never = Supervision::started("a".into(), None, RestartPolicy::Never);
    never.record_exit(0, false, "exit status: 2");
    assert_eq!(never.snapshot.status, ProcessStatus::Failed);
    let mut clean = Supervision::started("b".into(), None, RestartPolicy::OnFailure);
    clean.record_exit(0, true, "exit status: 0");
    assert_eq!(clean.snapshot.status, ProcessStatus::Stopped);
    assert_eq!(clean.next_restart_ms, None);
    let mut stopping = Supervision::started("c".into(), None, RestartPolicy::Always);
    stopping.stopping = true;
    stopping.record_exit(0, false, "signal: 15");
    assert_eq!(stopping.snapshot.status, ProcessStatus::Stopped);
    assert!(stopping.exits.is_empty());
    assert_eq!(stopping.snapshot.last_error, None);
}

#[test]
fn wait_errors_are_recorded_without_secrets() {
    let mut s = Supervision::started("a".into(), Some(1), RestartPolicy::Never);
    s.record_wait_error("rtmps://host/live/abc?key=SECRET-123 broke");
    assert_eq!(s.snapshot.status, ProcessStatus::Failed);
    assert!(!s.snapshot.last_error.as_deref().unwrap().contains("SECRET-123"));
    s.record_restart_failure("spawn failed");
    assert_eq!(exit_reason_text("signal: 9"), "process exited with signal: 9");
}

#[test]
fn a_never_restarted_or_crash_looping_process_is_not_scheduled_again() {
    let mut never = Supervision::started("a".into(), Some(3), RestartPolicy::Never);
    never.record_exit(1_000, false, "exit status: 1");
    assert_eq!(never.next_restart_ms, None);
    assert!(!never.restart_due(1_000_000_000));
    assert_eq!(never.snapshot.pid, None);
    assert_eq!(never.snapshot.restart_count, 0);

    let mut looping = Supervision::started("b".into(), None, RestartPolicy::Always);
    for t in [0u64, 1_000, 2_000, 3_000] {
        looping.record_exit(t, false, "signal: 9");
        looping.record_restart(None);
    }
    looping.record_exit(4_000, false, "signal: 9");
    assert_eq!(looping.snapshot.status, ProcessStatus::CrashLoop);
    assert!(!looping.restart_due(u64::MAX));
    assert_eq!(looping.snapshot.restart_count, 4);
}

#[test]
fn a_never_process_stays_unscheduled_through_every_record() {
    let mut s = Supervision::started("once".into(), Some(7), RestartPolicy::Never);
    s.record_wait_error("wait failed");
    assert_eq!(s.next_restart_ms, None);
    s.record_exit(1_000, false, "exit status: 2");
    s.record_restart_failure("spawn failed");
    s.record_exit(2_000, true, "exit status: 0");
    assert_eq!(s.next_restart_ms, None);
    for t in [0u64, 2_000, 60_000, u64::MAX] {
        assert!(!s.restart_due(t));
        assert!(!s.respawn_due(false, t));
    }
    let mut always = Supervision::started("again".into(), Some(8), RestartPolicy::Always);
    always.record_exit(1_000, true, "exit status: 0");
    assert!(!always.respawn_due(false, 1_999));
    assert!(always.respawn_due(false, 2_000));
    assert!(!always.respawn_due(true, 2_000));
    assert_eq!(s.snapshot.pid, None);
    assert_eq!(s.snapshot.restart_count, 0);
}
