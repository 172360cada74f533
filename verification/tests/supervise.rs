use hom3init::supervise::{SuperviseAction, SuperviseEvent, SupervisePhase, Supervisor, IDLE_PAUSE_MS, RESTART_BACKOFF_MS};

#[test]
fn exit_of_experience_restarts_after_backoff() {
    let mut s = Supervisor::new(Some(10), true);
    assert_eq!(s.pending(), SuperviseAction::Reap);
    assert_eq!(s.step(SuperviseEvent::Reaped(10)), SuperviseAction::Sleep(2000));
    assert_eq!(s.step(SuperviseEvent::Slept), SuperviseAction::Relaunch(true));
    assert_eq!(s.step(SuperviseEvent::Relaunched(Some(11))), SuperviseAction::Reap);
    assert_eq!(s.child, Some(11));
    assert_eq!(RESTART_BACKOFF_MS, 2000);
}

#[test]
fn orphans_are_reaped_and_ignored() {
    let mut s = Supervisor::new(Some(10), true);
    assert_eq!(s.step(SuperviseEvent::Reaped(77)), SuperviseAction::Reap);
    assert_eq!(s, Supervisor { child: Some(10), phase: SupervisePhase::Reaping, preflight_ok: true });
}

#[test]
fn idle_when_nothing_reaped() {
    let mut s = Supervisor::new(Some(10), true);
    assert_eq!(s.step(SuperviseEvent::NothingReaped), SuperviseAction::Sleep(200));
    assert_eq!(IDLE_PAUSE_MS, 200);
    assert_eq!(s.step(SuperviseEvent::Slept), SuperviseAction::Reap);
}

#[test]
fn failed_relaunch_is_safe_stop_for_good() {
    let mut s = Supervisor::new(Some(10), true);
    s.step(SuperviseEvent::Reaped(10));
    s.step(SuperviseEvent::Slept);
    assert_eq!(s.step(SuperviseEvent::Relaunched(None)), SuperviseAction::SafeStop);
    assert_eq!(s.step(SuperviseEvent::Reaped(3)), SuperviseAction::SafeStop);
    assert_eq!(s.step(SuperviseEvent::Relaunched(Some(4))), SuperviseAction::SafeStop);
}

#[test]
fn supervising_without_a_child_only_reaps() {
    let mut s = Supervisor::new(None, true);
    assert_eq!(s.step(SuperviseEvent::Reaped(1)), SuperviseAction::Reap);
}

#[test]
fn breach_relaunches_recovery_only() {
    let mut s = Supervisor::new(Some(5), false);
    assert_eq!(s.step(SuperviseEvent::Reaped(5)), SuperviseAction::Sleep(2000));
    assert_eq!(s.step(SuperviseEvent::Slept), SuperviseAction::Relaunch(false));
    assert_eq!(s.step(SuperviseEvent::Relaunched(Some(6))), SuperviseAction::Reap);
    assert_eq!(s.step(SuperviseEvent::Reaped(6)), SuperviseAction::Sleep(2000));
    assert_eq!(s.step(SuperviseEvent::Slept), SuperviseAction::Relaunch(false));
}
