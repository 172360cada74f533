use hom3init::boot::{BootRail, RailAction, RailEvent, RailStep};

/// Run the rail with the given data carrier, preflight and launch results,
/// answering every other step with `Finished`.
fn run(data_ok: bool, go: bool, child: Option<i32>) -> Vec<RailAction> {
    let mut r = BootRail::new();
    let mut seen = vec![r.pending()];
    loop {
        let ev = match *seen.last().unwrap() {
            RailAction::MountData => RailEvent::DataMounted(data_ok),
            RailAction::RunPreflight(_) => RailEvent::PreflightDone(go),
            RailAction::Launch(_) => RailEvent::LaunchDone(child),
            RailAction::SafeStop | RailAction::Supervise(_, _) => return seen,
            _ => RailEvent::Finished,
        };
        seen.push(r.step(ev));
    }
}

#[test]
fn rail_runs_in_order_and_supervises() {
    assert_eq!(
        run(true, true, Some(42)),
        vec![
            RailAction::MountEarly,
            RailAction::GateEntropy,
            RailAction::BlockRadios,
            RailAction::MountData,
            RailAction::RunPreflight(true),
            RailAction::Launch(true),
            RailAction::Supervise(42, true),
        ]
    );
}

#[test]
fn breach_launches_recovery_and_nothing_is_safe_stop() {
    let seen = run(false, false, None);
    assert_eq!(seen[4], RailAction::RunPreflight(false));
    assert_eq!(seen[5], RailAction::Launch(false));
    assert_eq!(seen[6], RailAction::SafeStop);
}

#[test]
fn out_of_order_events_are_ignored() {
    let mut r = BootRail::new();
    assert_eq!(r.step(RailEvent::LaunchDone(Some(1))), RailAction::MountEarly);
    assert_eq!(r.step(RailEvent::DataMounted(true)), RailAction::MountEarly);
    assert_eq!(r.step(RailEvent::Finished), RailAction::GateEntropy);
    assert_eq!(r.step, RailStep::EntropyGate);
}

#[test]
fn breach_is_handed_to_supervision() {
    let seen = run(true, false, Some(8));
    assert_eq!(seen[5], RailAction::Launch(false));
    assert_eq!(seen[6], RailAction::Supervise(8, false));
}
