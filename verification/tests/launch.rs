use hom3init::boot::launcher_for;
use hom3init::launch::{launch, launch_recovery, LaunchAction, LaunchEvent, Launcher, Target};

/// Drive a launcher with an environment where each target is present or
/// not and spawns with the given result; return the actions asked for.
fn drive(mut l: Launcher, env: &dyn Fn(Target) -> (bool, Result<i32, i32>)) -> Vec<LaunchAction> {
    let mut seen = Vec::new();
    let mut action = l.pending();
    loop {
        seen.push(action);
        match action {
            LaunchAction::Check(t) => {
                let ev = if env(t).0 { LaunchEvent::Present } else { LaunchEvent::Absent };
                action = l.step(ev);
            }
            LaunchAction::Spawn(t) => {
                let ev = match env(t).1 {
                    Ok(pid) => LaunchEvent::Spawned(pid),
                    Err(e) => LaunchEvent::SpawnFailed(e),
                };
                action = l.step(ev);
            }
            _ => return seen,
        }
    }
}

#[test]
fn target_paths() {
    assert_eq!(Target::Experience.path(), "/usr/bin/hom3home");
    assert_eq!(Target::Node.path(), "/usr/bin/hom3node");
    assert_eq!(Target::Recovery.path(), "/usr/bin/hom3recovery");
}

#[test]
fn experience_first_when_present() {
    let seen = drive(launch(), &|_| (true, Ok(41)));
    assert_eq!(
        seen,
        vec![
            LaunchAction::Check(Target::Experience),
            LaunchAction::Spawn(Target::Experience),
            LaunchAction::Launched(Target::Experience, 41),
        ]
    );
}

#[test]
fn node_only_image_reaches_node() {
    let seen = drive(launch(), &|t| (t != Target::Experience, Ok(7)));
    assert_eq!(
        seen,
        vec![
            LaunchAction::Check(Target::Experience),
            LaunchAction::Check(Target::Node),
            LaunchAction::Spawn(Target::Node),
            LaunchAction::Launched(Target::Node, 7),
        ]
    );
}

#[test]
fn spawn_failure_falls_through() {
    let seen = drive(launch(), &|t| match t {
        Target::Experience => (true, Err(8)),
        Target::Node => (false, Ok(0)),
        Target::Recovery => (true, Ok(99)),
    });
    assert_eq!(
        seen,
        vec![
            LaunchAction::Check(Target::Experience),
            LaunchAction::Spawn(Target::Experience),
            LaunchAction::Check(Target::Node),
            LaunchAction::Check(Target::Recovery),
            LaunchAction::Spawn(Target::Recovery),
            LaunchAction::Launched(Target::Recovery, 99),
        ]
    );
}

#[test]
fn nothing_present_launches_nothing() {
    let seen = drive(launch(), &|_| (false, Ok(1)));
    assert_eq!(seen.last(), Some(&LaunchAction::NothingLaunched));
    assert_eq!(seen.len(), 4);
}

#[test]
fn recovery_only_never_touches_experience() {
    let seen = drive(launch_recovery(), &|_| (true, Err(2)));
    assert_eq!(
        seen,
        vec![
            LaunchAction::Check(Target::Recovery),
            LaunchAction::Spawn(Target::Recovery),
            LaunchAction::NothingLaunched,
        ]
    );
    let seen = drive(launch_recovery(), &|_| (true, Ok(5)));
    assert_eq!(seen.last(), Some(&LaunchAction::Launched(Target::Recovery, 5)));
}

#[test]
fn breach_launches_recovery_only() {
    let seen = drive(launcher_for(false), &|_| (true, Ok(3)));
    assert_eq!(seen[0], LaunchAction::Check(Target::Recovery));
    let seen = drive(launcher_for(true), &|_| (true, Ok(3)));
    assert_eq!(seen[0], LaunchAction::Check(Target::Experience));
}

#[test]
fn stray_events_repeat_the_pending_action() {
    let mut l = launch();
    assert_eq!(l.step(LaunchEvent::Spawned(4)), LaunchAction::Check(Target::Experience));
    assert_eq!(l.step(LaunchEvent::Present), LaunchAction::Spawn(Target::Experience));
    assert_eq!(l.step(LaunchEvent::Absent), LaunchAction::Spawn(Target::Experience));
    assert_eq!(l.step(LaunchEvent::Spawned(4)), LaunchAction::Launched(Target::Experience, 4));
    assert_eq!(l.step(LaunchEvent::Absent), LaunchAction::Launched(Target::Experience, 4));
}
