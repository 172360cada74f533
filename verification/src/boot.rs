use vstd::prelude::*;
use crate::launch::{launch, launch_recovery, launch_start, Launcher, Target};

verus! {

/// After preflight: a go launches the full fall-through; a breach launches
/// the inert recovery console only, never the experience.
pub fn launcher_for(preflight_ok: bool) -> (l: Launcher)
    ensures
        l.wf(),
        preflight_ok ==> l@ == launch_start(seq![Target::Experience, Target::Node, Target::Recovery]),
        !preflight_ok ==> l@ == launch_start(seq![Target::Recovery]),
{
    if preflight_ok {
        launch()
    } else {
        launch_recovery()
    }
}

/// The steps of the boot rail, in their load-bearing order.
#[derive(Clone, Copy, Debug, PartialEq, Eq, Structural)]
pub enum RailStep {
    EarlyMounts,
    EntropyGate,
    Airgap,
    DataPartition,
    Preflight,
    Launch,
    HandOff,
}

/// What the boot rail asks PID 1 to do next.
#[derive(Clone, Copy, Debug, PartialEq, Eq, Structural)]
pub enum RailAction {
    /// Mount the virtual filesystems of `rail::early_mount_plan`.
    MountEarly,
    /// Run the entropy gate and record readiness.
    GateEntropy,
    /// Issue the rfkill block-all event.
    BlockRadios,
    /// Mount the data carrier of `rail::data_mount_plan`; report whether it is up.
    MountData,
    /// Run preflight, telling the policy whether the data carrier is up.
    RunPreflight(bool),
    /// Run the launch of `launcher_for` with this preflight verdict.
    Launch(bool),
    /// Nothing runs: sync and power off.
    SafeStop,
    /// Supervise the experience that runs as this pid, for good, keeping to
    /// this preflight verdict on every relaunch.
    Supervise(i32, bool),
}

/// What PID 1 observed while doing the last action.
#[derive(Clone, Copy, Debug, PartialEq, Eq, Structural)]
pub enum RailEvent {
    /// A step without a result the rail uses is over.
    Finished,
    /// The data carrier is mounted, or not.
    DataMounted(bool),
    /// Preflight gave go, or not.
    PreflightDone(bool),
    /// The launch ended, with the pid of what runs, if anything.
    LaunchDone(Option<i32>),
}

/// The boot rail: the step it is at and the results it carries forward.
#[derive(Clone, Copy, Debug, PartialEq, Eq, Structural)]
pub struct BootRail {
    pub step: RailStep,
    pub data_ok: bool,
    pub preflight_ok: bool,
    pub child: Option<i32>,
}

/// How the rail answers an event. An event that does not answer the pending
/// action leaves the rail as it is.
pub open spec fn rail_next(r: BootRail, ev: RailEvent) -> BootRail {
    match (r.step, ev) {
        (RailStep::EarlyMounts, RailEvent::Finished) => BootRail { step: RailStep::EntropyGate, ..r },
        (RailStep::EntropyGate, RailEvent::Finished) => BootRail { step: RailStep::Airgap, ..r },
        (RailStep::Airgap, RailEvent::Finished) => BootRail { step: RailStep::DataPartition, ..r },
        (RailStep::DataPartition, RailEvent::DataMounted(ok)) => BootRail {
            step: RailStep::Preflight,
            data_ok: ok,
            ..r
        },
        (RailStep::Preflight, RailEvent::PreflightDone(go)) => BootRail {
            step: RailStep::Launch,
            preflight_ok: go,
            ..r
        },
        (RailStep::Launch, RailEvent::LaunchDone(child)) => BootRail { step: RailStep::HandOff, child, ..r },
        _ => r,
    }
}

/// The action a rail state asks for.
pub open spec fn rail_pending(r: BootRail) -> RailAction {
    match r.step {
        RailStep::EarlyMounts => RailAction::MountEarly,
        RailStep::EntropyGate => RailAction::GateEntropy,
        RailStep::Airgap => RailAction::BlockRadios,
        RailStep::DataPartition => RailAction::MountData,
        RailStep::Preflight => RailAction::RunPreflight(r.data_ok),
        RailStep::Launch => RailAction::Launch(r.preflight_ok),
        RailStep::HandOff => match r.child {
            Some(pid) => RailAction::Supervise(pid, r.preflight_ok),
            None => RailAction::SafeStop,
        },
    }
}

/// The position of a step on the rail.
pub open spec fn rail_rank(s: RailStep) -> nat {
    match s {
        RailStep::EarlyMounts => 0,
        RailStep::EntropyGate => 1,
        RailStep::Airgap => 2,
        RailStep::DataPartition => 3,
        RailStep::Preflight => 4,
        RailStep::Launch => 5,
        RailStep::HandOff => 6,
    }
}

impl BootRail {
    /// The rail as PID 1 starts it.
    pub fn new() -> (r: BootRail)
        ensures
            r == (BootRail { step: RailStep::EarlyMounts, data_ok: false, preflight_ok: false, child: None }),
    {
        BootRail { step: RailStep::EarlyMounts, data_ok: false, preflight_ok: false, child: None }
    }

    /// The action the rail asks for now.
    pub fn pending(&self) -> (a: RailAction)
        ensures
            a == rail_pending(*self),
    {
        match self.step {
            RailStep::EarlyMounts => RailAction::MountEarly,
            RailStep::EntropyGate => RailAction::GateEntropy,
            RailStep::Airgap => RailAction::BlockRadios,
            RailStep::DataPartition => RailAction::MountData,
            RailStep::Preflight => RailAction::RunPreflight(self.data_ok),
            RailStep::Launch => RailAction::Launch(self.preflight_ok),
            RailStep::HandOff => match self.child {
                Some(pid) => RailAction::Supervise(pid, self.preflight_ok),
                None => RailAction::SafeStop,
            },
        }
    }

    /// Take PID 1's observation and return the next action.
    pub fn step(&mut self, ev: RailEvent) -> (a: RailAction)
        ensures
            *final(self) == rail_next(*old(self), ev),
            a == rail_pending(*final(self)),
    {
        match (self.step, ev) {
            (RailStep::EarlyMounts, RailEvent::Finished) => {
                self.step = RailStep::EntropyGate;
            },
            (RailStep::EntropyGate, RailEvent::Finished) => {
                self.step = RailStep::Airgap;
            },
            (RailStep::Airgap, RailEvent::Finished) => {
                self.step = RailStep::DataPartition;
            },
            (RailStep::DataPartition, RailEvent::DataMounted(ok)) => {
                self.step = RailStep::Preflight;
                self.data_ok = ok;
            },
            (RailStep::Preflight, RailEvent::PreflightDone(go)) => {
                self.step = RailStep::Launch;
                self.preflight_ok = go;
            },
            (RailStep::Launch, RailEvent::LaunchDone(child)) => {
                self.step = RailStep::HandOff;
                self.child = child;
            },
            _ => {},
        }
        self.pending()
    }
}

/// The order is the design: every event either leaves the rail where it is
/// or moves it exactly one step on, so no step is skipped or revisited and
/// the radios are down before the data carrier, preflight and any launch.
pub proof fn law_rail_keeps_order(r: BootRail, ev: RailEvent)
    ensures
        rail_rank(rail_next(r, ev).step) == rail_rank(r.step)
            || rail_rank(rail_next(r, ev).step) == rail_rank(r.step) + 1,
        rail_rank(rail_next(r, ev).step) == rail_rank(r.step) ==> rail_next(r, ev) == r,
{
}

/// A preflight breach launches the recovery console only; a go launches the
/// full fall-through.
pub proof fn law_breach_launches_recovery_only(r: BootRail, go: bool)
    requires
        r.step == RailStep::Preflight,
    ensures
        rail_pending(rail_next(r, RailEvent::PreflightDone(go))) == RailAction::Launch(go),
{
}

/// After the launch, nothing running means safe stop and a running
/// experience means supervision of its pid.
pub proof fn law_hand_off(r: BootRail, child: Option<i32>)
    requires
        r.step == RailStep::Launch,
    ensures
        child is None ==> rail_pending(rail_next(r, RailEvent::LaunchDone(child))) == RailAction::SafeStop,
        child matches Some(pid) ==> rail_pending(rail_next(r, RailEvent::LaunchDone(child)))
            == RailAction::Supervise(pid, r.preflight_ok),
{
}

/// The data carrier's state reaches preflight unchanged.
pub proof fn law_preflight_sees_data_state(r: BootRail, ok: bool)
    requires
        r.step == RailStep::DataPartition,
    ensures
        rail_pending(rail_next(r, RailEvent::DataMounted(ok))) == RailAction::RunPreflight(ok),
{
}

/// After a breach the verdict reaches every later step: from preflight on,
/// the launch asked for and the supervision handed over both carry the no-go.
pub proof fn law_breach_reaches_supervision(r: BootRail, ev: RailEvent)
    requires
        rail_rank(r.step) >= rail_rank(RailStep::Launch),
        !r.preflight_ok,
    ensures
        !rail_next(r, ev).preflight_ok,
        rail_pending(rail_next(r, ev)) != RailAction::Launch(true),
        forall|pid: i32| rail_pending(rail_next(r, ev)) != RailAction::Supervise(pid, true),
{
}

} // verus!
