use vstd::prelude::*;

verus! {

/// Backoff before the experience is restarted, in milliseconds.
pub const RESTART_BACKOFF_MS: u64 = 2000;

/// Idle pause when there was no child to reap, in milliseconds.
pub const IDLE_PAUSE_MS: u64 = 200;

/// What the supervisor asks PID 1 to do next.
#[derive(Clone, Copy, Debug, PartialEq, Eq, Structural)]
pub enum SuperviseAction {
    /// Wait for any child to terminate and report it.
    Reap,
    /// Sleep for the given number of milliseconds.
    Sleep(u64),
    /// Run the launch that `boot::launcher_for` gives for this preflight
    /// verdict (the full fall-through after a go, the recovery console only
    /// after a breach) and report what runs.
    Relaunch(bool),
    /// Sync and power off; nothing else will be asked.
    SafeStop,
}

/// What PID 1 observed while doing the last action.
#[derive(Clone, Copy, Debug, PartialEq, Eq, Structural)]
pub enum SuperviseEvent {
    /// A child with this pid was reaped.
    Reaped(i32),
    /// There was no child to reap, or the wait was interrupted.
    NothingReaped,
    /// The requested sleep is over.
    Slept,
    /// The relaunch ended, with the pid of what runs now, if anything.
    Relaunched(Option<i32>),
}

#[derive(Clone, Copy, Debug, PartialEq, Eq, Structural)]
pub enum SupervisePhase {
    Reaping,
    Idling,
    BackingOff,
    Relaunching,
    Stopped,
}

/// The state of supervision: the pid of the supervised experience, if any,
/// what the supervisor is waiting for, and the preflight verdict that every
/// relaunch keeps to.
#[derive(Clone, Copy, Debug, PartialEq, Eq, Structural)]
pub struct Supervisor {
    pub child: Option<i32>,
    pub phase: SupervisePhase,
    pub preflight_ok: bool,
}

/// How supervision answers an event. An event that does not answer the
/// pending action leaves the state as it is.
pub open spec fn supervise_next(s: Supervisor, ev: SuperviseEvent) -> Supervisor {
    match s.phase {
        SupervisePhase::Reaping => match ev {
            SuperviseEvent::Reaped(pid) => if s.child == Some(pid) {
                Supervisor { phase: SupervisePhase::BackingOff, ..s }
            } else {
                s
            },
            SuperviseEvent::NothingReaped => Supervisor { phase: SupervisePhase::Idling, ..s },
            _ => s,
        },
        SupervisePhase::Idling => match ev {
            SuperviseEvent::Slept => Supervisor { phase: SupervisePhase::Reaping, ..s },
            _ => s,
        },
        SupervisePhase::BackingOff => match ev {
            SuperviseEvent::Slept => Supervisor { phase: SupervisePhase::Relaunching, ..s },
            _ => s,
        },
        SupervisePhase::Relaunching => match ev {
            SuperviseEvent::Relaunched(child) => Supervisor {
                child,
                phase: if child is Some {
                    SupervisePhase::Reaping
                } else {
                    SupervisePhase::Stopped
                },
                ..s
            },
            _ => s,
        },
        SupervisePhase::Stopped => s,
    }
}

/// The action a supervision state asks for.
pub open spec fn supervise_pending(s: Supervisor) -> SuperviseAction {
    match s.phase {
        SupervisePhase::Reaping => SuperviseAction::Reap,
        SupervisePhase::Idling => SuperviseAction::Sleep(IDLE_PAUSE_MS),
        SupervisePhase::BackingOff => SuperviseAction::Sleep(RESTART_BACKOFF_MS),
        SupervisePhase::Relaunching => SuperviseAction::Relaunch(s.preflight_ok),
        SupervisePhase::Stopped => SuperviseAction::SafeStop,
    }
}

impl Supervisor {
    /// Supervision of `child` as PID 1 under the given preflight verdict,
    /// starting with a reap.
    pub fn new(child: Option<i32>, preflight_ok: bool) -> (s: Supervisor)
        ensures
            s == (Supervisor { child, phase: SupervisePhase::Reaping, preflight_ok }),
    {
        Supervisor { child, phase: SupervisePhase::Reaping, preflight_ok }
    }

    /// The action supervision asks for now.
    pub fn pending(&self) -> (a: SuperviseAction)
        ensures
            a == supervise_pending(*self),
    {
        match self.phase {
            SupervisePhase::Reaping => SuperviseAction::Reap,
            SupervisePhase::Idling => SuperviseAction::Sleep(IDLE_PAUSE_MS),
            SupervisePhase::BackingOff => SuperviseAction::Sleep(RESTART_BACKOFF_MS),
            SupervisePhase::Relaunching => SuperviseAction::Relaunch(self.preflight_ok),
            SupervisePhase::Stopped => SuperviseAction::SafeStop,
        }
    }

    /// Take PID 1's observation and return the next action.
    pub fn step(&mut self, ev: SuperviseEvent) -> (a: SuperviseAction)
        ensures
            *final(self) == supervise_next(*old(self), ev),
            a == supervise_pending(*final(self)),
    {
        match self.phase {
            SupervisePhase::Reaping => match ev {
                SuperviseEvent::Reaped(pid) => {
                    let is_child = match self.child {
                        Some(c) => c == pid,
                        None => false,
                    };
                    if is_child {
                        self.phase = SupervisePhase::BackingOff;
                    }
                },
                SuperviseEvent::NothingReaped => {
                    self.phase = SupervisePhase::Idling;
                },
                _ => {},
            },
            SupervisePhase::Idling => match ev {
                SuperviseEvent::Slept => {
                    self.phase = SupervisePhase::Reaping;
                },
                _ => {},
            },
            SupervisePhase::BackingOff => match ev {
                SuperviseEvent::Slept => {
                    self.phase = SupervisePhase::Relaunching;
                },
                _ => {},
            },
            SupervisePhase::Relaunching => match ev {
                SuperviseEvent::Relaunched(child) => {
                    self.child = child;
                    self.phase = match child {
                        Some(_) => SupervisePhase::Reaping,
                        None => SupervisePhase::Stopped,
                    };
                },
                _ => {},
            },
            SupervisePhase::Stopped => {},
        }
        self.pending()
    }
}

/// Restart: when the supervised experience exits, the supervisor backs off
/// for two seconds and then relaunches.
pub proof fn law_exit_leads_to_relaunch(s: Supervisor, pid: i32)
    requires
        s.phase == SupervisePhase::Reaping,
        s.child == Some(pid),
    ensures
        supervise_pending(supervise_next(s, SuperviseEvent::Reaped(pid)))
            == SuperviseAction::Sleep(RESTART_BACKOFF_MS),
        supervise_pending(
            supervise_next(supervise_next(s, SuperviseEvent::Reaped(pid)), SuperviseEvent::Slept),
        ) == SuperviseAction::Relaunch(s.preflight_ok),
{
}

/// A relaunch that runs pid `p` makes `p` the supervised child: supervision
/// goes back to reaping, and the exit of `p` is what starts the next restart.
pub proof fn law_relaunched_pid_is_supervised(s: Supervisor, p: i32)
    requires
        s.phase == SupervisePhase::Relaunching,
    ensures
        supervise_next(s, SuperviseEvent::Relaunched(Some(p))).child == Some(p),
        supervise_pending(supervise_next(s, SuperviseEvent::Relaunched(Some(p)))) == SuperviseAction::Reap,
        supervise_pending(
            supervise_next(supervise_next(s, SuperviseEvent::Relaunched(Some(p))), SuperviseEvent::Reaped(p)),
        ) == SuperviseAction::Sleep(RESTART_BACKOFF_MS),
{
}

/// Orphans: reaping any other process changes nothing and the supervisor
/// keeps reaping.
pub proof fn law_orphans_are_ignored(s: Supervisor, pid: i32)
    requires
        s.phase == SupervisePhase::Reaping,
        s.child != Some(pid),
    ensures
        supervise_next(s, SuperviseEvent::Reaped(pid)) == s,
        supervise_pending(supervise_next(s, SuperviseEvent::Reaped(pid))) == SuperviseAction::Reap,
{
}

/// Safe stop is final: once asked for, it is asked for whatever happens.
pub proof fn law_safe_stop_is_final(s: Supervisor, ev: SuperviseEvent)
    requires
        supervise_pending(s) == SuperviseAction::SafeStop,
    ensures
        supervise_next(s, ev) == s,
        supervise_pending(supervise_next(s, ev)) == SuperviseAction::SafeStop,
{
}

/// Supervision only stops when a relaunch found nothing to run.
pub proof fn law_stops_only_when_relaunch_fails(s: Supervisor, ev: SuperviseEvent)
    requires
        s.phase != SupervisePhase::Stopped,
    ensures
        supervise_next(s, ev).phase == SupervisePhase::Stopped
            <==> (s.phase == SupervisePhase::Relaunching && ev == SuperviseEvent::Relaunched(None)),
{
}

/// While supervision has not stopped, an experience started with a pid keeps
/// one: every relaunch that runs replaces the pid, and only a failed one
/// clears it.
pub proof fn law_supervised_child_kept(s: Supervisor, ev: SuperviseEvent)
    requires
        s.child is Some,
        s.phase != SupervisePhase::Stopped,
    ensures
        supervise_next(s, ev).phase != SupervisePhase::Stopped ==> supervise_next(s, ev).child is Some,
{
}

/// A breach holds across supervision: the preflight verdict never changes,
/// so after a no-go every relaunch asked for is the recovery console only.
pub proof fn law_breach_holds_across_supervision(s: Supervisor, ev: SuperviseEvent)
    ensures
        supervise_next(s, ev).preflight_ok == s.preflight_ok,
        !s.preflight_ok ==> supervise_pending(s) != SuperviseAction::Relaunch(true),
        !s.preflight_ok ==> supervise_pending(supervise_next(s, ev)) != SuperviseAction::Relaunch(true),
{
}

/// Whether an event is the report of the given action being done.
pub open spec fn answers(a: SuperviseAction, ev: SuperviseEvent) -> bool {
    match a {
        SuperviseAction::Reap => ev is Reaped || ev is NothingReaped,
        SuperviseAction::Sleep(_) => ev is Slept,
        SuperviseAction::Relaunch(_) => ev is Relaunched,
        SuperviseAction::SafeStop => false,
    }
}

/// Every child gets reaped: from any state before safe stop, when PID 1 does
/// what is asked, a reap is asked for again within two reports, unless a
/// relaunch found nothing to run and supervision went to safe stop.
pub proof fn law_reap_is_asked_again(s: Supervisor, e1: SuperviseEvent, e2: SuperviseEvent)
    requires
        s.phase != SupervisePhase::Stopped,
        answers(supervise_pending(s), e1),
        answers(supervise_pending(supervise_next(s, e1)), e2),
    ensures
        ({
            let s1 = supervise_next(s, e1);
            let s2 = supervise_next(s1, e2);
            ||| supervise_pending(s) == SuperviseAction::Reap
            ||| supervise_pending(s1) == SuperviseAction::Reap
            ||| supervise_pending(s2) == SuperviseAction::Reap
            ||| supervise_pending(s2) == SuperviseAction::SafeStop
        }),
{
}

/// Supervision ends only in safe stop: every state asks PID 1 for an action,
/// a state before safe stop never asks for it, and safe stop is asked for
/// exactly in the stopped state.
pub proof fn law_supervision_ends_only_in_safe_stop(s: Supervisor)
    ensures
        (supervise_pending(s) == SuperviseAction::SafeStop) <==> (s.phase == SupervisePhase::Stopped),
        supervise_pending(s) is Reap || supervise_pending(s) is Sleep || supervise_pending(s) is Relaunch
            || supervise_pending(s) is SafeStop,
{
}

} // verus!
