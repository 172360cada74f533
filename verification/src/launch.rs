use vstd::prelude::*;

verus! {

/// A program the init can hand the console to.
#[derive(Clone, Copy, Debug, PartialEq, Eq, Structural)]
pub enum Target {
    /// The graphic boot-shell, which spawns the node itself.
    Experience,
    /// The node run directly, without a graphic shell.
    Node,
    /// The native recovery console.
    Recovery,
}

pub open spec fn target_path(t: Target) -> Seq<char> {
    match t {
        Target::Experience => "/usr/bin/hom3home"@,
        Target::Node => "/usr/bin/hom3node"@,
        Target::Recovery => "/usr/bin/hom3recovery"@,
    }
}

impl Target {
    /// Where the target's binary is installed.
    pub fn path(&self) -> (r: &'static str)
        ensures
            r@ == target_path(*self),
    {
        match self {
            Target::Experience => "/usr/bin/hom3home",
            Target::Node => "/usr/bin/hom3node",
            Target::Recovery => "/usr/bin/hom3recovery",
        }
    }
}

/// What the launcher asks its caller to do next.
#[derive(Clone, Copy, Debug, PartialEq, Eq, Structural)]
pub enum LaunchAction {
    /// Report whether the target's binary is installed.
    Check(Target),
    /// Spawn the target's binary and report the result.
    Spawn(Target),
    /// The target runs as the given pid; the launch is over.
    Launched(Target, i32),
    /// No target could be launched; the launch is over.
    NothingLaunched,
}

/// What the caller observed while doing the last action.
#[derive(Clone, Copy, Debug, PartialEq, Eq, Structural)]
pub enum LaunchEvent {
    Present,
    Absent,
    Spawned(i32),
    SpawnFailed(i32),
}

#[derive(Clone, Copy, Debug, PartialEq, Eq, Structural)]
pub enum LaunchPhase {
    Checking,
    Spawning,
    Finished,
}

/// The abstract state of a launch: the fall-through order, the position in
/// it, the phase, and, once finished, what was launched.
pub struct LauncherView {
    pub targets: Seq<Target>,
    pub next: nat,
    pub phase: LaunchPhase,
    pub launched: Option<(Target, i32)>,
}

/// One launch: tries each target in order, skipping absent ones and ones
/// whose spawn fails, and stops at the first that runs.
pub struct Launcher {
    targets: Vec<Target>,
    next: usize,
    phase: LaunchPhase,
    launched: Option<(Target, i32)>,
}

impl View for Launcher {
    type V = LauncherView;

    closed spec fn view(&self) -> LauncherView {
        LauncherView {
            targets: self.targets@,
            next: self.next as nat,
            phase: self.phase,
            launched: self.launched,
        }
    }
}

/// A launch state is well formed when it still points into its non-empty
/// target list, unless it has finished.
pub open spec fn launcher_wf(s: LauncherView) -> bool {
    &&& s.targets.len() > 0
    &&& s.phase != LaunchPhase::Finished ==> s.next < s.targets.len()
    &&& s.phase != LaunchPhase::Finished ==> s.launched is None
}

/// The state a launch starts in.
pub open spec fn launch_start(targets: Seq<Target>) -> LauncherView {
    LauncherView { targets, next: 0, phase: LaunchPhase::Checking, launched: None }
}

/// Move past the current target: check the next one, or finish with nothing.
pub open spec fn fall_through(s: LauncherView) -> LauncherView {
    if s.next + 1 < s.targets.len() {
        LauncherView { next: s.next + 1, phase: LaunchPhase::Checking, ..s }
    } else {
        LauncherView { next: s.next + 1, phase: LaunchPhase::Finished, launched: None, ..s }
    }
}

/// How a launch state answers an event. An event that does not answer the
/// pending action leaves the state as it is.
pub open spec fn launch_next(s: LauncherView, ev: LaunchEvent) -> LauncherView {
    match s.phase {
        LaunchPhase::Checking => match ev {
            LaunchEvent::Present => LauncherView { phase: LaunchPhase::Spawning, ..s },
            LaunchEvent::Absent => fall_through(s),
            _ => s,
        },
        LaunchPhase::Spawning => match ev {
            LaunchEvent::Spawned(pid) => LauncherView {
                phase: LaunchPhase::Finished,
                launched: Some((s.targets[s.next as int], pid)),
                ..s
            },
            LaunchEvent::SpawnFailed(_) => fall_through(s),
            _ => s,
        },
        LaunchPhase::Finished => s,
    }
}

/// The action a launch state asks for.
pub open spec fn launch_pending(s: LauncherView) -> LaunchAction {
    match s.phase {
        LaunchPhase::Checking => LaunchAction::Check(s.targets[s.next as int]),
        LaunchPhase::Spawning => LaunchAction::Spawn(s.targets[s.next as int]),
        LaunchPhase::Finished => match s.launched {
            Some((t, pid)) => LaunchAction::Launched(t, pid),
            None => LaunchAction::NothingLaunched,
        },
    }
}

/// The full fall-through launch: graphic shell, then the node directly, then
/// the recovery console.
pub fn launch() -> (l: Launcher)
    ensures
        l.wf(),
        l@ == launch_start(seq![Target::Experience, Target::Node, Target::Recovery]),
{
    let mut targets: Vec<Target> = Vec::new();
    targets.push(Target::Experience);
    targets.push(Target::Node);
    targets.push(Target::Recovery);
    let l = Launcher { targets, next: 0, phase: LaunchPhase::Checking, launched: None };
    assert(l@.targets =~= seq![Target::Experience, Target::Node, Target::Recovery]);
    l
}

/// The launch used after a preflight breach: the recovery console only.
pub fn launch_recovery() -> (l: Launcher)
    ensures
        l.wf(),
        l@ == launch_start(seq![Target::Recovery]),
{
    let mut targets: Vec<Target> = Vec::new();
    targets.push(Target::Recovery);
    let l = Launcher { targets, next: 0, phase: LaunchPhase::Checking, launched: None };
    assert(l@.targets =~= seq![Target::Recovery]);
    l
}

impl Launcher {
    pub closed spec fn wf(&self) -> bool {
        &&& launcher_wf(self@)
        &&& self.targets@.len() < usize::MAX
    }

    /// The action the launch asks for now.
    pub fn pending(&self) -> (a: LaunchAction)
        requires
            self.wf(),
        ensures
            a == launch_pending(self@),
    {
        match self.phase {
            LaunchPhase::Checking => LaunchAction::Check(self.targets[self.next]),
            LaunchPhase::Spawning => LaunchAction::Spawn(self.targets[self.next]),
            LaunchPhase::Finished => match self.launched {
                Some((t, pid)) => LaunchAction::Launched(t, pid),
                None => LaunchAction::NothingLaunched,
            },
        }
    }

    fn fall_through(&mut self)
        requires
            old(self).wf(),
            old(self).phase != LaunchPhase::Finished,
        ensures
            final(self).wf(),
            final(self)@ == fall_through(old(self)@),
    {
        self.next = self.next + 1;
        if self.next < self.targets.len() {
            self.phase = LaunchPhase::Checking;
        } else {
            self.phase = LaunchPhase::Finished;
            self.launched = None;
        }
    }

    /// Take the caller's observation and return the next action.
    pub fn step(&mut self, ev: LaunchEvent) -> (a: LaunchAction)
        requires
            old(self).wf(),
        ensures
            final(self).wf(),
            final(self)@ == launch_next(old(self)@, ev),
            a == launch_pending(final(self)@),
    {
        match self.phase {
            LaunchPhase::Checking => match ev {
                LaunchEvent::Present => {
                    self.phase = LaunchPhase::Spawning;
                },
                LaunchEvent::Absent => {
                    self.fall_through();
                },
                _ => {},
            },
            LaunchPhase::Spawning => match ev {
                LaunchEvent::Spawned(pid) => {
                    let t = self.targets[self.next];
                    self.phase = LaunchPhase::Finished;
                    self.launched = Some((t, pid));
                },
                LaunchEvent::SpawnFailed(_) => {
                    self.fall_through();
                },
                _ => {},
            },
            LaunchPhase::Finished => {},
        }
        self.pending()
    }
}

/// What probing one target came to: its binary is absent, its spawn failed
/// with an errno, or it runs as a pid.
#[derive(Clone, Copy, Debug, PartialEq, Eq, Structural)]
pub enum Probe {
    Absent,
    Failed(i32),
    Runs(i32),
}

/// The events a caller reports while probing one target.
pub open spec fn probe_events(p: Probe) -> Seq<LaunchEvent> {
    match p {
        Probe::Absent => seq![LaunchEvent::Absent],
        Probe::Failed(e) => seq![LaunchEvent::Present, LaunchEvent::SpawnFailed(e)],
        Probe::Runs(pid) => seq![LaunchEvent::Present, LaunchEvent::Spawned(pid)],
    }
}

/// The events reported while probing targets one after another.
pub open spec fn probes_events(probes: Seq<Probe>) -> Seq<LaunchEvent>
    decreases probes.len(),
{
    if probes.len() == 0 {
        Seq::empty()
    } else {
        probe_events(probes[0]) + probes_events(probes.drop_first())
    }
}

/// A launch state after a sequence of events.
pub open spec fn launch_run(s: LauncherView, evs: Seq<LaunchEvent>) -> LauncherView
    decreases evs.len(),
{
    if evs.len() == 0 {
        s
    } else {
        launch_run(launch_next(s, evs[0]), evs.drop_first())
    }
}

/// The first target, in order, whose probe found it running.
pub open spec fn first_running(targets: Seq<Target>, probes: Seq<Probe>) -> Option<(Target, i32)>
    decreases probes.len(),
{
    if probes.len() == 0 || targets.len() == 0 {
        None
    } else {
        match probes[0] {
            Probe::Runs(pid) => Some((targets[0], pid)),
            _ => first_running(targets.drop_first(), probes.drop_first()),
        }
    }
}

proof fn lemma_run_concat(s: LauncherView, a: Seq<LaunchEvent>, b: Seq<LaunchEvent>)
    ensures
        launch_run(s, a + b) == launch_run(launch_run(s, a), b),
    decreases a.len(),
{
    if a.len() == 0 {
        assert(a + b =~= b);
    } else {
        assert((a + b).drop_first() =~= a.drop_first() + b);
        lemma_run_concat(launch_next(s, a[0]), a.drop_first(), b);
    }
}

proof fn lemma_finished_absorbs(s: LauncherView, evs: Seq<LaunchEvent>)
    requires
        s.phase == LaunchPhase::Finished,
    ensures
        launch_run(s, evs) == s,
    decreases evs.len(),
{
    if evs.len() > 0 {
        lemma_finished_absorbs(s, evs.drop_first());
    }
}

proof fn lemma_fall_through_from(s: LauncherView, probes: Seq<Probe>)
    requires
        launcher_wf(s),
        s.phase == LaunchPhase::Checking,
        probes.len() == s.targets.len() - s.next,
    ensures
        launch_run(s, probes_events(probes)).phase == LaunchPhase::Finished,
        launch_run(s, probes_events(probes)).launched
            == first_running(s.targets.skip(s.next as int), probes),
    decreases probes.len(),
{
    let head = probe_events(probes[0]);
    let rest = probes.drop_first();
    lemma_run_concat(s, head, probes_events(rest));
    let mid = launch_run(s, head);
    reveal_with_fuel(launch_run, 3);
    reveal_with_fuel(first_running, 2);
    assert(head.len() == 1 ==> head.drop_first() =~= Seq::<LaunchEvent>::empty());
    assert(head.len() == 2 ==> head.drop_first().drop_first() =~= Seq::<LaunchEvent>::empty());
    let t = s.targets.skip(s.next as int);
    assert(t.drop_first() =~= s.targets.skip(s.next + 1 as int));
    assert(t.len() > 0 && t[0] == s.targets[s.next as int]);
    assert(probes_events(probes) == head + probes_events(rest));
    match probes[0] {
        Probe::Runs(pid) => {
            assert(mid == launch_next(launch_next(s, LaunchEvent::Present), LaunchEvent::Spawned(pid)));
            lemma_finished_absorbs(mid, probes_events(rest));
        },
        Probe::Absent => {
            assert(mid == launch_next(s, LaunchEvent::Absent));
            if s.next + 1 < s.targets.len() {
                lemma_fall_through_from(mid, rest);
            } else {
                assert(rest.len() == 0);
                assert(probes_events(rest) =~= Seq::<LaunchEvent>::empty());
            }
        },
        Probe::Failed(e) => {
            assert(mid == launch_next(launch_next(s, LaunchEvent::Present), LaunchEvent::SpawnFailed(e)));
            if s.next + 1 < s.targets.len() {
                lemma_fall_through_from(mid, rest);
            } else {
                assert(rest.len() == 0);
                assert(probes_events(rest) =~= Seq::<LaunchEvent>::empty());
            }
        },
    }
}

/// Fall-through: probing the targets of a launch in order, the launch ends
/// with the first target that was present and whose spawn succeeded, or with
/// nothing launched when none was.
pub proof fn law_launch_falls_through(targets: Seq<Target>, probes: Seq<Probe>)
    requires
        targets.len() > 0,
        probes.len() == targets.len(),
    ensures
        launch_run(launch_start(targets), probes_events(probes)).phase == LaunchPhase::Finished,
        launch_run(launch_start(targets), probes_events(probes)).launched
            == first_running(targets, probes),
{
    assert(targets.skip(0) =~= targets);
    lemma_fall_through_from(launch_start(targets), probes);
}

/// A launch reports what it launched: the target being spawned and the very
/// pid its spawn returned.
pub proof fn law_launch_reports_spawned_pid(s: LauncherView, pid: i32)
    requires
        launcher_wf(s),
        s.phase == LaunchPhase::Spawning,
    ensures
        launch_pending(launch_next(s, LaunchEvent::Spawned(pid)))
            == LaunchAction::Launched(s.targets[s.next as int], pid),
        launch_next(s, LaunchEvent::Spawned(pid)).launched == Some((s.targets[s.next as int], pid)),
{
}

/// A finished launch keeps reporting what it launched, whatever it is told.
pub proof fn law_finished_launch_reports_its_target(s: LauncherView, t: Target, pid: i32, ev: LaunchEvent)
    requires
        s.phase == LaunchPhase::Finished,
        s.launched == Some((t, pid)),
    ensures
        launch_pending(s) == LaunchAction::Launched(t, pid),
        launch_pending(launch_next(s, ev)) == LaunchAction::Launched(t, pid),
{
}

/// The target an action concerns, if any.
pub open spec fn action_target(a: LaunchAction) -> Option<Target> {
    match a {
        LaunchAction::Check(t) => Some(t),
        LaunchAction::Spawn(t) => Some(t),
        LaunchAction::Launched(t, _) => Some(t),
        LaunchAction::NothingLaunched => None,
    }
}

/// A recovery-only launch never checks, spawns or reports any target but the
/// recovery console, whatever it is told.
pub proof fn law_recovery_only(s: LauncherView, ev: LaunchEvent)
    requires
        launcher_wf(s),
        s.targets == seq![Target::Recovery],
        s.launched matches Some((t, _)) ==> t == Target::Recovery,
    ensures
        launcher_wf(launch_next(s, ev)),
        launch_next(s, ev).targets == s.targets,
        launch_next(s, ev).launched matches Some((t, _)) ==> t == Target::Recovery,
        action_target(launch_pending(launch_next(s, ev))) matches Some(t) ==> t == Target::Recovery,
{
}

} // verus!
