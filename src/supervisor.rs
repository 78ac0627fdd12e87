use vstd::prelude::*;
use vstd::utf8::encode_utf8;
use crate::config::{is_complete, option_view, resolve_config, resolved, BackendConfig, ConfigModel};
use crate::port::{extract_port, port_of};

verus! {

/// Why a start attempt failed.
#[derive(Debug)]
pub enum StartError {
    /// No candidate location holds the backend binary; the checked paths.
    BinaryNotFound(Vec<String>),
    /// No launch command can be formed on this host (an unsupported target,
    /// or a missing development source directory); the reason.
    LaunchUnavailable(String),
    /// The operating system could not create the process.
    Spawn(String),
    /// The process was spawned but had already exited at the liveness check.
    ExitedImmediately,
}

/// What the host reports back after performing an action.
#[derive(Debug)]
pub enum Outcome {
    /// The held child was killed and reaped.
    ChildStopped,
    /// Whatever listened on the target port was terminated, and the pause
    /// that lets the socket go has passed.
    PortReclaimed,
    /// The child was launched and its handle is held.
    Spawned,
    /// The child could not be launched; no handle is held.
    LaunchFailed(StartError),
    /// After the post-spawn pause, whether the child had already exited.
    LivenessChecked { exited: bool },
}

/// Where a supervisor stands. A child handle is held exactly in the
/// `Stopping`, `Verifying` and `Running` phases.
#[derive(Debug)]
pub enum Phase {
    Idle,
    /// Terminating the held child; afterwards, a start with this resolved
    /// configuration when there is one.
    Stopping { then_start: Option<BackendConfig> },
    /// Freeing the target port before the launch.
    Reclaiming { config: BackendConfig },
    /// Locating the binary and spawning the child.
    Launching { config: BackendConfig },
    /// Spawned; waiting for the liveness check.
    Verifying { config: BackendConfig },
    Running { config: BackendConfig },
}

/// What the host must do next.
#[derive(Debug)]
pub enum Action {
    /// The operation is over; there is nothing more to do.
    Done,
    /// Kill the held child, wait for it to exit, report `ChildStopped`.
    TerminateChild,
    /// Terminate whatever listens on this port, pause, report `PortReclaimed`.
    ReclaimPort(u16),
    /// Launch the backend with this configuration, report `Spawned` or
    /// `LaunchFailed`.
    Launch(BackendConfig),
    /// Pause, poll the child, report `LivenessChecked`.
    CheckLiveness,
    /// The start succeeded: the child is running.
    Started,
    /// The start failed; when `release_child` holds, reap and drop the
    /// (already exited) child handle first.
    Failed { release_child: bool, error: StartError },
}

pub enum PhaseModel {
    Idle,
    Stopping { then_start: Option<ConfigModel> },
    Reclaiming { config: ConfigModel },
    Launching { config: ConfigModel },
    Verifying { config: ConfigModel },
    Running { config: ConfigModel },
}

pub enum ActionModel {
    Done,
    TerminateChild,
    ReclaimPort(u16),
    Launch(ConfigModel),
    CheckLiveness,
    Started,
    Failed { release_child: bool, error: StartError },
}

impl View for Phase {
    type V = PhaseModel;

    open spec fn view(&self) -> PhaseModel {
        match self {
            Phase::Idle => PhaseModel::Idle,
            Phase::Stopping { then_start } => PhaseModel::Stopping {
                then_start: option_view(*then_start),
            },
            Phase::Reclaiming { config } => PhaseModel::Reclaiming { config: config@ },
            Phase::Launching { config } => PhaseModel::Launching { config: config@ },
            Phase::Verifying { config } => PhaseModel::Verifying { config: config@ },
            Phase::Running { config } => PhaseModel::Running { config: config@ },
        }
    }
}

impl View for Action {
    type V = ActionModel;

    open spec fn view(&self) -> ActionModel {
        match self {
            Action::Done => ActionModel::Done,
            Action::TerminateChild => ActionModel::TerminateChild,
            Action::ReclaimPort(p) => ActionModel::ReclaimPort(*p),
            Action::Launch(c) => ActionModel::Launch(c@),
            Action::CheckLiveness => ActionModel::CheckLiveness,
            Action::Started => ActionModel::Started,
            Action::Failed { release_child, error } => ActionModel::Failed {
                release_child: *release_child,
                error: *error,
            },
        }
    }
}

/// A child handle is held in this phase.
pub open spec fn holds_child(p: PhaseModel) -> bool {
    p is Stopping || p is Verifying || p is Running
}

/// The port reclaimed before launching with `c`, if its HTTP address names one.
pub open spec fn target_port(c: ConfigModel) -> Option<u16> {
    port_of(encode_utf8(c.http_addr))
}

/// Begins a start with a resolved configuration while no child is held.
pub open spec fn begin(c: ConfigModel) -> (PhaseModel, ActionModel) {
    match target_port(c) {
        Some(port) => (PhaseModel::Reclaiming { config: c }, ActionModel::ReclaimPort(port)),
        None => (PhaseModel::Launching { config: c }, ActionModel::Launch(c)),
    }
}

/// `start`: stop any held child first, then start with the resolved configuration.
pub open spec fn start_step(p: PhaseModel, supplied: Option<ConfigModel>) -> (
    PhaseModel,
    ActionModel,
) {
    let c = resolved(supplied);
    if holds_child(p) {
        (PhaseModel::Stopping { then_start: Some(c) }, ActionModel::TerminateChild)
    } else {
        begin(c)
    }
}

/// `stop`: terminate the held child, or nothing when none is held.
pub open spec fn stop_step(p: PhaseModel) -> (PhaseModel, ActionModel) {
    if holds_child(p) {
        (PhaseModel::Stopping { then_start: None }, ActionModel::TerminateChild)
    } else {
        (PhaseModel::Idle, ActionModel::Done)
    }
}

/// The reaction to what the host reports. An outcome that the phase does not
/// wait for changes nothing.
pub open spec fn outcome_step(p: PhaseModel, o: Outcome) -> (PhaseModel, ActionModel) {
    match (p, o) {
        (PhaseModel::Stopping { then_start }, Outcome::ChildStopped) => match then_start {
            Some(c) => begin(c),
            None => (PhaseModel::Idle, ActionModel::Done),
        },
        (PhaseModel::Reclaiming { config }, Outcome::PortReclaimed) => (
            PhaseModel::Launching { config },
            ActionModel::Launch(config),
        ),
        (PhaseModel::Launching { config }, Outcome::Spawned) => (
            PhaseModel::Verifying { config },
            ActionModel::CheckLiveness,
        ),
        (PhaseModel::Launching { config }, Outcome::LaunchFailed(e)) => (
            PhaseModel::Idle,
            ActionModel::Failed { release_child: false, error: e },
        ),
        (PhaseModel::Verifying { config }, Outcome::LivenessChecked { exited }) => if exited {
            (
                PhaseModel::Idle,
                ActionModel::Failed { release_child: true, error: StartError::ExitedImmediately },
            )
        } else {
            (PhaseModel::Running { config }, ActionModel::Started)
        },
        _ => (p, ActionModel::Done),
    }
}

/// Supervisor of the one backend child process.
pub struct BackendProcess {
    phase: Phase,
}

impl View for BackendProcess {
    type V = PhaseModel;

    closed spec fn view(&self) -> PhaseModel {
        self.phase@
    }
}

fn begin_exec(config: BackendConfig) -> (r: (Phase, Action))
    ensures
        (r.0@, r.1@) == begin(config@),
{
    let port = extract_port(config.http_addr.as_str());
    match port {
        Some(p) => (Phase::Reclaiming { config }, Action::ReclaimPort(p)),
        None => {
            let launch = config.duplicate();
            (Phase::Launching { config }, Action::Launch(launch))
        },
    }
}

impl BackendProcess {
    /// A supervisor that holds no child.
    pub fn new() -> (r: BackendProcess)
        ensures
            r@ == PhaseModel::Idle,
    {
        BackendProcess { phase: Phase::Idle }
    }

    pub fn phase(&self) -> (r: &Phase)
        ensures
            r@ == self@,
    {
        &self.phase
    }

    /// A child handle is held.
    pub fn holds_child(&self) -> (r: bool)
        ensures
            r == holds_child(self@),
    {
        match self.phase {
            Phase::Stopping { .. } | Phase::Verifying { .. } | Phase::Running { .. } => true,
            _ => false,
        }
    }

    /// The configuration of the running child.
    pub fn running_config(&self) -> (r: Option<&BackendConfig>)
        ensures
            match self@ {
                PhaseModel::Running { config } => r is Some && r->0@ == config,
                _ => r is None,
            },
    {
        match &self.phase {
            Phase::Running { config } => Some(config),
            _ => None,
        }
    }

    /// Starts the backend with `config`, or with the defaults when it is
    /// absent or incomplete; a held child is stopped first.
    pub fn start(&mut self, config: Option<BackendConfig>) -> (r: Action)
        ensures
            (final(self)@, r@) == start_step(old(self)@, option_view(config)),
    {
        let resolved = resolve_config(config);
        if self.holds_child() {
            self.phase = Phase::Stopping { then_start: Some(resolved) };
            Action::TerminateChild
        } else {
            let (p, a) = begin_exec(resolved);
            self.phase = p;
            a
        }
    }

    /// Stops the held child, if any; a no-op otherwise.
    pub fn stop(&mut self) -> (r: Action)
        ensures
            (final(self)@, r@) == stop_step(old(self)@),
    {
        if self.holds_child() {
            self.phase = Phase::Stopping { then_start: None };
            Action::TerminateChild
        } else {
            self.phase = Phase::Idle;
            Action::Done
        }
    }

    /// Stops the held child and starts again with `config`.
    pub fn restart(&mut self, config: BackendConfig) -> (r: Action)
        ensures
            (final(self)@, r@) == start_step(old(self)@, Some(config@)),
    {
        self.start(Some(config))
    }

    /// Takes in what the host reports after performing the last action.
    pub fn on_outcome(&mut self, outcome: Outcome) -> (r: Action)
        ensures
            (final(self)@, r@) == outcome_step(old(self)@, outcome),
    {
        let mut phase = Phase::Idle;
        core::mem::swap(&mut phase, &mut self.phase);
        let (p, a) = match (phase, outcome) {
            (Phase::Stopping { then_start }, Outcome::ChildStopped) => match then_start {
                Some(c) => begin_exec(c),
                None => (Phase::Idle, Action::Done),
            },
            (Phase::Reclaiming { config }, Outcome::PortReclaimed) => {
                let launch = config.duplicate();
                (Phase::Launching { config }, Action::Launch(launch))
            },
            (Phase::Launching { config }, Outcome::Spawned) => (
                Phase::Verifying { config },
                Action::CheckLiveness,
            ),
            (Phase::Launching { config }, Outcome::LaunchFailed(e)) => (
                Phase::Idle,
                Action::Failed { release_child: false, error: e },
            ),
            (Phase::Verifying { config }, Outcome::LivenessChecked { exited }) => if exited {
                (
                    Phase::Idle,
                    Action::Failed { release_child: true, error: StartError::ExitedImmediately },
                )
            } else {
                (Phase::Running { config }, Action::Started)
            },
            (phase, _) => (phase, Action::Done),
        };
        self.phase = p;
        a
    }
}

/// One thing that happens to a supervisor: a request of the host, or the
/// report of an action's outcome.
pub enum Input {
    Start(Option<ConfigModel>),
    Stop,
    Report(Outcome),
}

pub open spec fn step(p: PhaseModel, i: Input) -> (PhaseModel, ActionModel) {
    match i {
        Input::Start(c) => start_step(p, c),
        Input::Stop => stop_step(p),
        Input::Report(o) => outcome_step(p, o),
    }
}

/// The phase after the inputs `s`, starting from `p`.
pub open spec fn run(p: PhaseModel, s: Seq<Input>) -> PhaseModel
    decreases s.len(),
{
    if s.len() == 0 {
        p
    } else {
        step(run(p, s.drop_last()), s.last()).0
    }
}

/// How an input changes the number of live children the host holds: a
/// spawn adds one; a reaped stop or an exited child at the liveness check
/// removes one.
pub open spec fn child_delta(p: PhaseModel, i: Input) -> int {
    match (p, i) {
        (PhaseModel::Launching { .. }, Input::Report(Outcome::Spawned)) => 1,
        (PhaseModel::Stopping { .. }, Input::Report(Outcome::ChildStopped)) => -1,
        (PhaseModel::Verifying { .. }, Input::Report(Outcome::LivenessChecked { exited })) => if exited {
            -1
        } else {
            0
        },
        _ => 0,
    }
}

/// The number of live children after the inputs `s`, starting from `p` with none.
pub open spec fn live_children(p: PhaseModel, s: Seq<Input>) -> int
    decreases s.len(),
{
    if s.len() == 0 {
        0
    } else {
        live_children(p, s.drop_last()) + child_delta(run(p, s.drop_last()), s.last())
    }
}

proof fn lemma_step_child_count(p: PhaseModel, i: Input)
    ensures
        (if holds_child(step(p, i).0) { 1int } else { 0 }) == (if holds_child(p) { 1int } else { 0 })
            + child_delta(p, i),
{
}

/// A launch is asked for only when no child is alive: none was held, or the
/// held one has just been reaped.
pub proof fn lemma_launch_only_without_child(p: PhaseModel, i: Input)
    ensures
        step(p, i).1 is Launch ==> !holds_child(step(p, i).0) && (if holds_child(p) {
            1int
        } else {
            0
        }) + child_delta(p, i) == 0,
{
}

/// At most one child: after any sequence of requests and outcomes from a new
/// supervisor, the live children number one when a child is held and zero
/// otherwise.
pub proof fn lemma_at_most_one_child(s: Seq<Input>)
    ensures
        live_children(PhaseModel::Idle, s) == (if holds_child(run(PhaseModel::Idle, s)) {
            1int
        } else {
            0
        }),
        0 <= live_children(PhaseModel::Idle, s) <= 1,
    decreases s.len(),
{
    if s.len() > 0 {
        lemma_at_most_one_child(s.drop_last());
        lemma_step_child_count(run(PhaseModel::Idle, s.drop_last()), s.last());
    }
}

/// Stopping a supervisor that holds no child does nothing and leaves it idle.
pub proof fn lemma_stop_idempotent(p: PhaseModel)
    requires
        !holds_child(p),
    ensures
        stop_step(p) == (PhaseModel::Idle, ActionModel::Done),
        stop_step(stop_step(p).0) == (PhaseModel::Idle, ActionModel::Done),
{
}

/// On shutdown a held child is terminated, and once it is reaped the
/// supervisor is idle with no child.
pub proof fn lemma_shutdown_releases_child(p: PhaseModel)
    requires
        holds_child(p),
    ensures
        stop_step(p) == (PhaseModel::Stopping { then_start: None }, ActionModel::TerminateChild),
        outcome_step(stop_step(p).0, Outcome::ChildStopped) == (PhaseModel::Idle, ActionModel::Done),
        child_delta(stop_step(p).0, Input::Report(Outcome::ChildStopped)) == -1,
{
}

/// A restart of a running child with a complete configuration first
/// terminates that child, then (after reclaiming the port it names, if any)
/// launches with exactly the new configuration.
pub proof fn lemma_restart_replaces_config(p: PhaseModel, c: ConfigModel)
    requires
        holds_child(p),
        is_complete(c),
    ensures
        start_step(p, Some(c)) == (PhaseModel::Stopping { then_start: Some(c) }, ActionModel::TerminateChild),
        match target_port(c) {
            Some(port) => {
                &&& outcome_step(start_step(p, Some(c)).0, Outcome::ChildStopped) == (
                    PhaseModel::Reclaiming { config: c },
                    ActionModel::ReclaimPort(port),
                )
                &&& outcome_step(PhaseModel::Reclaiming { config: c }, Outcome::PortReclaimed) == (
                    PhaseModel::Launching { config: c },
                    ActionModel::Launch(c),
                )
            },
            None => outcome_step(start_step(p, Some(c)).0, Outcome::ChildStopped) == (
                PhaseModel::Launching { config: c },
                ActionModel::Launch(c),
            ),
        },
{
}

/// A start succeeds only on a liveness check that found the child alive; a
/// child found exited fails the start and is released.
pub proof fn lemma_success_needs_live_child(p: PhaseModel, i: Input)
    ensures
        step(p, i).1 is Started ==> p is Verifying && i == Input::Report(
            Outcome::LivenessChecked { exited: false },
        ),
        (p is Verifying && i == Input::Report(Outcome::LivenessChecked { exited: true })) ==> step(
            p,
            i,
        ) == (PhaseModel::Idle, ActionModel::Failed {
            release_child: true,
            error: StartError::ExitedImmediately,
        }),
{
}

} // verus!
