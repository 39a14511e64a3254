use vstd::prelude::*;

use crate::endpoint::{decimal, host, Endpoint};

verus! {

/// Why a backend ended up in the `Failed` state.
#[derive(Debug)]
pub enum Failure {
    /// The executable could not be launched (missing binary, permission denied).
    SpawnFailed { reason: String },
    /// The process was launched but never became ready in time; it was killed.
    /// `output` is what it wrote before it exited.
    HealthCheckTimeout { output: String },
    /// The process exited without being asked to, after writing `output`.
    UnexpectedExit { exit_code: Option<i32>, output: String },
}

impl Failure {
    /// An identical copy of this failure.
    pub fn duplicate(&self) -> (r: Failure)
        ensures
            r == *self,
    {
        match self {
            Failure::SpawnFailed { reason } => Failure::SpawnFailed { reason: reason.clone() },
            Failure::HealthCheckTimeout { output } => Failure::HealthCheckTimeout { output: output.clone() },
            Failure::UnexpectedExit { exit_code, output } => Failure::UnexpectedExit {
                exit_code: *exit_code,
                output: output.clone(),
            },
        }
    }
}

/// Lifecycle state of the supervised backend.
#[derive(Debug)]
pub enum BackendState {
    Stopped,
    Starting,
    Running,
    Stopping,
    Failed(Failure),
}

impl BackendState {
    /// An identical copy of this state.
    pub fn duplicate(&self) -> (r: BackendState)
        ensures
            r == *self,
    {
        match self {
            BackendState::Stopped => BackendState::Stopped,
            BackendState::Starting => BackendState::Starting,
            BackendState::Running => BackendState::Running,
            BackendState::Stopping => BackendState::Stopping,
            BackendState::Failed(f) => BackendState::Failed(f.duplicate()),
        }
    }

    /// Whether a backend process may exist in this state (requested, alive or being stopped).
    pub open spec fn is_active(self) -> bool {
        self is Starting || self is Running || self is Stopping
    }

    pub fn active(&self) -> (r: bool)
        ensures
            r == self.is_active(),
    {
        match self {
            BackendState::Starting | BackendState::Running | BackendState::Stopping => true,
            _ => false,
        }
    }
}

/// What the process owner must do next on the supervisor's behalf.
#[derive(Clone, Copy, Debug, PartialEq, Eq, Structural)]
pub enum Action {
    /// Nothing to do.
    Idle,
    /// Launch the backend executable with `launch_args(port)`.
    Spawn { port: u16 },
    /// Ask the process to exit gracefully.
    Terminate { pid: u32 },
    /// Kill the process outright.
    ForceKill { pid: u32 },
    /// The process outlived a force-kill and its grace period: report it as a fatal
    /// error. The supervisor stays in `Stopping` and keeps tracking it.
    Unkillable { pid: u32 },
}

/// How the last stop of a running backend ended.
#[derive(Clone, Copy, Debug, PartialEq, Eq, Structural)]
pub enum StopOutcome {
    GracefulExit,
    ForceKilled,
}

/// Why a start request did not lead to a running backend.
#[derive(Debug)]
pub enum StartError {
    /// A backend is already starting, running or being stopped; nothing was launched.
    AlreadyRunning,
    SpawnFailed { reason: String },
    HealthCheckTimeout { output: String },
    UnexpectedExit { exit_code: Option<i32>, output: String },
    /// A stop was requested before the backend became ready, and its process is gone.
    Cancelled,
}

/// What the process owner observed about the backend process.
#[derive(Debug)]
pub enum Event {
    /// The launch requested by `Action::Spawn` produced the process `pid`.
    Spawned { pid: u32 },
    /// The launch requested by `Action::Spawn` failed.
    SpawnFailed { reason: String },
    /// The tracked process was still alive when the liveness grace period ended.
    Survived,
    /// A health probe of the endpoint finished.
    Probed { reachable: bool },
    /// The operating system reported that the tracked process has exited; `output`
    /// is the end of what it wrote to stdout and stderr.
    Exited { exit_code: Option<i32>, output: String },
    /// The bounded wait of the current phase (health check or stop grace period) elapsed.
    TimedOut,
}

impl Event {
    /// The outcome of one health probe. A connection counts only if the port was
    /// free before the launch: a listener that held it first is not the backend.
    pub fn probe(port_was_free: bool, connected: bool) -> (r: Event)
        ensures
            r == (Event::Probed { reachable: port_was_free && connected }),
    {
        Event::Probed { reachable: port_was_free && connected }
    }
}

/// A snapshot of the supervisor, as reported to callers.
#[derive(Debug)]
pub struct BackendStatus {
    pub state: BackendState,
    pub endpoint: Option<Endpoint>,
    pub pid: Option<u32>,
}

impl BackendStatus {
    pub fn is_running(&self) -> (r: bool)
        ensures
            r == (self.state is Running),
    {
        match self.state {
            BackendState::Running => true,
            _ => false,
        }
    }
}

/// Owner of the lifecycle of at most one backend process.
///
/// The supervisor makes every decision; the caller performs the returned actions
/// (launching, signalling, probing, waiting) and reports what happened as events.
#[derive(Debug)]
pub struct Supervisor {
    state: BackendState,
    /// The tracked process, once its launch has been reported.
    pid: Option<u32>,
    /// Where the backend listens, fixed when it is started.
    endpoint: Option<Endpoint>,
    /// A force-kill has been issued for the process being stopped.
    forced: bool,
    /// The stop was caused by a failed health check, not by a caller.
    aborting: bool,
    /// The starting process outlived the liveness grace period.
    survived: bool,
    /// How the most recent completed stop ended.
    last_stop: Option<StopOutcome>,
}

/// The mathematical model of a `Supervisor`: its state, the process it tracks,
/// the endpoint of the backend, and the bookkeeping of a stop in progress.
pub struct SupervisorModel {
    pub state: BackendState,
    /// The tracked process, once its launch has been reported.
    pub pid: Option<u32>,
    /// Where the backend listens, fixed when it is started.
    pub endpoint: Option<Endpoint>,
    /// A force-kill has been issued for the process being stopped.
    pub forced: bool,
    /// The stop was caused by a failed health check, not by a caller.
    pub aborting: bool,
    /// The starting process outlived the liveness grace period.
    pub survived: bool,
    /// How the most recent completed stop ended.
    pub last_stop: Option<StopOutcome>,
}

impl SupervisorModel {
    /// The invariant that `new` establishes and every method keeps.
    pub open spec fn wf(self) -> bool {
        &&& (self.pid is Some ==> self.state.is_active())
        &&& (self.state is Running ==> self.pid is Some)
        &&& (self.endpoint is Some <==> self.state.is_active())
        &&& (self.forced ==> self.state is Stopping)
        &&& (self.aborting ==> self.state is Stopping && self.forced)
        &&& (self.survived ==> self.state is Starting && self.pid is Some)
    }

    /// The supervisor with a new state, process and endpoint, and no stop in progress.
    pub open spec fn settle(self, state: BackendState, pid: Option<u32>, endpoint: Option<Endpoint>) -> SupervisorModel {
        SupervisorModel {
            state,
            pid,
            endpoint,
            forced: false,
            aborting: false,
            survived: false,
            last_stop: self.last_stop,
        }
    }

    /// The supervisor in `Stopping`, tracking `pid`.
    pub open spec fn stopping(self, pid: Option<u32>, forced: bool, aborting: bool) -> SupervisorModel {
        SupervisorModel {
            state: BackendState::Stopping,
            pid,
            endpoint: self.endpoint,
            forced,
            aborting,
            survived: false,
            last_stop: self.last_stop,
        }
    }

    pub open spec fn initial() -> SupervisorModel {
        SupervisorModel {
            state: BackendState::Stopped,
            pid: None,
            endpoint: None,
            forced: false,
            aborting: false,
            survived: false,
            last_stop: None,
        }
    }

    /// Effect of a start request on `port`.
    pub open spec fn start_spec(self, port: u16) -> (SupervisorModel, Result<Endpoint, StartError>) {
        if self.state.is_active() {
            (self, Err(StartError::AlreadyRunning))
        } else {
            (
                self.settle(BackendState::Starting, None, Some(Endpoint { port })),
                Ok(Endpoint { port }),
            )
        }
    }

    /// Effect of a stop request.
    pub open spec fn stop_spec(self) -> (SupervisorModel, Action) {
        match self.state {
            BackendState::Stopped => (self, Action::Idle),
            BackendState::Failed(_) => (self.settle(BackendState::Stopped, None, None), Action::Idle),
            BackendState::Stopping => match self.pid {
                Some(pid) => (self.stopping(Some(pid), true, false), Action::ForceKill { pid }),
                None => (self, Action::Idle),
            },
            _ => match self.pid {
                Some(pid) => (self.stopping(Some(pid), false, false), Action::Terminate { pid }),
                None => (self.stopping(None, false, false), Action::Idle),
            },
        }
    }

    /// Effect of an observed event.
    pub open spec fn handle_spec(self, event: Event) -> (SupervisorModel, Action) {
        match event {
            Event::Spawned { pid } => {
                if self.state is Starting && self.pid is None {
                    (self.settle(BackendState::Starting, Some(pid), self.endpoint), Action::Idle)
                } else if self.state is Stopping && self.pid is None {
                    (self.stopping(Some(pid), true, self.aborting), Action::ForceKill { pid })
                } else {
                    (self, Action::ForceKill { pid })
                }
            },
            Event::SpawnFailed { reason } => {
                if self.state is Starting && self.pid is None {
                    (
                        self.settle(BackendState::Failed(Failure::SpawnFailed { reason }), None, None),
                        Action::Idle,
                    )
                } else if self.state is Stopping && self.pid is None {
                    (self.settle(BackendState::Stopped, None, None), Action::Idle)
                } else {
                    (self, Action::Idle)
                }
            },
            Event::Survived => {
                if self.state is Starting && self.pid is Some {
                    (
                        SupervisorModel {
                            state: BackendState::Starting,
                            pid: self.pid,
                            endpoint: self.endpoint,
                            forced: false,
                            aborting: false,
                            survived: true,
                            last_stop: self.last_stop,
                        },
                        Action::Idle,
                    )
                } else {
                    (self, Action::Idle)
                }
            },
            Event::Probed { reachable } => {
                if self.state is Starting && self.pid is Some && self.survived && reachable {
                    (self.settle(BackendState::Running, self.pid, self.endpoint), Action::Idle)
                } else {
                    (self, Action::Idle)
                }
            },
            Event::Exited { exit_code, output } => {
                if (self.state is Starting || self.state is Running) && self.pid is Some {
                    (
                        self.settle(BackendState::Failed(Failure::UnexpectedExit { exit_code, output }), None, None),
                        Action::Idle,
                    )
                } else if self.state is Stopping && self.pid is Some {
                    let next = if self.aborting {
                        BackendState::Failed(Failure::HealthCheckTimeout { output })
                    } else {
                        BackendState::Stopped
                    };
                    let outcome = if self.forced {
                        StopOutcome::ForceKilled
                    } else {
                        StopOutcome::GracefulExit
                    };
                    (
                        SupervisorModel {
                            state: next,
                            pid: None,
                            endpoint: None,
                            forced: false,
                            aborting: false,
                            survived: false,
                            last_stop: Some(outcome),
                        },
                        Action::Idle,
                    )
                } else {
                    (self, Action::Idle)
                }
            },
            Event::TimedOut => match self.pid {
                Some(pid) => {
                    if self.state is Starting {
                        (self.stopping(Some(pid), true, true), Action::ForceKill { pid })
                    } else if self.state is Stopping && self.forced {
                        (self, Action::Unkillable { pid })
                    } else if self.state is Stopping {
                        (self.stopping(Some(pid), true, self.aborting), Action::ForceKill { pid })
                    } else {
                        (self, Action::Idle)
                    }
                },
                None => (self, Action::Idle),
            },
        }
    }

    /// The snapshot reported for this supervisor.
    pub open spec fn status_spec(self) -> BackendStatus {
        BackendStatus { state: self.state, endpoint: self.endpoint, pid: self.pid }
    }

    /// The result owed to the caller of a start, once it is decided.
    pub open spec fn start_outcome_spec(self) -> Option<Result<Endpoint, StartError>> {
        match self.state {
            BackendState::Starting => None,
            BackendState::Stopping => None,
            BackendState::Running => Some(Ok(self.endpoint.unwrap())),
            BackendState::Failed(Failure::SpawnFailed { reason }) => Some(Err(StartError::SpawnFailed { reason })),
            BackendState::Failed(Failure::HealthCheckTimeout { output }) => Some(
                Err(StartError::HealthCheckTimeout { output }),
            ),
            BackendState::Failed(Failure::UnexpectedExit { exit_code, output }) => Some(
                Err(StartError::UnexpectedExit { exit_code, output }),
            ),
            BackendState::Stopped => Some(Err(StartError::Cancelled)),
        }
    }
}

impl View for Supervisor {
    type V = SupervisorModel;

    closed spec fn view(&self) -> SupervisorModel {
        SupervisorModel {
            state: self.state,
            pid: self.pid,
            endpoint: self.endpoint,
            forced: self.forced,
            aborting: self.aborting,
            survived: self.survived,
            last_stop: self.last_stop,
        }
    }
}

impl Supervisor {
    pub fn new() -> (r: Supervisor)
        ensures
            r@ == SupervisorModel::initial(),
            r@.wf(),
            r@.state is Stopped,
            r@.pid is None,
            r@.endpoint is None,
    {
        Supervisor {
            state: BackendState::Stopped,
            pid: None,
            endpoint: None,
            forced: false,
            aborting: false,
            survived: false,
            last_stop: None,
        }
    }

    /// Requests a backend on `port`. `Ok` means the caller must now launch it
    /// (`Action::Spawn`) and report the launch; nothing is launched on `Err`.
    pub fn start(&mut self, port: u16) -> (r: Result<Endpoint, StartError>)
        requires
            old(self)@.wf(),
        ensures
            final(self)@.wf(),
            (final(self)@, r) == old(self)@.start_spec(port),
            r is Ok <==> !old(self)@.state.is_active(),
            old(self)@.state.is_active() ==> final(self)@ == old(self)@ && r == Err::<Endpoint, StartError>(
                StartError::AlreadyRunning,
            ),
            !old(self)@.state.is_active() ==> r == Ok::<Endpoint, StartError>((Endpoint { port }))
                && (final(self)@.state is Starting) && (final(self)@.pid is None)
                && final(self)@.endpoint == Some((Endpoint { port })),
    {
        if self.state.active() {
            return Err(StartError::AlreadyRunning);
        }
        self.state = BackendState::Starting;
        self.pid = None;
        self.endpoint = Some(Endpoint { port });
        self.forced = false;
        self.aborting = false;
        self.survived = false;
        Ok(Endpoint { port })
    }

    /// Requests that the backend stop; the caller performs the returned action.
    pub fn stop(&mut self) -> (r: Action)
        requires
            old(self)@.wf(),
        ensures
            final(self)@.wf(),
            (final(self)@, r) == old(self)@.stop_spec(),
            !(r is Spawn),
            old(self)@.state is Stopped ==> final(self)@ == old(self)@ && r == Action::Idle,
            old(self)@.state is Failed ==> r == Action::Idle && final(self)@.state is Stopped
                && final(self)@.pid is None,
            (old(self)@.state is Starting) || (old(self)@.state is Running) ==> (final(self)@.state is Stopping)
                && final(self)@.pid == old(self)@.pid && r == (match old(self)@.pid {
                Some(pid) => Action::Terminate { pid },
                None => Action::Idle,
            }),
            (old(self)@.state is Stopping) ==> (final(self)@.state is Stopping) && final(self)@.pid == old(
                self,
            )@.pid && r == (match old(self)@.pid {
                Some(pid) => Action::ForceKill { pid },
                None => Action::Idle,
            }),
    {
        match self.state {
            BackendState::Stopped => Action::Idle,
            BackendState::Failed(_) => {
                self.state = BackendState::Stopped;
                self.pid = None;
                self.endpoint = None;
                self.forced = false;
                self.aborting = false;
                self.survived = false;
                Action::Idle
            },
            BackendState::Stopping => match self.pid {
                Some(pid) => {
                    self.forced = true;
                    self.aborting = false;
                    self.survived = false;
                    Action::ForceKill { pid }
                },
                None => Action::Idle,
            },
            _ => {
                self.state = BackendState::Stopping;
                self.forced = false;
                self.aborting = false;
                self.survived = false;
                match self.pid {
                    Some(pid) => Action::Terminate { pid },
                    None => Action::Idle,
                }
            },
        }
    }

    /// Takes an observation of the backend process into account; the caller
    /// performs the returned action.
    pub fn handle(&mut self, event: Event) -> (r: Action)
        requires
            old(self)@.wf(),
        ensures
            final(self)@.wf(),
            (final(self)@, r) == old(self)@.handle_spec(event),
            !(r is Spawn),
            r is Terminate ==> false,
            (final(self)@.state is Running) && !(old(self)@.state is Running) ==> old(self)@.survived
                && event == (Event::Probed { reachable: true }),
            (r is Unkillable) ==> final(self)@ == old(self)@ && (final(self)@.state is Stopping)
                && final(self)@.pid == Some(r->Unkillable_pid),
            (match event {
                Event::SpawnFailed { reason } => old(self)@.state is Starting && old(self)@.pid is None
                    ==> final(self)@.state == BackendState::Failed(Failure::SpawnFailed { reason })
                    && final(self)@.pid is None,
                Event::Exited { .. } => old(self)@.state.is_active() && old(self)@.pid is Some ==> r
                    == Action::Idle && final(self)@.pid is None && !final(self)@.state.is_active(),
                Event::TimedOut => old(self)@.state is Stopping && !old(self)@.forced && old(self)@.pid
                    is Some ==> r == Action::ForceKill { pid: old(self)@.pid.unwrap() }
                    && final(self)@.state is Stopping,
                Event::Probed { reachable: false } => final(self)@ == old(self)@ && r == Action::Idle,
                _ => true,
            }),
    {
        let starting = matches!(self.state, BackendState::Starting);
        let running = matches!(self.state, BackendState::Running);
        let stopping = matches!(self.state, BackendState::Stopping);
        match event {
            Event::Spawned { pid } => {
                if starting && self.pid.is_none() {
                    self.pid = Some(pid);
                    self.forced = false;
                    self.aborting = false;
                    self.survived = false;
                    Action::Idle
                } else if stopping && self.pid.is_none() {
                    self.pid = Some(pid);
                    self.forced = true;
                    self.survived = false;
                    Action::ForceKill { pid }
                } else {
                    Action::ForceKill { pid }
                }
            },
            Event::SpawnFailed { reason } => {
                if starting && self.pid.is_none() {
                    self.state = BackendState::Failed(Failure::SpawnFailed { reason });
                    self.endpoint = None;
                    self.forced = false;
                    self.aborting = false;
                    self.survived = false;
                } else if stopping && self.pid.is_none() {
                    self.state = BackendState::Stopped;
                    self.endpoint = None;
                    self.forced = false;
                    self.aborting = false;
                    self.survived = false;
                }
                Action::Idle
            },
            Event::Survived => {
                if starting && self.pid.is_some() {
                    self.forced = false;
                    self.aborting = false;
                    self.survived = true;
                }
                Action::Idle
            },
            Event::Probed { reachable } => {
                if starting && self.pid.is_some() && self.survived && reachable {
                    self.state = BackendState::Running;
                    self.forced = false;
                    self.aborting = false;
                    self.survived = false;
                }
                Action::Idle
            },
            Event::Exited { exit_code, output } => {
                if (starting || running) && self.pid.is_some() {
                    self.state = BackendState::Failed(Failure::UnexpectedExit { exit_code, output });
                    self.pid = None;
                    self.endpoint = None;
                    self.forced = false;
                    self.aborting = false;
                    self.survived = false;
                } else if stopping && self.pid.is_some() {
                    let next = if self.aborting {
                        BackendState::Failed(Failure::HealthCheckTimeout { output })
                    } else {
                        BackendState::Stopped
                    };
                    let outcome = if self.forced {
                        StopOutcome::ForceKilled
                    } else {
                        StopOutcome::GracefulExit
                    };
                    *self = Supervisor {
                        state: next,
                        pid: None,
                        endpoint: None,
                        forced: false,
                        aborting: false,
                        survived: false,
                        last_stop: Some(outcome),
                    };
                }
                Action::Idle
            },
            Event::TimedOut => match self.pid {
                Some(pid) => {
                    if starting {
                        self.state = BackendState::Stopping;
                        self.forced = true;
                        self.aborting = true;
                        self.survived = false;
                        Action::ForceKill { pid }
                    } else if stopping && self.forced {
                        Action::Unkillable { pid }
                    } else if stopping {
                        self.forced = true;
                        self.survived = false;
                        Action::ForceKill { pid }
                    } else {
                        Action::Idle
                    }
                },
                None => Action::Idle,
            },
        }
    }

    /// Whether a backend process is requested, alive or being stopped.
    pub fn is_active(&self) -> (r: bool)
        ensures
            r == self@.state.is_active(),
    {
        self.state.active()
    }

    /// How the most recent completed stop ended.
    pub fn last_stop(&self) -> (r: Option<StopOutcome>)
        ensures
            r == self@.last_stop,
    {
        self.last_stop
    }

    /// A snapshot of the state, endpoint and process of the backend.
    pub fn status(&self) -> (r: BackendStatus)
        ensures
            r == self@.status_spec(),
            r.state == self@.state,
            r.pid == self@.pid,
            r.endpoint == self@.endpoint,
            self@.wf() ==> (r.state is Running ==> r.pid is Some),
            self@.wf() ==> (r.pid is Some ==> r.state.is_active()),
            self@.wf() ==> (r.endpoint is Some <==> r.state.is_active()),
    {
        BackendStatus { state: self.state.duplicate(), endpoint: self.endpoint, pid: self.pid }
    }

    /// What a start request has come to: `None` while the backend is starting or
    /// being stopped, so an error is owed only once no process is held.
    pub fn start_outcome(&self) -> (r: Option<Result<Endpoint, StartError>>)
        requires
            self@.wf(),
        ensures
            r == self@.start_outcome_spec(),
            r is Some && r.unwrap() is Ok ==> self@.state is Running && self@.pid is Some && r
                == Some(Ok::<Endpoint, StartError>(self@.endpoint.unwrap())),
            r is Some && r.unwrap() is Err ==> self@.pid is None && (self@.state is Stopped
                || self@.state is Failed),
    {
        match &self.state {
            BackendState::Starting | BackendState::Stopping => None,
            BackendState::Running => match self.endpoint {
                Some(e) => Some(Ok(e)),
                None => None,
            },
            BackendState::Failed(Failure::SpawnFailed { reason }) => Some(
                Err(StartError::SpawnFailed { reason: reason.clone() }),
            ),
            BackendState::Failed(Failure::HealthCheckTimeout { output }) => Some(
                Err(StartError::HealthCheckTimeout { output: output.clone() }),
            ),
            BackendState::Failed(Failure::UnexpectedExit { exit_code, output }) => Some(
                Err(StartError::UnexpectedExit { exit_code: *exit_code, output: output.clone() }),
            ),
            BackendState::Stopped => Some(Err(StartError::Cancelled)),
        }
    }
}

// Laws of the supervisor, proved over the transition functions above.

/// One request or observation fed to a supervisor.
pub enum Input {
    Start { port: u16 },
    Stop,
    Notify(Event),
}

impl SupervisorModel {
    /// Effect of one input; a successful start asks for `Action::Spawn`.
    pub open spec fn apply(self, input: Input) -> (SupervisorModel, Action) {
        match input {
            Input::Start { port } => {
                let (next, r) = self.start_spec(port);
                (next, if r is Ok { Action::Spawn { port } } else { Action::Idle })
            },
            Input::Stop => self.stop_spec(),
            Input::Notify(event) => self.handle_spec(event),
        }
    }

    /// The input confirms that the requested process is gone: its launch failed,
    /// or the operating system reported the tracked process's exit.
    pub open spec fn confirms_gone(self, input: Input) -> bool {
        match input {
            Input::Notify(Event::SpawnFailed { .. }) => (self.state is Starting || self.state is Stopping)
                && self.pid is None,
            Input::Notify(Event::Exited { .. }) => self.state.is_active() && self.pid is Some,
            _ => false,
        }
    }
}

/// The supervisor after feeding it `inputs` in order.
pub open spec fn run(s: SupervisorModel, inputs: Seq<Input>) -> SupervisorModel
    decreases inputs.len(),
{
    if inputs.len() == 0 {
        s
    } else {
        run(s.apply(inputs[0]).0, inputs.drop_first())
    }
}

/// How many launches the supervisor asks for along `inputs`.
pub open spec fn launches(s: SupervisorModel, inputs: Seq<Input>) -> nat
    decreases inputs.len(),
{
    if inputs.len() == 0 {
        0
    } else {
        let (next, action) = s.apply(inputs[0]);
        (if action is Spawn { 1nat } else { 0nat }) + launches(next, inputs.drop_first())
    }
}

/// How many launched processes are confirmed gone along `inputs`.
pub open spec fn reaped(s: SupervisorModel, inputs: Seq<Input>) -> nat
    decreases inputs.len(),
{
    if inputs.len() == 0 {
        0
    } else {
        (if s.confirms_gone(inputs[0]) { 1nat } else { 0nat }) + reaped(s.apply(inputs[0]).0, inputs.drop_first())
    }
}

/// 1 while the supervisor holds a requested, live or stopping process, else 0.
pub open spec fn holds(s: SupervisorModel) -> nat {
    if s.state.is_active() { 1 } else { 0 }
}

/// Every input keeps the supervisor well formed. A launch is asked for only when no
/// process is requested, alive or being stopped, and after it one is; a process
/// that the supervisor did not ask for is killed as soon as it is reported.
pub proof fn lemma_step(s: SupervisorModel, input: Input)
    requires
        s.wf(),
    ensures
        s.apply(input).0.wf(),
        s.apply(input).1 is Spawn ==> !s.state.is_active() && s.apply(input).0.state is Starting
            && s.apply(input).0.pid is None,
        holds(s.apply(input).0) + (if s.confirms_gone(input) { 1int } else { 0int })
            == holds(s) + (if s.apply(input).1 is Spawn { 1int } else { 0int }),
        match input {
            Input::Notify(Event::Spawned { pid }) => !(s.state is Starting || s.state is Stopping)
                || s.pid is Some ==> s.apply(input) == (s, Action::ForceKill { pid }),
            _ => true,
        },
{
}

/// `Running` is only ever entered from `Starting`, by a successful health probe of a
/// process that had already outlived the liveness grace period.
pub proof fn lemma_running_is_verified(s: SupervisorModel, input: Input)
    requires
        s.wf(),
        s.apply(input).0.state is Running,
        !(s.state is Running),
    ensures
        s.state is Starting,
        s.pid is Some,
        s.survived,
        input == Input::Notify(Event::Probed { reachable: true }),
{
}

/// At most one backend process lives under a supervisor: along any sequence of
/// starts, stops and observations, every launch but the current one has been
/// confirmed gone, so launches never exceed confirmed exits by more than one.
pub proof fn lemma_single_backend(s: SupervisorModel, inputs: Seq<Input>)
    requires
        s.wf(),
    ensures
        run(s, inputs).wf(),
        launches(s, inputs) + holds(s) == reaped(s, inputs) + holds(run(s, inputs)),
        launches(s, inputs) + holds(s) <= reaped(s, inputs) + 1,
    decreases inputs.len(),
{
    if inputs.len() > 0 {
        lemma_step(s, inputs[0]);
        lemma_single_backend(s.apply(inputs[0]).0, inputs.drop_first());
    }
}

/// A second start with no stop in between fails with `AlreadyRunning`, changes
/// nothing and launches nothing: the first start asked for the only launch.
pub proof fn lemma_start_twice(s: SupervisorModel, first: u16, second: u16)
    requires
        s.wf(),
        !s.state.is_active(),
    ensures
        s.start_spec(first).1 is Ok,
        s.start_spec(first).0.start_spec(second) == (s.start_spec(first).0, Err::<Endpoint, StartError>(
            StartError::AlreadyRunning,
        )),
        s.apply(Input::Start { port: first }).1 == (Action::Spawn { port: first }),
        s.apply(Input::Start { port: first }).0.apply(Input::Start { port: second }).1 == Action::Idle,
{
}

/// Stopping a stopped supervisor succeeds, does nothing and leaves it stopped.
pub proof fn lemma_stop_when_stopped(s: SupervisorModel)
    requires
        s.wf(),
        s.state is Stopped,
    ensures
        s.stop_spec() == (s, Action::Idle),
        s.stop_spec().0.state is Stopped,
{
}

/// When the process exits on its own, the next status reports `Failed` with its
/// exit code, never `Running`, and no process or endpoint.
pub proof fn lemma_unsolicited_exit(s: SupervisorModel, exit_code: Option<i32>, output: String)
    requires
        s.wf(),
        s.state is Running || (s.state is Starting && s.pid is Some),
    ensures
        s.handle_spec(Event::Exited { exit_code, output }).0.status_spec().state == BackendState::Failed(
            Failure::UnexpectedExit { exit_code, output },
        ),
        s.handle_spec(Event::Exited { exit_code, output }).0.status_spec().pid is None,
        s.handle_spec(Event::Exited { exit_code, output }).0.status_spec().endpoint is None,
{
}

/// A stop issued while a launched backend is still starting terminates it; if the
/// grace period runs out it is force-killed, and if that too goes unanswered it is
/// reported as unkillable while still tracked. Once its exit is seen nothing is
/// held and the stop is reported as forced.
pub proof fn lemma_stop_while_starting(
    s: SupervisorModel,
    port: u16,
    pid: u32,
    exit_code: Option<i32>,
    output: String,
)
    requires
        s.wf(),
        !s.state.is_active(),
    ensures
        ({
            let s1 = s.start_spec(port).0.handle_spec(Event::Spawned { pid }).0;
            let (s2, a2) = s1.stop_spec();
            let (s3, a3) = s2.handle_spec(Event::TimedOut);
            let s4 = s3.handle_spec(Event::Exited { exit_code, output }).0;
            &&& s1.state is Starting
            &&& a2 == Action::Terminate { pid }
            &&& s2.state is Stopping
            &&& s2.start_outcome_spec() is None
            &&& s3.start_outcome_spec() is None
            &&& s3.handle_spec(Event::TimedOut) == (s3, Action::Unkillable { pid })
            &&& a3 == Action::ForceKill { pid }
            &&& s4.state is Stopped
            &&& s4.pid is None
            &&& s4.last_stop == Some(StopOutcome::ForceKilled)
            &&& !s4.state.is_active()
        }),
{
}

/// A stop issued before the launch is even reported cancels the start: the
/// process is killed as soon as it is reported, and its exit leaves nothing held.
pub proof fn lemma_stop_before_launch(
    s: SupervisorModel,
    port: u16,
    pid: u32,
    exit_code: Option<i32>,
    output: String,
)
    requires
        s.wf(),
        !s.state.is_active(),
    ensures
        ({
            let (s1, a1) = s.start_spec(port).0.stop_spec();
            let (s2, a2) = s1.handle_spec(Event::Spawned { pid });
            let s3 = s2.handle_spec(Event::Exited { exit_code, output }).0;
            &&& a1 == Action::Idle
            &&& s1.start_outcome_spec() is None
            &&& a2 == Action::ForceKill { pid }
            &&& s2.start_outcome_spec() is None
            &&& s3.state is Stopped
            &&& s3.pid is None
            &&& s3.start_outcome_spec() == Some(Err::<Endpoint, StartError>(StartError::Cancelled))
        }),
{
}

/// A backend that never becomes reachable is force-killed when the health check
/// times out; the start stays undecided until the kill is confirmed, and then ends
/// in `HealthCheckTimeout` with what the process wrote.
pub proof fn lemma_health_check_timeout(
    s: SupervisorModel,
    port: u16,
    pid: u32,
    exit_code: Option<i32>,
    output: String,
)
    requires
        s.wf(),
        !s.state.is_active(),
    ensures
        ({
            let s1 = s.start_spec(port).0.handle_spec(Event::Spawned { pid }).0.handle_spec(
                Event::Survived,
            ).0.handle_spec(Event::Probed { reachable: false }).0;
            let (s2, a2) = s1.handle_spec(Event::TimedOut);
            let s3 = s2.handle_spec(Event::Exited { exit_code, output }).0;
            &&& s1.state is Starting
            &&& a2 == Action::ForceKill { pid }
            &&& s2.start_outcome_spec() is None
            &&& s2.status_spec().pid == Some(pid)
            &&& s3.state == BackendState::Failed(Failure::HealthCheckTimeout { output })
            &&& s3.pid is None
            &&& s3.start_outcome_spec() == Some(
                Err::<Endpoint, StartError>(StartError::HealthCheckTimeout { output }),
            )
        }),
{
}

/// A failed health probe never changes anything, so a start survives any number of
/// them until its timeout; and a timeout of a launched, starting backend always
/// force-kills exactly its tracked process.
pub proof fn lemma_failed_probes(s: SupervisorModel)
    requires
        s.wf(),
    ensures
        s.handle_spec(Event::Probed { reachable: false }) == (s, Action::Idle),
        s.state is Starting && s.pid is Some ==> s.handle_spec(Event::TimedOut) == (
            s.stopping(s.pid, true, true),
            Action::ForceKill { pid: s.pid.unwrap() },
        ),
{
}

/// A stop requested while a timed-out start is being killed takes over: once the
/// exit is seen the backend is `Stopped`, not failed, and the stop is reported as forced.
pub proof fn lemma_stop_during_abort(
    s: SupervisorModel,
    port: u16,
    pid: u32,
    exit_code: Option<i32>,
    output: String,
)
    requires
        s.wf(),
        !s.state.is_active(),
    ensures
        ({
            let s1 = s.start_spec(port).0.handle_spec(Event::Spawned { pid }).0.handle_spec(
                Event::TimedOut,
            ).0;
            let (s2, a2) = s1.stop_spec();
            let s3 = s2.handle_spec(Event::Exited { exit_code, output }).0;
            &&& s1.state is Stopping
            &&& a2 == Action::ForceKill { pid }
            &&& s3.state is Stopped
            &&& s3.pid is None
            &&& s3.last_stop == Some(StopOutcome::ForceKilled)
            &&& s3.start_outcome_spec() == Some(Err::<Endpoint, StartError>(StartError::Cancelled))
        }),
{
}

/// Start, become ready, stop: the running backend reports its endpoint as
/// `localhost:<port>`, the stop asks it to terminate, and after its exit the
/// status is `Stopped` with no process and no endpoint.
pub proof fn lemma_round_trip(
    s: SupervisorModel,
    port: u16,
    pid: u32,
    exit_code: Option<i32>,
    output: String,
)
    requires
        s.wf(),
        !s.state.is_active(),
    ensures
        ({
            let (s1, r1) = s.start_spec(port);
            let s2 = s1.handle_spec(Event::Spawned { pid }).0.handle_spec(Event::Survived).0.handle_spec(
                Event::Probed { reachable: true },
            ).0;
            let (s3, a3) = s2.stop_spec();
            let s4 = s3.handle_spec(Event::Exited { exit_code, output }).0;
            &&& r1 == Ok::<Endpoint, StartError>(Endpoint { port })
            &&& s2.status_spec().state is Running
            &&& s2.status_spec().endpoint == Some(Endpoint { port })
            &&& s2.status_spec().endpoint.unwrap().address_spec() == host() + seq![':'] + decimal(port as nat)
            &&& s2.status_spec().pid == Some(pid)
            &&& s2.start_outcome_spec() == Some(Ok::<Endpoint, StartError>(Endpoint { port }))
            &&& a3 == Action::Terminate { pid }
            &&& s4.status_spec().state is Stopped
            &&& s4.status_spec().pid is None
            &&& s4.status_spec().endpoint is None
            &&& s4.last_stop == Some(StopOutcome::GracefulExit)
        }),
{
}

} // verus!
