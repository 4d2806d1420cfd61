//! The lifecycle of a plugin run, as a state machine.
//!
//! A run loads the Herdr environment, initializes its services, runs the
//! setup callbacks one by one, then either runs, one by one, the handlers of
//! the one event it was invoked for (one-shot) or connects to the Herdr
//! socket and serves events and requests until it is told to stop (socket),
//! and finally runs the teardown callbacks one by one. Every error that ends
//! a run is first reported to the error callbacks; the run then returns that
//! error. The caller performs each action the machine asks for and hands back
//! what came of it.

use vstd::prelude::*;
use crate::error::RuntimeError;
use crate::events::RuntimeEvent;

verus! {

/// How a run serves events.
#[derive(Clone, Copy, Debug, PartialEq, Eq, Structural)]
pub enum RuntimeMode {
    /// Dispatch the event the plugin was invoked for, then stop.
    OneShot,
    /// Serve events from the Herdr socket until stopped.
    Socket,
}

/// Where a run stands.
pub enum Phase {
    Start,
    LoadingEnv,
    Initializing,
    /// The setup callback at this position is running.
    SettingUp(usize),
    /// The handler at this position of the pending event's plan is running.
    Dispatching(usize),
    Connecting,
    Listening,
    /// The teardown callback at this position is running.
    TearingDown(usize),
    /// The error callbacks are running for this error.
    ReportingError(RuntimeError),
    Finished,
}

/// What initializing a run found: the socket path of the environment, and
/// the positions of the handlers that the pending event runs, in order
/// (none when there is no pending event).
pub struct Initialization {
    pub socket_path: Option<String>,
    pub pending: Vec<usize>,
}

/// What happened since the last step.
pub enum LifecycleInput {
    /// The run starts.
    Begin,
    /// The environment was read.
    EnvLoaded(Result<(), RuntimeError>),
    /// The services were initialized.
    Initialized(Result<Initialization, RuntimeError>),
    /// The current setup callback ran; on failure, the text of its error.
    SetupFinished(Result<(), String>),
    /// The current handler of the pending event ran.
    HandlerFinished,
    /// The socket connection and subscription were attempted.
    Connected(Result<(), RuntimeError>),
    /// A stop was requested, or no one can request anything any more.
    StopRequested,
    /// A request for Herdr arrived through the runtime handle.
    RequestReceived,
    /// The event stream produced an event, ended, or failed.
    StreamItem(Result<Option<RuntimeEvent>, RuntimeError>),
    /// The current teardown callback ran; on failure, the text of its error.
    TeardownFinished(Result<(), String>),
    /// The error callbacks ran.
    ErrorsReported,
}

/// What the caller is to do next.
pub enum LifecycleAction {
    LoadEnv,
    Initialize,
    /// Run the setup callback at this position.
    RunSetup(usize),
    /// Run the registered handler at this position for the pending event.
    RunHandler(usize),
    /// Connect to the socket at this path and subscribe to events.
    Connect(String),
    /// Wait for the next request or event.
    Listen,
    /// Send the received request to Herdr and answer it, then wait for the
    /// next request or event.
    ForwardRequest,
    /// Dispatch this event from the stream, then wait for the next request
    /// or event.
    Dispatch(RuntimeEvent),
    /// Run the teardown callback at this position.
    RunTeardown(usize),
    /// Run the error callbacks with the text of the error being reported.
    RunErrorHandlers,
    /// End the run with this result.
    Return(Result<(), RuntimeError>),
    /// The input does not apply to the current phase; nothing to do.
    Ignore,
}

/// The state of a run.
pub struct Lifecycle {
    pub mode: RuntimeMode,
    pub phase: Phase,
    /// Whether every setup callback succeeded.
    pub setup_ok: bool,
    /// The socket path of the environment, once initialized.
    pub socket_path: Option<String>,
    /// How many setup callbacks there are.
    pub setup_count: usize,
    /// How many teardown callbacks there are.
    pub teardown_count: usize,
    /// The positions of the handlers the pending event runs, in order.
    pub pending: Vec<usize>,
}

/// `s` in phase `phase`.
pub open spec fn in_phase(s: Lifecycle, phase: Phase) -> Lifecycle {
    Lifecycle { phase, ..s }
}

/// Starting teardown: the first teardown callback, or success when there is none.
pub open spec fn teardown_start(s: Lifecycle) -> (Lifecycle, LifecycleAction) {
    if s.teardown_count > 0 {
        (in_phase(s, Phase::TearingDown(0)), LifecycleAction::RunTeardown(0))
    } else {
        (in_phase(s, Phase::Finished), LifecycleAction::Return(Ok(())))
    }
}

/// Starting dispatch: the first handler of the pending event, or teardown
/// when it runs none.
pub open spec fn dispatch_start(s: Lifecycle) -> (Lifecycle, LifecycleAction) {
    if s.pending@.len() > 0 {
        (in_phase(s, Phase::Dispatching(0)), LifecycleAction::RunHandler(s.pending@[0]))
    } else {
        teardown_start(s)
    }
}

/// What follows a successful setup: dispatch (one-shot), or connecting to
/// the environment's socket (socket), which fails without a socket path.
pub open spec fn setup_done(s: Lifecycle) -> (Lifecycle, LifecycleAction) {
    let s = Lifecycle { setup_ok: true, ..s };
    match s.mode {
        RuntimeMode::OneShot => dispatch_start(s),
        RuntimeMode::Socket => match s.socket_path {
            Some(path) => (
                Lifecycle { phase: Phase::Connecting, socket_path: None, ..s },
                LifecycleAction::Connect(path),
            ),
            None => (
                in_phase(s, Phase::ReportingError(RuntimeError::MissingSocketPath)),
                LifecycleAction::RunErrorHandlers,
            ),
        },
    }
}

/// Starting setup: the first setup callback, or what follows setup when
/// there is none.
pub open spec fn setup_start(s: Lifecycle) -> (Lifecycle, LifecycleAction) {
    if s.setup_count > 0 {
        (in_phase(s, Phase::SettingUp(0)), LifecycleAction::RunSetup(0))
    } else {
        setup_done(s)
    }
}

/// Reporting `e` to the error callbacks.
pub open spec fn report(s: Lifecycle, e: RuntimeError) -> (Lifecycle, LifecycleAction) {
    (in_phase(s, Phase::ReportingError(e)), LifecycleAction::RunErrorHandlers)
}

/// The next state and action of a run in state `s` given `input`.
pub open spec fn lifecycle_next(s: Lifecycle, input: LifecycleInput) -> (Lifecycle, LifecycleAction) {
    match (s.phase, input) {
        (Phase::Start, LifecycleInput::Begin) => (in_phase(s, Phase::LoadingEnv), LifecycleAction::LoadEnv),
        (Phase::LoadingEnv, LifecycleInput::EnvLoaded(Ok(()))) => (
            in_phase(s, Phase::Initializing),
            LifecycleAction::Initialize,
        ),
        (Phase::LoadingEnv, LifecycleInput::EnvLoaded(Err(e))) => report(s, e),
        (Phase::Initializing, LifecycleInput::Initialized(Ok(init))) => setup_start(
            Lifecycle { socket_path: init.socket_path, pending: init.pending, ..s },
        ),
        (Phase::Initializing, LifecycleInput::Initialized(Err(e))) => report(s, e),
        (Phase::SettingUp(i), LifecycleInput::SetupFinished(Ok(()))) => if i + 1 < s.setup_count {
            (in_phase(s, Phase::SettingUp((i + 1) as usize)), LifecycleAction::RunSetup((i + 1) as usize))
        } else {
            setup_done(s)
        },
        (Phase::SettingUp(_), LifecycleInput::SetupFinished(Err(detail))) => report(
            s,
            RuntimeError::Setup { detail },
        ),
        (Phase::Dispatching(j), LifecycleInput::HandlerFinished) => if j + 1 < s.pending@.len() {
            (
                in_phase(s, Phase::Dispatching((j + 1) as usize)),
                LifecycleAction::RunHandler(s.pending@[j + 1]),
            )
        } else {
            teardown_start(s)
        },
        (Phase::Connecting, LifecycleInput::Connected(Ok(()))) => (
            in_phase(s, Phase::Listening),
            LifecycleAction::Listen,
        ),
        (Phase::Connecting, LifecycleInput::Connected(Err(e))) => report(s, e),
        (Phase::Listening, LifecycleInput::StopRequested) => teardown_start(s),
        (Phase::Listening, LifecycleInput::RequestReceived) => (
            in_phase(s, Phase::Listening),
            LifecycleAction::ForwardRequest,
        ),
        (Phase::Listening, LifecycleInput::StreamItem(Ok(Some(event)))) => (
            in_phase(s, Phase::Listening),
            LifecycleAction::Dispatch(event),
        ),
        (Phase::Listening, LifecycleInput::StreamItem(Ok(None))) => teardown_start(s),
        (Phase::Listening, LifecycleInput::StreamItem(Err(e))) => report(s, e),
        (Phase::TearingDown(i), LifecycleInput::TeardownFinished(Ok(()))) => if i + 1
            < s.teardown_count {
            (
                in_phase(s, Phase::TearingDown((i + 1) as usize)),
                LifecycleAction::RunTeardown((i + 1) as usize),
            )
        } else {
            (in_phase(s, Phase::Finished), LifecycleAction::Return(Ok(())))
        },
        (Phase::TearingDown(_), LifecycleInput::TeardownFinished(Err(detail))) => report(
            s,
            RuntimeError::Teardown { detail },
        ),
        (Phase::ReportingError(e), LifecycleInput::ErrorsReported) => (
            in_phase(s, Phase::Finished),
            LifecycleAction::Return(Err(e)),
        ),
        (phase, _) => (Lifecycle { phase, ..s }, LifecycleAction::Ignore),
    }
}

impl Lifecycle {
    /// A run that has not started, with `setup_count` setup callbacks and
    /// `teardown_count` teardown callbacks.
    pub fn new(mode: RuntimeMode, setup_count: usize, teardown_count: usize) -> (s: Self)
        ensures
            s.mode == mode,
            s.phase is Start,
            !s.setup_ok,
            s.socket_path is None,
            s.setup_count == setup_count,
            s.teardown_count == teardown_count,
            s.pending@.len() == 0,
    {
        Lifecycle {
            mode,
            phase: Phase::Start,
            setup_ok: false,
            socket_path: None,
            setup_count,
            teardown_count,
            pending: Vec::new(),
        }
    }

    /// The error being reported, while the error callbacks run.
    pub fn reported_error(&self) -> (e: Option<&RuntimeError>)
        ensures
            match self.phase {
                Phase::ReportingError(err) => e == Some(&err),
                _ => e is None,
            },
    {
        match &self.phase {
            Phase::ReportingError(err) => Some(err),
            _ => None,
        }
    }

    /// Whether the run has ended.
    pub fn is_finished(&self) -> (r: bool)
        ensures
            r == self.phase is Finished,
    {
        match self.phase {
            Phase::Finished => true,
            _ => false,
        }
    }

    /// Moves to `phase`.
    fn into_phase(self, phase: Phase) -> (r: Lifecycle)
        ensures
            r == in_phase(self, phase),
    {
        Lifecycle { phase, ..self }
    }

    /// Starts teardown.
    fn start_teardown(self) -> (r: (Lifecycle, LifecycleAction))
        ensures
            r == teardown_start(self),
    {
        if self.teardown_count > 0 {
            (self.into_phase(Phase::TearingDown(0)), LifecycleAction::RunTeardown(0))
        } else {
            (self.into_phase(Phase::Finished), LifecycleAction::Return(Ok(())))
        }
    }

    /// Starts dispatching the pending event.
    fn start_dispatch(self) -> (r: (Lifecycle, LifecycleAction))
        ensures
            r == dispatch_start(self),
    {
        if self.pending.len() > 0 {
            let first = self.pending[0];
            (self.into_phase(Phase::Dispatching(0)), LifecycleAction::RunHandler(first))
        } else {
            self.start_teardown()
        }
    }

    /// Goes on after a successful setup.
    fn finish_setup(self) -> (r: (Lifecycle, LifecycleAction))
        ensures
            r == setup_done(self),
    {
        let s = Lifecycle { setup_ok: true, ..self };
        match s.mode {
            RuntimeMode::OneShot => s.start_dispatch(),
            RuntimeMode::Socket => {
                let Lifecycle { mode, phase, setup_ok, socket_path, setup_count, teardown_count, pending } = s;
                match socket_path {
                    Some(path) => (
                        Lifecycle {
                            mode,
                            phase: Phase::Connecting,
                            setup_ok,
                            socket_path: None,
                            setup_count,
                            teardown_count,
                            pending,
                        },
                        LifecycleAction::Connect(path),
                    ),
                    None => (
                        Lifecycle {
                            mode,
                            phase: Phase::ReportingError(RuntimeError::MissingSocketPath),
                            setup_ok,
                            socket_path: None,
                            setup_count,
                            teardown_count,
                            pending,
                        },
                        LifecycleAction::RunErrorHandlers,
                    ),
                }
            },
        }
    }

    /// Starts setup.
    fn start_setup(self) -> (r: (Lifecycle, LifecycleAction))
        ensures
            r == setup_start(self),
    {
        if self.setup_count > 0 {
            (self.into_phase(Phase::SettingUp(0)), LifecycleAction::RunSetup(0))
        } else {
            self.finish_setup()
        }
    }

    /// Reports `e` to the error callbacks.
    fn report(self, e: RuntimeError) -> (r: (Lifecycle, LifecycleAction))
        ensures
            r == report(self, e),
    {
        (self.into_phase(Phase::ReportingError(e)), LifecycleAction::RunErrorHandlers)
    }

    /// Takes one step: the next state, and what to do.
    pub fn step(self, input: LifecycleInput) -> (r: (Lifecycle, LifecycleAction))
        ensures
            r == lifecycle_next(self, input),
    {
        let Lifecycle { mode, phase, setup_ok, socket_path, setup_count, teardown_count, pending } = self;
        let s = Lifecycle { mode, phase: Phase::Start, setup_ok, socket_path, setup_count, teardown_count, pending };
        match (phase, input) {
            (Phase::Start, LifecycleInput::Begin) => (s.into_phase(Phase::LoadingEnv), LifecycleAction::LoadEnv),
            (Phase::LoadingEnv, LifecycleInput::EnvLoaded(Ok(()))) => (
                s.into_phase(Phase::Initializing),
                LifecycleAction::Initialize,
            ),
            (Phase::LoadingEnv, LifecycleInput::EnvLoaded(Err(e))) => s.report(e),
            (Phase::Initializing, LifecycleInput::Initialized(Ok(init))) => {
                let Initialization { socket_path, pending } = init;
                Lifecycle { socket_path, pending, ..s }.start_setup()
            },
            (Phase::Initializing, LifecycleInput::Initialized(Err(e))) => s.report(e),
            (Phase::SettingUp(i), LifecycleInput::SetupFinished(Ok(()))) => {
                if s.setup_count > 0 && i < s.setup_count - 1 {
                    (s.into_phase(Phase::SettingUp(i + 1)), LifecycleAction::RunSetup(i + 1))
                } else {
                    Lifecycle { phase: Phase::SettingUp(i), ..s }.finish_setup()
                }
            },
            (Phase::SettingUp(_), LifecycleInput::SetupFinished(Err(detail))) => s.report(
                RuntimeError::Setup { detail },
            ),
            (Phase::Dispatching(j), LifecycleInput::HandlerFinished) => {
                if s.pending.len() > 0 && j < s.pending.len() - 1 {
                    let next = s.pending[j + 1];
                    (s.into_phase(Phase::Dispatching(j + 1)), LifecycleAction::RunHandler(next))
                } else {
                    Lifecycle { phase: Phase::Dispatching(j), ..s }.start_teardown()
                }
            },
            (Phase::Connecting, LifecycleInput::Connected(Ok(()))) => (
                s.into_phase(Phase::Listening),
                LifecycleAction::Listen,
            ),
            (Phase::Connecting, LifecycleInput::Connected(Err(e))) => s.report(e),
            (Phase::Listening, LifecycleInput::StopRequested) => s.into_phase(Phase::Listening).start_teardown(),
            (Phase::Listening, LifecycleInput::RequestReceived) => (
                s.into_phase(Phase::Listening),
                LifecycleAction::ForwardRequest,
            ),
            (Phase::Listening, LifecycleInput::StreamItem(Ok(Some(event)))) => (
                s.into_phase(Phase::Listening),
                LifecycleAction::Dispatch(event),
            ),
            (Phase::Listening, LifecycleInput::StreamItem(Ok(None))) => s.into_phase(Phase::Listening).start_teardown(),
            (Phase::Listening, LifecycleInput::StreamItem(Err(e))) => s.report(e),
            (Phase::TearingDown(i), LifecycleInput::TeardownFinished(Ok(()))) => {
                if s.teardown_count > 0 && i < s.teardown_count - 1 {
                    (s.into_phase(Phase::TearingDown(i + 1)), LifecycleAction::RunTeardown(i + 1))
                } else {
                    (s.into_phase(Phase::Finished), LifecycleAction::Return(Ok(())))
                }
            },
            (Phase::TearingDown(_), LifecycleInput::TeardownFinished(Err(detail))) => s.report(
                RuntimeError::Teardown { detail },
            ),
            (Phase::ReportingError(e), LifecycleInput::ErrorsReported) => (
                s.into_phase(Phase::Finished),
                LifecycleAction::Return(Err(e)),
            ),
            (phase, _) => (s.into_phase(phase), LifecycleAction::Ignore),
        }
    }
}

/// The states a run can be in: positions stay within their lists, the phase
/// agrees with the mode, and every phase after setup is reached only through
/// a successful setup.
pub open spec fn lifecycle_wf(s: Lifecycle) -> bool {
    &&& s.phase matches Phase::SettingUp(i) ==> i < s.setup_count && !s.setup_ok
    &&& s.phase matches Phase::Dispatching(j) ==> j < s.pending@.len() && s.setup_ok && s.mode is OneShot
    &&& s.phase matches Phase::TearingDown(i) ==> i < s.teardown_count && s.setup_ok
    &&& (s.phase is Connecting || s.phase is Listening) ==> s.setup_ok && s.mode is Socket
    &&& (s.phase is Start || s.phase is LoadingEnv || s.phase is Initializing) ==> !s.setup_ok
}

/// A run starts in a well-formed state.
pub proof fn lemma_lifecycle_start_wf(mode: RuntimeMode, setup_count: usize, teardown_count: usize, pending: Vec<usize>)
    ensures
        lifecycle_wf(
            Lifecycle { mode, phase: Phase::Start, setup_ok: false, socket_path: None, setup_count, teardown_count, pending },
        ),
{
}

/// Every step keeps a run well formed, keeps its mode and its callback
/// counts, and never undoes a successful setup.
pub proof fn lemma_lifecycle_step_wf(s: Lifecycle, input: LifecycleInput)
    requires
        lifecycle_wf(s),
    ensures
        lifecycle_wf(lifecycle_next(s, input).0),
        lifecycle_next(s, input).0.mode == s.mode,
        lifecycle_next(s, input).0.setup_count == s.setup_count,
        lifecycle_next(s, input).0.teardown_count == s.teardown_count,
        s.setup_ok ==> lifecycle_next(s, input).0.setup_ok,
{
}

/// Handlers and teardown callbacks run only after every setup callback
/// succeeded, and a handler runs only at a position of the pending event's
/// plan.
pub proof fn lemma_callbacks_only_after_setup(s: Lifecycle, input: LifecycleInput)
    requires
        lifecycle_wf(s),
    ensures
        lifecycle_next(s, input).1 is RunHandler || lifecycle_next(s, input).1 is RunTeardown
            ==> lifecycle_next(s, input).0.setup_ok,
        lifecycle_next(s, input).1 matches LifecycleAction::RunHandler(p) ==> (lifecycle_next(
            s,
            input,
        ).0.phase matches Phase::Dispatching(j) && p == lifecycle_next(s, input).0.pending@[j as int]),
{
    assert(s.pending.len() == s.pending@.len());
}

/// Every error a run returns was first reported to the error callbacks: the
/// run returns an error only from reporting that very error, once the
/// callbacks ran.
pub proof fn lemma_errors_are_reported(s: Lifecycle, input: LifecycleInput)
    requires
        lifecycle_next(s, input).1 matches LifecycleAction::Return(Err(_)),
    ensures
        s.phase is ReportingError,
        input is ErrorsReported,
        lifecycle_next(s, input).1 == LifecycleAction::Return(Err(s.phase->ReportingError_0)),
{
}

/// Each failure reports exactly its error: an environment that cannot be
/// read, services that cannot be initialized, a failing setup or teardown
/// callback, a socket that cannot be reached, and a failing event stream.
pub proof fn lemma_failures_start_reporting(s: Lifecycle, e: RuntimeError, detail: String)
    ensures
        s.phase is LoadingEnv ==> lifecycle_next(s, LifecycleInput::EnvLoaded(Err(e))) == report(s, e),
        s.phase is Initializing ==> lifecycle_next(s, LifecycleInput::Initialized(Err(e))) == report(s, e),
        s.phase is SettingUp ==> lifecycle_next(s, LifecycleInput::SetupFinished(Err(detail))) == report(
            s,
            RuntimeError::Setup { detail },
        ),
        s.phase is TearingDown ==> lifecycle_next(s, LifecycleInput::TeardownFinished(Err(detail)))
            == report(s, RuntimeError::Teardown { detail }),
        s.phase is Connecting ==> lifecycle_next(s, LifecycleInput::Connected(Err(e))) == report(s, e),
        s.phase is Listening ==> lifecycle_next(s, LifecycleInput::StreamItem(Err(e))) == report(s, e),
        s.mode is Socket && s.socket_path is None ==> setup_done(s) == report(
            Lifecycle { setup_ok: true, ..s },
            RuntimeError::MissingSocketPath,
        ),
{
}

/// A socket run keeps serving while requests and events arrive, and tears
/// down once it is asked to stop or the event stream ends.
pub proof fn lemma_socket_serves_until_stopped(s: Lifecycle, input: LifecycleInput)
    requires
        s.phase is Listening,
    ensures
        (input is RequestReceived || input matches LifecycleInput::StreamItem(Ok(Some(_))))
            ==> lifecycle_next(s, input).0.phase is Listening,
        input is RequestReceived ==> lifecycle_next(s, input).1 is ForwardRequest,
        (input is StopRequested || input matches LifecycleInput::StreamItem(Ok(None)))
            ==> lifecycle_next(s, input) == teardown_start(s),
{
}

/// A socket run hands every event its stream delivers, unchanged, to be
/// dispatched, and keeps listening afterwards; the run's settings stay as
/// they were.
pub proof fn lemma_socket_dispatches_every_event(s: Lifecycle, event: RuntimeEvent)
    requires
        s.phase is Listening,
    ensures
        lifecycle_next(s, LifecycleInput::StreamItem(Ok(Some(event)))).1 == LifecycleAction::Dispatch(event),
        lifecycle_next(s, LifecycleInput::StreamItem(Ok(Some(event)))).0 == in_phase(s, Phase::Listening),
        !(lifecycle_next(s, LifecycleInput::StreamItem(Ok(Some(event)))).1 is Listen),
{
}

/// After a successful setup a socket run connects to the socket its
/// environment names, and starts listening once connected.
pub proof fn lemma_socket_connects_to_env_socket(s: Lifecycle, path: String)
    requires
        s.mode is Socket,
        s.socket_path == Some(path),
    ensures
        setup_done(s).1 == LifecycleAction::Connect(path),
        setup_done(s).0.phase is Connecting,
        setup_done(s).0.setup_ok,
        in_phase(s, Phase::Connecting).phase is Connecting ==> lifecycle_next(
            in_phase(s, Phase::Connecting),
            LifecycleInput::Connected(Ok(())),
        ).1 is Listen,
{
}

/// A finished run ignores every input.
pub proof fn lemma_finished_is_final(s: Lifecycle, input: LifecycleInput)
    requires
        s.phase is Finished,
    ensures
        lifecycle_next(s, input).0 == s,
        lifecycle_next(s, input).1 is Ignore,
{
}

/// What the caller hands back when `action` succeeds, given what
/// initialization finds.
pub open spec fn success_input(action: LifecycleAction, init: Initialization) -> LifecycleInput {
    match action {
        LifecycleAction::LoadEnv => LifecycleInput::EnvLoaded(Ok(())),
        LifecycleAction::Initialize => LifecycleInput::Initialized(Ok(init)),
        LifecycleAction::RunSetup(_) => LifecycleInput::SetupFinished(Ok(())),
        LifecycleAction::RunHandler(_) => LifecycleInput::HandlerFinished,
        LifecycleAction::RunTeardown(_) => LifecycleInput::TeardownFinished(Ok(())),
        _ => LifecycleInput::StopRequested,
    }
}

/// The first `fuel` actions of a run from `s` on `input` when every later
/// action succeeds.
pub open spec fn run_actions(s: Lifecycle, input: LifecycleInput, init: Initialization, fuel: nat) -> Seq<
    LifecycleAction,
>
    decreases fuel,
{
    if fuel == 0 {
        Seq::empty()
    } else {
        let (t, a) = lifecycle_next(s, input);
        seq![a] + run_actions(t, success_input(a, init), init, (fuel - 1) as nat)
    }
}

/// Running the setup callbacks from position `i` to `n`, in order.
pub open spec fn setups_from(i: nat, n: nat) -> Seq<LifecycleAction>
    decreases n - i,
{
    if i < n {
        seq![LifecycleAction::RunSetup(i as usize)] + setups_from(i + 1, n)
    } else {
        Seq::empty()
    }
}

/// Running the teardown callbacks from position `i` to `n`, in order.
pub open spec fn teardowns_from(i: nat, n: nat) -> Seq<LifecycleAction>
    decreases n - i,
{
    if i < n {
        seq![LifecycleAction::RunTeardown(i as usize)] + teardowns_from(i + 1, n)
    } else {
        Seq::empty()
    }
}

/// Running the handlers of `plan` from position `j` on, in order.
pub open spec fn handlers_from(plan: Seq<usize>, j: nat) -> Seq<LifecycleAction>
    decreases plan.len() - j,
{
    if j < plan.len() {
        seq![LifecycleAction::RunHandler(plan[j as int])] + handlers_from(plan, j + 1)
    } else {
        Seq::empty()
    }
}

proof fn lemma_teardown_rest(s: Lifecycle, i: nat, init: Initialization)
    requires
        s.phase == Phase::TearingDown(i as usize),
        i < s.teardown_count,
    ensures
        run_actions(s, LifecycleInput::TeardownFinished(Ok(())), init, (s.teardown_count - i) as nat)
            == teardowns_from(i + 1, s.teardown_count as nat) + seq![LifecycleAction::Return(Ok(()))],
    decreases s.teardown_count - i,
{
    let k = s.teardown_count as nat;
    let (t, a) = lifecycle_next(s, LifecycleInput::TeardownFinished(Ok(())));
    if i + 1 < k {
        lemma_teardown_rest(t, i + 1, init);
        assert(run_actions(s, LifecycleInput::TeardownFinished(Ok(())), init, (k - i) as nat) == seq![a]
            + run_actions(t, success_input(a, init), init, (k - i - 1) as nat));
        assert(teardowns_from(i + 1, k) == seq![a] + teardowns_from(i + 2, k));
        assert(seq![a] + (teardowns_from(i + 2, k) + seq![LifecycleAction::Return(Ok(()))]) =~= (seq![a]
            + teardowns_from(i + 2, k)) + seq![LifecycleAction::Return(Ok(()))]);
    } else {
        assert(teardowns_from(i + 1, k) =~= Seq::empty());
        assert(run_actions(t, success_input(a, init), init, 0) =~= Seq::empty());
        assert(run_actions(s, LifecycleInput::TeardownFinished(Ok(())), init, (k - i) as nat) =~= seq![a]);
    }
}

proof fn lemma_teardown_all(s: Lifecycle, init: Initialization)
    ensures
        ({
            let (t, a) = teardown_start(s);
            seq![a] + run_actions(t, success_input(a, init), init, s.teardown_count as nat) == teardowns_from(
                0,
                s.teardown_count as nat,
            ) + seq![LifecycleAction::Return(Ok(()))]
        }),
{
    let k = s.teardown_count as nat;
    let (t, a) = teardown_start(s);
    if k > 0 {
        lemma_teardown_rest(t, 0, init);
        assert(teardowns_from(0, k) == seq![a] + teardowns_from(1, k));
        assert(seq![a] + (teardowns_from(1, k) + seq![LifecycleAction::Return(Ok(()))]) =~= (seq![a]
            + teardowns_from(1, k)) + seq![LifecycleAction::Return(Ok(()))]);
    } else {
        assert(teardowns_from(0, k) =~= Seq::empty());
        assert(run_actions(t, success_input(a, init), init, 0) =~= Seq::empty());
        assert(seq![a] + Seq::<LifecycleAction>::empty() =~= seq![a]);
    }
}

proof fn lemma_handler_rest(s: Lifecycle, j: nat, init: Initialization)
    requires
        s.phase == Phase::Dispatching(j as usize),
        j < s.pending@.len(),
    ensures
        run_actions(
            s,
            LifecycleInput::HandlerFinished,
            init,
            (s.pending@.len() - j - 1 + s.teardown_count + 1) as nat,
        ) == handlers_from(s.pending@, j + 1) + teardowns_from(0, s.teardown_count as nat) + seq![
            LifecycleAction::Return(Ok(())),
        ],
    decreases s.pending@.len() - j,
{
    let m = s.pending@.len();
    let k = s.teardown_count as nat;
    let tail = teardowns_from(0, k) + seq![LifecycleAction::Return(Ok(()))];
    assert(s.pending.len() == m);
    let (t, a) = lifecycle_next(s, LifecycleInput::HandlerFinished);
    let fuel = (m - j - 1 + k + 1) as nat;
    assert(run_actions(s, LifecycleInput::HandlerFinished, init, fuel) == seq![a] + run_actions(
        t,
        success_input(a, init),
        init,
        (fuel - 1) as nat,
    ));
    if j + 1 < m {
        lemma_handler_rest(t, j + 1, init);
        assert(handlers_from(s.pending@, j + 1) == seq![a] + handlers_from(s.pending@, j + 2));
        assert(seq![a] + (handlers_from(s.pending@, j + 2) + tail) =~= (seq![a] + handlers_from(
            s.pending@,
            j + 2,
        )) + tail);
    } else {
        lemma_teardown_all(s, init);
        assert(handlers_from(s.pending@, j + 1) =~= Seq::empty());
        assert(Seq::<LifecycleAction>::empty() + tail =~= tail);
    }
}

proof fn lemma_dispatch_all(s: Lifecycle, init: Initialization)
    ensures
        ({
            let (t, a) = dispatch_start(s);
            seq![a] + run_actions(t, success_input(a, init), init, (s.pending@.len() + s.teardown_count) as nat)
                == handlers_from(s.pending@, 0) + teardowns_from(0, s.teardown_count as nat) + seq![
                LifecycleAction::Return(Ok(())),
            ]
        }),
{
    let m = s.pending@.len();
    let k = s.teardown_count as nat;
    let tail = teardowns_from(0, k) + seq![LifecycleAction::Return(Ok(()))];
    let (t, a) = dispatch_start(s);
    if m > 0 {
        lemma_handler_rest(t, 0, init);
        assert(handlers_from(s.pending@, 0) == seq![a] + handlers_from(s.pending@, 1));
        assert(seq![a] + (handlers_from(s.pending@, 1) + tail) =~= (seq![a] + handlers_from(s.pending@, 1))
            + tail);
    } else {
        lemma_teardown_all(s, init);
        assert(handlers_from(s.pending@, 0) =~= Seq::empty());
        assert(Seq::<LifecycleAction>::empty() + tail =~= tail);
    }
}

proof fn lemma_setup_rest(s: Lifecycle, i: nat, init: Initialization)
    requires
        s.mode is OneShot,
        s.phase == Phase::SettingUp(i as usize),
        i < s.setup_count,
    ensures
        run_actions(
            s,
            LifecycleInput::SetupFinished(Ok(())),
            init,
            (s.setup_count - i - 1 + s.pending@.len() + s.teardown_count + 1) as nat,
        ) == setups_from(i + 1, s.setup_count as nat) + handlers_from(s.pending@, 0) + teardowns_from(
            0,
            s.teardown_count as nat,
        ) + seq![LifecycleAction::Return(Ok(()))],
    decreases s.setup_count - i,
{
    let n = s.setup_count as nat;
    let m = s.pending@.len();
    let k = s.teardown_count as nat;
    let tail = handlers_from(s.pending@, 0) + teardowns_from(0, k) + seq![LifecycleAction::Return(Ok(()))];
    let (t, a) = lifecycle_next(s, LifecycleInput::SetupFinished(Ok(())));
    let fuel = (n - i - 1 + m + k + 1) as nat;
    assert(run_actions(s, LifecycleInput::SetupFinished(Ok(())), init, fuel) == seq![a] + run_actions(
        t,
        success_input(a, init),
        init,
        (fuel - 1) as nat,
    ));
    if i + 1 < n {
        lemma_setup_rest(t, i + 1, init);
        assert(setups_from(i + 1, n) == seq![a] + setups_from(i + 2, n));
        assert(setups_from(i + 2, n) + handlers_from(s.pending@, 0) + teardowns_from(0, k) + seq![
            LifecycleAction::Return(Ok(())),
        ] =~= setups_from(i + 2, n) + tail);
        assert(setups_from(i + 1, n) + handlers_from(s.pending@, 0) + teardowns_from(0, k) + seq![
            LifecycleAction::Return(Ok(())),
        ] =~= seq![a] + (setups_from(i + 2, n) + tail));
    } else {
        lemma_dispatch_all(Lifecycle { setup_ok: true, ..s }, init);
        assert(setups_from(i + 1, n) =~= Seq::empty());
        assert(Seq::<LifecycleAction>::empty() + handlers_from(s.pending@, 0) + teardowns_from(0, k) + seq![
            LifecycleAction::Return(Ok(())),
        ] =~= tail);
    }
}

/// A one-shot run whose environment, services and callbacks all succeed
/// reads the environment, initializes, runs each setup callback once in
/// order, runs each handler of the pending event's plan once in order, runs
/// each teardown callback once in order, and returns success: the whole run
/// is exactly that sequence of actions.
pub proof fn lemma_one_shot_callbacks_in_order(setup_count: usize, teardown_count: usize, init: Initialization)
    ensures
        run_actions(
            Lifecycle {
                mode: RuntimeMode::OneShot,
                phase: Phase::Start,
                setup_ok: false,
                socket_path: None,
                setup_count,
                teardown_count,
                pending: init.pending,
            },
            LifecycleInput::Begin,
            init,
            (setup_count + init.pending@.len() + teardown_count + 3) as nat,
        ) == seq![LifecycleAction::LoadEnv, LifecycleAction::Initialize] + setups_from(0, setup_count as nat)
            + handlers_from(init.pending@, 0) + teardowns_from(0, teardown_count as nat) + seq![
            LifecycleAction::Return(Ok(())),
        ],
{
    let s0 = Lifecycle {
        mode: RuntimeMode::OneShot,
        phase: Phase::Start,
        setup_ok: false,
        socket_path: None,
        setup_count,
        teardown_count,
        pending: init.pending,
    };
    let n = setup_count as nat;
    let m = init.pending@.len();
    let k = teardown_count as nat;
    let fuel = (n + m + k + 3) as nat;
    let tail = handlers_from(init.pending@, 0) + teardowns_from(0, k) + seq![LifecycleAction::Return(Ok(()))];
    let (s1, a1) = lifecycle_next(s0, LifecycleInput::Begin);
    let (s2, a2) = lifecycle_next(s1, LifecycleInput::EnvLoaded(Ok(())));
    let s3 = Lifecycle { socket_path: init.socket_path, pending: init.pending, ..s2 };
    let (t, a) = setup_start(s3);
    assert(run_actions(s0, LifecycleInput::Begin, init, fuel) == seq![a1] + run_actions(
        s1,
        LifecycleInput::EnvLoaded(Ok(())),
        init,
        (fuel - 1) as nat,
    ));
    assert(run_actions(s1, LifecycleInput::EnvLoaded(Ok(())), init, (fuel - 1) as nat) == seq![a2]
        + run_actions(s2, LifecycleInput::Initialized(Ok(init)), init, (fuel - 2) as nat));
    assert(run_actions(s2, LifecycleInput::Initialized(Ok(init)), init, (fuel - 2) as nat) == seq![a]
        + run_actions(t, success_input(a, init), init, (fuel - 3) as nat));
    let rest = seq![a] + run_actions(t, success_input(a, init), init, (fuel - 3) as nat);
    if n > 0 {
        lemma_setup_rest(t, 0, init);
        assert(setups_from(0, n) == seq![a] + setups_from(1, n));
        assert(rest =~= setups_from(0, n) + tail);
    } else {
        lemma_dispatch_all(Lifecycle { setup_ok: true, ..s3 }, init);
        assert(setups_from(0, n) =~= Seq::empty());
        assert(rest =~= setups_from(0, n) + tail);
    }
    assert(seq![LifecycleAction::LoadEnv, LifecycleAction::Initialize] + setups_from(0, n) + handlers_from(
        init.pending@,
        0,
    ) + teardowns_from(0, k) + seq![LifecycleAction::Return(Ok(()))] =~= seq![a1] + (seq![a2] + (
    setups_from(0, n) + tail)));
}

} // verus!
