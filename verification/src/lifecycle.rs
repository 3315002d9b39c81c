use vstd::prelude::*;

verus! {

/// What the guard believes about the worker process: either no worker is
/// running, or exactly one is, identified by the process id the caller
/// obtained when it spawned the worker.
#[derive(PartialEq, Eq, Structural, Clone, Copy, Debug)]
pub enum GuardState {
    Idle,
    Running { worker: u64 },
}

/// The errors a guard operation reports. All of them are recoverable and
/// reported to the caller; none changes the guard beyond what its
/// operation's contract states.
#[derive(PartialEq, Eq, Structural, Clone, Copy, Debug)]
pub enum GuardError {
    /// A start was requested while a worker is already recorded.
    AlreadyRunning,
    /// A stop was requested while no worker is recorded.
    NotRunning,
    /// The termination signal sent to the worker failed.
    StopFailed,
    /// The operating system could not create the worker process.
    SpawnFailed,
}

/// How an attempt to spawn the worker process ended.
#[derive(PartialEq, Eq, Structural, Clone, Copy, Debug)]
pub enum SpawnOutcome {
    /// The operating system created the worker with this process id.
    Launched { worker: u64 },
    /// The operating system could not create the worker.
    LaunchFailed,
}

/// How the termination signal sent to the worker ended.
#[derive(PartialEq, Eq, Structural, Clone, Copy, Debug)]
pub enum StopOutcome {
    /// The signal was delivered.
    Terminated,
    /// The signal could not be delivered.
    SignalFailed,
}

/// One guard operation together with the outcome the outside world would
/// hand back if the operation reaches it: a start carries how the spawn
/// would end, a stop carries how the termination signal would end. The
/// outcome is ignored whenever the guard refuses the request, because the
/// spawn or signal then never happens.
pub enum Op {
    Start { spawn: SpawnOutcome },
    Stop { signal: StopOutcome },
}

/// The guard's transition function: from a state and one operation to the
/// next state and the result reported to the caller.
///
/// A start is refused with `AlreadyRunning` while a worker is recorded;
/// otherwise it records the spawned worker, or reports `SpawnFailed` and
/// stays idle. A stop is refused with `NotRunning` while no worker is
/// recorded; otherwise the worker is forgotten whatever the signal did,
/// and a failed signal is reported as `StopFailed`.
pub open spec fn step(s: GuardState, op: Op) -> (GuardState, Result<(), GuardError>) {
    match op {
        Op::Start { spawn } => {
            if s is Running {
                (s, Err(GuardError::AlreadyRunning))
            } else {
                match spawn {
                    SpawnOutcome::Launched { worker } => (
                        GuardState::Running { worker },
                        Ok(()),
                    ),
                    SpawnOutcome::LaunchFailed => (GuardState::Idle, Err(GuardError::SpawnFailed)),
                }
            }
        },
        Op::Stop { signal } => {
            if s is Idle {
                (s, Err(GuardError::NotRunning))
            } else {
                match signal {
                    StopOutcome::Terminated => (GuardState::Idle, Ok(())),
                    StopOutcome::SignalFailed => (GuardState::Idle, Err(GuardError::StopFailed)),
                }
            }
        },
    }
}

/// The state reached by running a sequence of operations in order.
pub open spec fn run(s: GuardState, ops: Seq<Op>) -> GuardState
    decreases ops.len(),
{
    if ops.len() == 0 {
        s
    } else {
        run(step(s, ops[0]).0, ops.drop_first())
    }
}

/// The results reported to the callers of a sequence of operations, in order.
pub open spec fn results(s: GuardState, ops: Seq<Op>) -> Seq<Result<(), GuardError>>
    decreases ops.len(),
{
    if ops.len() == 0 {
        Seq::empty()
    } else {
        seq![step(s, ops[0]).1] + results(step(s, ops[0]).0, ops.drop_first())
    }
}

/// Serializes access to at most one worker-process handle and enforces the
/// start/stop rules. The caller performs the actual spawn and termination
/// signal and hands their outcomes back; the guard alone decides whether
/// they may happen and records what it learned.
pub struct ProcessLifecycleGuard {
    state: GuardState,
}

impl View for ProcessLifecycleGuard {
    type V = GuardState;

    closed spec fn view(&self) -> GuardState {
        self.state
    }
}

impl ProcessLifecycleGuard {
    /// A fresh guard: no worker is recorded.
    pub fn new() -> (g: Self)
        ensures
            g@ == GuardState::Idle,
    {
        ProcessLifecycleGuard { state: GuardState::Idle }
    }

    /// Whether a worker is currently recorded.
    pub fn is_running(&self) -> (r: bool)
        ensures
            r == (self@ is Running),
    {
        match self.state {
            GuardState::Idle => false,
            GuardState::Running { .. } => true,
        }
    }

    /// The start decision: a spawn may be attempted only while no worker is
    /// recorded; otherwise the request is refused with `AlreadyRunning` and
    /// nothing happens.
    pub fn start_permitted(&self) -> (r: Result<(), GuardError>)
        ensures
            r is Ok <==> self@ is Idle,
            r is Err ==> r == Err::<(), GuardError>(GuardError::AlreadyRunning),
            self@ is Running ==> forall|o: SpawnOutcome|
                #[trigger] step(self@, Op::Start { spawn: o }) == (self@, r),
    {
        match self.state {
            GuardState::Idle => Ok(()),
            GuardState::Running { .. } => Err(GuardError::AlreadyRunning),
        }
    }

    /// Records how a spawn attempt, permitted while the guard was idle,
    /// ended: a launched worker is stored and the start succeeds; a failed
    /// spawn leaves the guard idle and reports `SpawnFailed`.
    pub fn record_spawn(&mut self, outcome: SpawnOutcome) -> (r: Result<(), GuardError>)
        requires
            old(self)@ is Idle,
        ensures
            (final(self)@, r) == step(old(self)@, Op::Start { spawn: outcome }),
            outcome matches SpawnOutcome::Launched { worker } ==> final(self)@ == (
            GuardState::Running { worker }) && r == Ok::<(), GuardError>(()),
            outcome is LaunchFailed ==> final(self)@ is Idle && r == Err::<(), GuardError>(
                GuardError::SpawnFailed,
            ),
    {
        match outcome {
            SpawnOutcome::Launched { worker } => {
                self.state = GuardState::Running { worker };
                Ok(())
            },
            SpawnOutcome::LaunchFailed => {
                self.state = GuardState::Idle;
                Err(GuardError::SpawnFailed)
            },
        }
    }

    /// The stop decision: while a worker is recorded, its id is handed out
    /// for termination and forgotten at once, so the guard is idle afterwards
    /// whatever the signal later does; while none is recorded the request is
    /// refused with `NotRunning`.
    pub fn take_for_stop(&mut self) -> (r: Result<u64, GuardError>)
        ensures
            final(self)@ is Idle,
            old(self)@ matches GuardState::Running { worker } ==> r == Ok::<u64, GuardError>(
                worker,
            ),
            old(self)@ is Idle ==> r == Err::<u64, GuardError>(GuardError::NotRunning),
    {
        match self.state {
            GuardState::Idle => Err(GuardError::NotRunning),
            GuardState::Running { worker } => {
                self.state = GuardState::Idle;
                Ok(worker)
            },
        }
    }

    /// Turns the outcome of the termination signal into the stop operation's
    /// result: a delivered signal is success, a failed one is `StopFailed`.
    /// Together with `take_for_stop` this completes a stop exactly as `step`
    /// describes it.
    pub fn stop_result(&self, outcome: StopOutcome) -> (r: Result<(), GuardError>)
        ensures
            outcome is Terminated ==> r == Ok::<(), GuardError>(()),
            outcome is SignalFailed ==> r == Err::<(), GuardError>(GuardError::StopFailed),
    {
        match outcome {
            StopOutcome::Terminated => Ok(()),
            StopOutcome::SignalFailed => Err(GuardError::StopFailed),
        }
    }
}

/// The fixed program name the worker process is launched from.
pub fn worker_command() -> (r: &'static str)
    ensures
        r@ == "julia"@,
{
    "julia"
}

/// The fixed project marker the worker process is launched with.
pub fn worker_project_arg() -> (r: &'static str)
    ensures
        r@ == "--project=./src-julia"@,
{
    "--project=./src-julia"
}

/// The fixed entry-script path the worker process is launched with.
pub fn worker_script_arg() -> (r: &'static str)
    ensures
        r@ == "src-julia/julia-server.jl"@,
{
    "src-julia/julia-server.jl"
}

impl GuardError {
    /// The user-facing text for this error, as the hosting shell reports it.
    pub fn message(&self) -> (r: &'static str)
        ensures
            *self is AlreadyRunning ==> r@ == "Julia service is already running."@,
            *self is NotRunning ==> r@ == "No Julia service is running."@,
            *self is StopFailed ==> r@ == "Failed to stop Julia service."@,
            *self is SpawnFailed ==> r@ == "Failed to start Julia service."@,
    {
        match self {
            GuardError::AlreadyRunning => "Julia service is already running.",
            GuardError::NotRunning => "No Julia service is running.",
            GuardError::StopFailed => "Failed to stop Julia service.",
            GuardError::SpawnFailed => "Failed to start Julia service.",
        }
    }
}

} // verus!
