use process_guard::lifecycle::{
    GuardError, ProcessLifecycleGuard, SpawnOutcome, StopOutcome,
};

#[test]
fn new_guard_is_idle() {
    let g = ProcessLifecycleGuard::new();
    assert!(!g.is_running());
}

#[test]
fn start_twice_reports_already_running() {
    let mut g = ProcessLifecycleGuard::new();
    assert!(g.start_permitted().is_ok());
    assert_eq!(g.record_spawn(SpawnOutcome::Launched { worker: 41 }), Ok(()));
    assert!(g.is_running());
    // The second start is refused before any spawn happens.
    assert_eq!(g.start_permitted(), Err(GuardError::AlreadyRunning));
    // Exactly the one launched worker is recorded.
    assert_eq!(g.take_for_stop(), Ok(41));
}

#[test]
fn stop_without_start_reports_not_running() {
    let mut g = ProcessLifecycleGuard::new();
    assert_eq!(g.take_for_stop(), Err(GuardError::NotRunning));
    assert!(!g.is_running());
    assert_eq!(g.take_for_stop(), Err(GuardError::NotRunning));
}

#[test]
fn start_succeeds_after_stop_terminated() {
    let mut g = ProcessLifecycleGuard::new();
    assert_eq!(g.record_spawn(SpawnOutcome::Launched { worker: 1 }), Ok(()));
    assert_eq!(g.take_for_stop(), Ok(1));
    assert_eq!(g.stop_result(StopOutcome::Terminated), Ok(()));
    assert!(!g.is_running());
    assert!(g.start_permitted().is_ok());
    assert_eq!(g.record_spawn(SpawnOutcome::Launched { worker: 2 }), Ok(()));
    assert!(g.is_running());
}

#[test]
fn start_succeeds_after_stop_signal_failed() {
    let mut g = ProcessLifecycleGuard::new();
    assert_eq!(g.record_spawn(SpawnOutcome::Launched { worker: 3 }), Ok(()));
    assert_eq!(g.take_for_stop(), Ok(3));
    // The worker is forgotten even though the termination signal failed.
    assert_eq!(
        g.stop_result(StopOutcome::SignalFailed),
        Err(GuardError::StopFailed)
    );
    assert!(!g.is_running());
    assert!(g.start_permitted().is_ok());
    assert_eq!(g.record_spawn(SpawnOutcome::Launched { worker: 4 }), Ok(()));
    assert!(g.is_running());
}

#[test]
fn spawn_failure_is_recoverable() {
    let mut g = ProcessLifecycleGuard::new();
    assert!(g.start_permitted().is_ok());
    assert_eq!(
        g.record_spawn(SpawnOutcome::LaunchFailed),
        Err(GuardError::SpawnFailed)
    );
    assert!(!g.is_running());
    // The failure left no stale worker behind; the next start may proceed.
    assert!(g.start_permitted().is_ok());
    assert_eq!(g.record_spawn(SpawnOutcome::Launched { worker: 9 }), Ok(()));
    assert!(g.is_running());
}

#[test]
fn serialized_starts_have_one_winner() {
    // Several callers race to start; the guard's lock serializes them, so
    // each runs the decide-then-record protocol in turn.
    let mut g = ProcessLifecycleGuard::new();
    let mut successes: u32 = 0;
    let mut refusals: u32 = 0;
    let mut spawns: u32 = 0;
    let mut next_worker: u64 = 100;
    for _caller in 0..5u32 {
        match g.start_permitted() {
            Ok(()) => {
                spawns += 1;
                let outcome = SpawnOutcome::Launched { worker: next_worker };
                next_worker += 1;
                assert_eq!(g.record_spawn(outcome), Ok(()));
                successes += 1;
            }
            Err(e) => {
                assert_eq!(e, GuardError::AlreadyRunning);
                refusals += 1;
            }
        }
    }
    assert_eq!(successes, 1u32);
    assert_eq!(spawns, 1u32);
    assert_eq!(refusals, 4u32);
    // Exactly one worker is recorded: the first caller's.
    assert_eq!(g.take_for_stop(), Ok(100));
    assert_eq!(g.take_for_stop(), Err(GuardError::NotRunning));
}

#[test]
fn error_messages() {
    assert_eq!(
        GuardError::AlreadyRunning.message(),
        "Julia service is already running."
    );
    assert_eq!(GuardError::NotRunning.message(), "No Julia service is running.");
    assert_eq!(GuardError::StopFailed.message(), "Failed to stop Julia service.");
    assert_eq!(
        GuardError::SpawnFailed.message(),
        "Failed to start Julia service."
    );
}

#[test]
fn launch_configuration_is_fixed() {
    assert_eq!(process_guard::lifecycle::worker_command(), "julia");
    assert_eq!(
        process_guard::lifecycle::worker_project_arg(),
        "--project=./src-julia"
    );
    assert_eq!(
        process_guard::lifecycle::worker_script_arg(),
        "src-julia/julia-server.jl"
    );
}
