use vstd::prelude::*;
use crate::lifecycle::{GuardError, GuardState, Op, SpawnOutcome, StopOutcome, results, run, step};

verus! {

/// Whether this operation is a start whose spawn would succeed.
pub open spec fn is_launched_start(op: Op) -> bool {
    op matches Op::Start { spawn: SpawnOutcome::Launched { .. } }
}

/// Whether this operation is a stop request, successful or failed.
pub open spec fn is_stop(op: Op) -> bool {
    op is Stop
}

/// No operation in the sequence is a stop request.
pub open spec fn no_stop(ops: Seq<Op>) -> bool {
    forall|j: int| 0 <= j < ops.len() ==> !is_stop(#[trigger] ops[j])
}

/// Some start in the sequence launches a worker and is followed by no stop
/// request.
pub open spec fn unstopped_launch(ops: Seq<Op>) -> bool {
    exists|i: int|
        0 <= i < ops.len() && is_launched_start(#[trigger] ops[i]) && (forall|j: int|
            i < j < ops.len() ==> !is_stop(#[trigger] ops[j]))
}

/// Every operation in the sequence is a start request.
pub open spec fn all_starts(ops: Seq<Op>) -> bool {
    forall|j: int| 0 <= j < ops.len() ==> (#[trigger] ops[j]) is Start
}

/// A sequence of operations reports exactly one result per operation.
pub proof fn lemma_results_len(s: GuardState, ops: Seq<Op>)
    ensures
        results(s, ops).len() == ops.len(),
    decreases ops.len(),
{
    if ops.len() > 0 {
        lemma_results_len(step(s, ops[0]).0, ops.drop_first());
    }
}

/// From any state, a sequence of operations ends with a worker recorded
/// exactly when some launched start is followed by no stop, or a worker was
/// recorded at the outset and no stop occurs at all.
pub proof fn lemma_run_running(s: GuardState, ops: Seq<Op>)
    ensures
        run(s, ops) is Running <==> (unstopped_launch(ops) || (s is Running && no_stop(ops))),
    decreases ops.len(),
{
    if ops.len() > 0 {
        let op = ops[0];
        let rest = ops.drop_first();
        let s1 = step(s, op).0;
        lemma_run_running(s1, rest);
        assert forall|k: int| 0 <= k < rest.len() implies #[trigger] rest[k] == ops[k + 1] by {}
        assert(no_stop(ops) <==> (!is_stop(op) && no_stop(rest))) by {
            if !is_stop(op) && no_stop(rest) {
                assert forall|j: int| 0 <= j < ops.len() implies !is_stop(#[trigger] ops[j]) by {
                    if j > 0 {
                        assert(ops[j] == rest[j - 1]);
                    }
                }
            }
        }
        assert(unstopped_launch(ops) <==> ((is_launched_start(op) && no_stop(rest))
            || unstopped_launch(rest))) by {
            if unstopped_launch(ops) {
                let i = choose|i: int|
                    0 <= i < ops.len() && is_launched_start(#[trigger] ops[i]) && (forall|j: int|
                        i < j < ops.len() ==> !is_stop(#[trigger] ops[j]));
                if i == 0 {
                    assert forall|k: int| 0 <= k < rest.len() implies !is_stop(
                        #[trigger] rest[k],
                    ) by {
                        assert(rest[k] == ops[k + 1]);
                    }
                } else {
                    assert(rest[i - 1] == ops[i]);
                    assert forall|k: int| i - 1 < k < rest.len() implies !is_stop(
                        #[trigger] rest[k],
                    ) by {
                        assert(rest[k] == ops[k + 1]);
                    }
                    assert(unstopped_launch(rest));
                }
            }
            if is_launched_start(op) && no_stop(rest) {
                assert(is_launched_start(ops[0]));
                assert forall|j: int| 0 < j < ops.len() implies !is_stop(#[trigger] ops[j]) by {
                    assert(ops[j] == rest[j - 1]);
                }
                assert(unstopped_launch(ops));
            }
            if unstopped_launch(rest) {
                let k = choose|k: int|
                    0 <= k < rest.len() && is_launched_start(#[trigger] rest[k]) && (forall|j: int|
                        k < j < rest.len() ==> !is_stop(#[trigger] rest[j]));
                assert(ops[k + 1] == rest[k]);
                assert forall|j: int| k + 1 < j < ops.len() implies !is_stop(
                    #[trigger] ops[j],
                ) by {
                    assert(ops[j] == rest[j - 1]);
                }
                assert(unstopped_launch(ops));
            }
        }
        assert(s1 is Running <==> (is_launched_start(op) || (s is Running && !is_stop(op))));
    }
}

/// Law: after any sequence of operations from the initial idle state, the
/// guard has a worker recorded exactly when some start whose spawn succeeded
/// has not been followed by any stop request, successful or failed.
pub proof fn lemma_running_iff_unstopped_launch(ops: Seq<Op>)
    ensures
        run(GuardState::Idle, ops) is Running <==> unstopped_launch(ops),
{
    lemma_run_running(GuardState::Idle, ops);
}

/// Law: two start requests with no stop between them yield success and then
/// `AlreadyRunning`, and exactly the one launched worker stays recorded.
pub proof fn lemma_start_twice(worker: u64, second: SpawnOutcome)
    ensures
        step(GuardState::Idle, Op::Start { spawn: SpawnOutcome::Launched { worker } }) == (
        GuardState::Running { worker }, Ok::<(), GuardError>(())),
        step(GuardState::Running { worker }, Op::Start { spawn: second }) == (GuardState::Running {
            worker,
        }, Err::<(), GuardError>(GuardError::AlreadyRunning)),
{
}

/// Law: a stop with no worker recorded reports `NotRunning` and leaves the
/// guard idle.
pub proof fn lemma_stop_while_idle(signal: StopOutcome)
    ensures
        step(GuardState::Idle, Op::Stop { signal }) == (GuardState::Idle, Err::<(), GuardError>(
            GuardError::NotRunning,
        )),
{
}

/// Law: every stop leaves the guard idle, however the termination signal
/// ended, so the next start whose spawn succeeds is accepted.
pub proof fn lemma_start_succeeds_after_stop(s: GuardState, signal: StopOutcome, worker: u64)
    ensures
        step(s, Op::Stop { signal }).0 is Idle,
        step(
            step(s, Op::Stop { signal }).0,
            Op::Start { spawn: SpawnOutcome::Launched { worker } },
        ) == (GuardState::Running { worker }, Ok::<(), GuardError>(())),
{
}

/// While a worker is recorded, start requests neither change the guard nor
/// succeed: every one of them reports `AlreadyRunning`.
pub proof fn lemma_starts_while_running(s: GuardState, ops: Seq<Op>)
    requires
        s is Running,
        all_starts(ops),
    ensures
        run(s, ops) == s,
        forall|i: int|
            0 <= i < ops.len() ==> #[trigger] results(s, ops)[i] == Err::<(), GuardError>(
                GuardError::AlreadyRunning,
            ),
    decreases ops.len(),
{
    lemma_results_len(s, ops);
    if ops.len() > 0 {
        let rest = ops.drop_first();
        assert(ops[0] is Start);
        assert(step(s, ops[0]).0 == s);
        assert forall|k: int| 0 <= k < rest.len() implies (#[trigger] rest[k]) is Start by {
            assert(rest[k] == ops[k + 1]);
        }
        lemma_starts_while_running(s, rest);
        lemma_results_len(s, rest);
        assert forall|i: int| 0 <= i < ops.len() implies #[trigger] results(s, ops)[i] == Err::<
            (),
            GuardError,
        >(GuardError::AlreadyRunning) by {
            if i > 0 {
                assert(results(s, ops)[i] == results(s, rest)[i - 1]);
            }
        }
    }
}

/// Law: of several start requests serialized by the guard, the first, whose
/// spawn succeeds, is the only one to succeed; exactly its worker ends up
/// recorded and every later request reports `AlreadyRunning`.
pub proof fn lemma_one_start_wins(worker: u64, ops: Seq<Op>)
    requires
        ops.len() > 0,
        ops[0] == (Op::Start { spawn: SpawnOutcome::Launched { worker } }),
        all_starts(ops),
    ensures
        run(GuardState::Idle, ops) == (GuardState::Running { worker }),
        results(GuardState::Idle, ops)[0] == Ok::<(), GuardError>(()),
        forall|i: int|
            0 < i < ops.len() ==> #[trigger] results(GuardState::Idle, ops)[i] == Err::<
                (),
                GuardError,
            >(GuardError::AlreadyRunning),
{
    let rest = ops.drop_first();
    let s1 = GuardState::Running { worker };
    assert(step(GuardState::Idle, ops[0]) == (s1, Ok::<(), GuardError>(())));
    assert forall|k: int| 0 <= k < rest.len() implies (#[trigger] rest[k]) is Start by {
        assert(rest[k] == ops[k + 1]);
    }
    lemma_starts_while_running(s1, rest);
    lemma_results_len(s1, rest);
    assert forall|i: int| 0 < i < ops.len() implies #[trigger] results(GuardState::Idle, ops)[i]
        == Err::<(), GuardError>(GuardError::AlreadyRunning) by {
        assert(results(GuardState::Idle, ops)[i] == results(s1, rest)[i - 1]);
    }
}

} // verus!
