//! Proved properties of the barrier's state machine, stated over whole
//! traces of operations.

use vstd::prelude::*;

use crate::model::arrivals;
use crate::model::run;
use crate::model::step;
use crate::model::BarrierModel;
use crate::model::Op;

verus! {

/// One round of normal use runs to completion at an open, empty barrier:
/// each of the first `total - 1` arrivals is admitted and told to wait with
/// the current round index, the `total`-th arrival completes the round with
/// that same index, and afterwards every waiter of the round is released
/// while the barrier stands open and empty in the next round.
pub open spec fn round_completes(m: BarrierModel) -> bool {
    &&& (forall|k: nat|
        k + 1 < m.total ==> {
            &&& (#[trigger] arrivals(m, k)).admits_arrival()
            &&& !arrivals(m, k).releases()
            &&& arrivals(m, k).generation == m.generation
        })
    &&& arrivals(m, (m.total - 1) as nat).releases()
    &&& arrivals(m, (m.total - 1) as nat).generation == m.generation
    &&& arrivals(m, m.total).wake_released(m.generation)
    &&& arrivals(m, m.total).inv()
    &&& arrivals(m, m.total).count == 0
    &&& !arrivals(m, m.total).cancelled
    &&& arrivals(m, m.total).generation == m.generation + 1
}

/// Every single operation preserves the state invariant: the arrival count
/// never reaches the participant total between operations.
pub proof fn lemma_step_preserves_inv(m: BarrierModel, op: Op)
    requires
        m.inv(),
    ensures
        step(m, op).inv(),
{
}

/// The state invariant holds along every whole trace of operations.
pub proof fn lemma_run_preserves_inv(m: BarrierModel, ops: Seq<Op>)
    requires
        m.inv(),
    ensures
        run(m, ops).inv(),
    decreases ops.len(),
{
    if ops.len() > 0 {
        lemma_step_preserves_inv(m, ops[0]);
        lemma_run_preserves_inv(step(m, ops[0]), ops.drop_first());
    }
}

/// Generation monotonicity: no sequence of operations ever lowers the round
/// index.
pub proof fn lemma_run_generation_monotone(m: BarrierModel, ops: Seq<Op>)
    ensures
        m.generation <= run(m, ops).generation,
    decreases ops.len(),
{
    if ops.len() > 0 {
        lemma_run_generation_monotone(step(m, ops[0]), ops.drop_first());
    }
}

/// Strict generation growth: a completed round advances the round index by
/// one, and so does every reset, whether or not a round completed.
pub proof fn lemma_generation_strictly_increases(m: BarrierModel)
    ensures
        m.releases() ==> m.arrive_next().generation == m.generation + 1,
        m.reset_next().generation == m.generation + 1,
{
}

/// Sole completer: after the arrival that completes a round, no later
/// arrival ever completes that same round — every later state has a strictly
/// larger round index, so the indices of successive completed rounds
/// strictly increase and no two arrivals complete the same generation.
pub proof fn lemma_sole_completer(m: BarrierModel, ops: Seq<Op>)
    requires
        m.releases(),
    ensures
        run(m.arrive_next(), ops).generation > m.generation,
        !(run(m.arrive_next(), ops).releases() && run(m.arrive_next(), ops).generation
            == m.generation),
{
    lemma_run_generation_monotone(m.arrive_next(), ops);
}

/// While the round index has not moved past a cancellation, the cancellation
/// is still in force: clearing it takes a reset, and a reset advances the
/// index.
pub proof fn lemma_cancelled_sticky(m: BarrierModel, ops: Seq<Op>)
    requires
        m.cancelled,
    ensures
        run(m, ops).generation == m.generation ==> run(m, ops).cancelled,
    decreases ops.len(),
{
    if ops.len() > 0 {
        match ops[0] {
            Op::Arrive => lemma_cancelled_sticky(step(m, ops[0]), ops.drop_first()),
            Op::Cancel => lemma_cancelled_sticky(step(m, ops[0]), ops.drop_first()),
            Op::Reset => lemma_run_generation_monotone(step(m, ops[0]), ops.drop_first()),
        }
    }
}

/// Cancellation completeness: once `cancel` has run, every waiter blocked on
/// the current round observes the cancellation at its next check, every
/// later arrival is rejected without being counted, and — however many
/// operations follow — no arrival ever completes the cancelled round, and a
/// waiter of that round keeps observing the cancellation for as long as the
/// round index has not been advanced by a reset.
pub proof fn lemma_cancel_completeness(m: BarrierModel, ops: Seq<Op>)
    ensures
        m.cancel_next().wake_cancelled(m.generation),
        m.cancel_next().arrive_next() == m.cancel_next(),
        run(m.cancel_next(), ops).generation == m.generation ==> run(
            m.cancel_next(),
            ops,
        ).wake_cancelled(m.generation),
        !(run(m.cancel_next(), ops).releases() && run(m.cancel_next(), ops).generation
            == m.generation),
{
    lemma_cancelled_sticky(m.cancel_next(), ops);
    lemma_run_generation_monotone(m.cancel_next(), ops);
}

/// Cancelling twice has the same effect on the state as cancelling once.
pub proof fn lemma_cancel_idempotent(m: BarrierModel)
    ensures
        m.cancel_next().cancel_next() == m.cancel_next(),
{
}

/// The first `k` arrivals at an open, empty barrier are merely counted.
proof fn lemma_arrivals_pending(m: BarrierModel, k: nat)
    requires
        m.inv(),
        m.count == 0,
        !m.cancelled,
        k < m.total,
    ensures
        arrivals(m, k) == (BarrierModel {
            total: m.total,
            count: k,
            generation: m.generation,
            cancelled: false,
        }),
    decreases k,
{
    if k > 0 {
        lemma_arrivals_pending(m, (k - 1) as nat);
    }
}

/// Liveness under normal use: at an open, empty barrier for `total`
/// participants, `total` arrivals with no cancellation complete the round,
/// and every participant — the waiters included — is released with the same
/// round index.
pub proof fn lemma_liveness(m: BarrierModel)
    requires
        m.inv(),
        m.count == 0,
        !m.cancelled,
    ensures
        round_completes(m),
{
    assert forall|k: nat| k + 1 < m.total implies {
        &&& (#[trigger] arrivals(m, k)).admits_arrival()
        &&& !arrivals(m, k).releases()
        &&& arrivals(m, k).generation == m.generation
    } by {
        lemma_arrivals_pending(m, k);
    }
    lemma_arrivals_pending(m, (m.total - 1) as nat);
    assert(arrivals(m, m.total) == arrivals(m, (m.total - 1) as nat).arrive_next());
}

/// Reset restores liveness: after a cancellation followed by a reset, the
/// barrier stands open and empty in a strictly later round, and a fresh set
/// of `total` arrivals completes that round exactly as in normal use —
/// nothing of the cancellation leaks into the new round.
pub proof fn lemma_reset_restores_liveness(m: BarrierModel)
    requires
        m.inv(),
    ensures
        !m.cancel_next().reset_next().cancelled,
        m.cancel_next().reset_next().count == 0,
        m.cancel_next().reset_next().generation == m.generation + 1,
        m.cancel_next().reset_next().inv(),
        round_completes(m.cancel_next().reset_next()),
{
    lemma_liveness(m.cancel_next().reset_next());
}

} // verus!
