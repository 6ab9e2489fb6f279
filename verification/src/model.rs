//! Mathematical model of the barrier: its abstract state and the transition
//! relation of the three operations that mutate it.

use vstd::prelude::*;

verus! {

/// Abstract state of the barrier.
pub struct BarrierModel {
    /// Number of participants required to complete one round; fixed at
    /// construction.
    pub total: nat,
    /// Participants that have arrived in the current round and have not yet
    /// been released.
    pub count: nat,
    /// Index of the current round; it grows on every completed round and on
    /// every reset, and never shrinks.
    pub generation: nat,
    /// Sticky cancellation flag; once set, only a reset clears it.
    pub cancelled: bool,
}

/// A command against the barrier state: one arrival, a cancellation, or a
/// reset.
pub enum Op {
    Arrive,
    Cancel,
    Reset,
}

impl BarrierModel {
    /// At least one participant is required, and between operations the
    /// arrival count stays strictly below the required total: the count only
    /// reaches the total transiently, inside the arrival that completes the
    /// round.
    pub open spec fn inv(self) -> bool {
        self.total > 0 && self.count < self.total
    }

    /// The state of a barrier freshly built for `n` participants.
    pub open spec fn fresh(n: nat) -> BarrierModel {
        BarrierModel { total: n, count: 0, generation: 0, cancelled: false }
    }

    /// An arrival is admitted (counted) exactly when the barrier is not
    /// cancelled.
    pub open spec fn admits_arrival(self) -> bool {
        !self.cancelled
    }

    /// An arrival at this state is the last one owed: it completes the
    /// current round.
    pub open spec fn releases(self) -> bool {
        !self.cancelled && self.count + 1 == self.total
    }

    /// State after one arrival. A cancelled barrier rejects the arrival and
    /// is left unchanged; the last arrival of a round empties the count and
    /// opens the next round; any other arrival is merely counted.
    pub open spec fn arrive_next(self) -> BarrierModel {
        if self.cancelled {
            self
        } else if self.count + 1 == self.total {
            BarrierModel {
                total: self.total,
                count: 0,
                generation: self.generation + 1,
                cancelled: false,
            }
        } else {
            BarrierModel {
                total: self.total,
                count: self.count + 1,
                generation: self.generation,
                cancelled: false,
            }
        }
    }

    /// State after a cancellation: only the sticky flag changes; the round
    /// bookkeeping is untouched.
    pub open spec fn cancel_next(self) -> BarrierModel {
        BarrierModel {
            total: self.total,
            count: self.count,
            generation: self.generation,
            cancelled: true,
        }
    }

    /// State after a reset: cancellation cleared, the round emptied, and the
    /// round index advanced, so that a stale waiter can never mistake a later
    /// completion for its own round.
    pub open spec fn reset_next(self) -> BarrierModel {
        BarrierModel {
            total: self.total,
            count: 0,
            generation: self.generation + 1,
            cancelled: false,
        }
    }

    /// A waiter that arrived in round `g` and re-checks at this state is
    /// released: the round index has moved past `g`.
    pub open spec fn wake_released(self, g: nat) -> bool {
        self.generation != g
    }

    /// A waiter that arrived in round `g` and re-checks at this state
    /// observes the cancellation of its still-open round.
    pub open spec fn wake_cancelled(self, g: nat) -> bool {
        self.generation == g && self.cancelled
    }

    /// A waiter that arrived in round `g` must keep waiting: its round is
    /// still open and not cancelled.
    pub open spec fn wake_keeps_waiting(self, g: nat) -> bool {
        self.generation == g && !self.cancelled
    }
}

/// One step of the state machine.
pub open spec fn step(m: BarrierModel, op: Op) -> BarrierModel {
    match op {
        Op::Arrive => m.arrive_next(),
        Op::Cancel => m.cancel_next(),
        Op::Reset => m.reset_next(),
    }
}

/// The state after a whole sequence of operations.
pub open spec fn run(m: BarrierModel, ops: Seq<Op>) -> BarrierModel
    decreases ops.len(),
{
    if ops.len() == 0 {
        m
    } else {
        run(step(m, ops[0]), ops.drop_first())
    }
}

/// The state after `k` consecutive arrivals.
pub open spec fn arrivals(m: BarrierModel, k: nat) -> BarrierModel
    decreases k,
{
    if k == 0 {
        m
    } else {
        arrivals(m, (k - 1) as nat).arrive_next()
    }
}

} // verus!
