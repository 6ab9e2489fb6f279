//! The executable barrier state and its operations.
//!
//! Every operation here is the short, lock-protected step of the protocol: a
//! caller that shares the barrier between threads holds it behind a lock,
//! runs one operation at a time, and parks between `arrive` and a positive
//! `check_wake` on a wait/notify mechanism of its choosing.

use vstd::prelude::*;

use crate::model::BarrierModel;

verus! {

/// Error returned when attempting to wait on a cancelled barrier.
#[derive(Clone, Copy, Debug, PartialEq, Eq, Structural)]
pub struct CancelledBarrier {}

/// What a single arrival at the barrier decided.
#[derive(Clone, Copy, Debug, PartialEq, Eq, Structural)]
pub enum Arrival {
    /// Peers are still owed: the caller must block until the round carried
    /// here is over, re-checking with `check_wake` after every wakeup.
    Waiting(usize),
    /// This arrival was the last one of the round carried here: the round is
    /// complete, the next round is open, and every blocked peer is to be
    /// woken.
    Released(usize),
}

/// What a blocked participant finds when it re-checks after a wakeup.
#[derive(Clone, Copy, Debug, PartialEq, Eq, Structural)]
pub enum Wake {
    /// Neither completion nor cancellation has happened: the wakeup was
    /// spurious and the caller must keep waiting.
    KeepWaiting,
    /// The round the caller arrived in is over: it returns success with the
    /// round index it observed at arrival.
    Released(usize),
}

/// A synchronization primitive that lets a fixed number of participants wait
/// at a point until all of them have arrived or the barrier is cancelled.
#[derive(Debug)]
pub struct CancellableBarrier {
    count: usize,
    total: usize,
    generation: usize,
    cancelled: bool,
}

impl View for CancellableBarrier {
    type V = BarrierModel;

    closed spec fn view(&self) -> BarrierModel {
        BarrierModel {
            total: self.total as nat,
            count: self.count as nat,
            generation: self.generation as nat,
            cancelled: self.cancelled,
        }
    }
}

impl CancellableBarrier {
    /// The state invariant, established at construction and preserved by
    /// every operation.
    pub open spec fn wf(self) -> bool {
        self@.inv()
    }

    /// Creates a new barrier to be used by `n` participants. A barrier for
    /// zero participants is caller misuse and is ruled out up front.
    pub fn new(n: usize) -> (b: CancellableBarrier)
        requires
            n >= 1,
        ensures
            b.wf(),
            b@ == BarrierModel::fresh(n as nat),
    {
        CancellableBarrier { count: 0, total: n, generation: 0, cancelled: false }
    }

    /// One participant arrives at the barrier. On a cancelled barrier the
    /// arrival fails at once and is not counted. Otherwise the participant is
    /// counted: the last arrival of the round completes it — emptying the
    /// count and opening the next round — and must wake all blocked peers;
    /// any earlier arrival must block and watch for the round to end.
    pub fn arrive(&mut self) -> (r: Result<Arrival, CancelledBarrier>)
        requires
            old(self).wf(),
            old(self)@.generation < usize::MAX,
        ensures
            final(self).wf(),
            final(self)@ == old(self)@.arrive_next(),
            old(self)@.cancelled ==> r == Err::<Arrival, CancelledBarrier>(CancelledBarrier {}),
            old(self)@.admits_arrival() && !old(self)@.releases() ==> r == Ok::<
                Arrival,
                CancelledBarrier,
            >(Arrival::Waiting(old(self)@.generation as usize)),
            old(self)@.releases() ==> r == Ok::<Arrival, CancelledBarrier>(
                Arrival::Released(old(self)@.generation as usize),
            ),
    {
        if self.cancelled {
            return Err(CancelledBarrier {});
        }
        let arrival_generation: usize = self.generation;
        self.count = self.count + 1;
        if self.count < self.total {
            Ok(Arrival::Waiting(arrival_generation))
        } else {
            self.count = 0;
            self.generation = self.generation + 1;
            Ok(Arrival::Released(arrival_generation))
        }
    }

    /// The re-check a blocked participant performs after each wakeup, with
    /// `arrival_generation` the round index it observed when it arrived.
    /// Completion of the round wins over a later cancellation: once a round
    /// has completed, its waiters are released with success, never with a mix
    /// of success and failure. A cancellation of the still-open round fails
    /// every waiter; otherwise the wakeup was spurious and the caller keeps
    /// waiting.
    pub fn check_wake(&self, arrival_generation: usize) -> (r: Result<Wake, CancelledBarrier>)
        ensures
            self@.wake_released(arrival_generation as nat) ==> r == Ok::<Wake, CancelledBarrier>(
                Wake::Released(arrival_generation),
            ),
            self@.wake_cancelled(arrival_generation as nat) ==> r == Err::<Wake, CancelledBarrier>(
                CancelledBarrier {},
            ),
            self@.wake_keeps_waiting(arrival_generation as nat) ==> r == Ok::<
                Wake,
                CancelledBarrier,
            >(Wake::KeepWaiting),
    {
        if self.generation != arrival_generation {
            Ok(Wake::Released(arrival_generation))
        } else if self.cancelled {
            Err(CancelledBarrier {})
        } else {
            Ok(Wake::KeepWaiting)
        }
    }

    /// Cancels the barrier: every current and future waiter fails until a
    /// reset. Idempotent, and touches nothing but the sticky flag; a caller
    /// that shares the barrier must wake all blocked peers afterwards.
    pub fn cancel(&mut self)
        ensures
            final(self)@ == old(self)@.cancel_next(),
            old(self).wf() ==> final(self).wf(),
    {
        self.cancelled = true;
    }

    /// Resets the barrier: clears cancellation, empties the current round and
    /// advances the round index, so the next `total` arrivals complete a
    /// fresh round and no stale waiter mistakes it for its own.
    pub fn reset(&mut self)
        requires
            old(self)@.generation < usize::MAX,
        ensures
            final(self)@ == old(self)@.reset_next(),
            old(self).wf() ==> final(self).wf(),
    {
        self.cancelled = false;
        self.count = 0;
        self.generation = self.generation + 1;
    }

    /// Point-in-time observation of the cancellation flag; no side effects.
    /// Only the outcome of the wait protocol itself is authoritative for how
    /// a participant was released.
    pub fn is_cancelled(&self) -> (c: bool)
        ensures
            c == self@.cancelled,
    {
        self.cancelled
    }

    /// The current round index.
    pub fn generation(&self) -> (g: usize)
        ensures
            g as nat == self@.generation,
    {
        self.generation
    }
}

} // verus!
