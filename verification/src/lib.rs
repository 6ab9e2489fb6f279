//! A cyclic, cancellable rendezvous barrier.
//!
//! A fixed number of participants synchronize at a checkpoint: none proceeds
//! past it until all peers have arrived. The barrier can be cancelled, which
//! releases every waiter with a failure, and reset, which clears cancellation
//! and opens a fresh round, so one instance serves any number of rounds.
//!
//! The state machine itself lives here and is verified: `barrier` holds the
//! executable state with its contracts, `model` the mathematical model those
//! contracts speak of, and `laws` the proved properties of whole operation
//! traces. Blocking and thread sharing (a lock and a wait/notify mechanism)
//! are left to the caller, who runs each operation under exclusive access.

pub mod barrier;
pub mod laws;
pub mod model;

pub use barrier::Arrival;
pub use barrier::CancellableBarrier;
pub use barrier::CancelledBarrier;
pub use barrier::Wake;
