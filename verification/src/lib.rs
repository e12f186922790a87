//! Phi Accrual Failure Detector core.
//!
//! The detector keeps a bounded, FIFO-evicted window of inter-arrival
//! intervals (milliseconds) for one monitored peer and turns "time since the
//! last heartbeat" into a suspicion outcome.  All window maintenance, the
//! consistent snapshot, and the degenerate zero-variance rule of the phi
//! formula are exact integer computations and are verified here; only the
//! floating-point evaluation of the normal survival function for a window
//! with genuine jitter is left to the caller, which receives the exact
//! inputs it needs in [`PhiOutcome::Numeric`].

mod detector;
mod error;
mod stats;
mod sums;

pub use detector::degenerate_mean;
pub use detector::lemma_elapsed_monotone;
pub use detector::lemma_grace_period_elapsed;
pub use detector::lemma_zero_variance_outcome;
pub use detector::Detector;
pub use detector::PhiOutcome;
pub use error::DetectorError;
pub use stats::push_evict;
pub use stats::Statistics;
pub use sums::all_equal;
pub use sums::lemma_constant_cadence_zero_variance;
pub use sums::sum_of;
pub use sums::sum_sq_of;
