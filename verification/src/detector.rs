use vstd::prelude::*;

use crate::error::DetectorError;
use crate::stats::Statistics;
use crate::sums::all_equal;
use crate::sums::sum_of;
use crate::sums::sum_sq_of;

verus! {

/// The suspicion level (phi) at a query time, resolved as far as exact
/// arithmetic can take it.
///
/// The phi formula is `-log10(survival)`, where `survival` is the
/// probability that the next interval exceeds the elapsed time under a
/// normal distribution fit to the window.  When the window's variance is
/// zero the distribution collapses to a point mass at the mean and the
/// survival function degenerates to an indicator: survival is 0 when the
/// elapsed time equals the mean (phi is positive infinity) and 1 at every
/// other elapsed time (phi is 0).  That case is decided here exactly.  A
/// window with genuine jitter needs the error function, so the exact
/// inputs of the formula are handed out instead.
#[derive(Clone, Copy, Debug, PartialEq, Eq, Structural)]
pub enum PhiOutcome {
    /// Survival 0: phi is positive infinity, the terminal-suspicion signal.
    Infinite,
    /// Survival 1: phi is 0, no suspicion.
    Zero,
    /// The window's variance is not zero.  Phi is
    /// `-log10(1 - cdf((elapsed - mean) / stddev))` with the standard
    /// normal cumulative distribution function `cdf`, where
    /// `mean = interval_sum / interval_count` and `stddev` is the square
    /// root of the population variance
    /// `(interval_count * interval_sq_sum - interval_sum^2) / interval_count^2`.
    Numeric {
        /// Query time minus the last arrival, minus the grace period; may
        /// be negative for a query inside the grace period.
        elapsed: i128,
        /// Number of intervals in the window; at least two here, since a
        /// single interval has zero variance.
        interval_count: u64,
        /// Exact sum of the intervals in the window.
        interval_sum: u128,
        /// Exact sum of the squared intervals in the window.
        interval_sq_sum: u128,
    },
}

/// The mean of a zero-variance window: the common interval value, or zero
/// for a window with no intervals yet.
pub open spec fn degenerate_mean(s: Seq<u64>) -> int {
    if s.len() == 0 {
        0
    } else {
        s[0] as int
    }
}

/// One phi accrual failure detector for one monitored peer: the interval
/// statistics together with the configured grace period.
///
/// The statistics are exclusively owned and reachable only through the
/// methods here, so every query derives all of its values — mean, variance
/// and last arrival — from the one state it was called on, never from a
/// torn mixture of two states.  A caller that shares a detector between a
/// writer and readers puts it behind one lock and calls each method under a
/// single acquisition.
#[derive(Debug)]
pub struct Detector {
    statistics: Statistics,
    acceptable_pause: u64,
}

impl Detector {
    /// The owned interval statistics.
    pub closed spec fn stats(self) -> Statistics {
        self.statistics
    }

    /// The grace period (milliseconds) subtracted from the elapsed time
    /// before scoring; fixed at construction.
    pub closed spec fn pause(self) -> int {
        self.acceptable_pause as int
    }

    pub open spec fn wf(self) -> bool {
        self.stats().wf()
    }

    /// The elapsed time fed to the survival function: time since the last
    /// arrival, less the grace period.
    pub open spec fn elapsed_at(self, query_time: int) -> int {
        query_time - self.stats().last_time() - self.pause()
    }

    /// What [`Detector::phi_outcome`] returns, as a function of the
    /// detector's state and the query time alone.  Reading phi is therefore
    /// idempotent: without an intervening insert, repeated queries at the
    /// same time return identical results.
    pub open spec fn phi_outcome_spec(self, query_time: int) -> Result<PhiOutcome, DetectorError> {
        let s = self.stats().intervals();
        if self.stats().arrival_count() == 0 {
            Err(DetectorError::NotYetInitialized)
        } else if all_equal(s) {
            if self.elapsed_at(query_time) == degenerate_mean(s) {
                Ok(PhiOutcome::Infinite)
            } else {
                Ok(PhiOutcome::Zero)
            }
        } else {
            Ok(
                PhiOutcome::Numeric {
                    elapsed: self.elapsed_at(query_time) as i128,
                    interval_count: s.len() as u64,
                    interval_sum: sum_of(s) as u128,
                    interval_sq_sum: sum_sq_of(s) as u128,
                },
            )
        }
    }

    /// A detector with no grace period.
    pub fn new(window_length: u32) -> (r: Result<Detector, DetectorError>)
        ensures
            r is Err <==> window_length == 0,
            r matches Err(e) ==> e == DetectorError::InvalidWindowLength,
            r matches Ok(d) ==> {
                &&& d.wf()
                &&& d.pause() == 0
                &&& d.stats().intervals() == Seq::<u64>::empty()
                &&& d.stats().arrival_count() == 0
                &&& d.stats().window_len() == window_length
            },
    {
        Detector::with_acceptable_pause(window_length, 0)
    }

    /// A detector with an explicit grace period (milliseconds).  A window
    /// length of zero is rejected, as in [`Statistics::new`].
    pub fn with_acceptable_pause(window_length: u32, acceptable_pause: u64) -> (r: Result<
        Detector,
        DetectorError,
    >)
        ensures
            r is Err <==> window_length == 0,
            r matches Err(e) ==> e == DetectorError::InvalidWindowLength,
            r matches Ok(d) ==> {
                &&& d.wf()
                &&& d.pause() == acceptable_pause
                &&& d.stats().intervals() == Seq::<u64>::empty()
                &&& d.stats().arrival_count() == 0
                &&& d.stats().window_len() == window_length
            },
    {
        match Statistics::new(window_length) {
            Ok(statistics) => Ok(Detector { statistics, acceptable_pause }),
            Err(e) => Err(e),
        }
    }

    /// Record a heartbeat arrival, exactly as [`Statistics::insert`] does;
    /// the grace period and window length are untouched.
    pub fn insert(&mut self, arrived_at: i64) -> (r: Result<(), DetectorError>)
        requires
            old(self).wf(),
        ensures
            final(self).wf(),
            final(self).pause() == old(self).pause(),
            final(self).stats().window_len() == old(self).stats().window_len(),
            r is Err <==> old(self).stats().arrival_count() > 0 && arrived_at < old(
                self,
            ).stats().last_time(),
            r matches Err(e) ==> e == DetectorError::OutOfOrderArrival && *final(self) == *old(
                self,
            ),
            r is Ok && old(self).stats().arrival_count() == 0 ==> {
                &&& final(self).stats().intervals() == old(self).stats().intervals()
                &&& final(self).stats().last_time() == arrived_at
                &&& final(self).stats().arrival_count() == 1
            },
            r is Ok && old(self).stats().arrival_count() > 0 ==> {
                &&& final(self).stats().intervals() == crate::stats::push_evict(
                    old(self).stats().intervals(),
                    old(self).stats().window_len(),
                    ((arrived_at - old(self).stats().last_time()) as u64),
                )
                &&& final(self).stats().last_time() == arrived_at
                &&& final(self).stats().arrival_count() == if old(self).stats().arrival_count()
                    <= old(self).stats().window_len() {
                    old(self).stats().arrival_count() + 1
                } else {
                    old(self).stats().arrival_count()
                }
            },
    {
        self.statistics.insert(arrived_at)
    }

    /// The most recent recorded arrival timestamp; refused before the first
    /// arrival, when there is nothing meaningful to answer with.  The
    /// result is a function of the detector's state alone, so repeated
    /// queries without an intervening insert return identical results.
    pub fn last_arrived_at(&self) -> (r: Result<i64, DetectorError>)
        ensures
            r is Err <==> self.stats().arrival_count() == 0,
            r matches Err(e) ==> e == DetectorError::NotYetInitialized,
            r matches Ok(t) ==> t == self.stats().last_time(),
    {
        self.statistics.last_arrived_at()
    }

    /// The suspicion level at `query_time`, resolved as far as exact
    /// arithmetic decides it; see [`PhiOutcome`].  Everything — last
    /// arrival, elapsed time, zero-variance test and the interval sums —
    /// is derived from the one state this is called on.
    ///
    /// The query is refused before the first arrival
    /// (`NotYetInitialized`); on every other input it succeeds.
    pub fn phi_outcome(&self, query_time: i64) -> (r: Result<PhiOutcome, DetectorError>)
        requires
            self.wf(),
        ensures
            r == self.phi_outcome_spec(query_time as int),
    {
        let last = match self.statistics.last_arrived_at() {
            Ok(t) => t,
            Err(e) => {
                return Err(e);
            },
        };
        let elapsed: i128 = (query_time as i128) - (last as i128) - (
        self.acceptable_pause as i128);
        match self.statistics.uniform_interval() {
            Some(v) => {
                if elapsed == v as i128 {
                    Ok(PhiOutcome::Infinite)
                } else {
                    Ok(PhiOutcome::Zero)
                }
            },
            None => {
                if self.statistics.interval_count() == 0 {
                    // Exactly one arrival so far: an empty window has mean
                    // zero and zero variance.
                    if elapsed == 0 {
                        Ok(PhiOutcome::Infinite)
                    } else {
                        Ok(PhiOutcome::Zero)
                    }
                } else {
                    let sums = self.statistics.interval_sums();
                    proof {
                        self.statistics.lemma_sums_in_range();
                    }
                    Ok(
                        PhiOutcome::Numeric {
                            elapsed,
                            interval_count: self.statistics.interval_count() as u64,
                            interval_sum: sums.0,
                            interval_sq_sum: sums.1,
                        },
                    )
                }
            },
        }
    }
}

/// Monotonic suspicion growth, the exact half: with no intervening insert,
/// a later query time means a strictly larger elapsed time — the quantity
/// the survival function falls in and phi grows in.
pub proof fn lemma_elapsed_monotone(d: Detector, earlier: int, later: int)
    requires
        earlier < later,
    ensures
        d.elapsed_at(earlier) < d.elapsed_at(later),
{
}

/// Grace period effect, the exact half: for two detectors over the same
/// statistics and the same query time, the one with the larger acceptable
/// pause computes a smaller-or-equal elapsed time — the quantity the
/// survival function, and with it phi, is monotone in.
pub proof fn lemma_grace_period_elapsed(a: Detector, b: Detector, query_time: int)
    requires
        a.stats() == b.stats(),
        a.pause() <= b.pause(),
    ensures
        b.elapsed_at(query_time) <= a.elapsed_at(query_time),
{
}

/// For a zero-variance window (constant cadence, or fewer than two
/// intervals), phi is positive infinity exactly when the elapsed time
/// equals the learned mean, and zero at every other elapsed time.
pub proof fn lemma_zero_variance_outcome(d: Detector, query_time: int)
    requires
        d.stats().arrival_count() > 0,
        all_equal(d.stats().intervals()),
    ensures
        d.phi_outcome_spec(query_time) == Ok::<PhiOutcome, DetectorError>(
            if d.elapsed_at(query_time) == degenerate_mean(d.stats().intervals()) {
                PhiOutcome::Infinite
            } else {
                PhiOutcome::Zero
            },
        ),
{
}

} // verus!
