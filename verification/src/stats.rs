use vstd::prelude::*;

use crate::error::DetectorError;
use crate::sums::all_equal;
use crate::sums::lemma_prefix_sums_le;
use crate::sums::lemma_sum_bounds;
use crate::sums::lemma_sum_drop_first;
use crate::sums::lemma_sum_push;
use crate::sums::lemma_sum_sq_le_square_of_sum;
use crate::sums::sum_of;
use crate::sums::sum_sq_of;

verus! {

/// The window after one more interval is recorded: the new interval is
/// appended, and once the window is full the oldest interval is evicted
/// first — strict FIFO, never reordered.
pub open spec fn push_evict(s: Seq<u64>, window: int, gap: u64) -> Seq<u64> {
    if s.len() < window {
        s.push(gap)
    } else {
        s.subrange(1, s.len() as int).push(gap)
    }
}

/// Bounded history of the most recent inter-arrival intervals
/// (milliseconds) of one monitored peer, plus the timestamp of its most
/// recent arrival (milliseconds on the caller's clock).
///
/// Intervals are unsigned, so the window never holds a negative duration;
/// an arrival that would produce one is rejected by [`Statistics::insert`].
#[derive(Clone, Debug)]
pub struct Statistics {
    /// Retained intervals, oldest first.
    arrival_intervals: Vec<u64>,
    /// Timestamp of the most recent recorded arrival; meaningful only once
    /// at least one arrival has been recorded.
    last_arrived_at: i64,
    /// Maximum number of intervals retained; fixed at construction.
    window_length: u32,
    /// Arrivals observed since construction, saturating at
    /// `window_length + 1` once the window is full.
    n: u64,
}

impl Statistics {
    /// The retained intervals, oldest first.
    pub closed spec fn intervals(self) -> Seq<u64> {
        self.arrival_intervals@
    }

    /// Timestamp of the most recent recorded arrival.
    pub closed spec fn last_time(self) -> int {
        self.last_arrived_at as int
    }

    /// The configured window length.
    pub closed spec fn window_len(self) -> int {
        self.window_length as int
    }

    /// Number of arrivals observed, saturating at `window_len() + 1`.
    pub closed spec fn arrival_count(self) -> int {
        self.n as int
    }

    /// Well-formedness: the window length is positive, the arrival count
    /// saturates at one past the window length, the window holds one
    /// interval fewer than the arrivals counted (none before the first),
    /// and the intervals sum to no more than the time span between the
    /// earliest representable timestamp and the last arrival — they are
    /// gaps between consecutive arrivals on one monotone clock.
    pub closed spec fn wf(self) -> bool {
        &&& 1 <= self.window_length
        &&& self.n <= self.window_length + 1
        &&& self.arrival_intervals@.len() == if self.n == 0 {
            0int
        } else {
            self.n - 1
        }
        &&& sum_of(self.arrival_intervals@) <= self.last_arrived_at - i64::MIN
    }

    /// The interval sums of a well-formed window fit the machine: the sum
    /// fits a `u64` because the window spans at most the representable
    /// timestamp range, and the sum of squares fits a `u128` because it is
    /// at most the square of the sum.
    pub proof fn lemma_sums_in_range(self)
        requires
            self.wf(),
        ensures
            0 <= sum_of(self.intervals()) <= u64::MAX,
            0 <= sum_sq_of(self.intervals()) <= u128::MAX,
    {
        lemma_sum_bounds(self.intervals());
        lemma_sum_sq_le_square_of_sum(self.intervals());
        assert(sum_of(self.intervals()) * sum_of(self.intervals()) <= u128::MAX)
            by (nonlinear_arith)
            requires
                0 <= sum_of(self.intervals()) <= u64::MAX,
        ;
    }

    /// Window bound: a well-formed window never holds more than
    /// `window_len()` intervals, and the window length is positive.
    pub proof fn lemma_window_bound(self)
        requires
            self.wf(),
        ensures
            self.intervals().len() <= self.window_len(),
            1 <= self.window_len(),
    {
    }

    /// A window length of zero would retain no data and make every query
    /// divide by zero, so it is rejected here, at construction time.
    pub fn new(window_length: u32) -> (r: Result<Statistics, DetectorError>)
        ensures
            r is Err <==> window_length == 0,
            r matches Err(e) ==> e == DetectorError::InvalidWindowLength,
            r matches Ok(s) ==> {
                &&& s.wf()
                &&& s.intervals() == Seq::<u64>::empty()
                &&& s.arrival_count() == 0
                &&& s.window_len() == window_length
            },
    {
        if window_length == 0 {
            return Err(DetectorError::InvalidWindowLength);
        }
        Ok(Statistics {
            arrival_intervals: Vec::new(),
            last_arrived_at: 0,
            window_length,
            n: 0,
        })
    }

    /// Record a heartbeat arrival.
    ///
    /// The first arrival only sets `last_time()`: there is no prior arrival
    /// to diff against, so no interval is recorded.  Every later arrival
    /// appends the gap to the previous arrival and, once the window is
    /// full, evicts the oldest interval first (strict FIFO).
    ///
    /// An arrival earlier than the most recent one would produce a negative
    /// interval and silently corrupt the mean and variance; it is rejected
    /// and the state is left unchanged.
    pub fn insert(&mut self, arrived_at: i64) -> (r: Result<(), DetectorError>)
        requires
            old(self).wf(),
        ensures
            final(self).wf(),
            final(self).window_len() == old(self).window_len(),
            r is Err <==> old(self).arrival_count() > 0 && arrived_at < old(self).last_time(),
            r matches Err(e) ==> e == DetectorError::OutOfOrderArrival && *final(self) == *old(
                self,
            ),
            r is Ok && old(self).arrival_count() == 0 ==> {
                &&& final(self).intervals() == old(self).intervals()
                &&& final(self).last_time() == arrived_at
                &&& final(self).arrival_count() == 1
            },
            r is Ok && old(self).arrival_count() > 0 ==> {
                &&& final(self).intervals() == push_evict(
                    old(self).intervals(),
                    old(self).window_len(),
                    ((arrived_at - old(self).last_time()) as u64),
                )
                &&& final(self).last_time() == arrived_at
                &&& final(self).arrival_count() == if old(self).arrival_count() <= old(
                    self,
                ).window_len() {
                    old(self).arrival_count() + 1
                } else {
                    old(self).arrival_count()
                }
            },
    {
        if self.n == 0 {
            proof {
                assert(self.arrival_intervals@ =~= Seq::<u64>::empty());
                assert(sum_of(self.arrival_intervals@) == 0);
            }
            self.last_arrived_at = arrived_at;
            self.n = 1;
            return Ok(());
        }
        if arrived_at < self.last_arrived_at {
            return Err(DetectorError::OutOfOrderArrival);
        }
        if self.n - 1 == self.window_length as u64 {
            self.arrival_intervals.remove(0);
            self.n = self.n - 1;
            proof {
                assert(self.arrival_intervals@ =~= old(self).intervals().subrange(
                    1,
                    old(self).intervals().len() as int,
                ));
                lemma_sum_drop_first(old(self).intervals());
            }
        }
        let ghost pre = self.arrival_intervals@;
        let gap_wide: i128 = (arrived_at as i128) - (self.last_arrived_at as i128);
        assert(0 <= gap_wide <= u64::MAX as i128);
        let gap: u64 = gap_wide as u64;
        self.arrival_intervals.push(gap);
        proof {
            lemma_sum_push(pre, gap);
        }
        self.last_arrived_at = arrived_at;
        self.n = self.n + 1;
        Ok(())
    }

    /// The most recent recorded arrival timestamp; before the first arrival
    /// there is nothing meaningful to answer with, so the query is refused.
    pub fn last_arrived_at(&self) -> (r: Result<i64, DetectorError>)
        ensures
            r is Err <==> self.arrival_count() == 0,
            r matches Err(e) ==> e == DetectorError::NotYetInitialized,
            r matches Ok(t) ==> t == self.last_time(),
    {
        if self.n == 0 {
            Err(DetectorError::NotYetInitialized)
        } else {
            Ok(self.last_arrived_at)
        }
    }

    /// How many intervals the window currently holds.
    pub fn interval_count(&self) -> (r: usize)
        ensures
            r == self.intervals().len(),
    {
        self.arrival_intervals.len()
    }

    /// The interval at position `i` in the window, oldest first; `None`
    /// past the end.
    pub fn interval_at(&self, i: usize) -> (r: Option<u64>)
        ensures
            r is Some <==> i < self.intervals().len(),
            r matches Some(v) ==> v == self.intervals()[i as int],
    {
        if i < self.arrival_intervals.len() {
            Some(self.arrival_intervals[i])
        } else {
            None
        }
    }

    /// The exact sum and sum of squares of the intervals in the window, the
    /// building blocks of its statistics: the mean is `sum / count` (zero
    /// for an empty window) and the population variance is
    /// `(count * sq_sum - sum * sum) / (count * count)`.  Both are computed
    /// from the one interval sequence, so they always describe a single
    /// consistent state of the window.
    ///
    /// Neither sum can exceed the machine's integer range: see
    /// [`Statistics::lemma_sums_in_range`].
    pub fn interval_sums(&self) -> (r: (u128, u128))
        requires
            self.wf(),
        ensures
            r.0 == sum_of(self.intervals()),
            r.1 == sum_sq_of(self.intervals()),
    {
        proof {
            self.lemma_sums_in_range();
        }
        let len = self.arrival_intervals.len();
        let mut sum: u128 = 0;
        let mut sq: u128 = 0;
        let mut i: usize = 0;
        while i < len
            invariant
                0 <= i <= len,
                len == self.intervals().len(),
                sum == sum_of(self.intervals().subrange(0, i as int)),
                sq == sum_sq_of(self.intervals().subrange(0, i as int)),
                sum_of(self.intervals()) <= u64::MAX,
                sum_sq_of(self.intervals()) <= u128::MAX,
            decreases len - i,
        {
            let v = self.arrival_intervals[i];
            proof {
                assert(self.intervals().subrange(0, i as int).push(v) =~= self.intervals()
                    .subrange(0, i as int + 1));
                lemma_sum_push(self.intervals().subrange(0, i as int), v);
                lemma_prefix_sums_le(self.intervals(), i as int + 1);
                lemma_sum_bounds(self.intervals().subrange(0, i as int));
                assert((v as int) * (v as int) <= u128::MAX) by (nonlinear_arith)
                    requires
                        0 <= v <= u64::MAX,
                ;
            }
            sum = sum + (v as u128);
            sq = sq + (v as u128) * (v as u128);
            i = i + 1;
        }
        proof {
            assert(self.intervals().subrange(0, len as int) =~= self.intervals());
        }
        (sum, sq)
    }

    /// `Some(v)` exactly when the window is nonempty and every interval in
    /// it equals `v` — the windows whose population variance is zero.
    /// `None` when the window is empty or holds two distinct intervals.
    pub fn uniform_interval(&self) -> (r: Option<u64>)
        ensures
            r is Some <==> self.intervals().len() > 0 && all_equal(self.intervals()),
            r matches Some(v) ==> v == self.intervals()[0],
    {
        if self.arrival_intervals.len() == 0 {
            return None;
        }
        let first = self.arrival_intervals[0];
        let mut i: usize = 1;
        while i < self.arrival_intervals.len()
            invariant
                1 <= i <= self.intervals().len(),
                first == self.intervals()[0],
                forall|j: int| 0 <= j < i ==> #[trigger] self.intervals()[j] == first,
            decreases self.intervals().len() - i,
        {
            if self.arrival_intervals[i] != first {
                return None;
            }
            i = i + 1;
        }
        Some(first)
    }
}

} // verus!
