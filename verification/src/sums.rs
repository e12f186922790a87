use vstd::prelude::*;

verus! {

/// Sum of a sequence of intervals, as a mathematical integer.
pub open spec fn sum_of(s: Seq<u64>) -> int
    decreases s.len(),
{
    if s.len() == 0 {
        0
    } else {
        sum_of(s.drop_last()) + s.last()
    }
}

/// Sum of the squares of a sequence of intervals, as a mathematical integer.
pub open spec fn sum_sq_of(s: Seq<u64>) -> int
    decreases s.len(),
{
    if s.len() == 0 {
        0
    } else {
        sum_sq_of(s.drop_last()) + s.last() * s.last()
    }
}

/// All intervals in the window are equal (vacuously true of an empty
/// window).  Over integers this is exactly the windows whose population
/// variance is zero.
pub open spec fn all_equal(s: Seq<u64>) -> bool {
    forall|i: int| 0 <= i < s.len() ==> #[trigger] s[i] == s[0]
}

/// Appending one value adds it to the sum and its square to the square sum.
pub proof fn lemma_sum_push(s: Seq<u64>, v: u64)
    ensures
        sum_of(s.push(v)) == sum_of(s) + v,
        sum_sq_of(s.push(v)) == sum_sq_of(s) + v * v,
{
    assert(s.push(v).drop_last() =~= s);
}

/// Both sums are bounded below by zero and above by the length times the
/// largest (squared) interval value.
pub proof fn lemma_sum_bounds(s: Seq<u64>)
    ensures
        0 <= sum_of(s) <= s.len() * u64::MAX,
        0 <= sum_sq_of(s) <= s.len() * (u64::MAX * u64::MAX),
    decreases s.len(),
{
    if s.len() > 0 {
        lemma_sum_bounds(s.drop_last());
        assert(s.last() * s.last() <= u64::MAX * u64::MAX) by (nonlinear_arith)
            requires 0 <= s.last() <= u64::MAX;
        assert((s.len() - 1) * u64::MAX + u64::MAX == s.len() * u64::MAX) by (nonlinear_arith);
        assert((s.len() - 1) * (u64::MAX * u64::MAX) + u64::MAX * u64::MAX
            == s.len() * (u64::MAX * u64::MAX)) by (nonlinear_arith);
    }
}

/// A prefix never has larger sums than the whole sequence.
pub proof fn lemma_prefix_sums_le(s: Seq<u64>, i: int)
    requires
        0 <= i <= s.len(),
    ensures
        sum_of(s.subrange(0, i)) <= sum_of(s),
        sum_sq_of(s.subrange(0, i)) <= sum_sq_of(s),
    decreases s.len() - i,
{
    if i == s.len() {
        assert(s.subrange(0, i) =~= s);
    } else {
        lemma_prefix_sums_le(s, i + 1);
        assert(s.subrange(0, i + 1).drop_last() =~= s.subrange(0, i));
        assert(sum_of(s.subrange(0, i + 1)) == sum_of(s.subrange(0, i)) + s[i]);
        assert(sum_sq_of(s.subrange(0, i + 1))
            == sum_sq_of(s.subrange(0, i)) + s[i] * s[i]);
        assert(s[i] * s[i] >= 0) by (nonlinear_arith);
    }
}

/// Dropping the oldest interval subtracts it from the sum and its square
/// from the square sum.
pub proof fn lemma_sum_drop_first(s: Seq<u64>)
    requires
        s.len() > 0,
    ensures
        sum_of(s.subrange(1, s.len() as int)) == sum_of(s) - s[0],
        sum_sq_of(s.subrange(1, s.len() as int)) == sum_sq_of(s) - s[0] * s[0],
    decreases s.len(),
{
    if s.len() == 1 {
        assert(s.subrange(1, 1) =~= Seq::<u64>::empty());
        assert(s.drop_last() =~= Seq::<u64>::empty());
        assert(sum_of(Seq::<u64>::empty()) == 0);
        assert(sum_sq_of(Seq::<u64>::empty()) == 0);
        assert(s.last() == s[0]);
    } else {
        let t = s.drop_last();
        lemma_sum_drop_first(t);
        assert(s.subrange(1, s.len() as int).drop_last() =~= t.subrange(1, t.len() as int));
        assert(s.subrange(1, s.len() as int).last() == s.last());
        assert(t[0] == s[0]);
    }
}

/// For non-negative intervals the sum of squares is at most the square of
/// the sum: the cross terms that the square of the sum adds are all
/// non-negative.
pub proof fn lemma_sum_sq_le_square_of_sum(s: Seq<u64>)
    ensures
        sum_sq_of(s) <= sum_of(s) * sum_of(s),
    decreases s.len(),
{
    if s.len() > 0 {
        let t = s.drop_last();
        let v = s.last();
        lemma_sum_sq_le_square_of_sum(t);
        lemma_sum_bounds(t);
        assert(sum_of(t) * sum_of(t) + v * v <= (sum_of(t) + v) * (sum_of(t) + v))
            by (nonlinear_arith)
            requires
                sum_of(t) >= 0,
                v >= 0,
        ;
    }
}

/// A window of constant cadence `s[0]` has sum `len * s[0]`, square sum
/// `len * s[0]^2`, and therefore zero population variance:
/// `len * sum_sq == sum * sum`.
pub proof fn lemma_constant_cadence_zero_variance(s: Seq<u64>)
    requires
        s.len() > 0,
        all_equal(s),
    ensures
        sum_of(s) == s.len() * s[0],
        sum_sq_of(s) == s.len() * (s[0] * s[0]),
        s.len() * sum_sq_of(s) == sum_of(s) * sum_of(s),
    decreases s.len(),
{
    if s.len() == 1 {
        let e = Seq::<u64>::empty();
        assert(s.drop_last() =~= e);
        assert(sum_of(e) == 0);
        assert(sum_sq_of(e) == 0);
        assert(s.last() == s[0]);
        assert(sum_of(s) == s[0]);
        assert(sum_sq_of(s) == s[0] * s[0]);
        assert(1 * s[0] == s[0]) by (nonlinear_arith);
        assert(1 * (s[0] * s[0]) == s[0] * s[0]) by (nonlinear_arith);
    } else {
        let t = s.drop_last();
        assert(all_equal(t)) by {
            assert(forall|i: int| 0 <= i < t.len() ==> #[trigger] t[i] == s[0]) by {
                assert(forall|i: int| 0 <= i < t.len() ==> #[trigger] t[i] == s[i]);
            }
        }
        lemma_constant_cadence_zero_variance(t);
        assert(t[0] == s[0]);
        assert(s.last() == s[0]);
        assert((s.len() - 1) * s[0] + s[0] == s.len() * s[0]) by (nonlinear_arith);
        assert((s.len() - 1) * (s[0] * s[0]) + s[0] * s[0] == s.len() * (s[0] * s[0]))
            by (nonlinear_arith);
    }
    assert(s.len() * (s.len() * (s[0] * s[0])) == (s.len() * s[0]) * (s.len() * s[0]))
        by (nonlinear_arith);
}

} // verus!
