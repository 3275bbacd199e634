//! Sums over sequences of machine integers, with the small lemmas the
//! sampling and accounting code needs about them.

use vstd::prelude::*;
use vstd::arithmetic::mul::{lemma_mul_is_distributive_sub_other_way, lemma_mul_inequality};

verus! {

/// The sum of a sequence of unsigned readings, as a mathematical integer.
pub open spec fn sum_u64(s: Seq<u64>) -> int
    decreases s.len(),
{
    if s.len() == 0 {
        0
    } else {
        sum_u64(s.drop_last()) + s.last()
    }
}

/// The sum of a sequence of signed readings, as a mathematical integer.
pub open spec fn sum_i64(s: Seq<i64>) -> int
    decreases s.len(),
{
    if s.len() == 0 {
        0
    } else {
        sum_i64(s.drop_last()) + s.last()
    }
}

pub proof fn lemma_sum_u64_nonneg(s: Seq<u64>)
    ensures
        sum_u64(s) >= 0,
    decreases s.len(),
{
    if s.len() > 0 {
        lemma_sum_u64_nonneg(s.drop_last());
    }
}

/// Appending one reading adds its value to the sum.
pub proof fn lemma_sum_u64_push(s: Seq<u64>, v: u64)
    ensures
        sum_u64(s.push(v)) == sum_u64(s) + v,
{
    assert(s.push(v).drop_last() =~= s);
    assert(s.push(v).last() == v);
}

/// Extending a prefix by one element adds that element to its sum.
pub proof fn lemma_sum_u64_take_succ(s: Seq<u64>, i: int)
    requires
        0 <= i < s.len(),
    ensures
        sum_u64(s.take(i + 1)) == sum_u64(s.take(i)) + s[i],
{
    assert(s.take(i + 1).drop_last() =~= s.take(i));
    assert(s.take(i + 1).last() == s[i]);
}

/// A prefix never sums to more than the whole sequence.
pub proof fn lemma_sum_u64_prefix_le(s: Seq<u64>, i: int)
    requires
        0 <= i <= s.len(),
    ensures
        sum_u64(s.take(i)) <= sum_u64(s),
    decreases s.len() - i,
{
    if i == s.len() {
        assert(s.take(i) =~= s);
    } else {
        lemma_sum_u64_take_succ(s, i);
        lemma_sum_u64_prefix_le(s, i + 1);
    }
}

/// The sum is at most the length times the largest representable reading.
pub proof fn lemma_sum_u64_le_len_times_max(s: Seq<u64>)
    ensures
        sum_u64(s) <= s.len() * u64::MAX,
    decreases s.len(),
{
    if s.len() > 0 {
        lemma_sum_u64_le_len_times_max(s.drop_last());
    }
}

/// The product of two values that each fit a 64-bit word fits a 128-bit
/// word.
pub proof fn lemma_u64_mul_fits_u128(x: int, y: int)
    requires
        0 <= x <= u64::MAX,
        0 <= y <= u64::MAX,
    ensures
        x * y <= u128::MAX,
{
    lemma_mul_inequality(x, u64::MAX as int, y);
    lemma_mul_inequality(y, u64::MAX as int, u64::MAX as int);
}

/// Elementwise bounds give a bound on the signed sum.
pub proof fn lemma_sum_i64_bounds(s: Seq<i64>, bound: int)
    requires
        bound >= 0,
        forall|i: int| 0 <= i < s.len() ==> -bound <= #[trigger] s[i] <= bound,
    ensures
        -(s.len() * bound) <= sum_i64(s) <= s.len() * bound,
    decreases s.len(),
{
    if s.len() > 0 {
        assert(forall|i: int|
            0 <= i < s.drop_last().len() ==> -bound <= #[trigger] s.drop_last()[i] <= bound);
        lemma_sum_i64_bounds(s.drop_last(), bound);
        lemma_mul_is_distributive_sub_other_way(bound, s.len() as int, 1);
    }
}

} // verus!
