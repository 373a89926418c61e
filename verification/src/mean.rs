//! The arithmetic mean of a slice of unsigned numbers.

use vstd::prelude::*;

verus! {

/// The sum of all the numbers in `numbers`, as a mathematical integer.
pub open spec fn total(numbers: Seq<usize>) -> nat
    decreases numbers.len(),
{
    if numbers.len() == 0 {
        0
    } else {
        total(numbers.drop_last()) + numbers.last() as nat
    }
}

/// Taking one more number from the front of `numbers` adds that number to the
/// total.
pub proof fn lemma_total_take_next(numbers: Seq<usize>, n: int)
    requires
        0 <= n < numbers.len(),
    ensures
        total(numbers.take(n + 1)) == total(numbers.take(n)) + numbers[n],
{
    assert(numbers.take(n + 1).drop_last() =~= numbers.take(n));
}

/// A total never exceeds the count of the numbers times the largest `usize`.
pub proof fn lemma_total_bound(numbers: Seq<usize>)
    ensures
        total(numbers) <= numbers.len() * usize::MAX,
    decreases numbers.len(),
{
    if numbers.len() > 0 {
        lemma_total_bound(numbers.drop_last());
        assert((numbers.len() - 1) * usize::MAX + usize::MAX == numbers.len() * usize::MAX)
            by (nonlinear_arith);
    }
}

/// Returns the mean of `numbers`, rounded down.
///
/// The numbers are added up in 128 bits, so the sum cannot overflow however
/// large the numbers are. The slice must not be empty: an empty slice has no
/// mean.
pub fn average(numbers: &[usize]) -> (mean: usize)
    requires
        numbers@.len() > 0,
    ensures
        mean == total(numbers@) / numbers@.len(),
{
    let len: usize = numbers.len();
    let mut sum: u128 = 0;
    let mut i: usize = 0;
    while i < len
        invariant
            len == numbers@.len(),
            i <= len,
            sum == total(numbers@.take(i as int)),
        decreases len - i,
    {
        proof {
            lemma_total_bound(numbers@.take(i as int));
            lemma_total_take_next(numbers@, i as int);
            assert(i * usize::MAX + usize::MAX <= u128::MAX) by (nonlinear_arith)
                requires
                    0 <= i < usize::MAX,
                    usize::MAX <= 0xffff_ffff_ffff_ffff,
            ;
        }
        sum = sum + numbers[i] as u128;
        i = i + 1;
    }
    proof {
        assert(numbers@.take(len as int) =~= numbers@);
        lemma_total_bound(numbers@);
        assert(sum as int / len as int <= usize::MAX) by (nonlinear_arith)
            requires
                0 < len,
                0 <= sum <= len * usize::MAX,
        ;
    }
    let mean: u128 = sum / (len as u128);
    mean as usize
}

} // verus!
