//! The atomic unit of benchmarked work: an elementwise equality comparison of
//! two equal-length arrays of 64-bit integers.
//!
//! The comparison is deliberately cheap, deterministic and allocation-light,
//! so that the cost a dispatcher adds around it can be isolated. The shape
//! invariant — the result has exactly one boolean per input position — is a
//! proved postcondition here rather than a runtime assertion.

use vstd::prelude::*;

use crate::BenchError;

verus! {

/// The elementwise comparison of two equal-length integer sequences: one
/// boolean per position, true exactly where the inputs agree.
pub open spec fn compare_spec(left: Seq<i64>, right: Seq<i64>) -> Seq<bool> {
    Seq::new(left.len(), |i: int| left[i] == right[i])
}

/// One comparison task. Compares `left` and `right` position by position and
/// returns the boolean result vector; fails with `LengthMismatch` if and only
/// if the inputs differ in length. Pure: reads nothing but its two inputs.
pub fn compare(left: &Vec<i64>, right: &Vec<i64>) -> (r: Result<Vec<bool>, BenchError>)
    ensures
        left@.len() == right@.len() ==> (r matches Ok(c) && c@ == compare_spec(left@, right@)),
        left@.len() != right@.len() ==> r == Err::<Vec<bool>, BenchError>(BenchError::LengthMismatch),
{
    if left.len() != right.len() {
        return Err(BenchError::LengthMismatch);
    }
    let mut out: Vec<bool> = Vec::new();
    let mut i: usize = 0;
    while i < left.len()
        invariant
            i <= left@.len(),
            left@.len() == right@.len(),
            out@.len() == i,
            forall|j: int| 0 <= j < i ==> out@[j] == (left@[j] == right@[j]),
        decreases left@.len() - i,
    {
        out.push(left[i] == right[i]);
        i = i + 1;
    }
    proof {
        assert(out@ =~= compare_spec(left@, right@));
    }
    Ok(out)
}

/// An array compared with itself is true at every position.
pub proof fn lemma_compare_reflexive(a: Seq<i64>)
    ensures
        compare_spec(a, a).len() == a.len(),
        forall|i: int| 0 <= i < a.len() ==> compare_spec(a, a)[i],
{
}

/// If two equal-length arrays differ at exactly one position, the comparison
/// is false there and true everywhere else.
pub proof fn lemma_compare_single_difference(left: Seq<i64>, right: Seq<i64>, d: int)
    requires
        left.len() == right.len(),
        0 <= d < left.len(),
        left[d] != right[d],
        forall|i: int| 0 <= i < left.len() && i != d ==> left[i] == right[i],
    ensures
        compare_spec(left, right).len() == left.len(),
        !compare_spec(left, right)[d],
        forall|i: int| 0 <= i < left.len() && i != d ==> compare_spec(left, right)[i],
{
}

} // verus!
