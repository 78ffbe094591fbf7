//! Verification harness: runs the oracle against candidate tiers and
//! reports any divergence — which tier output differs, and at which element
//! — as an unrecoverable correctness violation, never a transient error.

use vstd::prelude::*;
use crate::kernel::relu_scalar;
use crate::kernel::relu_seq;
use crate::kernel::relu_simd;

verus! {

/// How a candidate buffer disagreed with the oracle.
#[derive(Clone, Copy, PartialEq, Eq, Structural, Debug)]
pub enum Divergence {
    /// The buffers have different lengths.
    LengthMismatch { expected: usize, actual: usize },
    /// Equal lengths, but the element at `index` differs; every earlier
    /// element agrees.
    Element { index: usize },
}

/// Compares a candidate tier's output to the oracle's, element by element
/// under exact bit equality, and reports the first divergence if any.
pub fn compare_outputs(oracle: &Vec<u32>, candidate: &Vec<u32>) -> (r: Option<Divergence>)
    ensures
        r is None <==> oracle@ == candidate@,
        match r {
            None => oracle@ == candidate@,
            Some(d) => match d {
                Divergence::LengthMismatch { expected, actual } => {
                    &&& expected == oracle@.len()
                    &&& actual == candidate@.len()
                    &&& expected != actual
                },
                Divergence::Element { index } => {
                    &&& oracle@.len() == candidate@.len()
                    &&& index < oracle@.len()
                    &&& oracle@[index as int] != candidate@[index as int]
                    &&& forall|j: int| 0 <= j < index ==> oracle@[j] == candidate@[j]
                },
            },
        },
{
    let n = oracle.len();
    if candidate.len() != n {
        return Some(Divergence::LengthMismatch { expected: n, actual: candidate.len() });
    }
    let mut i: usize = 0;
    while i < n
        invariant
            n == oracle@.len(),
            n == candidate@.len(),
            i <= n,
            forall|j: int| 0 <= j < i ==> oracle@[j] == candidate@[j],
        decreases n - i,
    {
        if oracle[i] != candidate[i] {
            return Some(Divergence::Element { index: i });
        }
        i = i + 1;
    }
    proof {
        assert(oracle@ =~= candidate@);
    }
    None
}

/// Checks one candidate buffer against the scalar oracle on the same input:
/// passes (returns `None`) exactly when the candidate is the ReLU transform
/// of the input.
pub fn check_candidate(input: &Vec<u32>, candidate: &Vec<u32>) -> (r: Option<Divergence>)
    ensures
        r is None <==> candidate@ == relu_seq(input@),
{
    let oracle = relu_scalar(input);
    compare_outputs(&oracle, candidate)
}

/// Runs the scalar oracle and the portable vector kernel on the same input
/// and compares them: proved to pass on every input.
pub fn confirm_portable(input: &Vec<u32>) -> (r: Option<Divergence>)
    ensures
        r is None,
{
    let candidate = relu_simd(input);
    check_candidate(input, &candidate)
}

} // verus!
