//! The three kernel tiers' shared mathematical model and the two kernels that
//! run without hardware support: the scalar oracle and the portable vector
//! kernel (16 lanes per group, scalar remainder).

use vstd::prelude::*;

verus! {

/// Number of lanes processed by one vector group.
pub const LANES: usize = 16;

/// Bit pattern of `+inf` as an `f32`: the largest bit pattern whose value
/// compares greater than `+0.0`.
pub const POSITIVE_INFINITY_BITS: u32 = 0x7F80_0000;

/// Whether the `f32` encoded by bit pattern `b` compares strictly greater
/// than `+0.0` (the `x > 0.0` test every tier applies per lane).
///
/// In IEEE-754 single precision, the patterns `1 ..= 0x7F80_0000` are exactly
/// the positive nonzero values up to and including `+inf`. Pattern `0` is
/// `+0.0`; patterns above `0x7F80_0000` with the sign bit clear are NaNs,
/// which compare false against zero; patterns with the sign bit set encode
/// `-0.0`, negative values and negative NaNs, none of which exceed `+0.0`.
pub open spec fn exceeds_zero(b: u32) -> bool {
    1 <= b <= POSITIVE_INFINITY_BITS
}

/// One lane of the ReLU transform on bit patterns: keep the value if it
/// compares greater than `+0.0`, else produce `+0.0` (bit pattern `0`).
///
/// Policy, identical in every tier: NaN lanes and `-0.0` lanes both clamp
/// to `+0.0`.
pub open spec fn relu_bit(b: u32) -> u32 {
    if exceeds_zero(b) {
        b
    } else {
        0
    }
}

/// The whole-buffer ReLU transform: the contract every kernel tier meets.
pub open spec fn relu_seq(s: Seq<u32>) -> Seq<u32> {
    s.map_values(|b: u32| relu_bit(b))
}

/// One scalar lane, executable.
fn relu_lane(b: u32) -> (r: u32)
    ensures
        r == relu_bit(b),
{
    if 1 <= b && b <= POSITIVE_INFINITY_BITS {
        b
    } else {
        0
    }
}

/// Scalar fallback and correctness oracle: elementwise max-with-zero over
/// the whole input, one lane at a time.
pub fn relu_scalar(input: &Vec<u32>) -> (out: Vec<u32>)
    ensures
        out@ == relu_seq(input@),
        out@.len() == input@.len(),
{
    let n = input.len();
    let mut out: Vec<u32> = Vec::new();
    let mut i: usize = 0;
    while i < n
        invariant
            n == input@.len(),
            i <= n,
            out@.len() == i,
            forall|j: int| 0 <= j < i ==> out@[j] == relu_bit(input@[j]),
        decreases n - i,
    {
        let r = relu_lane(input[i]);
        out.push(r);
        i = i + 1;
    }
    proof {
        assert(out@ =~= relu_seq(input@));
    }
    out
}

/// Greater-than-zero mask over one full group of `LANES` lanes, the
/// vectorized compare step.
fn lane_mask(input: &Vec<u32>, start: usize) -> (mask: Vec<bool>)
    requires
        start + LANES <= input@.len(),
    ensures
        mask@.len() == LANES,
        forall|j: int| 0 <= j < LANES ==> mask@[j] == exceeds_zero(input@[start + j]),
{
    let n = input.len();
    let mut mask: Vec<bool> = Vec::new();
    let mut j: usize = 0;
    while j < LANES
        invariant
            n == input@.len(),
            start + LANES <= input@.len(),
            j <= LANES,
            mask@.len() == j,
            forall|k: int| 0 <= k < j ==> mask@[k] == exceeds_zero(input@[start + k]),
        decreases LANES - j,
    {
        let b = input[start + j];
        mask.push(1 <= b && b <= POSITIVE_INFINITY_BITS);
        j = j + 1;
    }
    mask
}

/// Per-lane blend of one full group: the original value where the mask is
/// set, `+0.0` where it is not — the vectorized select step.
fn select_lanes(input: &Vec<u32>, start: usize, mask: &Vec<bool>) -> (lanes: Vec<u32>)
    requires
        start + LANES <= input@.len(),
        mask@.len() == LANES,
    ensures
        lanes@.len() == LANES,
        forall|j: int| 0 <= j < LANES ==> lanes@[j] == (if mask@[j] {
            input@[start + j]
        } else {
            0u32
        }),
{
    let n = input.len();
    let mut lanes: Vec<u32> = Vec::new();
    let mut j: usize = 0;
    while j < LANES
        invariant
            n == input@.len(),
            start + LANES <= input@.len(),
            mask@.len() == LANES,
            j <= LANES,
            lanes@.len() == j,
            forall|k: int| 0 <= k < j ==> lanes@[k] == (if mask@[k] {
                input@[start + k]
            } else {
                0u32
            }),
        decreases LANES - j,
    {
        let v = if mask[j] {
            input[start + j]
        } else {
            0
        };
        lanes.push(v);
        j = j + 1;
    }
    lanes
}

/// One full vector group: compare, then blend, preserving lane order.
fn relu_group(input: &Vec<u32>, start: usize) -> (lanes: Vec<u32>)
    requires
        start + LANES <= input@.len(),
    ensures
        lanes@.len() == LANES,
        forall|j: int| 0 <= j < LANES ==> lanes@[j] == relu_bit(input@[start + j]),
{
    let mask = lane_mask(input, start);
    select_lanes(input, start, &mask)
}

/// Portable vector kernel: functionally identical to `relu_scalar`, computed
/// by partitioning the input into consecutive groups of `LANES` elements,
/// one compare-and-select per full group, with the trailing remainder
/// (shorter than one group) handled by the scalar path.
pub fn relu_simd(input: &Vec<u32>) -> (out: Vec<u32>)
    ensures
        out@ == relu_seq(input@),
        out@.len() == input@.len(),
{
    let n = input.len();
    let mut out: Vec<u32> = Vec::new();
    let mut i: usize = 0;
    while n - i >= LANES
        invariant
            n == input@.len(),
            i <= n,
            out@.len() == i,
            forall|j: int| 0 <= j < i ==> out@[j] == relu_bit(input@[j]),
        decreases n - i,
    {
        let mut lanes = relu_group(input, i);
        out.append(&mut lanes);
        i = i + LANES;
    }
    while i < n
        invariant
            n == input@.len(),
            i <= n,
            out@.len() == i,
            forall|j: int| 0 <= j < i ==> out@[j] == relu_bit(input@[j]),
        decreases n - i,
    {
        let r = relu_lane(input[i]);
        out.push(r);
        i = i + 1;
    }
    proof {
        assert(out@ =~= relu_seq(input@));
    }
    out
}

/// Tiers are interchangeable: any two outputs that meet the shared kernel
/// contract on the same input are equal, element for element, under exact
/// bit equality.
pub proof fn lemma_tiers_agree(v: Seq<u32>, a: Seq<u32>, b: Seq<u32>)
    requires
        a == relu_seq(v),
        b == relu_seq(v),
    ensures
        a == b,
{
}

/// Clamping is idempotent: applying the kernel twice equals applying it
/// once, since every output lane already fails the greater-than-zero test
/// or passes through unchanged.
pub proof fn lemma_relu_idempotent(v: Seq<u32>)
    ensures
        relu_seq(relu_seq(v)) == relu_seq(v),
{
    assert(relu_seq(relu_seq(v)) =~= relu_seq(v));
}

/// The kernel preserves length, including for empty input.
pub proof fn lemma_length_preserved(v: Seq<u32>)
    ensures
        relu_seq(v).len() == v.len(),
{
}

} // verus!
