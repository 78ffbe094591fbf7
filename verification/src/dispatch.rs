//! Capability dispatcher: a process-lifetime, write-once record of whether
//! the processor extension required by the native vector kernel is present,
//! and the tier selection it permits.
//!
//! The native kernel issues hardware vector instructions and must never run
//! without confirmed support; a [`NativeKernel`] handle can only be obtained
//! from a [`Capability`] whose detection succeeded, so the invalid call is
//! unrepresentable rather than merely discouraged.

use vstd::prelude::*;
use crate::kernel::relu_scalar;
use crate::kernel::relu_seq;
use crate::kernel::relu_simd;

verus! {

/// The closed set of interchangeable kernel tiers.
#[derive(Clone, Copy, PartialEq, Eq, Structural, Debug)]
pub enum Tier {
    /// Baseline elementwise kernel, the correctness oracle.
    Scalar,
    /// Architecture-independent vector kernel, 16 lanes per group.
    Portable,
    /// Hardware-specific vector kernel; requires confirmed processor support.
    Native,
}

/// Result of processor-extension detection, determined once per process and
/// never mutated afterwards.
pub struct Capability {
    native: bool,
}

/// Witness that native acceleration was confirmed for this process. It can
/// only be built through [`Capability::native_kernel`], so holding one proves
/// the extension check passed.
pub struct NativeKernel {
    witness: bool,
}

impl Capability {
    /// Whether the extension required by the native tier was detected.
    pub closed spec fn native_supported(self) -> bool {
        self.native
    }

    /// Records the outcome of a processor-feature query, performed once by
    /// the caller at startup.
    pub fn detect(native: bool) -> (cap: Capability)
        ensures
            cap.native_supported() == native,
    {
        Capability { native }
    }

    /// Stable query, constant for the remainder of the process lifetime.
    pub fn supports_native(&self) -> (r: bool)
        ensures
            r == self.native_supported(),
    {
        self.native
    }

    /// Which tiers this capability allows to run.
    pub open spec fn spec_permits(self, tier: Tier) -> bool {
        tier is Native ==> self.native_supported()
    }

    /// Executable form of [`Capability::spec_permits`].
    pub fn permits(&self, tier: Tier) -> (r: bool)
        ensures
            r == self.spec_permits(tier),
    {
        match tier {
            Tier::Native => self.native,
            _ => true,
        }
    }

    /// Hands out the accelerated-kernel handle exactly when the extension
    /// is present; otherwise the caller must fall back.
    pub fn native_kernel(&self) -> (handle: Option<NativeKernel>)
        ensures
            handle is Some <==> self.native_supported(),
    {
        if self.native {
            Some(NativeKernel { witness: true })
        } else {
            None
        }
    }
}

/// Picks the widest tier the capability permits: the native kernel when the
/// extension is present, else the portable vector kernel — a degraded but
/// fully correct path, never an error.
pub fn select_tier(cap: &Capability) -> (tier: Tier)
    ensures
        cap.spec_permits(tier),
        tier is Native <==> cap.native_supported(),
        !cap.native_supported() ==> tier is Portable,
{
    if cap.supports_native() {
        Tier::Native
    } else {
        Tier::Portable
    }
}

/// Runs one in-process tier on the input. The native tier's instructions are
/// issued outside the verified core by the holder of a [`NativeKernel`]
/// handle, so for it this returns `None` and the caller supplies the buffer
/// to the harness instead.
pub fn run_tier(tier: Tier, input: &Vec<u32>) -> (out: Option<Vec<u32>>)
    ensures
        out is Some <==> !(tier is Native),
        match out {
            Some(o) => o@ == relu_seq(input@),
            None => tier is Native,
        },
{
    match tier {
        Tier::Scalar => Some(relu_scalar(input)),
        Tier::Portable => Some(relu_simd(input)),
        Tier::Native => None,
    }
}

} // verus!
