//! Frequencies, durations and the conversion between them.
use vstd::prelude::*;

verus! {

/// A frequency in hertz.
#[derive(Clone, Copy, Debug, PartialEq, Eq, Structural)]
pub struct Hertz(pub u32);

/// A duration in microseconds.
#[derive(Clone, Copy, Debug, PartialEq, Eq, Structural)]
pub struct MicroSecond(pub u32);

/// Whole cycles of a clock of `hz` hertz that elapse in `us` microseconds;
/// a fractional cycle is dropped.
pub open spec fn cycles_in(us: nat, hz: nat) -> nat {
    (us * hz) / 1_000_000
}

/// The product of two 32-bit values fits in 64 bits.
pub proof fn lemma_u32_product_fits(a: u32, b: u32)
    ensures
        (a as nat) * (b as nat) <= u64::MAX,
{
    assert((a as nat) * (b as nat) <= 0xFFFF_FFFFnat * 0xFFFF_FFFFnat) by (nonlinear_arith)
        requires
            a <= 0xFFFF_FFFFnat,
            b <= 0xFFFF_FFFFnat,
    ;
}

impl MicroSecond {
    /// Whole cycles of `clk` in this duration, without any bound.
    pub fn total_cycles(self, clk: Hertz) -> (r: u64)
        ensures
            r as nat == cycles_in(self.0 as nat, clk.0 as nat),
    {
        proof {
            lemma_u32_product_fits(self.0, clk.0);
        }
        (self.0 as u64) * (clk.0 as u64) / 1_000_000
    }

    /// Whole cycles of `clk` in this duration, saturating at `u32::MAX`.
    pub fn cycles(self, clk: Hertz) -> (r: u32)
        ensures
            r as nat == if cycles_in(self.0 as nat, clk.0 as nat) <= u32::MAX {
                cycles_in(self.0 as nat, clk.0 as nat)
            } else {
                u32::MAX as nat
            },
    {
        let c = self.total_cycles(clk);
        if c <= u32::MAX as u64 {
            c as u32
        } else {
            u32::MAX
        }
    }
}

} // verus!
