//! The clock and reset controller: the timer clock, and one clock-enable and
//! one reset bit per peripheral on each of two buses.
use vstd::prelude::*;
use crate::time::Hertz;

verus! {

/// A peripheral bus; each has its own enable and reset registers.
#[derive(Clone, Copy, Debug, PartialEq, Eq, Structural)]
pub enum Bus {
    Apb1,
    Apb2,
}

/// Whether bit `bit` of `m` is set.
pub open spec fn has_bit(m: u32, bit: u32) -> bool {
    m & (1u32 << bit) != 0
}

/// Setting bit `bit` sets it and keeps every other bit.
pub proof fn lemma_set_bit(m: u32, bit: u32)
    requires
        bit < 32,
    ensures
        has_bit(m | (1u32 << bit), bit),
        forall|j: u32| j < 32 && j != bit ==> has_bit(m | (1u32 << bit), j) == #[trigger] has_bit(m, j),
{
    assert((m | (1u32 << bit)) & (1u32 << bit) != 0) by (bit_vector)
        requires
            bit < 32,
    ;
    assert forall|j: u32| j < 32 && j != bit implies has_bit(m | (1u32 << bit), j) == #[trigger] has_bit(m, j) by {
        assert(((m | (1u32 << bit)) & (1u32 << j) != 0) == (m & (1u32 << j) != 0)) by (bit_vector)
            requires
                bit < 32,
                j < 32,
                j != bit,
        ;
    }
}

/// Clearing bit `bit` clears it and keeps every other bit.
pub proof fn lemma_clear_bit(m: u32, bit: u32)
    requires
        bit < 32,
    ensures
        !has_bit(m & !(1u32 << bit), bit),
        forall|j: u32| j < 32 && j != bit ==> has_bit(m & !(1u32 << bit), j) == #[trigger] has_bit(m, j),
{
    assert((m & !(1u32 << bit)) & (1u32 << bit) == 0) by (bit_vector)
        requires
            bit < 32,
    ;
    assert forall|j: u32| j < 32 && j != bit implies has_bit(m & !(1u32 << bit), j) == #[trigger] has_bit(m, j) by {
        assert(((m & !(1u32 << bit)) & (1u32 << j) != 0) == (m & (1u32 << j) != 0)) by (bit_vector)
            requires
                bit < 32,
                j < 32,
                j != bit,
        ;
    }
}

/// The clock and reset controller's registers, with the frequency of the
/// clock that feeds the timers.
#[derive(Clone, Copy, Debug, PartialEq, Eq, Structural)]
pub struct Rcc {
    pub apb_tim_clk: Hertz,
    pub apbenr1: u32,
    pub apbenr2: u32,
    pub apbrstr1: u32,
    pub apbrstr2: u32,
}

impl Rcc {
    /// A controller with every peripheral clock off and no reset asserted.
    pub fn new(apb_tim_clk: Hertz) -> (r: Rcc)
        ensures
            r == (Rcc { apb_tim_clk, apbenr1: 0, apbenr2: 0, apbrstr1: 0, apbrstr2: 0 }),
    {
        Rcc { apb_tim_clk, apbenr1: 0, apbenr2: 0, apbrstr1: 0, apbrstr2: 0 }
    }

    /// The clock-enable register of `bus`.
    pub open spec fn enable_reg(self, bus: Bus) -> u32 {
        match bus {
            Bus::Apb1 => self.apbenr1,
            Bus::Apb2 => self.apbenr2,
        }
    }

    /// The reset register of `bus`.
    pub open spec fn reset_reg(self, bus: Bus) -> u32 {
        match bus {
            Bus::Apb1 => self.apbrstr1,
            Bus::Apb2 => self.apbrstr2,
        }
    }

    /// Whether the clock of the peripheral at `bit` on `bus` is on.
    pub fn is_enabled(&self, bus: Bus, bit: u32) -> (r: bool)
        requires
            bit < 32,
        ensures
            r == has_bit(self.enable_reg(bus), bit),
    {
        let m = match bus {
            Bus::Apb1 => self.apbenr1,
            Bus::Apb2 => self.apbenr2,
        };
        m & (1u32 << bit) != 0
    }

    /// Whether the peripheral at `bit` on `bus` is held in reset.
    pub fn is_in_reset(&self, bus: Bus, bit: u32) -> (r: bool)
        requires
            bit < 32,
        ensures
            r == has_bit(self.reset_reg(bus), bit),
    {
        let m = match bus {
            Bus::Apb1 => self.apbrstr1,
            Bus::Apb2 => self.apbrstr2,
        };
        m & (1u32 << bit) != 0
    }

    /// Turns on the clock of the peripheral at `bit` on `bus`.
    pub fn enable(&mut self, bus: Bus, bit: u32)
        requires
            bit < 32,
        ensures
            final(self).enable_reg(bus) == old(self).enable_reg(bus) | (1u32 << bit),
            has_bit(final(self).enable_reg(bus), bit),
            forall|b: Bus| b != bus ==> #[trigger] final(self).enable_reg(b) == old(self).enable_reg(b),
            forall|b: Bus| #[trigger] final(self).reset_reg(b) == old(self).reset_reg(b),
            final(self).apb_tim_clk == old(self).apb_tim_clk,
    {
        proof {
            lemma_set_bit(self.enable_reg(bus), bit);
        }
        match bus {
            Bus::Apb1 => self.apbenr1 = self.apbenr1 | (1u32 << bit),
            Bus::Apb2 => self.apbenr2 = self.apbenr2 | (1u32 << bit),
        }
    }

    /// Pulses the reset line of the peripheral at `bit` on `bus`: asserts it,
    /// then releases it.
    pub fn pulse_reset(&mut self, bus: Bus, bit: u32)
        requires
            bit < 32,
        ensures
            final(self).reset_reg(bus) == old(self).reset_reg(bus) & !(1u32 << bit),
            !has_bit(final(self).reset_reg(bus), bit),
            forall|b: Bus| b != bus ==> #[trigger] final(self).reset_reg(b) == old(self).reset_reg(b),
            forall|b: Bus| #[trigger] final(self).enable_reg(b) == old(self).enable_reg(b),
            final(self).apb_tim_clk == old(self).apb_tim_clk,
    {
        let asserted = match bus {
            Bus::Apb1 => {
                self.apbrstr1 = self.apbrstr1 | (1u32 << bit);
                self.apbrstr1
            },
            Bus::Apb2 => {
                self.apbrstr2 = self.apbrstr2 | (1u32 << bit);
                self.apbrstr2
            },
        };
        let released = asserted & !(1u32 << bit);
        proof {
            let m = old(self).reset_reg(bus);
            assert((m | (1u32 << bit)) & !(1u32 << bit) == m & !(1u32 << bit)) by (bit_vector);
            lemma_clear_bit(m, bit);
        }
        match bus {
            Bus::Apb1 => self.apbrstr1 = released,
            Bus::Apb2 => self.apbrstr2 = released,
        }
    }
}

} // verus!
