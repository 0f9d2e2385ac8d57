//! Timer instances and a model of one timer's register block.
use vstd::prelude::*;
use crate::rcc::Bus;

verus! {

/// One of the timer instances; each is described by its counter width, its
/// compare channels and its clock-enable and reset bits.
#[derive(Clone, Copy, Debug, PartialEq, Eq, Structural)]
pub enum TimerId {
    Tim1,
    Tim2,
    Tim3,
    Tim14,
    Tim15,
    Tim16,
    Tim17,
}

/// One of the compare/output units of a timer.
#[derive(Clone, Copy, Debug, PartialEq, Eq, Structural)]
pub enum Channel {
    Channel1,
    Channel2,
    Channel3,
    Channel4,
}

/// Number of compare/output units in every register block.
pub const CHANNEL_SLOTS: usize = 4;

impl Channel {
    pub open spec fn spec_index(self) -> nat {
        match self {
            Channel::Channel1 => 0,
            Channel::Channel2 => 1,
            Channel::Channel3 => 2,
            Channel::Channel4 => 3,
        }
    }

    /// Position of the unit in the register block, from zero.
    pub fn index(self) -> (r: usize)
        ensures
            r as nat == self.spec_index(),
    {
        match self {
            Channel::Channel1 => 0,
            Channel::Channel2 => 1,
            Channel::Channel3 => 2,
            Channel::Channel4 => 3,
        }
    }
}

impl TimerId {
    /// Whether the counter and its reload register are 32 bits wide, the reload
    /// register then being written as two 16-bit halves.
    pub open spec fn spec_is_wide(self) -> bool {
        self == TimerId::Tim2 || self == TimerId::Tim3
    }

    pub open spec fn spec_max_reload(self) -> u32 {
        if self.spec_is_wide() {
            0xFFFF_FFFF
        } else {
            0xFFFF
        }
    }

    pub open spec fn spec_channel_count(self) -> nat {
        match self {
            TimerId::Tim1 | TimerId::Tim2 | TimerId::Tim3 => 4,
            TimerId::Tim15 => 2,
            _ => 1,
        }
    }

    pub open spec fn spec_has_channel(self, ch: Channel) -> bool {
        ch.spec_index() < self.spec_channel_count()
    }

    pub open spec fn spec_bus(self) -> Bus {
        match self {
            TimerId::Tim2 | TimerId::Tim3 => Bus::Apb1,
            _ => Bus::Apb2,
        }
    }

    pub open spec fn spec_rcc_bit(self) -> u32 {
        match self {
            TimerId::Tim1 => 11,
            TimerId::Tim2 => 0,
            TimerId::Tim3 => 1,
            TimerId::Tim14 => 15,
            TimerId::Tim15 => 16,
            TimerId::Tim16 => 17,
            TimerId::Tim17 => 18,
        }
    }

    /// Whether the counter is 32 bits wide.
    pub fn is_wide(self) -> (r: bool)
        ensures
            r == self.spec_is_wide(),
    {
        match self {
            TimerId::Tim2 | TimerId::Tim3 => true,
            _ => false,
        }
    }

    /// The largest value the counter can reach.
    pub fn max_reload(self) -> (r: u32)
        ensures
            r == self.spec_max_reload(),
            r > 0,
    {
        if self.is_wide() {
            0xFFFF_FFFF
        } else {
            0xFFFF
        }
    }

    /// Whether the instance has the compare/output unit `ch`.
    pub fn has_channel(self, ch: Channel) -> (r: bool)
        ensures
            r == self.spec_has_channel(ch),
    {
        let count: usize = match self {
            TimerId::Tim1 | TimerId::Tim2 | TimerId::Tim3 => 4,
            TimerId::Tim15 => 2,
            _ => 1,
        };
        ch.index() < count
    }

    /// The bus whose enable and reset registers control the instance.
    pub fn bus(self) -> (r: Bus)
        ensures
            r == self.spec_bus(),
    {
        match self {
            TimerId::Tim2 | TimerId::Tim3 => Bus::Apb1,
            _ => Bus::Apb2,
        }
    }

    /// The instance's bit in its bus's enable and reset registers.
    pub fn rcc_bit(self) -> (r: u32)
        ensures
            r == self.spec_rcc_bit(),
            r < 32,
    {
        match self {
            TimerId::Tim1 => 11,
            TimerId::Tim2 => 0,
            TimerId::Tim3 => 1,
            TimerId::Tim14 => 15,
            TimerId::Tim15 => 16,
            TimerId::Tim16 => 17,
            TimerId::Tim17 => 18,
        }
    }
}

/// Output-compare mode in which the output is inactive while the counter is
/// below the compare value and active from then on.
pub const OUTPUT_MODE_DELAYED_ACTIVE: u8 = 7;

/// The registers of one compare/output unit.
#[derive(Clone, Copy, Debug, PartialEq, Eq, Structural)]
pub struct CompareUnit {
    /// The unit drives its output pin.
    pub output_enabled: bool,
    /// The counter value at which the output changes state.
    pub compare: u32,
    /// The output-compare mode.
    pub output_mode: u8,
    /// The fast output-compare acceleration.
    pub fast_enable: bool,
}

/// A compare/output unit in its reset state.
pub open spec fn unit_reset() -> CompareUnit {
    CompareUnit { output_enabled: false, compare: 0, output_mode: 0, fast_enable: false }
}

/// The register block of one timer.
pub struct TimerRegs {
    /// Prescaler: the clock is divided by `psc + 1`.
    pub psc: u16,
    /// Low half of the reload register.
    pub arr_l: u16,
    /// High half of the reload register; zero on a 16-bit counter.
    pub arr_h: u16,
    /// The counter stops by itself at its first overflow.
    pub one_pulse: bool,
    /// The counter runs.
    pub counter_enable: bool,
    /// The compare/output units, in channel order.
    pub unit1: CompareUnit,
    pub unit2: CompareUnit,
    pub unit3: CompareUnit,
    pub unit4: CompareUnit,
}

/// What a register block holds.
pub ghost struct RegsView {
    pub psc: u16,
    pub arr_l: u16,
    pub arr_h: u16,
    pub one_pulse: bool,
    pub counter_enable: bool,
    pub units: Seq<CompareUnit>,
}

impl View for TimerRegs {
    type V = RegsView;

    open spec fn view(&self) -> RegsView {
        RegsView {
            psc: self.psc,
            arr_l: self.arr_l,
            arr_h: self.arr_h,
            one_pulse: self.one_pulse,
            counter_enable: self.counter_enable,
            units: seq![self.unit1, self.unit2, self.unit3, self.unit4],
        }
    }
}

impl RegsView {
    /// The value the reload register holds.
    pub open spec fn reload(self) -> nat {
        self.arr_h as nat * 0x1_0000 + self.arr_l as nat
    }

    /// The registers of unit `ch`.
    pub open spec fn unit(self, ch: Channel) -> CompareUnit {
        self.units[ch.spec_index() as int]
    }

    /// These registers with unit `ch` holding `u`.
    pub open spec fn with_unit(self, ch: Channel, u: CompareUnit) -> RegsView {
        RegsView { units: self.units.update(ch.spec_index() as int, u), ..self }
    }
}

/// The register block of timer `id` after a reset.
pub open spec fn regs_after_reset(id: TimerId) -> RegsView {
    RegsView {
        psc: 0,
        arr_l: 0xFFFF,
        arr_h: if id.spec_is_wide() {
            0xFFFF
        } else {
            0
        },
        one_pulse: false,
        counter_enable: false,
        units: Seq::new(CHANNEL_SLOTS as nat, |i: int| unit_reset()),
    }
}

/// A timer peripheral, owned: whoever holds it is the one path to its registers.
pub struct Timer {
    id: TimerId,
    regs: TimerRegs,
}

/// What a timer is: its identity and its registers.
pub ghost struct TimerView {
    pub id: TimerId,
    pub regs: RegsView,
}

impl View for Timer {
    type V = TimerView;

    closed spec fn view(&self) -> TimerView {
        TimerView { id: self.id, regs: self.regs@ }
    }
}

impl Timer {
    fn unit_at_reset() -> (r: CompareUnit)
        ensures
            r == unit_reset(),
    {
        CompareUnit { output_enabled: false, compare: 0, output_mode: 0, fast_enable: false }
    }

    fn reset_regs(id: TimerId) -> (r: TimerRegs)
        ensures
            r@ == regs_after_reset(id),
    {
        proof {
            assert(seq![unit_reset(), unit_reset(), unit_reset(), unit_reset()] =~= Seq::new(
                CHANNEL_SLOTS as nat,
                |i: int| unit_reset(),
            ));
        }
        TimerRegs {
            psc: 0,
            arr_l: 0xFFFF,
            arr_h: if id.is_wide() {
                0xFFFF
            } else {
                0
            },
            one_pulse: false,
            counter_enable: false,
            unit1: Timer::unit_at_reset(),
            unit2: Timer::unit_at_reset(),
            unit3: Timer::unit_at_reset(),
            unit4: Timer::unit_at_reset(),
        }
    }

    /// Timer `id` with its registers in their reset state.
    pub fn new(id: TimerId) -> (t: Timer)
        ensures
            t@ == (TimerView { id, regs: regs_after_reset(id) }),
    {
        Timer { id, regs: Timer::reset_regs(id) }
    }

    pub fn id(&self) -> (r: TimerId)
        ensures
            r == self@.id,
    {
        self.id
    }

    /// Read access to the register block.
    pub fn regs(&self) -> (r: &TimerRegs)
        ensures
            r@ == self@.regs,
            r@.units.len() == CHANNEL_SLOTS,
    {
        &self.regs
    }

    /// Returns every register to its reset value, as the reset line does.
    pub fn reset(&mut self)
        ensures
            final(self)@ == (TimerView { id: old(self)@.id, regs: regs_after_reset(old(self)@.id) }),
    {
        self.regs = Timer::reset_regs(self.id);
    }

    /// Writes the prescaler register.
    pub fn write_prescaler(&mut self, psc: u16)
        ensures
            final(self)@ == (TimerView { regs: RegsView { psc, ..old(self)@.regs }, ..old(self)@ }),
    {
        self.regs.psc = psc;
    }

    /// Writes the reload register: its low half, then on a wide counter its
    /// high half.
    pub fn write_reload(&mut self, reload: u32)
        requires
            reload <= old(self)@.id.spec_max_reload(),
        ensures
            final(self)@.id == old(self)@.id,
            final(self)@.regs.reload() == reload,
            final(self)@.regs == (RegsView {
                arr_l: final(self)@.regs.arr_l,
                arr_h: final(self)@.regs.arr_h,
                ..old(self)@.regs
            }),
    {
        self.regs.arr_l = (reload & 0xFFFF) as u16;
        if self.id.is_wide() {
            self.regs.arr_h = (reload >> 16) as u16;
            assert((reload >> 16) as u16 as nat * 0x1_0000 + (reload & 0xFFFF) as u16 as nat
                == reload as nat) by {
                assert(((reload >> 16) as u16 as u32) * 0x1_0000u32 + ((reload & 0xFFFF) as u16 as u32)
                    == reload) by (bit_vector);
            }
        } else {
            self.regs.arr_h = 0;
            assert((reload & 0xFFFF) as u16 as nat == reload as nat) by {
                assert(reload <= 0xFFFF ==> (reload & 0xFFFF) as u16 as u32 == reload) by (bit_vector);
            }
        }
    }

    /// Sets the one-pulse and counter-enable bits in one write of the control
    /// register: the counter starts from zero and stops at its first overflow.
    pub fn start_one_pulse(&mut self)
        ensures
            final(self)@ == (TimerView {
                regs: RegsView { one_pulse: true, counter_enable: true, ..old(self)@.regs },
                ..old(self)@
            }),
    {
        self.regs.one_pulse = true;
        self.regs.counter_enable = true;
    }

    /// Replaces the registers of unit `ch` with `u`.
    fn update_unit(&mut self, ch: Channel, u: CompareUnit)
        ensures
            final(self)@ == (TimerView { regs: old(self)@.regs.with_unit(ch, u), ..old(self)@ }),
    {
        match ch {
            Channel::Channel1 => self.regs.unit1 = u,
            Channel::Channel2 => self.regs.unit2 = u,
            Channel::Channel3 => self.regs.unit3 = u,
            Channel::Channel4 => self.regs.unit4 = u,
        }
        proof {
            assert(final(self)@.regs.units =~= old(self)@.regs.units.update(ch.spec_index() as int, u));
        }
    }

    /// Reads the registers of unit `ch`.
    pub fn unit(&self, ch: Channel) -> (r: CompareUnit)
        ensures
            r == self@.regs.unit(ch),
    {
        match ch {
            Channel::Channel1 => self.regs.unit1,
            Channel::Channel2 => self.regs.unit2,
            Channel::Channel3 => self.regs.unit3,
            Channel::Channel4 => self.regs.unit4,
        }
    }

    /// Sets or clears the output-enable bit of unit `ch`.
    pub fn set_output_enable(&mut self, ch: Channel, on: bool)
        ensures
            old(self)@.regs.units.len() == CHANNEL_SLOTS,
            final(self)@ == (TimerView {
                regs: old(self)@.regs.with_unit(
                    ch,
                    CompareUnit { output_enabled: on, ..old(self)@.regs.unit(ch) },
                ),
                ..old(self)@
            }),
    {
        let u = self.unit(ch);
        self.update_unit(ch, CompareUnit { output_enabled: on, ..u });
    }

    /// Writes the compare register of unit `ch`.
    pub fn write_compare(&mut self, ch: Channel, compare: u32)
        ensures
            old(self)@.regs.units.len() == CHANNEL_SLOTS,
            final(self)@ == (TimerView {
                regs: old(self)@.regs.with_unit(ch, CompareUnit { compare, ..old(self)@.regs.unit(ch) }),
                ..old(self)@
            }),
    {
        let u = self.unit(ch);
        self.update_unit(ch, CompareUnit { compare, ..u });
    }

    /// Sets the output-compare mode and the fast-enable bit of unit `ch`.
    pub fn set_output_mode(&mut self, ch: Channel, mode: u8, fast: bool)
        ensures
            old(self)@.regs.units.len() == CHANNEL_SLOTS,
            final(self)@ == (TimerView {
                regs: old(self)@.regs.with_unit(
                    ch,
                    CompareUnit { output_mode: mode, fast_enable: fast, ..old(self)@.regs.unit(ch) },
                ),
                ..old(self)@
            }),
    {
        let u = self.unit(ch);
        self.update_unit(ch, CompareUnit { output_mode: mode, fast_enable: fast, ..u });
    }
}

} // verus!
