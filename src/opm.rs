//! One-pulse mode: a timer configured for one period, and the output
//! channels bound to it, each with a delay before its output goes active.
use vstd::prelude::*;
use crate::pins::{TimerPin, TimerPinView};
use crate::rcc::Rcc;
use crate::time::{cycles_in, Hertz, MicroSecond};
use crate::timer::{
    regs_after_reset, Channel, CompareUnit, RegsView, Timer, TimerId, TimerView, CHANNEL_SLOTS,
    OUTPUT_MODE_DELAYED_ACTIVE,
};
use crate::timing::{derive_timing, timing_for, Timing};

verus! {

/// The compare value for a delay of `delay` microseconds at a counting frequency
/// of `clk` hertz: the delay's whole ticks, at least one, saturating at
/// `u32::MAX` as `MicroSecond::cycles` does.
pub open spec fn compare_for(delay: nat, clk: nat) -> nat {
    let c = cycles_in(delay, clk);
    if delay == 0 || c == 0 {
        1
    } else if c <= u32::MAX {
        c
    } else {
        u32::MAX as nat
    }
}

/// Computes the compare value for `delay` at counting frequency `clk`.
pub fn compare_value(delay: MicroSecond, clk: Hertz) -> (r: u32)
    ensures
        r as nat == compare_for(delay.0 as nat, clk.0 as nat),
{
    if delay.0 > 0 {
        let c = delay.cycles(clk);
        if c == 0 {
            1
        } else {
            c
        }
    } else {
        1
    }
}

/// The compare value is never zero; a zero delay, and a delay too short for a
/// whole tick, both give one.
pub proof fn lemma_compare_never_zero(delay: MicroSecond, clk: Hertz)
    ensures
        compare_for(delay.0 as nat, clk.0 as nat) >= 1,
        delay.0 == 0 ==> compare_for(delay.0 as nat, clk.0 as nat) == 1,
        cycles_in(delay.0 as nat, clk.0 as nat) == 0 ==> compare_for(delay.0 as nat, clk.0 as nat)
            == 1,
{
}

/// The registers of timer `id` once configured with `t`: reset, then prescaler
/// and reload written.
pub open spec fn regs_configured(id: TimerId, t: Timing) -> RegsView {
    RegsView {
        psc: t.prescaler,
        arr_l: (t.reload as nat % 0x1_0000) as u16,
        arr_h: (t.reload as nat / 0x1_0000) as u16,
        ..regs_after_reset(id)
    }
}

/// Configures a timer for one-pulse mode with a period of `period`.
pub trait OpmExt: Sized {
    fn opm(self, period: MicroSecond, rcc: &mut Rcc) -> Opm<Self>;
}

/// A timer configured for one period; it owns the timer.
pub struct Opm<TIM> {
    tim: TIM,
    clk: Hertz,
}

impl<TIM> Opm<TIM> {
    /// The timer the handle owns.
    pub closed spec fn spec_tim(&self) -> TIM {
        self.tim
    }

    /// The counting frequency after the prescaler.
    pub closed spec fn spec_clk(&self) -> Hertz {
        self.clk
    }

    /// The counting frequency after the prescaler.
    pub fn frequency(&self) -> (r: Hertz)
        ensures
            r == self.spec_clk(),
    {
        self.clk
    }

    /// Read access to the timer.
    pub fn timer(&self) -> (r: &TIM)
        ensures
            *r == self.spec_tim(),
    {
        &self.tim
    }

    /// Gives the timer back, for instance to configure it anew; every channel
    /// bound to this handle is then stale.
    pub fn release(self) -> (r: TIM)
        ensures
            r == self.spec_tim(),
    {
        self.tim
    }
}

impl OpmExt for Timer {
    /// Turns the timer's clock on, pulses its reset, and writes the prescaler
    /// and reload that `derive_timing` gives for `period` at the timer clock.
    fn opm(self, period: MicroSecond, rcc: &mut Rcc) -> (r: Opm<Timer>)
        ensures
            ({
                let id = self@.id;
                let t = timing_for(old(rcc).apb_tim_clk, period, id.spec_max_reload());
                &&& r.spec_clk() == t.frequency
                &&& r.spec_tim()@ == (TimerView { id, regs: regs_configured(id, t) })
                &&& r.spec_tim()@.regs.reload() == t.reload
                &&& final(rcc).apb_tim_clk == old(rcc).apb_tim_clk
                &&& final(rcc).enable_reg(id.spec_bus()) == old(rcc).enable_reg(id.spec_bus()) | (1u32
                    << id.spec_rcc_bit())
                &&& final(rcc).reset_reg(id.spec_bus()) == old(rcc).reset_reg(id.spec_bus()) & !(1u32
                    << id.spec_rcc_bit())
                &&& forall|b| b != id.spec_bus() ==> #[trigger] final(rcc).enable_reg(b) == old(
                    rcc,
                ).enable_reg(b) && final(rcc).reset_reg(b) == old(rcc).reset_reg(b)
            }),
    {
        let mut tim = self;
        let id = tim.id();
        rcc.enable(id.bus(), id.rcc_bit());
        rcc.pulse_reset(id.bus(), id.rcc_bit());
        tim.reset();
        let t = derive_timing(rcc.apb_tim_clk, period, id.max_reload());
        tim.write_prescaler(t.prescaler);
        tim.write_reload(t.reload);
        proof {
            let v = tim@.regs;
            assert(v.arr_l as nat == t.reload as nat % 0x1_0000);
            assert(v.arr_h as nat == t.reload as nat / 0x1_0000);
            assert(v == regs_configured(id, t));
        }
        Opm { tim, clk: t.frequency }
    }
}

impl Opm<Timer> {
    /// Binds `pin` as an output of this timer, with no delay: the pin is
    /// switched to the timer, and no register of the timer changes.
    pub fn bind_pin(&self, pin: TimerPin) -> (r: OpmPin)
        requires
            pin@.timer == self.spec_tim()@.id,
        ensures
            r@ == (OpmPinView {
                timer: pin@.timer,
                channel: pin@.channel,
                clk: self.spec_clk(),
                delay: MicroSecond(0),
                pin: TimerPinView { alternate: true, ..pin@ },
            }),
            r.is_bound_to(self),
            pin@.timer.spec_has_channel(r@.channel),
    {
        let mut pin = pin;
        pin.setup();
        let channel = pin.channel();
        OpmPin { timer: pin.timer(), channel, clk: self.clk, delay: MicroSecond(0), pin }
    }

    /// Starts one pulse cycle: sets the one-pulse and counter-enable bits in one
    /// write. The counter runs from zero to the reload value once and stops.
    pub fn generate(&mut self)
        ensures
            final(self).spec_clk() == old(self).spec_clk(),
            final(self).spec_tim()@ == (TimerView {
                regs: RegsView {
                    one_pulse: true,
                    counter_enable: true,
                    ..old(self).spec_tim()@.regs
                },
                ..old(self).spec_tim()@
            }),
    {
        self.tim.start_one_pulse();
    }
}

/// One output channel in one-pulse mode.
pub struct OpmPin {
    timer: TimerId,
    channel: Channel,
    clk: Hertz,
    delay: MicroSecond,
    pin: TimerPin,
}

/// What a channel binding is: its timer and unit, the counting frequency it
/// was bound with, its delay, and its pin.
pub ghost struct OpmPinView {
    pub timer: TimerId,
    pub channel: Channel,
    pub clk: Hertz,
    pub delay: MicroSecond,
    pub pin: TimerPinView,
}

impl View for OpmPin {
    type V = OpmPinView;

    closed spec fn view(&self) -> OpmPinView {
        OpmPinView {
            timer: self.timer,
            channel: self.channel,
            clk: self.clk,
            delay: self.delay,
            pin: self.pin@,
        }
    }
}

impl OpmPinView {
    /// The compare value for the binding's delay.
    pub open spec fn compare(self) -> nat {
        compare_for(self.delay.0 as nat, self.clk.0 as nat)
    }
}

/// `r` after the binding's unit gets the compare value of `p`'s delay, the
/// delayed-active output mode and the fast-enable bit.
pub open spec fn setup_regs(r: RegsView, p: OpmPinView) -> RegsView {
    r.with_unit(
        p.channel,
        CompareUnit {
            compare: p.compare() as u32,
            output_mode: OUTPUT_MODE_DELAYED_ACTIVE,
            fast_enable: true,
            ..r.unit(p.channel)
        },
    )
}

/// `r` after the binding's unit is enabled and set up.
pub open spec fn enable_regs(r: RegsView, p: OpmPinView) -> RegsView {
    setup_regs(r.with_unit(p.channel, CompareUnit { output_enabled: true, ..r.unit(p.channel) }), p)
}

/// `r` after the binding's unit is disabled.
pub open spec fn disable_regs(r: RegsView, p: OpmPinView) -> RegsView {
    r.with_unit(p.channel, CompareUnit { output_enabled: false, ..r.unit(p.channel) })
}

/// `r` after `n` enables of the binding in a row.
pub open spec fn enable_regs_times(r: RegsView, p: OpmPinView, n: nat) -> RegsView
    decreases n,
{
    if n == 0 {
        r
    } else {
        enable_regs(enable_regs_times(r, p, (n - 1) as nat), p)
    }
}

/// Enabling a channel is idempotent: after any number of enables in a row, at
/// least one, the registers are as after a single one.
pub proof fn lemma_enable_idempotent(r: RegsView, p: OpmPinView, n: nat)
    requires
        r.units.len() == CHANNEL_SLOTS,
        n >= 1,
    ensures
        enable_regs_times(r, p, n) == enable_regs(r, p),
    decreases n,
{
    if n == 1 {
        assert(enable_regs_times(r, p, 0) == r);
    } else {
        lemma_enable_idempotent(r, p, (n - 1) as nat);
        let once = enable_regs(r, p);
        assert(enable_regs(once, p).units =~= once.units);
        assert(enable_regs(once, p) == once);
    }
}

/// Disabling a channel and enabling it again, with no new delay in between,
/// leaves the registers as enabling alone does: the unit gets back the compare
/// value of the delay set before.
pub proof fn lemma_disable_then_enable(r: RegsView, p: OpmPinView)
    requires
        r.units.len() == CHANNEL_SLOTS,
    ensures
        enable_regs(disable_regs(r, p), p) == enable_regs(r, p),
        enable_regs(disable_regs(r, p), p).unit(p.channel).compare as nat == p.compare(),
        enable_regs(disable_regs(r, p), p).unit(p.channel).output_enabled,
{
    assert(enable_regs(disable_regs(r, p), p).units =~= enable_regs(r, p).units);
    assert(p.compare() <= u32::MAX);
}

impl OpmPin {
    /// Whether the binding was made from `opm` as it stands: same timer, same
    /// counting frequency.
    pub open spec fn is_bound_to(&self, opm: &Opm<Timer>) -> bool {
        self@.timer == opm.spec_tim()@.id && self@.clk == opm.spec_clk()
    }

    /// Enables the unit's output, then writes its compare value and output mode
    /// for the current delay.
    pub fn enable(&mut self, opm: &mut Opm<Timer>)
        requires
            old(self).is_bound_to(old(opm)),
        ensures
            final(self)@ == old(self)@,
            final(opm).spec_clk() == old(opm).spec_clk(),
            final(opm).spec_tim()@ == (TimerView {
                regs: enable_regs(old(opm).spec_tim()@.regs, old(self)@),
                ..old(opm).spec_tim()@
            }),
    {
        opm.tim.set_output_enable(self.channel, true);
        self.setup(opm);
    }

    /// Disables the unit's output; the delay is kept.
    pub fn disable(&mut self, opm: &mut Opm<Timer>)
        requires
            old(self).is_bound_to(old(opm)),
        ensures
            final(self)@ == old(self)@,
            final(opm).spec_clk() == old(opm).spec_clk(),
            final(opm).spec_tim()@ == (TimerView {
                regs: disable_regs(old(opm).spec_tim()@.regs, old(self)@),
                ..old(opm).spec_tim()@
            }),
    {
        opm.tim.set_output_enable(self.channel, false);
    }

    /// Sets the delay and writes the unit's compare value and output mode for it
    /// at once; the next pulse uses it.
    pub fn set_delay(&mut self, opm: &mut Opm<Timer>, delay: MicroSecond)
        requires
            old(self).is_bound_to(old(opm)),
        ensures
            final(self)@ == (OpmPinView { delay, ..old(self)@ }),
            final(opm).spec_clk() == old(opm).spec_clk(),
            final(opm).spec_tim()@ == (TimerView {
                regs: setup_regs(old(opm).spec_tim()@.regs, final(self)@),
                ..old(opm).spec_tim()@
            }),
    {
        self.delay = delay;
        self.setup(opm);
    }

    fn setup(&mut self, opm: &mut Opm<Timer>)
        requires
            old(self).is_bound_to(old(opm)),
        ensures
            final(self)@ == old(self)@,
            final(opm).spec_clk() == old(opm).spec_clk(),
            final(opm).spec_tim()@ == (TimerView {
                regs: setup_regs(old(opm).spec_tim()@.regs, old(self)@),
                ..old(opm).spec_tim()@
            }),
    {
        let compare = compare_value(self.delay, self.clk);
        opm.tim.write_compare(self.channel, compare);
        opm.tim.set_output_mode(self.channel, OUTPUT_MODE_DELAYED_ACTIVE, true);
        proof {
            let r = old(opm).spec_tim()@.regs;
            assert(opm.spec_tim()@.regs.units =~= setup_regs(r, self@).units);
        }
    }

    pub fn timer(&self) -> (r: TimerId)
        ensures
            r == self@.timer,
    {
        self.timer
    }

    pub fn channel(&self) -> (r: Channel)
        ensures
            r == self@.channel,
    {
        self.channel
    }

    /// The counting frequency the binding converts its delay at.
    pub fn frequency(&self) -> (r: Hertz)
        ensures
            r == self@.clk,
    {
        self.clk
    }

    pub fn delay(&self) -> (r: MicroSecond)
        ensures
            r == self@.delay,
    {
        self.delay
    }

    /// The pin the binding drives.
    pub fn pin(&self) -> (r: &TimerPin)
        ensures
            r@ == self@.pin,
    {
        &self.pin
    }
}

} // verus!
