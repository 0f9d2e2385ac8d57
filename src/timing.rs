//! Derivation of a prescaler and a reload value from a period and a clock.
use vstd::prelude::*;
use vstd::arithmetic::div_mod::{lemma_div_pos_is_pos, lemma_fundamental_div_mod, lemma_mod_pos_bound};
use vstd::arithmetic::mul::lemma_mul_inequality;
use crate::time::{cycles_in, Hertz, MicroSecond};

verus! {

/// Largest value of the 16-bit prescaler register.
pub const MAX_PRESCALER: u16 = 0xFFFF;

/// The counter settings derived for one period.
#[derive(Clone, Copy, Debug, PartialEq, Eq, Structural)]
pub struct Timing {
    /// The clock is divided by `prescaler + 1` before it reaches the counter.
    pub prescaler: u16,
    /// The counting frequency after the prescaler.
    pub frequency: Hertz,
    /// The counter runs from zero to this value, so a period lasts `reload + 1` ticks.
    pub reload: u32,
}

/// The least prescaler `p` with `cycles <= (p + 1) * max_reload`, without regard
/// to the width of the prescaler register.
pub open spec fn ideal_prescaler(cycles: nat, max_reload: nat) -> nat {
    if cycles == 0 {
        0
    } else {
        ((cycles - 1) as nat) / max_reload
    }
}

/// The prescaler for a period of `period` microseconds at a clock of `clk` hertz:
/// the ideal one, saturated at the register's largest value.
pub open spec fn prescaler_for(clk: nat, period: nat, max_reload: nat) -> nat {
    let p = ideal_prescaler(cycles_in(period, clk), max_reload);
    if p <= MAX_PRESCALER {
        p
    } else {
        MAX_PRESCALER as nat
    }
}

/// The counting frequency after the prescaler.
pub open spec fn frequency_for(clk: nat, period: nat, max_reload: nat) -> nat {
    clk / (prescaler_for(clk, period, max_reload) + 1)
}

/// The reload value: one less than the period's whole ticks at the counting
/// frequency, at least zero and at most `max_reload`.
pub open spec fn reload_for(clk: nat, period: nat, max_reload: nat) -> nat {
    let n = cycles_in(period, frequency_for(clk, period, max_reload));
    if n == 0 {
        0
    } else if n - 1 <= max_reload {
        (n - 1) as nat
    } else {
        max_reload
    }
}

/// The period that `reload + 1` ticks at `freq` hertz span differs from `period`
/// microseconds by at most one tick (both sides scaled by `freq * 1_000_000`).
pub open spec fn within_one_tick(period: nat, freq: nat, reload: nat) -> bool {
    let achieved = (reload + 1) * 1_000_000;
    let wanted = period * freq;
    achieved <= wanted + 1_000_000 && wanted <= achieved + 1_000_000
}

/// Whether a prescaler of `prescaler` spreads `cycles` raw clock cycles over at
/// most `max_reload` counter ticks.
pub open spec fn fits_counter(cycles: nat, prescaler: nat, max_reload: nat) -> bool {
    cycles <= (prescaler + 1) * max_reload
}

/// The settings that `derive_timing` computes.
pub open spec fn timing_for(clk: Hertz, period: MicroSecond, max_reload: u32) -> Timing {
    Timing {
        prescaler: prescaler_for(clk.0 as nat, period.0 as nat, max_reload as nat) as u16,
        frequency: Hertz(frequency_for(clk.0 as nat, period.0 as nat, max_reload as nat) as u32),
        reload: reload_for(clk.0 as nat, period.0 as nat, max_reload as nat) as u32,
    }
}

/// Derives the prescaler, the counting frequency and the reload value for a
/// single period of `period` on a counter whose largest value is `max_reload`.
pub fn derive_timing(clk: Hertz, period: MicroSecond, max_reload: u32) -> (t: Timing)
    requires
        max_reload > 0,
    ensures
        t == timing_for(clk, period, max_reload),
        t.prescaler as nat == prescaler_for(clk.0 as nat, period.0 as nat, max_reload as nat),
        t.frequency.0 as nat == frequency_for(clk.0 as nat, period.0 as nat, max_reload as nat),
        t.reload as nat == reload_for(clk.0 as nat, period.0 as nat, max_reload as nat),
{
    let cycles = period.total_cycles(clk);
    let ideal: u64 = if cycles == 0 {
        0
    } else {
        (cycles - 1) / (max_reload as u64)
    };
    let prescaler: u16 = if ideal <= MAX_PRESCALER as u64 {
        ideal as u16
    } else {
        MAX_PRESCALER
    };
    let frequency = Hertz(clk.0 / (prescaler as u32 + 1));
    let ticks = period.total_cycles(frequency);
    let reload: u32 = if ticks == 0 {
        0
    } else if ticks - 1 <= max_reload as u64 {
        (ticks - 1) as u32
    } else {
        max_reload
    };
    Timing { prescaler, frequency, reload }
}

/// Floor division bounds the dividend from both sides.
proof fn lemma_div_bounds(x: int, d: int)
    requires
        x >= 0,
        d > 0,
    ensures
        (x / d) * d <= x,
        x < (x / d) * d + d,
        x / d >= 0,
{
    lemma_fundamental_div_mod(x, d);
    lemma_mod_pos_bound(x, d);
    lemma_div_pos_is_pos(x, d);
    let q = x / d;
    assert(d * q == q * d) by (nonlinear_arith);
}

/// With the prescaler that is derived, the whole ticks of the period at the
/// counting frequency never exceed `max_reload` as long as the ideal prescaler
/// fits the prescaler register.
proof fn lemma_ticks_fit(clk: nat, period: nat, max_reload: nat)
    requires
        max_reload > 0,
        ideal_prescaler(cycles_in(period, clk), max_reload) <= MAX_PRESCALER,
    ensures
        cycles_in(period, frequency_for(clk, period, max_reload)) <= max_reload,
{
    let c = cycles_in(period, clk) as int;
    let p = prescaler_for(clk, period, max_reload) as int;
    let f = frequency_for(clk, period, max_reload) as int;
    let n = cycles_in(period, f as nat) as int;
    let t = period as int;
    let m = max_reload as int;
    lemma_div_bounds(clk as int, p + 1);
    lemma_div_bounds(t * f, 1_000_000);
    lemma_div_bounds(t * clk, 1_000_000);
    assert(f * (p + 1) <= clk);
    assert(t * f >= 0) by (nonlinear_arith)
        requires
            t >= 0,
            f >= 0,
    ;
    assert(t * (f * (p + 1)) <= t * clk) by (nonlinear_arith)
        requires
            f * (p + 1) <= clk,
            t >= 0,
    ;
    // n * 1_000_000 <= t * f, scaled by p + 1
    assert(n * (p + 1) * 1_000_000 <= t * clk) by (nonlinear_arith)
        requires
            n * 1_000_000 <= t * f,
            t * (f * (p + 1)) <= t * clk,
            p + 1 > 0,
    ;
    // so n * (p + 1) is at most the whole cycles of the period
    assert(n * (p + 1) <= c) by (nonlinear_arith)
        requires
            n * (p + 1) * 1_000_000 <= t * clk,
            t * clk < c * 1_000_000 + 1_000_000,
    ;
    if c == 0 {
        assert(n >= 0);
        assert(n * (p + 1) >= n) by (nonlinear_arith)
            requires
                n >= 0,
                p >= 0,
        ;
    } else {
        lemma_div_bounds(c - 1, m);
        assert(p == (c - 1) / m);
        assert(c <= (p + 1) * m) by (nonlinear_arith)
            requires
                c - 1 < ((c - 1) / m) * m + m,
                p == (c - 1) / m,
        ;
        assert(n <= m) by (nonlinear_arith)
            requires
                n * (p + 1) <= (p + 1) * m,
                p + 1 > 0,
        ;
    }
}

/// Whenever the period's raw cycle count fits the combined span of prescaler and
/// counter, the reload value is not cut off and the achieved period,
/// `reload + 1` ticks at the counting frequency, is within one tick of the
/// period asked for.
pub proof fn lemma_period_within_one_tick(clk: Hertz, period: MicroSecond, max_reload: u32)
    requires
        max_reload > 0,
        cycles_in(period.0 as nat, clk.0 as nat) <= (MAX_PRESCALER as nat + 1) * max_reload,
    ensures
        ({
            let t = timing_for(clk, period, max_reload);
            &&& t.reload <= max_reload
            &&& within_one_tick(period.0 as nat, t.frequency.0 as nat, t.reload as nat)
        }),
{
    let c = cycles_in(period.0 as nat, clk.0 as nat);
    let m = max_reload as nat;
    if c > 0 {
        lemma_div_bounds((c - 1) as int, m as int);
        let q = ((c - 1) as nat / m) as int;
        assert(q <= MAX_PRESCALER) by (nonlinear_arith)
            requires
                q * m <= c - 1,
                c <= (MAX_PRESCALER as nat + 1) * m,
                m > 0,
        ;
    }
    lemma_ticks_fit(clk.0 as nat, period.0 as nat, m);
    let f = frequency_for(clk.0 as nat, period.0 as nat, m);
    let t = period.0 as int;
    assert(t * f >= 0) by (nonlinear_arith)
        requires
            t >= 0,
            f >= 0,
    ;
    lemma_div_bounds(t * f, 1_000_000);
}

/// The prescaler is the least one that spreads the period's raw cycles over at
/// most `max_reload` ticks: every smaller prescaler leaves more than
/// `max_reload` cycles per tick, and the one derived leaves at most that many
/// whenever the cycles fit the combined span of prescaler and counter.
pub proof fn lemma_prescaler_is_minimal(clk: Hertz, period: MicroSecond, max_reload: u32)
    requires
        max_reload > 0,
    ensures
        ({
            let c = cycles_in(period.0 as nat, clk.0 as nat);
            let p = timing_for(clk, period, max_reload).prescaler as nat;
            &&& forall|q: nat| q < p ==> !#[trigger] fits_counter(c, q, max_reload as nat)
            &&& c <= (MAX_PRESCALER as nat + 1) * max_reload ==> fits_counter(c, p, max_reload as nat)
        }),
{
    let c = cycles_in(period.0 as nat, clk.0 as nat) as int;
    let p = prescaler_for(clk.0 as nat, period.0 as nat, max_reload as nat) as int;
    let m = max_reload as int;
    assert(timing_for(clk, period, max_reload).prescaler as int == p);
    if c > 0 {
        lemma_div_bounds(c - 1, m);
        let i = (c - 1) / m;
        assert(p <= i);
        let cn = cycles_in(period.0 as nat, clk.0 as nat);
        assert forall|q: nat| q < p implies !#[trigger] fits_counter(cn, q, max_reload as nat) by {
            {
                assert((q + 1) * m <= i * m) by (nonlinear_arith)
                    requires
                        q + 1 <= i,
                        m > 0,
                ;

            }
        }
        if c <= (MAX_PRESCALER as nat + 1) * max_reload {
            assert(i <= MAX_PRESCALER) by (nonlinear_arith)
                requires
                    i * m <= c - 1,
                    c <= (MAX_PRESCALER as nat + 1) * m,
                    m > 0,
            ;
            assert(c <= (p + 1) * m) by (nonlinear_arith)
                requires
                    c - 1 < i * m + m,
                    p == i,
            ;
        }
    } else {
        assert(p == 0);
        assert(fits_counter(0, 0, m as nat));
    }
}

} // verus!
