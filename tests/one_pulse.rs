use opm_timer::opm::{compare_value, OpmExt};
use opm_timer::pins::TimerPin;
use opm_timer::rcc::{Bus, Rcc};
use opm_timer::time::{Hertz, MicroSecond};
use opm_timer::timer::{Channel, CompareUnit, Timer, TimerId, OUTPUT_MODE_DELAYED_ACTIVE};
use opm_timer::timing::{derive_timing, Timing, MAX_PRESCALER};

fn achieved_within_one_tick(period_us: u32, t: Timing) -> bool {
    let achieved = (t.reload as u128 + 1) * 1_000_000;
    let wanted = period_us as u128 * t.frequency.0 as u128;
    achieved <= wanted + 1_000_000 && wanted <= achieved + 1_000_000
}

fn reload_of(tim: &Timer) -> u64 {
    let r = tim.regs();
    (r.arr_h as u64) * 0x1_0000 + r.arr_l as u64
}

#[test]
fn millisecond_period_at_48_mhz() {
    let t = derive_timing(Hertz(48_000_000), MicroSecond(1000), 0xFFFF);
    assert_eq!(t.prescaler, 0);
    assert_eq!(t.frequency, Hertz(48_000_000));
    assert_eq!(t.reload, 47_999);
}

#[test]
fn two_second_period_on_16_bit_counter() {
    let t = derive_timing(Hertz(48_000_000), MicroSecond(2_000_000), 0xFFFF);
    assert_eq!(MicroSecond(2_000_000).total_cycles(Hertz(48_000_000)), 96_000_000);
    assert_eq!(t.prescaler, 1464);
    assert_eq!(t.frequency, Hertz(32_764));
    assert_eq!(t.reload, 65_527);
    assert!(t.reload <= 0xFFFF);
    assert!(achieved_within_one_tick(2_000_000, t));
}

#[test]
fn delay_of_100_us_at_1_mhz() {
    let mut rcc = Rcc::new(Hertz(1_000_000));
    let mut opm = Timer::new(TimerId::Tim1).opm(MicroSecond(1000), &mut rcc);
    assert_eq!(opm.frequency(), Hertz(1_000_000));
    let pin = TimerPin::new(TimerId::Tim1, Channel::Channel1).unwrap();
    let mut ch = opm.bind_pin(pin);
    ch.set_delay(&mut opm, MicroSecond(100));
    assert_eq!(opm.timer().unit(Channel::Channel1).compare, 100);
    assert_eq!(compare_value(MicroSecond(100), Hertz(1_000_000)), 100);
}

#[test]
fn period_within_one_tick_on_many_inputs() {
    let clocks = [1_000u32, 32_768, 1_000_000, 16_000_000, 48_000_000, 64_000_000];
    let periods = [1u32, 7, 999, 1000, 12_345, 1_000_000, 2_000_000, 60_000_000];
    for &clk in clocks.iter() {
        for &period in periods.iter() {
            let cycles = MicroSecond(period).total_cycles(Hertz(clk));
            if cycles <= (MAX_PRESCALER as u64 + 1) * 0xFFFF {
                let t = derive_timing(Hertz(clk), MicroSecond(period), 0xFFFF);
                assert!(t.reload <= 0xFFFF);
                assert!(achieved_within_one_tick(period, t), "clk {} period {}", clk, period);
            }
        }
    }
}

#[test]
fn prescaler_is_the_least_that_fits() {
    let cases = [(48_000_000u32, 2_000_000u32), (65_536_000, 1000), (64_000_000, 1_024), (48_000_000, 1000)];
    for &(clk, period) in cases.iter() {
        let t = derive_timing(Hertz(clk), MicroSecond(period), 0xFFFF);
        let c = MicroSecond(period).total_cycles(Hertz(clk));
        let p = t.prescaler as u64;
        assert!(c <= (p + 1) * 0xFFFF);
        if p > 0 {
            assert!(p * 0xFFFF < c);
        }
    }
    assert_eq!(derive_timing(Hertz(65_536_000), MicroSecond(1000), 0xFFFF).prescaler, 1);
    assert_eq!(derive_timing(Hertz(65_535_000), MicroSecond(1000), 0xFFFF).prescaler, 0);
}

#[test]
fn too_long_period_saturates() {
    let t = derive_timing(Hertz(64_000_000), MicroSecond(u32::MAX), 0xFFFF);
    assert_eq!(t.prescaler, 0xFFFF);
    assert_eq!(t.frequency, Hertz(976));
    assert_eq!(t.reload, 0xFFFF);
}

#[test]
fn zero_period_gives_zero_reload() {
    let t = derive_timing(Hertz(48_000_000), MicroSecond(0), 0xFFFF);
    assert_eq!(t, Timing { prescaler: 0, frequency: Hertz(48_000_000), reload: 0 });
}

#[test]
fn wide_counter_splits_reload() {
    let mut rcc = Rcc::new(Hertz(64_000_000));
    let opm = Timer::new(TimerId::Tim2).opm(MicroSecond(1_000_000), &mut rcc);
    assert_eq!(opm.frequency(), Hertz(64_000_000));
    let regs = opm.timer().regs();
    assert_eq!(regs.psc, 0);
    assert_eq!(regs.arr_h, 976);
    assert_eq!(regs.arr_l, 36_863);
    assert_eq!(reload_of(opm.timer()), 63_999_999);
}

#[test]
fn configure_programs_prescaler_and_reload() {
    let mut rcc = Rcc::new(Hertz(48_000_000));
    let opm = Timer::new(TimerId::Tim14).opm(MicroSecond(2_000_000), &mut rcc);
    assert_eq!(opm.frequency(), Hertz(32_764));
    let regs = opm.timer().regs();
    assert_eq!(regs.psc, 1464);
    assert_eq!(regs.arr_h, 0);
    assert_eq!(regs.arr_l, 65_527);
    assert!(!regs.one_pulse);
    assert!(!regs.counter_enable);
}

#[test]
fn configure_enables_clock_and_releases_reset() {
    let mut rcc = Rcc::new(Hertz(16_000_000));
    rcc.apbrstr2 = 1 << 11;
    let _opm = Timer::new(TimerId::Tim1).opm(MicroSecond(500), &mut rcc);
    assert!(rcc.is_enabled(Bus::Apb2, 11));
    assert!(!rcc.is_in_reset(Bus::Apb2, 11));
    assert_eq!(rcc.apbenr1, 0);
    let _opm3 = Timer::new(TimerId::Tim3).opm(MicroSecond(500), &mut rcc);
    assert!(rcc.is_enabled(Bus::Apb1, 1));
    assert_eq!(rcc.apbenr2, 1 << 11);
    assert_eq!(rcc.apb_tim_clk, Hertz(16_000_000));
}

#[test]
fn rcc_bits() {
    let mut rcc = Rcc::new(Hertz(8_000_000));
    rcc.enable(Bus::Apb1, 3);
    rcc.enable(Bus::Apb1, 5);
    assert_eq!(rcc.apbenr1, (1 << 3) | (1 << 5));
    rcc.apbrstr2 = 0b111;
    rcc.pulse_reset(Bus::Apb2, 1);
    assert_eq!(rcc.apbrstr2, 0b101);
    assert!(rcc.is_in_reset(Bus::Apb2, 0));
    assert!(!rcc.is_in_reset(Bus::Apb2, 1));
}

#[test]
fn zero_delay_gives_compare_one() {
    let mut rcc = Rcc::new(Hertz(48_000_000));
    let mut opm = Timer::new(TimerId::Tim3).opm(MicroSecond(2_000_000), &mut rcc);
    let mut ch = opm.bind_pin(TimerPin::new(TimerId::Tim3, Channel::Channel2).unwrap());
    ch.set_delay(&mut opm, MicroSecond(0));
    assert_eq!(opm.timer().unit(Channel::Channel2).compare, 1);
}

#[test]
fn truncated_delay_gives_compare_one() {
    let mut rcc = Rcc::new(Hertz(48_000_000));
    let mut opm = Timer::new(TimerId::Tim1).opm(MicroSecond(2_000_000), &mut rcc);
    assert_eq!(opm.frequency(), Hertz(32_764));
    let mut ch = opm.bind_pin(TimerPin::new(TimerId::Tim1, Channel::Channel3).unwrap());
    assert_eq!(MicroSecond(20).cycles(opm.frequency()), 0);
    ch.set_delay(&mut opm, MicroSecond(20));
    assert_eq!(opm.timer().unit(Channel::Channel3).compare, 1);
    assert_eq!(compare_value(MicroSecond(0), Hertz(1_000_000)), 1);
    assert_eq!(compare_value(MicroSecond(1), Hertz(999_999)), 1);
}

#[test]
fn long_delay_compare_is_whole_ticks() {
    assert_eq!(compare_value(MicroSecond(1_000_000), Hertz(1_000_000)), 1_000_000);
    assert_eq!(compare_value(MicroSecond(u32::MAX), Hertz(u32::MAX)), u32::MAX);
    let mut rcc = Rcc::new(Hertz(1_000_000));
    let mut opm = Timer::new(TimerId::Tim1).opm(MicroSecond(10_000), &mut rcc);
    let mut ch = opm.bind_pin(TimerPin::new(TimerId::Tim1, Channel::Channel1).unwrap());
    ch.set_delay(&mut opm, MicroSecond(100_000));
    ch.disable(&mut opm);
    ch.enable(&mut opm);
    assert_eq!(opm.timer().unit(Channel::Channel1).compare, 100_000);
}

#[test]
fn enable_is_idempotent() {
    let mut rcc = Rcc::new(Hertz(1_000_000));
    let mut opm = Timer::new(TimerId::Tim1).opm(MicroSecond(10_000), &mut rcc);
    let mut ch = opm.bind_pin(TimerPin::new(TimerId::Tim1, Channel::Channel4).unwrap());
    ch.set_delay(&mut opm, MicroSecond(250));
    ch.enable(&mut opm);
    let once = opm.timer().unit(Channel::Channel4);
    ch.enable(&mut opm);
    ch.enable(&mut opm);
    assert_eq!(opm.timer().unit(Channel::Channel4), once);
    assert_eq!(
        once,
        CompareUnit {
            output_enabled: true,
            compare: 250,
            output_mode: OUTPUT_MODE_DELAYED_ACTIVE,
            fast_enable: true,
        }
    );
}

#[test]
fn disable_then_enable_restores_compare() {
    let mut rcc = Rcc::new(Hertz(1_000_000));
    let mut opm = Timer::new(TimerId::Tim16).opm(MicroSecond(10_000), &mut rcc);
    let mut ch = opm.bind_pin(TimerPin::new(TimerId::Tim16, Channel::Channel1).unwrap());
    ch.set_delay(&mut opm, MicroSecond(1234));
    ch.enable(&mut opm);
    let before = opm.timer().unit(Channel::Channel1);
    ch.disable(&mut opm);
    let off = opm.timer().unit(Channel::Channel1);
    assert!(!off.output_enabled);
    assert_eq!(off.compare, 1234);
    assert_eq!(ch.delay(), MicroSecond(1234));
    ch.enable(&mut opm);
    assert_eq!(opm.timer().unit(Channel::Channel1), before);
    assert_eq!(before.compare, 1234);
}

#[test]
fn enable_without_delay_programs_minimum_compare() {
    let mut rcc = Rcc::new(Hertz(1_000_000));
    let mut opm = Timer::new(TimerId::Tim17).opm(MicroSecond(10_000), &mut rcc);
    let mut ch = opm.bind_pin(TimerPin::new(TimerId::Tim17, Channel::Channel1).unwrap());
    assert_eq!(opm.timer().unit(Channel::Channel1).compare, 0);
    ch.enable(&mut opm);
    let u = opm.timer().unit(Channel::Channel1);
    assert!(u.output_enabled);
    assert_eq!(u.compare, 1);
    assert_eq!(u.output_mode, OUTPUT_MODE_DELAYED_ACTIVE);
    assert!(u.fast_enable);
}

#[test]
fn last_delay_wins() {
    let mut rcc = Rcc::new(Hertz(1_000_000));
    let mut opm = Timer::new(TimerId::Tim1).opm(MicroSecond(10_000), &mut rcc);
    let mut ch = opm.bind_pin(TimerPin::new(TimerId::Tim1, Channel::Channel2).unwrap());
    ch.set_delay(&mut opm, MicroSecond(10));
    ch.set_delay(&mut opm, MicroSecond(20));
    ch.set_delay(&mut opm, MicroSecond(30));
    assert_eq!(opm.timer().unit(Channel::Channel2).compare, 30);
    assert!(!opm.timer().unit(Channel::Channel2).output_enabled);
}

#[test]
fn bind_pin_sets_up_pin_with_zero_delay() {
    let mut rcc = Rcc::new(Hertz(48_000_000));
    let opm = Timer::new(TimerId::Tim1).opm(MicroSecond(1000), &mut rcc);
    let pin = TimerPin::new(TimerId::Tim1, Channel::Channel2).unwrap();
    assert!(!pin.is_alternate());
    let ch = opm.bind_pin(pin);
    assert_eq!(ch.delay(), MicroSecond(0));
    assert_eq!(ch.frequency(), Hertz(48_000_000));
    assert_eq!(ch.channel(), Channel::Channel2);
    assert_eq!(ch.timer(), TimerId::Tim1);
    assert!(ch.pin().is_alternate());
    assert_eq!(opm.timer().unit(Channel::Channel2).compare, 0);
}

#[test]
fn pin_needs_a_channel_of_its_timer() {
    assert!(TimerPin::new(TimerId::Tim14, Channel::Channel2).is_none());
    assert!(TimerPin::new(TimerId::Tim15, Channel::Channel3).is_none());
    assert!(TimerPin::new(TimerId::Tim15, Channel::Channel2).is_some());
    assert!(TimerPin::new(TimerId::Tim3, Channel::Channel4).is_some());
}

#[test]
fn generate_starts_one_pulse() {
    let mut rcc = Rcc::new(Hertz(48_000_000));
    let mut opm = Timer::new(TimerId::Tim1).opm(MicroSecond(1000), &mut rcc);
    opm.generate();
    let regs = opm.timer().regs();
    assert!(regs.one_pulse);
    assert!(regs.counter_enable);
    assert_eq!(regs.arr_l, 47_999);
    let tim = opm.release();
    assert_eq!(tim.id(), TimerId::Tim1);
}

#[test]
fn cycles_truncate_and_saturate() {
    assert_eq!(MicroSecond(3).cycles(Hertz(500_000)), 1);
    assert_eq!(MicroSecond(1000).cycles(Hertz(48_000_000)), 48_000);
    assert_eq!(MicroSecond(u32::MAX).cycles(Hertz(u32::MAX)), u32::MAX);
    assert_eq!(
        MicroSecond(u32::MAX).total_cycles(Hertz(u32::MAX)),
        (u32::MAX as u64 * u32::MAX as u64) / 1_000_000
    );
}

#[test]
fn timer_descriptors() {
    assert_eq!(TimerId::Tim2.max_reload(), u32::MAX);
    assert_eq!(TimerId::Tim1.max_reload(), 0xFFFF);
    assert_eq!(TimerId::Tim3.bus(), Bus::Apb1);
    assert_eq!(TimerId::Tim17.rcc_bit(), 18);
    assert!(TimerId::Tim1.has_channel(Channel::Channel4));
    assert!(!TimerId::Tim16.has_channel(Channel::Channel2));
    let mut tim = Timer::new(TimerId::Tim14);
    tim.write_prescaler(9);
    tim.write_reload(0x1234);
    tim.reset();
    assert_eq!(tim.regs().psc, 0);
    assert_eq!(tim.regs().arr_l, 0xFFFF);
}
