use sysmon::text::{decimal_string, digit_str, two_digit_string};
use sysmon::usage::{pow2_exec, CpuUsage, CPU_BAR_INTERIOR};

fn usage(percent: f32) -> CpuUsage {
    CpuUsage::from_bits(percent.to_bits())
}

#[test]
fn idle_cpu_fills_nothing() {
    assert_eq!(usage(0.0).fill_len(), 0);
}

#[test]
fn busy_cpu_fills_the_interior() {
    assert_eq!(usage(100.0).fill_len(), 18);
    assert_eq!(usage(100.0).fill_len(), CPU_BAR_INTERIOR);
}

#[test]
fn half_busy_cpu_fills_nine_cells() {
    assert_eq!(usage(50.0).fill_len(), 9);
}

#[test]
fn fill_is_the_floor_of_the_share_of_eighteen() {
    assert_eq!(usage(5.5).fill_len(), 0);
    assert_eq!(usage(5.56).fill_len(), 1);
    assert_eq!(usage(49.99).fill_len(), 8);
    assert_eq!(usage(99.99).fill_len(), 17);
    assert_eq!(usage(33.4).fill_len(), 6);
    assert_eq!(usage(f32::MIN_POSITIVE).fill_len(), 0);
    assert_eq!(usage(f32::from_bits(1)).fill_len(), 0);
}

#[test]
fn fill_agrees_with_float_arithmetic_on_percentages() {
    let mut bits: u32 = 0;
    while bits <= 100.0f32.to_bits() {
        let percent = f32::from_bits(bits);
        let expected = ((percent as f64 * 18.0) / 100.0) as u64;
        assert_eq!(CpuUsage::from_bits(bits).fill_len(), expected, "{}", percent);
        bits += 4099;
    }
}

#[test]
fn fill_is_held_to_the_interior() {
    assert_eq!(usage(100.01).fill_len(), 18);
    assert_eq!(usage(250.0).fill_len(), 18);
    assert_eq!(usage(1.0e10).fill_len(), 18);
    assert_eq!(usage(f32::MAX).fill_len(), 18);
    assert_eq!(usage(f32::INFINITY).fill_len(), 18);
    assert_eq!(usage(-0.0).fill_len(), 0);
    assert_eq!(usage(-1.0).fill_len(), 0);
    assert_eq!(usage(-250.0).fill_len(), 0);
    assert_eq!(usage(f32::NEG_INFINITY).fill_len(), 0);
    assert_eq!(usage(f32::NAN).fill_len(), 0);
}

#[test]
fn bits_are_kept() {
    assert_eq!(usage(12.5).bits(), 12.5f32.to_bits());
    assert_eq!(CpuUsage::from_bits(0x42480000), usage(50.0));
}

#[test]
fn text_has_two_decimal_places() {
    assert_eq!(usage(0.0).text(), "0.00");
    assert_eq!(usage(50.0).text(), "50.00");
    assert_eq!(usage(100.0).text(), "100.00");
    assert_eq!(usage(12.5).text(), "12.50");
    assert_eq!(usage(3.14159).text(), "3.14");
    assert_eq!(usage(99.999).text(), "100.00");
    assert_eq!(usage(0.004).text(), "0.00");
    assert_eq!(usage(0.006).text(), "0.01");
    assert_eq!(usage(7.05).text(), "7.05");
}

#[test]
fn text_rounds_to_even_at_the_half() {
    assert_eq!(usage(0.125).text(), "0.12");
    assert_eq!(usage(0.375).text(), "0.38");
    assert_eq!(usage(2.625).text(), "2.62");
    assert_eq!(usage(2.875).text(), "2.88");
}

#[test]
fn text_of_what_is_no_percentage() {
    assert_eq!(usage(f32::NAN).text(), "NaN");
    assert_eq!(usage(-f32::NAN).text(), "NaN");
    assert_eq!(usage(f32::INFINITY).text(), "inf");
    assert_eq!(usage(f32::NEG_INFINITY).text(), "-inf");
    assert_eq!(usage(-0.0).text(), "-0.00");
    assert_eq!(usage(-12.345).text(), "-12.35");
    assert_eq!(usage(16777216.0).text(), "16777216.00");
    assert_eq!(usage(f32::MAX).text(), "340282346638528859811704183484516925440.00");
    assert_eq!(usage(f32::MIN_POSITIVE).text(), "0.00");
}

#[test]
fn text_agrees_with_the_formatting_of_floats() {
    let mut bits: u32 = 0;
    loop {
        let value = f32::from_bits(bits);
        assert_eq!(CpuUsage::from_bits(bits).text(), format!("{:.2}", value), "{:#x}", bits);
        match bits.checked_add(65_521) {
            Some(next) => bits = next,
            None => break,
        }
    }
}

#[test]
fn text_agrees_with_the_formatting_of_floats_near_the_halves() {
    for hundredths in 0..20_000u32 {
        let half = (hundredths as f32 + 0.5) / 100.0;
        for bits in [half.to_bits() - 1, half.to_bits(), half.to_bits() + 1] {
            let value = f32::from_bits(bits);
            assert_eq!(CpuUsage::from_bits(bits).text(), format!("{:.2}", value), "{:#x}", bits);
        }
    }
}

#[test]
fn powers_of_two() {
    assert_eq!(pow2_exec(0), 1);
    assert_eq!(pow2_exec(1), 2);
    assert_eq!(pow2_exec(10), 1024);
    assert_eq!(pow2_exec(64), 1u128 << 64);
    assert_eq!(pow2_exec(104), 1u128 << 104);
    assert_eq!(pow2_exec(127), 1u128 << 127);
    for e in 0..128u32 {
        assert_eq!(pow2_exec(e), 1u128 << e);
    }
}

#[test]
fn decimal_notation() {
    assert_eq!(decimal_string(0), "0");
    assert_eq!(decimal_string(7), "7");
    assert_eq!(decimal_string(10), "10");
    assert_eq!(decimal_string(2048), "2048");
    assert_eq!(decimal_string(1_000_000), "1000000");
    assert_eq!(decimal_string(u128::MAX), format!("{}", u128::MAX));
    for n in [9u128, 11, 99, 100, 101, 12345678901234567890] {
        assert_eq!(decimal_string(n), format!("{}", n));
    }
}

#[test]
fn digits() {
    let all = ["0", "1", "2", "3", "4", "5", "6", "7", "8", "9"];
    for d in 0..10u8 {
        assert_eq!(digit_str(d), all[d as usize]);
    }
    assert_eq!(two_digit_string(0), "00");
    assert_eq!(two_digit_string(7), "07");
    assert_eq!(two_digit_string(10), "10");
    assert_eq!(two_digit_string(99), "99");
}
