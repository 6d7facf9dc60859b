use buttplug::double::Double;
use buttplug::text::decimal_text;

fn double(value: f64) -> Double {
    Double::from_bits(value.to_bits())
}

struct Lcg(u64);

impl Lcg {
    fn next(&mut self) -> u64 {
        self.0 = self.0.wrapping_mul(6364136223846793005).wrapping_add(1442695040888963407);
        let mut x = self.0;
        x ^= x >> 33;
        x = x.wrapping_mul(0xff51afd7ed558ccd);
        x ^= x >> 33;
        x
    }
}

#[test]
fn bits_round_trip() {
    assert_eq!(Double::from_bits(0x3FE0_0000_0000_0000).to_bits(), 0x3FE0_0000_0000_0000);
    assert_eq!(double(0.5).to_bits(), 0x3FE0_0000_0000_0000);
    assert_eq!(f64::from_bits(double(0.1).to_bits()), 0.1);
}

#[test]
fn unit_interval_has_both_ends_and_negative_zero() {
    assert!(double(0.0).is_in_unit_interval());
    assert!(double(-0.0).is_in_unit_interval());
    assert!(double(1.0).is_in_unit_interval());
    assert!(double(0.5).is_in_unit_interval());
    assert!(double(5e-324).is_in_unit_interval());
    assert!(!double(1.0000000000000002).is_in_unit_interval());
    assert!(!double(-5e-324).is_in_unit_interval());
    assert!(!double(-0.5).is_in_unit_interval());
    assert!(!double(f64::NAN).is_in_unit_interval());
    assert!(!double(-f64::NAN).is_in_unit_interval());
    assert!(!double(f64::INFINITY).is_in_unit_interval());
    assert!(!double(f64::NEG_INFINITY).is_in_unit_interval());
}

#[test]
fn unit_interval_agrees_with_binary64_comparison() {
    let mut rng = Lcg(3);
    for _ in 0..200000 {
        let value = f64::from_bits(rng.next());
        assert_eq!(double(value).is_in_unit_interval(), (0.0..=1.0).contains(&value), "{value}");
        assert_eq!(double(value).exceeds_one(), value > 1.0, "{value}");
        assert_eq!(double(value).is_sign_negative(), value.is_sign_negative(), "{value}");
    }
    for bits in 0x3FEF_FFFF_FFFF_FFF0u64..0x3FF0_0000_0000_0010u64 {
        let value = f64::from_bits(bits);
        assert_eq!(double(value).is_in_unit_interval(), (0.0..=1.0).contains(&value));
        assert_eq!(double(value).exceeds_one(), value > 1.0);
    }
}

#[test]
fn exceeds_one_of_special_values() {
    assert!(double(f64::INFINITY).exceeds_one());
    assert!(double(1.5).exceeds_one());
    assert!(!double(1.0).exceeds_one());
    assert!(!double(f64::NAN).exceeds_one());
    assert!(!double(f64::NEG_INFINITY).exceeds_one());
    assert!(!double(-2.0).exceeds_one());
}

#[test]
fn hundredths_of_a_full_battery() {
    assert_eq!(Double::from_hundredths(100).to_bits(), 1.0f64.to_bits());
    assert_eq!(Double::from_hundredths(50).to_bits(), 0.5f64.to_bits());
    assert_eq!(Double::from_hundredths(0).to_bits(), 0.0f64.to_bits());
    assert_eq!(Double::from_hundredths(1).to_bits(), 0.01f64.to_bits());
    assert_eq!(Double::from_hundredths(-25).to_bits(), (-0.25f64).to_bits());
}

#[test]
fn hundredths_agree_with_binary64_division() {
    for n in -1000..=1000 {
        assert_eq!(Double::from_hundredths(n).to_bits(), (n as f64 / 100.0f64).to_bits(), "{n}");
    }
    for n in [i32::MIN, i32::MIN + 1, i32::MAX, i32::MAX - 1, 1 << 30, -(1 << 30)] {
        assert_eq!(Double::from_hundredths(n).to_bits(), (n as f64 / 100.0f64).to_bits(), "{n}");
    }
    let mut rng = Lcg(11);
    for _ in 0..200000 {
        let n = rng.next() as i32;
        assert_eq!(Double::from_hundredths(n).to_bits(), (n as f64 / 100.0f64).to_bits(), "{n}");
    }
}

#[test]
fn decimal_text_of_counts() {
    assert_eq!(decimal_text(0), "0");
    assert_eq!(decimal_text(7), "7");
    assert_eq!(decimal_text(10), "10");
    assert_eq!(decimal_text(4096), "4096");
    assert_eq!(decimal_text(usize::MAX), usize::MAX.to_string());
    for n in 0..2000 {
        assert_eq!(decimal_text(n), n.to_string());
    }
}
