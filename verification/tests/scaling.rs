use buttplug::double::Double;
use buttplug::scaling::step_value;

fn reference(value: f64, start: u32, end: u32) -> u32 {
    let width = end - start;
    let modifier = value * width as f64;
    if modifier < 0.0001 {
        0
    } else {
        (modifier + start as f64).ceil() as u32
    }
}

fn step(value: f64, start: u32, end: u32) -> u32 {
    step_value(Double::from_bits(value.to_bits()), start, end)
}

struct Lcg(u64);

impl Lcg {
    fn next(&mut self) -> u64 {
        self.0 = self.0.wrapping_mul(6364136223846793005).wrapping_add(1442695040888963407);
        let mut x = self.0;
        x ^= x >> 33;
        x = x.wrapping_mul(0xff51afd7ed558ccd);
        x ^= x >> 33;
        x
    }
}

#[test]
fn step_value_half_of_twenty_is_ten() {
    assert_eq!(step(0.5, 0, 20), 10);
    assert_eq!(step(0.75, 0, 20), 15);
}

#[test]
fn step_value_rounds_up_inside_offset_range() {
    assert_eq!(step(0.5, 10, 15), 13);
    assert_eq!(step(0.5, 10, 20), 15);
    assert_eq!(step(0.75, 10, 20), 18);
}

#[test]
fn step_value_below_threshold_is_zero() {
    assert_eq!(step(0.0, 10, 20), 0);
    assert_eq!(step(0.000009, 10, 20), 0);
    assert_eq!(step(0.00001, 10, 20), 11);
    assert_eq!(step(0.0001, 0, 1), 1);
    assert_eq!(step(0.00009999, 0, 1), 0);
}

#[test]
fn step_value_keeps_binary64_rounding_of_the_product() {
    // 0.1 is slightly above one tenth, yet its product with ten rounds to one.
    assert_eq!(step(0.1, 0, 10), 1);
    assert_eq!(step(0.7, 0, 10), 7);
    assert_eq!(step(0.3, 0, 10), 3);
    assert_eq!(step(1.0, 0, 100), 100);
}

#[test]
fn step_value_of_special_values() {
    assert_eq!(step(-0.5, 0, 20), 0);
    assert_eq!(step(-0.0, 0, 20), 0);
    assert_eq!(step(f64::NAN, 0, 20), 0);
    assert_eq!(step(-f64::NAN, 0, 20), 0);
    assert_eq!(step(f64::INFINITY, 0, 20), u32::MAX);
    assert_eq!(step(f64::INFINITY, 20, 20), 0);
    assert_eq!(step(f64::NEG_INFINITY, 0, 20), 0);
    assert_eq!(step(f64::MAX, 0, 20), u32::MAX);
    assert_eq!(step(f64::MIN_POSITIVE, 0, u32::MAX), 0);
    assert_eq!(step(5e-324, 0, u32::MAX), 0);
    assert_eq!(step(1.0, 0, u32::MAX), u32::MAX);
    assert_eq!(step(1.0, 1, u32::MAX), u32::MAX);
    assert_eq!(step(0.5, 0, u32::MAX), 2147483648);
}

#[test]
fn step_value_agrees_with_binary64_arithmetic_on_the_unit_interval() {
    let mut rng = Lcg(1);
    for _ in 0..200000 {
        let value = (rng.next() >> 11) as f64 / (1u64 << 53) as f64;
        let a = (rng.next() % 1000) as u32;
        let b = a + (rng.next() % 1000) as u32;
        assert_eq!(step(value, a, b), reference(value, a, b), "{value} {a} {b}");
    }
}

#[test]
fn step_value_agrees_with_binary64_arithmetic_on_arbitrary_encodings() {
    let mut rng = Lcg(7);
    for _ in 0..200000 {
        let value = f64::from_bits(rng.next());
        let x = rng.next() as u32;
        let y = rng.next() as u32;
        let (a, b) = if x <= y { (x, y) } else { (y, x) };
        assert_eq!(step(value, a, b), reference(value, a, b), "{value} {a} {b}");
    }
}

#[test]
fn step_value_agrees_with_binary64_arithmetic_near_whole_numbers() {
    let mut rng = Lcg(99);
    for _ in 0..200000 {
        let exponent = (rng.next() % 90) as i32 - 40;
        let base = ((rng.next() >> 11) | (1u64 << 52)) as f64;
        let value = base * (2.0f64).powi(exponent - 52);
        let x = rng.next() as u32 >> (rng.next() % 32);
        let y = rng.next() as u32 >> (rng.next() % 32);
        let (a, b) = if x <= y { (x, y) } else { (y, x) };
        assert_eq!(step(value, a, b), reference(value, a, b), "{value} {a} {b}");
    }
}
