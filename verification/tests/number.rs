use nw_sys::number::Number;

fn of(f: f64) -> Number {
    Number::from_bits(f.to_bits())
}

#[test]
fn from_u32_gives_the_bits_of_the_double() {
    let cases =
        [0u32, 1, 2, 3, 7, 8, 100, 255, 256, 800, 65535, 65536, 1 << 31, u32::MAX - 1, u32::MAX];
    for n in cases {
        assert_eq!(Number::from_u32(n).to_bits(), (n as f64).to_bits(), "{}", n);
    }
}

#[test]
fn from_u32_of_800_is_the_known_pattern() {
    assert_eq!(Number::from_u32(800).bits, 0x4089_0000_0000_0000);
    assert_eq!(Number::from_u32(1).bits, 0x3FF0_0000_0000_0000);
    assert_eq!(Number::from_u32(0).bits, 0);
}

#[test]
fn from_i32_gives_the_bits_of_the_double() {
    let cases =
        [0i32, 1, -1, 2, -2, 50, -50, 127, -128, 1000, -1000, i32::MAX, i32::MIN, i32::MIN + 1];
    for n in cases {
        assert_eq!(Number::from_i32(n).to_bits(), (n as f64).to_bits(), "{}", n);
    }
}

#[test]
fn from_u32_sweep_agrees_with_the_cast() {
    let mut n: u32 = 1;
    for _ in 0..2000 {
        n = n.wrapping_mul(1664525).wrapping_add(1013904223);
        assert_eq!(Number::from_u32(n).to_bits(), (n as f64).to_bits());
        let i = n as i32;
        assert_eq!(Number::from_i32(i).to_bits(), (i as f64).to_bits());
    }
}

#[test]
fn to_u64_rounds_towards_zero() {
    assert_eq!(of(0.0).to_u64(), 0);
    assert_eq!(of(0.5).to_u64(), 0);
    assert_eq!(of(0.999999).to_u64(), 0);
    assert_eq!(of(1.0).to_u64(), 1);
    assert_eq!(of(1.5).to_u64(), 1);
    assert_eq!(of(2.0).to_u64(), 2);
    assert_eq!(of(42.9).to_u64(), 42);
    assert_eq!(of(1e15).to_u64(), 1_000_000_000_000_000);
    assert_eq!(of(9007199254740992.0).to_u64(), 9007199254740992);
    assert_eq!(of(9223372036854775808.0).to_u64(), 9223372036854775808);
}

#[test]
fn to_u64_holds_to_the_range() {
    assert_eq!(of(-1.0).to_u64(), 0);
    assert_eq!(of(-0.0).to_u64(), 0);
    assert_eq!(of(-1e300).to_u64(), 0);
    assert_eq!(of(f64::NEG_INFINITY).to_u64(), 0);
    assert_eq!(of(18446744073709551616.0).to_u64(), u64::MAX);
    assert_eq!(of(1e300).to_u64(), u64::MAX);
    assert_eq!(of(f64::INFINITY).to_u64(), u64::MAX);
    assert_eq!(of(f64::MAX).to_u64(), u64::MAX);
    assert_eq!(of(18446744073709549568.0).to_u64(), 18446744073709549568);
}

#[test]
fn to_u64_of_no_number_is_zero() {
    assert_eq!(of(f64::NAN).to_u64(), 0);
    assert_eq!(Number::from_bits(0x7FF0_0000_0000_0001).to_u64(), 0);
    assert_eq!(Number::from_bits(0xFFF8_0000_0000_0000).to_u64(), 0);
    assert!(of(f64::NAN).is_not_a_number());
    assert!(!of(f64::INFINITY).is_not_a_number());
    assert!(!of(1.0).is_not_a_number());
}

#[test]
fn to_u64_of_tiny_numbers_is_zero() {
    assert_eq!(of(f64::MIN_POSITIVE).to_u64(), 0);
    assert_eq!(Number::from_bits(1).to_u64(), 0);
    assert_eq!(of(1e-300).to_u64(), 0);
}

#[test]
fn to_u64_sweep_agrees_with_the_cast() {
    let mut bits: u64 = 0x9E37_79B9_7F4A_7C15;
    for _ in 0..20000 {
        bits ^= bits << 13;
        bits ^= bits >> 7;
        bits ^= bits << 17;
        let f = f64::from_bits(bits);
        assert_eq!(Number::from_bits(bits).to_u64(), f as u64, "{:#x}", bits);
    }
}

#[test]
fn to_u64_agrees_with_the_cast_around_each_power_of_two() {
    for e in 0..2048u64 {
        for fraction in [0u64, 1, 0x8_0000_0000_0000, 0xF_FFFF_FFFF_FFFF, 0x5_5555_5555_5555] {
            for sign in [0u64, 1] {
                let bits = (sign << 63) | (e << 52) | fraction;
                let f = f64::from_bits(bits);
                assert_eq!(Number::from_bits(bits).to_u64(), f as u64, "{:#x}", bits);
            }
        }
    }
}

#[test]
fn what_a_builder_writes_reads_back() {
    for n in [0u32, 1, 5, 1080, 1920, u32::MAX] {
        assert_eq!(Number::from_u32(n).to_u64(), n as u64);
    }
    assert_eq!(Number::from_i32(-7).to_u64(), 0);
    assert_eq!(Number::from_i32(7).to_u64(), 7);
}

#[test]
fn bits_go_in_and_out_unchanged() {
    assert_eq!(Number::from_bits(0x1234_5678_9ABC_DEF0).to_bits(), 0x1234_5678_9ABC_DEF0);
}
