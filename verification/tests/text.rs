use char_image::text::{magnitude, push_dec, push_fixed, push_frac, push_hex, push_int};

fn dec(n: u64) -> String {
    let mut s = String::new();
    push_dec(&mut s, n);
    s
}

fn signed(n: i64) -> String {
    let mut s = String::new();
    push_int(&mut s, n);
    s
}

fn hex(n: u32, width: u32) -> String {
    let mut s = String::new();
    push_hex(&mut s, n, width);
    s
}

fn fixed(n: i64, den: u64) -> String {
    let mut s = String::new();
    push_fixed(&mut s, n, den);
    s
}

struct Lcg(u64);

impl Lcg {
    fn next(&mut self) -> u64 {
        self.0 = self.0.wrapping_mul(6364136223846793005).wrapping_add(1442695040888963407);
        self.0 >> 11
    }
}

#[test]
fn decimal_text() {
    assert_eq!(dec(0), "0");
    assert_eq!(dec(7), "7");
    assert_eq!(dec(10), "10");
    assert_eq!(dec(122), "122");
    assert_eq!(dec(1000000), "1000000");
    assert_eq!(dec(u64::MAX), "18446744073709551615");
}

#[test]
fn decimal_text_is_appended() {
    let mut s = String::from("n=");
    push_dec(&mut s, 42);
    push_dec(&mut s, 0);
    assert_eq!(s, "n=420");
}

#[test]
fn signed_decimal_text() {
    assert_eq!(signed(0), "0");
    assert_eq!(signed(-1), "-1");
    assert_eq!(signed(122), "122");
    assert_eq!(signed(-2147483648), "-2147483648");
    assert_eq!(signed(i64::MAX), "9223372036854775807");
    assert_eq!(signed(i64::MIN), "-9223372036854775808");
}

#[test]
fn signed_decimal_text_agrees_with_std() {
    let mut rng = Lcg(7);
    for _ in 0..2000 {
        let n = rng.next() as i64 - (1 << 52);
        assert_eq!(signed(n), format!("{}", n));
    }
}

#[test]
fn distance_from_zero() {
    assert_eq!(magnitude(0), 0);
    assert_eq!(magnitude(5), 5);
    assert_eq!(magnitude(-5), 5);
    assert_eq!(magnitude(i64::MAX), 9223372036854775807);
    assert_eq!(magnitude(i64::MIN), 9223372036854775808);
}

#[test]
fn hexadecimal_text_is_padded_with_zeros() {
    assert_eq!(hex(0x4DB6AC, 6), "4db6ac");
    assert_eq!(hex(0xAB, 6), "0000ab");
    assert_eq!(hex(0, 6), "000000");
    assert_eq!(hex(0x1234567, 6), "1234567");
    assert_eq!(hex(u32::MAX, 6), "ffffffff");
    assert_eq!(hex(0, 0), "0");
    assert_eq!(hex(0, 1), "0");
    assert_eq!(hex(0xf, 2), "0f");
    assert_eq!(hex(0x10, 1), "10");
    assert_eq!(hex(0xabcdef, 0), "abcdef");
}

#[test]
fn hexadecimal_text_agrees_with_std() {
    let mut rng = Lcg(11);
    for _ in 0..2000 {
        let n = rng.next() as u32;
        assert_eq!(hex(n, 6), format!("{:06x}", n));
        assert_eq!(hex(n >> 12, 6), format!("{:06x}", n >> 12));
        assert_eq!(hex(n >> 20, 2), format!("{:02x}", n >> 20));
    }
}

#[test]
fn fraction_digits() {
    let mut s = String::new();
    push_frac(&mut s, 1, 64);
    assert_eq!(s, "015625");
    let mut s = String::new();
    push_frac(&mut s, 32, 64);
    assert_eq!(s, "5");
    let mut s = String::new();
    push_frac(&mut s, 63, 64);
    assert_eq!(s, "984375");
    let mut s = String::new();
    push_frac(&mut s, 0, 64);
    assert_eq!(s, "");
    let mut s = String::new();
    push_frac(&mut s, 0, 1);
    assert_eq!(s, "");
    let mut s = String::new();
    push_frac(&mut s, 1, 128);
    assert_eq!(s, "0078125");
    let mut s = String::new();
    push_frac(&mut s, 3, 4);
    assert_eq!(s, "75");
}

#[test]
fn fixed_point_text() {
    assert_eq!(fixed(0, 64), "0");
    assert_eq!(fixed(640, 64), "10");
    assert_eq!(fixed(320, 64), "5");
    assert_eq!(fixed(-640, 64), "-10");
    assert_eq!(fixed(32, 64), "0.5");
    assert_eq!(fixed(-32, 64), "-0.5");
    assert_eq!(fixed(1, 64), "0.015625");
    assert_eq!(fixed(-1, 64), "-0.015625");
    assert_eq!(fixed(65, 64), "1.015625");
    assert_eq!(fixed(i32::MAX as i64, 64), "33554431.984375");
    assert_eq!(fixed(i32::MIN as i64, 64), "-33554432");
    assert_eq!(fixed(1, 128), "0.0078125");
    assert_eq!(fixed(-193, 128), "-1.5078125");
    assert_eq!(fixed(7, 1), "7");
    assert_eq!(fixed(i64::MIN, 1), "-9223372036854775808");
    assert_eq!(fixed(i64::MIN, 2), "-4611686018427387904");
    assert_eq!(fixed(i64::MAX, 2), "4611686018427387903.5");
}

#[test]
fn coordinates_print_as_the_floating_point_quotient() {
    for n in -70000i64..70000 {
        assert_eq!(fixed(n, 64), format!("{}", n as f64 / 64f64), "n = {}", n);
    }
    let mut rng = Lcg(3);
    for _ in 0..50000 {
        let n = rng.next() as u32 as i32;
        assert_eq!(fixed(n as i64, 64), format!("{}", n as f64 / 64f64), "n = {}", n);
    }
    for n in [i32::MIN, i32::MIN + 1, -1, 0, 1, i32::MAX - 1, i32::MAX] {
        assert_eq!(fixed(n as i64, 64), format!("{}", n as f64 / 64f64), "n = {}", n);
    }
}
