//! Numbers as text: decimal and hexadecimal integers, and binary fractions
//! written out as exact decimals.

use vstd::prelude::*;
use vstd::string::*;

verus! {

/// The character of a digit, `0` to `9` and then `a` to `f`.
pub open spec fn digit_char(d: int) -> char {
    if d == 0 {
        '0'
    } else if d == 1 {
        '1'
    } else if d == 2 {
        '2'
    } else if d == 3 {
        '3'
    } else if d == 4 {
        '4'
    } else if d == 5 {
        '5'
    } else if d == 6 {
        '6'
    } else if d == 7 {
        '7'
    } else if d == 8 {
        '8'
    } else if d == 9 {
        '9'
    } else if d == 10 {
        'a'
    } else if d == 11 {
        'b'
    } else if d == 12 {
        'c'
    } else if d == 13 {
        'd'
    } else if d == 14 {
        'e'
    } else {
        'f'
    }
}

/// `n` in decimal, without leading zeros.
pub open spec fn dec_text(n: nat) -> Seq<char>
    decreases n,
{
    if n < 10 {
        seq![digit_char(n as int)]
    } else {
        dec_text(n / 10).push(digit_char((n % 10) as int))
    }
}

/// `n` in decimal, with a minus sign in front where it is negative.
pub open spec fn int_text(n: int) -> Seq<char> {
    if n < 0 {
        seq!['-'] + dec_text((-n) as nat)
    } else {
        dec_text(n as nat)
    }
}

/// `n` in lower-case hexadecimal, with zeros in front up to `width` digits.
pub open spec fn hex_text(n: nat, width: nat) -> Seq<char>
    decreases n, width,
{
    if n < 16 && width <= 1 {
        seq![digit_char(n as int)]
    } else {
        let rest: nat = if width > 0 {
            (width - 1) as nat
        } else {
            0
        };
        hex_text(n / 16, rest).push(digit_char((n % 16) as int))
    }
}

/// Whether `n` is a power of two.
pub open spec fn is_pow2(n: nat) -> bool
    decreases n,
{
    n == 1 || (n >= 2 && n % 2 == 0 && is_pow2(n / 2))
}

/// The decimal digits of the fraction `num / den` after the point, to the last
/// one that is not zero; `den` is a power of two and `num` is less than it.
/// One step takes a digit out: `num / den` is `(5 * num) / (10 * (den / 2))`.
pub open spec fn frac_text(num: nat, den: nat) -> Seq<char>
    decreases den,
{
    if num == 0 || den < 2 {
        Seq::empty()
    } else {
        let half = den / 2;
        seq![digit_char(((5 * num) / half) as int)] + frac_text((5 * num) % half, half)
    }
}

/// The exact decimal of `n / den`, for `den` a power of two: a minus sign where
/// `n` is negative, the whole part, and, where a fraction is left, a point and
/// its digits.
pub open spec fn fixed_text(n: int, den: nat) -> Seq<char> {
    let m: nat = (if n < 0 {
        -n
    } else {
        n
    }) as nat;
    let sign: Seq<char> = if n < 0 {
        seq!['-']
    } else {
        Seq::empty()
    };
    let fraction: Seq<char> = if m % den == 0 {
        Seq::empty()
    } else {
        seq!['.'] + frac_text(m % den, den)
    };
    sign + dec_text(m / den) + fraction
}

/// The digit that a character stands for; sixteen for a character that is none.
pub open spec fn digit_value(c: char) -> int {
    if c == '0' {
        0
    } else if c == '1' {
        1
    } else if c == '2' {
        2
    } else if c == '3' {
        3
    } else if c == '4' {
        4
    } else if c == '5' {
        5
    } else if c == '6' {
        6
    } else if c == '7' {
        7
    } else if c == '8' {
        8
    } else if c == '9' {
        9
    } else if c == 'a' {
        10
    } else if c == 'b' {
        11
    } else if c == 'c' {
        12
    } else if c == 'd' {
        13
    } else if c == 'e' {
        14
    } else if c == 'f' {
        15
    } else {
        16
    }
}

/// The number that a row of digits stands for in the given base.
pub open spec fn number_of(digits: Seq<char>, base: int) -> int
    decreases digits.len(),
{
    if digits.len() == 0 {
        0
    } else {
        number_of(digits.drop_last(), base) * base + digit_value(digits.last())
    }
}

/// Whether every character is a digit of the given base.
pub open spec fn all_digits(digits: Seq<char>, base: int) -> bool {
    forall|i: int| 0 <= i < digits.len() ==> 0 <= digit_value(#[trigger] digits[i]) < base
}

/// Ten to the power of `k`.
pub open spec fn pow10(k: nat) -> nat
    decreases k,
{
    if k == 0 {
        1
    } else {
        10 * pow10((k - 1) as nat)
    }
}

/// A digit and its character stand for each other.
pub proof fn lemma_digit_value(d: int)
    requires
        0 <= d < 16,
    ensures
        digit_value(digit_char(d)) == d,
{
}

/// The decimal text of a number is made of decimal digits, stands for that
/// number, and starts with a zero only where the number is zero.
pub proof fn lemma_dec_text_value(n: nat)
    ensures
        dec_text(n).len() >= 1,
        all_digits(dec_text(n), 10),
        number_of(dec_text(n), 10) == n,
        n > 0 ==> dec_text(n)[0] != '0',
    decreases n,
{
    let text = dec_text(n);
    lemma_digit_value((n % 10) as int);
    assert(number_of(Seq::<char>::empty(), 10) == 0);
    if n < 10 {
        assert(text.drop_last() =~= Seq::<char>::empty());
        assert(text.last() == digit_char(n as int));
    } else {
        lemma_dec_text_value(n / 10);
        let head = dec_text(n / 10);
        assert(text.drop_last() =~= head);
        assert(text.last() == digit_char((n % 10) as int));
        assert(text[0] == head[0]);
    }
    assert(number_of(text, 10) == number_of(text.drop_last(), 10) * 10 + digit_value(text.last()));
}

/// The hexadecimal text of a number is made of hexadecimal digits, stands for
/// that number, and has at least `width` of them.
pub proof fn lemma_hex_text_value(n: nat, width: nat)
    ensures
        hex_text(n, width).len() >= 1,
        hex_text(n, width).len() >= width,
        all_digits(hex_text(n, width), 16),
        number_of(hex_text(n, width), 16) == n,
    decreases n, width,
{
    let text = hex_text(n, width);
    lemma_digit_value((n % 16) as int);
    assert(number_of(Seq::<char>::empty(), 16) == 0);
    if n < 16 && width <= 1 {
        assert(text.drop_last() =~= Seq::<char>::empty());
        assert(text.last() == digit_char(n as int));
    } else {
        let rest: nat = if width > 0 {
            (width - 1) as nat
        } else {
            0
        };
        lemma_hex_text_value(n / 16, rest);
        assert(text.drop_last() =~= hex_text(n / 16, rest));
        assert(text.last() == digit_char((n % 16) as int));
    }
    assert(number_of(text, 16) == number_of(text.drop_last(), 16) * 16 + digit_value(text.last()));
}

/// A digit in front of a row of decimal digits adds itself times the power
/// of ten of the place where it stands.
pub proof fn lemma_number_of_prepend(d: char, tail: Seq<char>)
    ensures
        number_of(seq![d] + tail, 10) == digit_value(d) * pow10(tail.len()) + number_of(tail, 10),
    decreases tail.len(),
{
    let whole = seq![d] + tail;
    assert(number_of(Seq::<char>::empty(), 10) == 0);
    assert(number_of(whole, 10) == number_of(whole.drop_last(), 10) * 10 + digit_value(
        whole.last(),
    ));
    if tail.len() == 0 {
        assert(whole.drop_last() =~= Seq::<char>::empty());
        assert(pow10(0) == 1);
    } else {
        assert(number_of(tail, 10) == number_of(tail.drop_last(), 10) * 10 + digit_value(
            tail.last(),
        ));
        assert(pow10(tail.len()) == 10 * pow10(tail.drop_last().len()));
        lemma_number_of_prepend(d, tail.drop_last());
        assert(whole.drop_last() =~= seq![d] + tail.drop_last());
        assert(whole.last() == tail.last());
        let p = pow10(tail.drop_last().len()) as int;
        let v = digit_value(d);
        let m = number_of(tail.drop_last(), 10);
        assert((v * p + m) * 10 == v * (10 * p) + m * 10) by (nonlinear_arith);
    }
}

/// The digits that are written behind the point are the fraction exactly:
/// read as a whole number, they are to the power of ten of their count as
/// `num` is to `den`. There are no more of them than `den` has factors of
/// two, and the last of them is not zero.
pub proof fn lemma_frac_text_value(num: nat, den: nat)
    requires
        is_pow2(den),
        num < den,
    ensures
        all_digits(frac_text(num, den), 10),
        number_of(frac_text(num, den), 10) * den == num * pow10(frac_text(num, den).len()),
        num > 0 ==> frac_text(num, den).len() > 0 && frac_text(num, den).last() != '0',
        num == 0 ==> frac_text(num, den).len() == 0,
    decreases den,
{
    if num == 0 || den < 2 {
    } else {
        let half: nat = den / 2;
        let d: int = ((5 * num) / half) as int;
        let r: nat = (5 * num) % half;
        let tail = frac_text(r, half);
        assert(0 <= d < 10 && 5 * num == d * half + r) by (nonlinear_arith)
            requires
                d == (5 * num) / half,
                r == (5 * num) % half,
                num < 2 * half,
                half > 0,
        ;
        lemma_frac_text_value(r, half);
        lemma_number_of_prepend(digit_char(d), tail);
        lemma_digit_value(d);
        let text = frac_text(num, den);
        assert(text =~= seq![digit_char(d)] + tail);
        let p = pow10(tail.len()) as int;
        let t = number_of(tail, 10);
        assert((d * p + t) * (2 * half) == num * (10 * p)) by (nonlinear_arith)
            requires
                t * half == r * p,
                5 * num == d * half + r,
        ;
        assert(pow10(text.len()) == 10 * p);
        if tail.len() == 0 {
            assert(r == 0);
            assert(d != 0) by (nonlinear_arith)
                requires
                    5 * num == d * half + r,
                    r == 0,
                    num > 0,
            ;
            assert(text.last() == digit_char(d));
        } else {
            assert(text.last() == tail.last());
        }
    }
}

/// The one-letter text of a digit.
fn digit_str(d: u8) -> (s: &'static str)
    requires
        d < 16,
    ensures
        s@ == seq![digit_char(d as int)],
{
    proof {
        reveal_strlit("0");
        reveal_strlit("1");
        reveal_strlit("2");
        reveal_strlit("3");
        reveal_strlit("4");
        reveal_strlit("5");
        reveal_strlit("6");
        reveal_strlit("7");
        reveal_strlit("8");
        reveal_strlit("9");
        reveal_strlit("a");
        reveal_strlit("b");
        reveal_strlit("c");
        reveal_strlit("d");
        reveal_strlit("e");
        reveal_strlit("f");
    }
    let s: &'static str = match d {
        0 => "0",
        1 => "1",
        2 => "2",
        3 => "3",
        4 => "4",
        5 => "5",
        6 => "6",
        7 => "7",
        8 => "8",
        9 => "9",
        10 => "a",
        11 => "b",
        12 => "c",
        13 => "d",
        14 => "e",
        _ => "f",
    };
    assert(s@ =~= seq![digit_char(d as int)]);
    s
}

/// The distance of `n` from zero.
pub fn magnitude(n: i64) -> (m: u64)
    ensures
        m == (if n < 0 {
            -n
        } else {
            n as int
        }),
{
    if n < 0 {
        (-(n + 1)) as u64 + 1
    } else {
        n as u64
    }
}

/// Appends `n` in decimal.
pub fn push_dec(out: &mut String, n: u64)
    ensures
        final(out)@ == old(out)@ + dec_text(n as nat),
    decreases n,
{
    if n >= 10 {
        push_dec(out, n / 10);
    }
    out.append(digit_str((n % 10) as u8));
    assert(out@ =~= old(out)@ + dec_text(n as nat));
}

/// Appends `n` in decimal, with its sign where it is negative.
pub fn push_int(out: &mut String, n: i64)
    ensures
        final(out)@ == old(out)@ + int_text(n as int),
{
    if n < 0 {
        proof {
            reveal_strlit("-");
        }
        out.append("-");
        push_dec(out, magnitude(n));
    } else {
        push_dec(out, n as u64);
    }
    assert(out@ =~= old(out)@ + int_text(n as int));
}

/// Appends `n` in lower-case hexadecimal, with zeros in front up to `width` digits.
pub fn push_hex(out: &mut String, n: u32, width: u32)
    ensures
        final(out)@ == old(out)@ + hex_text(n as nat, width as nat),
    decreases n, width,
{
    if n >= 16 || width > 1 {
        push_hex(out, n / 16, if width > 0 { width - 1 } else { 0 });
    }
    out.append(digit_str((n % 16) as u8));
    assert(out@ =~= old(out)@ + hex_text(n as nat, width as nat));
}

/// Appends the digits after the point of `num / den`, where `den` is a power
/// of two and `num` is less than it.
pub fn push_frac(out: &mut String, num: u64, den: u64)
    requires
        is_pow2(den as nat),
        num < den,
        den <= 0x1000_0000_0000_0000,
    ensures
        final(out)@ == old(out)@ + frac_text(num as nat, den as nat),
    decreases den,
{
    if num != 0 && den >= 2 {
        let half: u64 = den / 2;
        let digit: u64 = (5 * num) / half;
        assert(digit < 10) by (nonlinear_arith)
            requires
                digit == (5 * num) / (half as int),
                num < 2 * half,
                half > 0,
        ;
        out.append(digit_str(digit as u8));
        push_frac(out, (5 * num) % half, half);
    }
    assert(out@ =~= old(out)@ + frac_text(num as nat, den as nat));
}

/// Appends the exact decimal of `n / den`, where `den` is a power of two.
pub fn push_fixed(out: &mut String, n: i64, den: u64)
    requires
        is_pow2(den as nat),
        den <= 0x1000_0000_0000_0000,
    ensures
        final(out)@ == old(out)@ + fixed_text(n as int, den as nat),
{
    let m: u64 = magnitude(n);
    if n < 0 {
        proof {
            reveal_strlit("-");
        }
        out.append("-");
    }
    push_dec(out, m / den);
    if m % den != 0 {
        proof {
            reveal_strlit(".");
        }
        out.append(".");
        push_frac(out, m % den, den);
    }
    assert(out@ =~= old(out)@ + fixed_text(n as int, den as nat));
}

} // verus!
