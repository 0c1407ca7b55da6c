//! Text helpers shared by the backends: prefix tests and decimal rendering.
//!
//! Numbers are rendered with integer arithmetic only, so every argument and
//! script the library produces is an exact function of its inputs.

use vstd::prelude::*;
use vstd::std_specs::iter::IteratorSpec;

verus! {

/// `String::push` appends one character to the end of the string.
pub assume_specification[ String::push ](s: &mut String, c: char)
    ensures
        final(s)@ == old(s)@.push(c),
;

/// The character that writes the decimal digit `d`.
pub open spec fn digit(d: nat) -> char {
    if d == 0 {
        '0'
    } else if d == 1 {
        '1'
    } else if d == 2 {
        '2'
    } else if d == 3 {
        '3'
    } else if d == 4 {
        '4'
    } else if d == 5 {
        '5'
    } else if d == 6 {
        '6'
    } else if d == 7 {
        '7'
    } else if d == 8 {
        '8'
    } else {
        '9'
    }
}

/// The decimal numeral of `n`, without leading zeros.
pub open spec fn decimal(n: nat) -> Seq<char>
    decreases n,
{
    if n < 10 {
        seq![digit(n)]
    } else {
        decimal(n / 10).push(digit(n % 10))
    }
}

/// The decimal numeral of an integer, with a leading `-` below zero.
pub open spec fn signed_decimal(i: int) -> Seq<char> {
    if i < 0 {
        seq!['-'] + decimal((-i) as nat)
    } else {
        decimal(i as nat)
    }
}

/// The last `width` decimal digits of `n`, padded with zeros on the left.
pub open spec fn padded(n: nat, width: nat) -> Seq<char>
    decreases width,
{
    if width == 0 {
        Seq::empty()
    } else {
        padded(n / 10, (width - 1) as nat).push(digit(n % 10))
    }
}

/// `s` without the zeros at its end.
pub open spec fn trim_zeros(s: Seq<char>) -> Seq<char>
    decreases s.len(),
{
    if s.len() > 0 && s.last() == '0' {
        trim_zeros(s.drop_last())
    } else {
        s
    }
}

/// A span of `secs` seconds and `nanos` nanoseconds written as a decimal
/// number of seconds: the whole seconds, then, unless the fraction is zero,
/// a point and the fraction's digits up to the last one that is not zero.
pub open spec fn decimal_seconds(secs: nat, nanos: nat) -> Seq<char> {
    if nanos == 0 {
        decimal(secs)
    } else {
        decimal(secs) + seq!['.'] + trim_zeros(padded(nanos, 9))
    }
}

/// The number that a decimal digit stands for.
pub open spec fn digit_value(c: char) -> nat {
    if c == '1' {
        1
    } else if c == '2' {
        2
    } else if c == '3' {
        3
    } else if c == '4' {
        4
    } else if c == '5' {
        5
    } else if c == '6' {
        6
    } else if c == '7' {
        7
    } else if c == '8' {
        8
    } else if c == '9' {
        9
    } else {
        0
    }
}

/// The number that a row of decimal digits stands for.
pub open spec fn numeral_value(digits: Seq<char>) -> nat
    decreases digits.len(),
{
    if digits.len() == 0 {
        0
    } else {
        numeral_value(digits.drop_last()) * 10 + digit_value(digits.last())
    }
}

/// Ten to the power of `exponent`.
pub open spec fn ten_to(exponent: nat) -> nat
    decreases exponent,
{
    if exponent == 0 {
        1
    } else {
        10 * ten_to((exponent - 1) as nat)
    }
}

/// The numeral of a number stands for that number, and is the shortest that
/// does: it has no leading zero, except that zero is written `0`.
pub proof fn lemma_decimal_reads_back(n: nat)
    ensures
        numeral_value(decimal(n)) == n,
        decimal(n).len() >= 1,
        n >= 10 ==> decimal(n).len() >= 2,
        decimal(n)[0] == '0' <==> n == 0,
    decreases n,
{
    if n < 10 {
        assert(decimal(n).drop_last() =~= Seq::<char>::empty());
        assert(numeral_value(decimal(n).drop_last()) == 0);
    } else {
        lemma_decimal_reads_back(n / 10);
        assert(decimal(n).drop_last() =~= decimal(n / 10));
        assert(decimal(n)[0] == decimal(n / 10)[0]);
    }
}

/// Padding gives exactly `width` digits, which stand for `n` where `n` has
/// no more digits than that.
pub proof fn lemma_padded_reads_back(n: nat, width: nat)
    requires
        n < ten_to(width),
    ensures
        padded(n, width).len() == width,
        numeral_value(padded(n, width)) == n,
    decreases width,
{
    if width > 0 {
        lemma_padded_reads_back(n / 10, (width - 1) as nat);
        assert(padded(n, width).drop_last() =~= padded(n / 10, (width - 1) as nat));
    }
}

/// The digits after the point stand for the fraction: written out to the
/// last digit that is not zero, they give the nanoseconds back once the
/// zeros that were left off are counted in.
pub proof fn lemma_fraction_reads_back(n: nat, width: nat)
    requires
        0 < n < ten_to(width),
    ensures
        ({
            let fraction = trim_zeros(padded(n, width));
            &&& 1 <= fraction.len() <= width
            &&& fraction.last() != '0'
            &&& numeral_value(fraction) * ten_to((width - fraction.len()) as nat) == n
        }),
    decreases width,
{
    if width == 0 {
        assert(ten_to(0) == 1);
    } else {
        let whole = padded(n, width);
        let shorter = (width - 1) as nat;
        lemma_padded_reads_back(n, width);
        assert(whole.last() == digit(n % 10));
        assert(ten_to(width) == 10 * ten_to(shorter));
        if n % 10 == 0 {
            assert(whole.drop_last() =~= padded(n / 10, shorter));
            lemma_fraction_reads_back(n / 10, shorter);
            let fraction = trim_zeros(padded(n / 10, shorter));
            assert(trim_zeros(whole) == fraction);
            let left_off = (shorter - fraction.len()) as nat;
            assert(ten_to((width - fraction.len()) as nat) == 10 * ten_to(left_off));
            assert(numeral_value(fraction) * (10 * ten_to(left_off)) == (numeral_value(fraction)
                * ten_to(left_off)) * 10) by (nonlinear_arith);
        } else {
            assert(whole.last() != '0');
            assert(trim_zeros(whole) == whole);
            assert(ten_to(0) == 1);
            assert(numeral_value(whole) * 1 == numeral_value(whole));
        }
    }
}

/// A span that is longer than nothing is never written as `0`, which the
/// clients read as "no limit"; and no span at all is written as `0`.
pub proof fn lemma_only_zero_is_written_as_zero(secs: nat, nanos: nat)
    ensures
        decimal_seconds(secs, nanos) == seq!['0'] <==> secs == 0 && nanos == 0,
{
    lemma_decimal_reads_back(secs);
    if nanos == 0 {
        if secs == 0 {
            assert(decimal(0) =~= seq!['0']);
        } else {
            assert(decimal(secs)[0] != '0');
            assert(seq!['0'][0] == '0');
        }
    } else {
        assert(decimal_seconds(secs, nanos).len() >= 2);
        assert(seq!['0'].len() == 1);
    }
}

/// Whether `text` begins with `prefix`.
pub fn starts_with(text: &str, prefix: &str) -> (b: bool)
    ensures
        b == prefix@.is_prefix_of(text@),
{
    let mut rest = text.chars();
    let mut want = prefix.chars();
    let ghost mut n: int = 0;
    loop
        invariant
            0 <= n <= prefix@.len(),
            n <= text@.len(),
            rest.remaining() == text@.skip(n),
            want.remaining() == prefix@.skip(n),
            text@.take(n) == prefix@.take(n),
        decreases prefix@.len() - n,
    {
        match want.next() {
            None => {
                return true;
            },
            Some(p) => {
                match rest.next() {
                    None => {
                        return false;
                    },
                    Some(c) => {
                        if c != p {
                            return false;
                        }
                        proof {
                            n = n + 1;
                        }
                    },
                }
            },
        }
    }
}

fn digit_char(d: u8) -> (c: char)
    requires
        d < 10,
    ensures
        c == digit(d as nat),
{
    if d == 0 {
        '0'
    } else if d == 1 {
        '1'
    } else if d == 2 {
        '2'
    } else if d == 3 {
        '3'
    } else if d == 4 {
        '4'
    } else if d == 5 {
        '5'
    } else if d == 6 {
        '6'
    } else if d == 7 {
        '7'
    } else if d == 8 {
        '8'
    } else {
        '9'
    }
}

/// Appends the decimal numeral of `n` to `out`.
pub fn push_decimal(out: &mut String, n: u64)
    ensures
        final(out)@ == old(out)@ + decimal(n as nat),
    decreases n,
{
    if n >= 10 {
        push_decimal(out, n / 10);
    }
    out.push(digit_char((n % 10) as u8));
}

/// Appends the decimal numeral of `i` to `out`, with a `-` below zero.
pub fn push_signed_decimal(out: &mut String, i: i32)
    ensures
        final(out)@ == old(out)@ + signed_decimal(i as int),
{
    let wide: i64 = i as i64;
    if wide < 0 {
        out.push('-');
        push_decimal(out, (-wide) as u64);
    } else {
        push_decimal(out, wide as u64);
    }
}

/// Appends the last `width` decimal digits of `n` to `out`.
fn push_padded(out: &mut String, n: u32, width: u32)
    ensures
        final(out)@ == old(out)@ + padded(n as nat, width as nat),
    decreases width,
{
    if width > 0 {
        push_padded(out, n / 10, width - 1);
        out.push(digit_char((n % 10) as u8));
    }
}

/// Appends `secs` seconds and `nanos` nanoseconds to `out` as a decimal
/// number of seconds.
pub fn push_decimal_seconds(out: &mut String, secs: u64, nanos: u32)
    ensures
        final(out)@ == old(out)@ + decimal_seconds(secs as nat, nanos as nat),
{
    push_decimal(out, secs);
    if nanos != 0 {
        out.push('.');
        let mut rest: u32 = nanos;
        let mut width: u32 = 9;
        while rest % 10 == 0 && width > 0
            invariant
                rest != 0,
                trim_zeros(padded(rest as nat, width as nat)) == trim_zeros(
                    padded(nanos as nat, 9),
                ),
            decreases width,
        {
            proof {
                let p = padded(rest as nat, width as nat);
                assert(p.drop_last() == padded((rest / 10) as nat, (width - 1) as nat));
            }
            rest = rest / 10;
            width = width - 1;
        }
        proof {
            let p = padded(rest as nat, width as nat);
            if width > 0 {
                assert(p.last() == digit((rest % 10) as nat));
            }
            assert(trim_zeros(p) == p);
        }
        push_padded(out, rest, width);
    }
}

} // verus!
