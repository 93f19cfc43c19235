//! Text building blocks of the SVG output: decimal and hexadecimal numerals.
use vstd::prelude::*;
use vstd::string::*;

verus! {

/// The hexadecimal digit (lower case) of a value below sixteen; the decimal
/// digits are its first ten.
pub open spec fn hex_digit(d: nat) -> char {
    if d == 0 { '0' } else if d == 1 { '1' } else if d == 2 { '2' } else if d == 3 { '3' }
    else if d == 4 { '4' } else if d == 5 { '5' } else if d == 6 { '6' } else if d == 7 { '7' }
    else if d == 8 { '8' } else if d == 9 { '9' } else if d == 10 { 'a' } else if d == 11 { 'b' }
    else if d == 12 { 'c' } else if d == 13 { 'd' } else if d == 14 { 'e' } else { 'f' }
}

/// The decimal numeral of `n`, without leading zeros.
pub open spec fn decimal(n: nat) -> Seq<char>
    decreases n,
{
    if n < 10 {
        seq![hex_digit(n)]
    } else {
        decimal(n / 10).push(hex_digit(n % 10))
    }
}

/// The digits after the decimal point of `f / 1000` (for `0 < f < 1000`),
/// trailing zeros removed.
pub open spec fn fraction_digits(f: nat) -> Seq<char> {
    if f % 100 == 0 {
        seq![hex_digit(f / 100)]
    } else if f % 10 == 0 {
        seq![hex_digit(f / 100), hex_digit((f / 10) % 10)]
    } else {
        seq![hex_digit(f / 100), hex_digit((f / 10) % 10), hex_digit(f % 10)]
    }
}

/// The shortest decimal text of the number `n / 1000`: "1", "0.5", "0.125".
pub open spec fn thousandths_text(n: nat) -> Seq<char> {
    if n % 1000 == 0 {
        decimal(n / 1000)
    } else {
        decimal(n / 1000) + seq!['.'] + fraction_digits(n % 1000)
    }
}

/// Two lower-case hexadecimal digits of a byte.
pub open spec fn hex_byte(b: u8) -> Seq<char> {
    seq![hex_digit(b as nat / 16), hex_digit(b as nat % 16)]
}

/// A one-character string holding the hexadecimal digit of `d`.
pub fn digit_str(d: u32) -> (r: &'static str)
    requires
        d < 16,
    ensures
        r@ == seq![hex_digit(d as nat)],
{
    proof {
        reveal_strlit("0"); reveal_strlit("1"); reveal_strlit("2"); reveal_strlit("3");
        reveal_strlit("4"); reveal_strlit("5"); reveal_strlit("6"); reveal_strlit("7");
        reveal_strlit("8"); reveal_strlit("9"); reveal_strlit("a"); reveal_strlit("b");
        reveal_strlit("c"); reveal_strlit("d"); reveal_strlit("e"); reveal_strlit("f");
    }
    let r = match d {
        0 => "0", 1 => "1", 2 => "2", 3 => "3", 4 => "4", 5 => "5", 6 => "6", 7 => "7",
        8 => "8", 9 => "9", 10 => "a", 11 => "b", 12 => "c", 13 => "d", 14 => "e", _ => "f",
    };
    assert(r@ =~= seq![hex_digit(d as nat)]);
    r
}

/// Appends the decimal numeral of `n`.
pub fn push_decimal(s: &mut String, n: u32)
    ensures
        final(s)@ == old(s)@ + decimal(n as nat),
    decreases n,
{
    if n >= 10 {
        push_decimal(s, n / 10);
    }
    s.append(digit_str(n % 10));
    assert(final(s)@ =~= old(s)@ + decimal(n as nat)) by {
        if n >= 10 {
            assert(decimal(n as nat) == decimal((n / 10) as nat).push(hex_digit((n % 10) as nat)));
        }
    }
}

/// Appends `n / 1000` as its shortest decimal text.
pub fn push_thousandths(s: &mut String, n: u32)
    ensures
        final(s)@ == old(s)@ + thousandths_text(n as nat),
{
    push_decimal(s, n / 1000);
    let f = n % 1000;
    if f != 0 {
        s.append(".");
        s.append(digit_str(f / 100));
        if f % 100 != 0 {
            s.append(digit_str((f / 10) % 10));
            if f % 10 != 0 {
                s.append(digit_str(f % 10));
            }
        }
        proof { reveal_strlit("."); }
    }
    assert(final(s)@ =~= old(s)@ + thousandths_text(n as nat));
}

/// Appends the two hexadecimal digits of a byte.
pub fn push_hex_byte(s: &mut String, b: u8)
    ensures
        final(s)@ == old(s)@ + hex_byte(b),
{
    s.append(digit_str((b / 16) as u32));
    s.append(digit_str((b % 16) as u32));
    assert(final(s)@ =~= old(s)@ + hex_byte(b));
}

} // verus!
