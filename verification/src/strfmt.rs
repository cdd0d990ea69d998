//! Text rendering of numbers, as the debug views print them: decimal, and
//! upper-case hexadecimal or binary padded with zeros to a minimum width.
use vstd::prelude::*;

verus! {

/// The character of digit `d` (0 to 15): `0`-`9`, then `A`-`F`.
pub open spec fn digit_char(d: nat) -> char {
    if d < 10 {
        (d + 48) as char
    } else {
        (d + 55) as char
    }
}

/// The digits of `n` in base `base`, most significant first, without
/// leading zeros (zero is the single digit `0`).
pub open spec fn radix_digits(n: nat, base: nat) -> Seq<char>
    decreases n,
{
    if base < 2 || n < base {
        seq![digit_char(n)]
    } else {
        proof {
            assert(n / base < n) by (nonlinear_arith)
                requires
                    base >= 2,
                    n >= base,
            ;
        }
        radix_digits(n / base, base).push(digit_char(n % base))
    }
}

/// `s`, with `0` in front of it until it is `width` characters long.
pub open spec fn zero_padded(s: Seq<char>, width: nat) -> Seq<char> {
    if s.len() < width {
        Seq::new((width - s.len()) as nat, |i: int| '0') + s
    } else {
        s
    }
}

/// What `{}` prints of an unsigned integer.
pub open spec fn dec_text(n: nat) -> Seq<char> {
    radix_digits(n, 10)
}

/// What `{:0wX}` prints of an unsigned integer, `w` being `width`.
pub open spec fn hex_text(n: nat, width: nat) -> Seq<char> {
    zero_padded(radix_digits(n, 16), width)
}

/// What `{:0wb}` prints of an unsigned integer, `w` being `width`.
pub open spec fn bin_text(n: nat, width: nat) -> Seq<char> {
    zero_padded(radix_digits(n, 2), width)
}

/// What `{}` or `{:?}` prints of a `bool`.
pub open spec fn bool_text(b: bool) -> Seq<char> {
    if b {
        "true"@
    } else {
        "false"@
    }
}

/// The value of a digit character (the inverse of `digit_char`).
pub open spec fn digit_value(c: char) -> int {
    if (c as int) < 65 {
        c as int - 48
    } else {
        c as int - 55
    }
}

/// The number that a sequence of digits in base `base` writes.
pub open spec fn digits_value(s: Seq<char>, base: nat) -> int
    decreases s.len(),
{
    if s.len() == 0 {
        0
    } else {
        digits_value(s.drop_last(), base) * base + digit_value(s.last())
    }
}

/// The digit characters: `0` to `9` for zero to nine, then upper-case `A` to
/// `F` for ten to fifteen.
pub proof fn lemma_digit_chars()
    ensures
        digit_char(0) == '0',
        digit_char(1) == '1',
        digit_char(2) == '2',
        digit_char(3) == '3',
        digit_char(4) == '4',
        digit_char(5) == '5',
        digit_char(6) == '6',
        digit_char(7) == '7',
        digit_char(8) == '8',
        digit_char(9) == '9',
        digit_char(10) == 'A',
        digit_char(11) == 'B',
        digit_char(12) == 'C',
        digit_char(13) == 'D',
        digit_char(14) == 'E',
        digit_char(15) == 'F',
        bool_text(true) == "true"@,
        bool_text(false) == "false"@,
{
}

/// A digit character reads back as its digit.
proof fn lemma_digit_value(d: nat)
    requires
        d < 16,
    ensures
        digit_value(digit_char(d)) == d,
{
    if d < 10 {
        assert(((d + 48) as char) as int == d + 48);
    } else {
        assert(((d + 55) as char) as int == d + 55);
    }
}

/// Printing a number in a base gives digits that read back as the number;
/// each digit is below the base.
pub proof fn lemma_radix_digits_value(n: nat, base: nat)
    requires
        2 <= base <= 16,
    ensures
        digits_value(radix_digits(n, base), base) == n,
        forall|i: int|
            0 <= i < radix_digits(n, base).len() ==> 0 <= #[trigger] digit_value(
                radix_digits(n, base)[i],
            ) < base,
    decreases n,
{
    if n < base {
        lemma_digit_value(n);
        let s = radix_digits(n, base);
        assert(s.drop_last() =~= Seq::<char>::empty());
        assert(digits_value(s.drop_last(), base) == 0);
        assert(0 * base == 0);
        assert(digits_value(s, base) == digit_value(s.last()));
    } else {
        assert(n / base < n) by (nonlinear_arith)
            requires
                base >= 2,
                n >= base,
        ;
        assert(n % base < base) by (nonlinear_arith)
            requires
                base >= 2,
        ;
        lemma_digit_value(n % base);
        lemma_radix_digits_value(n / base, base);
        let s = radix_digits(n, base);
        assert(s.drop_last() =~= radix_digits(n / base, base));
        assert(s.last() == digit_char(n % base));
        assert(digits_value(s, base) == digits_value(s.drop_last(), base) * base + digit_value(
            s.last(),
        ));
        assert((n / base) * base + n % base == n) by (nonlinear_arith)
            requires
                base >= 2,
        ;
    }
}

/// Zero padding keeps the digits at the end and makes the text at least
/// `width` long, adding `0`s only.
pub proof fn lemma_zero_padded(s: Seq<char>, width: nat)
    ensures
        zero_padded(s, width).len() == if s.len() < width {
            width
        } else {
            s.len()
        },
        zero_padded(s, width).subrange(
            zero_padded(s, width).len() - s.len(),
            zero_padded(s, width).len() as int,
        ) == s,
        forall|i: int|
            0 <= i < zero_padded(s, width).len() - s.len() ==> #[trigger] zero_padded(s, width)[i]
                == '0',
{
    assert(zero_padded(s, width).subrange(
        zero_padded(s, width).len() - s.len(),
        zero_padded(s, width).len() as int,
    ) =~= s);
}

/// A number has no more digits than its value (and one digit when it is 0).
proof fn lemma_radix_len_bound(n: nat, base: nat)
    requires
        base >= 2,
    ensures
        1 <= radix_digits(n, base).len() <= if n == 0 { 1 } else { n },
    decreases n,
{
    if n >= base {
        assert(n / base < n && n / base >= 1 && n / base + 1 <= n) by (nonlinear_arith)
            requires
                base >= 2,
                n >= base,
        ;
        lemma_radix_len_bound(n / base, base);
    }
}

/// Appends `c` to `s`.
#[verifier::external_body]
pub(crate) fn push_char(s: &mut String, c: char)
    ensures
        final(s)@ == old(s)@.push(c),
{
    s.push(c);
}

fn digit(d: u64) -> (c: char)
    requires
        d < 16,
    ensures
        c == digit_char(d as nat),
{
    let b: u8 = d as u8;
    if b < 10 {
        (b + 48) as char
    } else {
        (b + 55) as char
    }
}

/// Appends the digits of `n` in base `base`; returns how many there are.
fn push_radix(s: &mut String, n: u64, base: u64) -> (count: u64)
    requires
        2 <= base <= 16,
    ensures
        final(s)@ == old(s)@ + radix_digits(n as nat, base as nat),
        count == radix_digits(n as nat, base as nat).len(),
    decreases n,
{
    proof {
        lemma_radix_len_bound(n as nat, base as nat);
    }
    let mut count: u64 = 1;
    if n >= base {
        count = push_radix(s, n / base, base) + 1;
    }
    push_char(s, digit(n % base));
    proof {
        if n < base {
            assert(n % base == n) by (nonlinear_arith)
                requires
                    n < base,
            ;
        }
        assert(s@ =~= old(s)@ + radix_digits(n as nat, base as nat));
    }
    count
}

/// Renders `n` in base `base`, padded with `0` to at least `width` characters.
fn format_radix(n: u64, base: u64, width: usize) -> (text: String)
    requires
        2 <= base <= 16,
    ensures
        text@ == zero_padded(radix_digits(n as nat, base as nat), width as nat),
{
    let mut digits = String::new();
    let count = push_radix(&mut digits, n, base);
    assert(digits@ =~= radix_digits(n as nat, base as nat));
    let mut text = String::new();
    let w: u64 = width as u64;
    let mut i: u64 = count;
    while i < w
        invariant
            count <= i,
            count < w ==> i <= w,
            count >= w ==> i == count,
            text@ =~= Seq::new((i - count) as nat, |k: int| '0'),
        decreases w - i,
    {
        push_char(&mut text, '0');
        i = i + 1;
    }
    text.append(digits.as_str());
    proof {
        if count < w {
            assert(i == w);
        } else {
            assert(i == count);
        }
        assert(text@ =~= zero_padded(radix_digits(n as nat, base as nat), width as nat));
    }
    text
}

/// `n` in decimal, as `{}` prints it.
pub fn format_dec(n: u64) -> (text: String)
    ensures
        text@ == dec_text(n as nat),
{
    let t = format_radix(n, 10, 0);
    assert(t@ =~= dec_text(n as nat));
    t
}

/// `n` in upper-case hexadecimal padded with `0` to `width` characters, as
/// `{:0wX}` prints it.
pub fn format_hex(n: u64, width: usize) -> (text: String)
    ensures
        text@ == hex_text(n as nat, width as nat),
{
    format_radix(n, 16, width)
}

/// `n` in binary padded with `0` to `width` characters, as `{:0wb}` prints it.
pub fn format_bin(n: u64, width: usize) -> (text: String)
    ensures
        text@ == bin_text(n as nat, width as nat),
{
    format_radix(n, 2, width)
}

/// `b` as `{}` prints it.
pub fn format_bool(b: bool) -> (text: String)
    ensures
        text@ == bool_text(b),
{
    if b {
        String::from_str("true")
    } else {
        String::from_str("false")
    }
}

} // verus!
