//! Rendering of register and memory values in the two forms the suite's
//! messages use: plain decimal (`{}`) and the alternate lower-case
//! hexadecimal form with a `0x` prefix (`{:#x}`).
use vstd::prelude::*;

verus! {

/// How a number is shown in a message.
#[derive(Clone, Copy, PartialEq, Eq, Debug)]
pub enum Radix {
    /// Decimal digits, as `{}` shows an unsigned integer.
    Decimal,
    /// `0x` followed by lower-case hexadecimal digits, as `{:#x}` shows it.
    Hex,
}

/// The lower-case digits, in order of value.
pub open spec fn digit_table() -> Seq<char> {
    seq!['0', '1', '2', '3', '4', '5', '6', '7', '8', '9', 'a', 'b', 'c', 'd', 'e', 'f']
}

/// The character of digit `d` (meaningful for `d < 16`).
pub open spec fn digit_char(d: nat) -> char {
    digit_table()[d as int]
}

/// The value of a digit character, or 16 for a character that is no digit.
pub open spec fn digit_value(c: char) -> nat {
    if c == '0' { 0 }
    else if c == '1' { 1 }
    else if c == '2' { 2 }
    else if c == '3' { 3 }
    else if c == '4' { 4 }
    else if c == '5' { 5 }
    else if c == '6' { 6 }
    else if c == '7' { 7 }
    else if c == '8' { 8 }
    else if c == '9' { 9 }
    else if c == 'a' { 10 }
    else if c == 'b' { 11 }
    else if c == 'c' { 12 }
    else if c == 'd' { 13 }
    else if c == 'e' { 14 }
    else if c == 'f' { 15 }
    else { 16 }
}

/// The digits of `n` in base `base`, most significant first, without
/// leading zeros (zero itself is the single digit `0`).
pub open spec fn digits(n: nat, base: nat) -> Seq<char>
    decreases n,
{
    if base < 2 || n < base {
        seq![digit_char(n)]
    } else {
        proof {
            vstd::arithmetic::div_mod::lemma_div_decreases(n as int, base as int);
        }
        digits(n / base, base).push(digit_char(n % base))
    }
}

/// The number that a string of digits denotes in base `base`.
pub open spec fn value_of(s: Seq<char>, base: nat) -> nat
    decreases s.len(),
{
    if s.len() == 0 {
        0
    } else {
        value_of(s.drop_last(), base) * base + digit_value(s.last())
    }
}

/// The base that a radix counts in.
pub open spec fn radix_base(radix: Radix) -> nat {
    match radix {
        Radix::Decimal => 10,
        Radix::Hex => 16,
    }
}

/// The text of `n` in the given radix.
pub open spec fn rendered(n: nat, radix: Radix) -> Seq<char> {
    match radix {
        Radix::Decimal => digits(n, 10),
        Radix::Hex => seq!['0', 'x'] + digits(n, 16),
    }
}

/// The digits of a rendered number, without the `0x` prefix.
pub open spec fn digits_part(s: Seq<char>, radix: Radix) -> Seq<char> {
    match radix {
        Radix::Decimal => s,
        Radix::Hex => s.subrange(2, s.len() as int),
    }
}

proof fn lemma_digit_roundtrip(d: nat)
    requires
        d < 16,
    ensures
        digit_value(digit_char(d)) == d,
{
}

/// The digits of `n` denote `n`: a rendered value can always be read back.
pub proof fn lemma_digits_denote(n: nat, base: nat)
    requires
        2 <= base <= 16,
    ensures
        value_of(digits(n, base), base) == n,
    decreases n,
{
    if n < base {
        lemma_digit_roundtrip(n);
        let s = digits(n, base);
        assert(s.drop_last() =~= Seq::<char>::empty());
        assert(value_of(s.drop_last(), base) == 0);
        assert(value_of(s, base) == 0 * base + digit_value(s.last()));
    } else {
        let q = n / base;
        let r = n % base;
        assert(q < n) by (nonlinear_arith)
            requires
                n >= base,
                base >= 2,
                q == n / base,
        ;
        lemma_digits_denote(q, base);
        lemma_digit_roundtrip(r);
        let s = digits(n, base);
        assert(s.drop_last() =~= digits(q, base));
        assert(q * base + r == n) by (nonlinear_arith)
            requires
                q == n / base,
                r == n % base,
                base >= 2,
        ;
    }
}

/// Reading a rendered value back gives the value: no two values share a text.
pub proof fn lemma_rendered_denotes(n: nat, radix: Radix)
    ensures
        value_of(digits_part(rendered(n, radix), radix), radix_base(radix)) == n,
{
    lemma_digits_denote(n, radix_base(radix));
    match radix {
        Radix::Decimal => {},
        Radix::Hex => {
            let s = rendered(n, radix);
            assert(s.subrange(2, s.len() as int) =~= digits(n, 16));
        },
    }
}

/// The one-character string of digit `d`.
fn digit_str(d: u64) -> (s: &'static str)
    requires
        d < 16,
    ensures
        s@ == seq![digit_char(d as nat)],
{
    let table = "0123456789abcdef";
    proof {
        reveal_strlit("0123456789abcdef");
        assert(table@ =~= digit_table());
    }
    let s = table.substring_ascii(d as usize, d as usize + 1);
    assert(s@ =~= seq![digit_char(d as nat)]);
    s
}

/// Appends the digits of `n` in base `base` to `out`.
fn append_digits(out: &mut String, n: u64, base: u64)
    requires
        2 <= base <= 16,
    ensures
        final(out)@ == old(out)@ + digits(n as nat, base as nat),
    decreases n,
{
    if n < base {
        out.append(digit_str(n));
    } else {
        let q = n / base;
        assert(q < n) by (nonlinear_arith)
            requires
                n >= base,
                base >= 2,
                q == n / base,
        ;
        append_digits(out, q, base);
        out.append(digit_str(n % base));
        assert(digits(n as nat, base as nat) =~= digits(q as nat, base as nat).push(
            digit_char((n % base) as nat),
        ));
    }
}

/// Renders `n` as the suite's messages show it.
pub fn render_value(n: u64, radix: Radix) -> (s: String)
    ensures
        s@ == rendered(n as nat, radix),
{
    match radix {
        Radix::Decimal => {
            let mut s = String::new();
            append_digits(&mut s, n, 10);
            s
        },
        Radix::Hex => {
            let prefix = "0x";
            proof {
                reveal_strlit("0x");
            }
            let mut s = String::from_str(prefix);
            append_digits(&mut s, n, 16);
            assert(prefix@ =~= seq!['0', 'x']);
            s
        },
    }
}

} // verus!
