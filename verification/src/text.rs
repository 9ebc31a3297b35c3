//! Decimal numbers and ASCII text.

use vstd::prelude::*;
use vstd::string::*;

verus! {

/// The character of the decimal digit `d`.
pub open spec fn digit_char(d: nat) -> char {
    (48 + d) as char
}

/// `n` written in decimal, most significant digit first, without leading zeros.
pub open spec fn decimal(n: nat) -> Seq<char>
    decreases n,
{
    if n < 10 {
        seq![digit_char(n)]
    } else {
        decimal(n / 10).push(digit_char(n % 10))
    }
}

/// The bytes of a text that holds ASCII characters only.
pub open spec fn ascii(s: Seq<char>) -> Seq<u8> {
    s.map_values(|c: char| c as u8)
}

/// The one-character text of the digit `d`.
fn digit(d: u64) -> (r: &'static str)
    requires
        d < 10,
    ensures
        r@ == seq![digit_char(d as nat)],
{
    proof {
        reveal_strlit("0");
        reveal_strlit("1");
        reveal_strlit("2");
        reveal_strlit("3");
        reveal_strlit("4");
        reveal_strlit("5");
        reveal_strlit("6");
        reveal_strlit("7");
        reveal_strlit("8");
        reveal_strlit("9");
    }
    if d == 0 {
        "0"
    } else if d == 1 {
        "1"
    } else if d == 2 {
        "2"
    } else if d == 3 {
        "3"
    } else if d == 4 {
        "4"
    } else if d == 5 {
        "5"
    } else if d == 6 {
        "6"
    } else if d == 7 {
        "7"
    } else if d == 8 {
        "8"
    } else {
        "9"
    }
}

/// Appends `n` in decimal to `out`.
pub(crate) fn push_decimal(out: &mut String, n: u64)
    ensures
        final(out)@ == old(out)@ + decimal(n as nat),
    decreases n,
{
    if n >= 10 {
        push_decimal(out, n / 10);
    }
    out.append(digit(n % 10));
}

/// Appends the bytes of the ASCII text `s` to `out`.
pub(crate) fn push_ascii(out: &mut Vec<u8>, s: &str)
    requires
        is_ascii(s),
    ensures
        final(out)@ == old(out)@ + ascii(s@),
{
    broadcast use vstd::string::is_ascii_spec_bytes;
    out.extend_from_slice(s.as_bytes());
    assert(s.spec_bytes() == ascii(s@));
}

/// Appends the bytes of `n` in decimal to `out`.
pub(crate) fn push_decimal_bytes(out: &mut Vec<u8>, n: u32)
    ensures
        final(out)@ == old(out)@ + ascii(decimal(n as nat)),
    decreases n,
{
    if n >= 10 {
        push_decimal_bytes(out, n / 10);
    }
    let d: u8 = (n % 10) as u8;
    out.push(48 + d);
    assert(digit_char((n % 10) as nat) as u8 == 48 + d);
    assert(out@ =~= old(out)@ + ascii(decimal(n as nat)));
}

/// A decimal number is written with digits alone, and with at least one.
pub proof fn decimal_is_digits(n: nat)
    ensures
        decimal(n).len() > 0,
        forall|i: int| 0 <= i < decimal(n).len() ==> '0' <= #[trigger] decimal(n)[i] <= '9',
    decreases n,
{
    if n >= 10 {
        decimal_is_digits(n / 10);
    }
}

/// `bytes` spells the ASCII text `text`: one byte for each character, its code.
pub open spec fn spells(bytes: Seq<u8>, text: Seq<char>) -> bool {
    &&& bytes.len() == text.len()
    &&& forall|i: int| 0 <= i < text.len() ==> #[trigger] bytes[i] == text[i] as u8
}

/// The bytes of an ASCII text spell it.
pub proof fn ascii_spells_text(s: Seq<char>)
    ensures
        spells(ascii(s), s),
{
}

/// The decimal digits of a number are its digits to base ten: the one that is
/// `k` places from the right counts the powers `10^k`, and the first is not zero
/// unless it is alone.
pub proof fn decimal_is_positional(n: nat)
    ensures
        decimal(n).len() > 0,
        (n as int) < vstd::arithmetic::power::pow(10, decimal(n).len()),
        decimal(n).len() > 1 ==> vstd::arithmetic::power::pow(
            10,
            (decimal(n).len() - 1) as nat,
        ) <= n,
        forall|i: int|
            0 <= i < decimal(n).len() ==> #[trigger] decimal(n)[i] as int == 48 + (n as int
                / vstd::arithmetic::power::pow(10, (decimal(n).len() - 1 - i) as nat)) % 10,
    decreases n,
{
    vstd::arithmetic::power::lemma_pow0(10);
    vstd::arithmetic::power::lemma_pow1(10);
    if n >= 10 {
        let m = n / 10;
        let len = decimal(n).len();
        decimal_is_positional(m);
        assert(len == decimal(m).len() + 1);
        vstd::arithmetic::power::lemma_pow_adds(10, 1, decimal(m).len());
        vstd::arithmetic::power::lemma_pow_adds(10, 1, (decimal(m).len() - 1) as nat);
        assert forall|i: int| 0 <= i < len implies #[trigger] decimal(n)[i] as int == 48 + (n as int
            / vstd::arithmetic::power::pow(10, (len - 1 - i) as nat)) % 10 by {
            if i < len - 1 {
                let k = (len - 2 - i) as nat;
                assert(decimal(n)[i] == decimal(m)[i]);
                vstd::arithmetic::power::lemma_pow_positive(10, k);
                vstd::arithmetic::power::lemma_pow_adds(10, 1, k);
                vstd::arithmetic::div_mod::lemma_div_denominator(
                    n as int,
                    10,
                    vstd::arithmetic::power::pow(10, k),
                );
            }
        }
    }
}

/// Two numbers written alike are the same number.
pub proof fn decimal_tells_numbers_apart(a: nat, b: nat)
    requires
        decimal(a) == decimal(b),
    ensures
        a == b,
    decreases a,
{
    decimal_is_digits(a / 10);
    decimal_is_digits(b / 10);
    assert(decimal(a).last() == digit_char(a % 10) && decimal(b).last() == digit_char(b % 10));
    if a >= 10 && b >= 10 {
        assert(decimal(a).drop_last() =~= decimal(a / 10));
        assert(decimal(b).drop_last() =~= decimal(b / 10));
        decimal_tells_numbers_apart(a / 10, b / 10);
    }
}

} // verus!
