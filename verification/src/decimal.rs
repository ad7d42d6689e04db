//! Decimal text of integers, as Rust's `Display` writes them, and decimal
//! parsing of unsigned 32-bit identifiers.
use vstd::prelude::*;

verus! {

/// The ten decimal digits, in order.
pub const DIGITS: [&'static str; 10] = ["0", "1", "2", "3", "4", "5", "6", "7", "8", "9"];

/// The character of the decimal digit `d`.
pub open spec fn digit_char(d: int) -> char
    recommends
        0 <= d < 10,
{
    (('0' as int) + d) as char
}

/// The decimal text of `n`: its digits, most significant first, without
/// leading zeros (`0` is the single digit `0`).
pub open spec fn decimal_text(n: nat) -> Seq<char>
    decreases n,
{
    if n < 10 {
        seq![digit_char(n as int)]
    } else {
        decimal_text(n / 10) + seq![digit_char((n % 10) as int)]
    }
}

/// The decimal text of a signed integer: a `-` before the digits of its
/// magnitude when it is negative.
pub open spec fn signed_decimal_text(n: int) -> Seq<char> {
    if n < 0 {
        seq!['-'] + decimal_text((-n) as nat)
    } else {
        decimal_text(n as nat)
    }
}

/// A character is an ASCII decimal digit.
pub open spec fn is_digit_char(c: char) -> bool {
    '0' <= c <= '9'
}

/// The value of a sequence of decimal digit characters.
pub open spec fn digits_value(s: Seq<char>) -> nat
    decreases s.len(),
{
    if s.len() == 0 {
        0
    } else {
        digits_value(s.drop_last()) * 10 + ((s.last() as int) - ('0' as int)) as nat
    }
}

/// What `u32::from_str` accepts: an optional `+`, then one or more ASCII
/// digits whose value fits in 32 bits.
pub open spec fn parsed_u32(s: Seq<char>) -> Option<u32> {
    let digits = if s.len() > 0 && s[0] == '+' {
        s.drop_first()
    } else {
        s
    };
    if digits.len() > 0 && (forall|k: int| 0 <= k < digits.len() ==> is_digit_char(#[trigger] digits[k]))
        && digits_value(digits) <= u32::MAX {
        Some(digits_value(digits) as u32)
    } else {
        None
    }
}

proof fn lemma_digit_strings()
    ensures
        forall|d: int| 0 <= d < 10 ==> #[trigger] DIGITS@[d]@ == seq![digit_char(d)],
{
    reveal_strlit("0");
    reveal_strlit("1");
    reveal_strlit("2");
    reveal_strlit("3");
    reveal_strlit("4");
    reveal_strlit("5");
    reveal_strlit("6");
    reveal_strlit("7");
    reveal_strlit("8");
    reveal_strlit("9");
    assert forall|d: int| 0 <= d < 10 implies #[trigger] DIGITS@[d]@ == seq![digit_char(d)] by {
        assert(DIGITS@[d]@ =~= seq![digit_char(d)]);
    }
}

/// Appends the decimal text of `n` to `out`.
pub fn append_decimal(out: &mut String, n: u64)
    ensures
        final(out)@ == old(out)@ + decimal_text(n as nat),
    decreases n,
{
    proof {
        lemma_digit_strings();
    }
    if n >= 10 {
        append_decimal(out, n / 10);
    }
    let d = (n % 10) as usize;
    out.append(DIGITS[d]);
    assert(DIGITS@[d as int]@ == seq![digit_char(d as int)]);
    if n >= 10 {
        assert(out@ =~= old(out)@ + (decimal_text((n / 10) as nat) + seq![digit_char((n % 10) as int)]));
    } else {
        assert(out@ =~= old(out)@ + decimal_text(n as nat));
    }
}

/// The decimal text of an unsigned integer, as `to_string` gives it.
pub fn unsigned_text(n: u64) -> (text: String)
    ensures
        text@ == decimal_text(n as nat),
{
    let mut text = String::new();
    append_decimal(&mut text, n);
    assert(text@ =~= decimal_text(n as nat));
    text
}

/// The decimal text of a signed integer, as `to_string` gives it.
pub fn signed_text(n: i64) -> (text: String)
    ensures
        text@ == signed_decimal_text(n as int),
{
    let mut text = String::new();
    if n < 0 {
        proof {
            reveal_strlit("-");
        }
        text.append("-");
        let magnitude: u64 = (-(n as i128)) as u64;
        append_decimal(&mut text, magnitude);
        assert(text@ =~= seq!['-'] + decimal_text((-n) as nat));
    } else {
        append_decimal(&mut text, n as u64);
        assert(text@ =~= decimal_text(n as nat));
    }
    text
}

/// `u32::from_str`: the value of `text` when it is an optional `+` followed by
/// ASCII digits whose value fits in 32 bits, and `None` otherwise.
#[verifier::external_body]
pub(crate) fn parse_u32(text: &str) -> (value: Option<u32>)
    ensures
        value == parsed_u32(text@),
{
    text.parse::<u32>().ok()
}

/// The value of a decimal text with an optional leading `-`.
pub open spec fn signed_digits_value(s: Seq<char>) -> int {
    if s.len() > 0 && s[0] == '-' {
        -(digits_value(s.drop_first()) as int)
    } else {
        digits_value(s) as int
    }
}

/// The decimal text of a natural number is a non-empty run of digits whose
/// value is the number.
pub proof fn lemma_decimal_text_reads_back(n: nat)
    ensures
        decimal_text(n).len() > 0,
        forall|k: int| 0 <= k < decimal_text(n).len() ==> is_digit_char(#[trigger] decimal_text(n)[k]),
        digits_value(decimal_text(n)) == n,
    decreases n,
{
    if n < 10 {
        let s = decimal_text(n);
        assert(s.drop_last() =~= Seq::<char>::empty());
        assert(digits_value(s.drop_last()) == 0);
        assert((digit_char(n as int) as int) == ('0' as int) + n);
    } else {
        lemma_decimal_text_reads_back(n / 10);
        let s = decimal_text(n);
        let c = digit_char((n % 10) as int);
        assert(s.drop_last() =~= decimal_text(n / 10));
        assert(s.last() == c);
        assert((c as int) == ('0' as int) + n % 10);
        assert forall|k: int| 0 <= k < s.len() implies is_digit_char(#[trigger] s[k]) by {
            if k < s.len() - 1 {
                assert(s[k] == decimal_text(n / 10)[k]);
            }
        }
    }
}

/// The decimal text of an integer reads back as the integer: distinct
/// integers have distinct texts.
pub proof fn lemma_signed_decimal_text_reads_back(n: int)
    ensures
        signed_digits_value(signed_decimal_text(n)) == n,
{
    if n < 0 {
        lemma_decimal_text_reads_back((-n) as nat);
        let s = signed_decimal_text(n);
        assert(s.drop_first() =~= decimal_text((-n) as nat));
    } else {
        lemma_decimal_text_reads_back(n as nat);
        assert(is_digit_char(decimal_text(n as nat)[0]));
    }
}

} // verus!
