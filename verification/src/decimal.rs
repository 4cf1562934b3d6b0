//! Decimal numerals: reading an unsigned number from text and writing one out.

use vstd::prelude::*;

verus! {

/// `c` is one of the ASCII digits `0` to `9`.
pub open spec fn is_digit(c: char) -> bool {
    0x30 <= c as u32 <= 0x39
}

/// The value of the ASCII digit `c`.
pub open spec fn digit_value(c: char) -> nat {
    (c as u32 - 0x30) as nat
}

/// The ASCII digit that stands for `d`, for `d < 10`.
pub open spec fn digit_char(d: nat) -> char {
    ((d + 0x30) as u8) as char
}

/// Every character of `s` is an ASCII digit.
pub open spec fn all_digits(s: Seq<char>) -> bool {
    forall|i: int| 0 <= i < s.len() ==> is_digit(#[trigger] s[i])
}

/// The number that the digit string `s` denotes in base ten.
pub open spec fn digits_value(s: Seq<char>) -> nat
    decreases s.len(),
{
    if s.len() == 0 {
        0
    } else {
        digits_value(s.drop_last()) * 10 + digit_value(s.last())
    }
}

/// The digits of a numeral: the text itself, without one leading `+` if it has one.
pub open spec fn numeral_digits(s: Seq<char>) -> Seq<char> {
    if s.len() > 0 && s[0] == '+' {
        s.skip(1)
    } else {
        s
    }
}

/// The number that `s` denotes, if `s` is a numeral for a number of at most `max`:
/// an optional `+` followed by at least one digit and nothing else.
pub open spec fn parse_unsigned(s: Seq<char>, max: nat) -> Option<nat> {
    let d = numeral_digits(s);
    if d.len() > 0 && all_digits(d) && digits_value(d) <= max {
        Some(digits_value(d))
    } else {
        None
    }
}

/// The decimal numeral of `n`, without sign or leading zeros.
pub open spec fn decimal(n: nat) -> Seq<char>
    decreases n,
{
    if n < 10 {
        seq![digit_char(n)]
    } else {
        decimal(n / 10).push(digit_char(n % 10))
    }
}

/// A longer digit string never denotes a smaller number than its prefix.
pub proof fn lemma_digits_value_prefix(s: Seq<char>, k: int)
    requires
        0 <= k <= s.len(),
    ensures
        digits_value(s.take(k)) <= digits_value(s),
    decreases s.len() - k,
{
    if k < s.len() {
        let t = s.drop_last();
        assert(t.take(k) == s.take(k));
        lemma_digits_value_prefix(t, k);
    } else {
        assert(s.take(k) == s);
    }
}

/// Whether `c` is an ASCII digit.
pub fn is_digit_char(c: char) -> (r: bool)
    ensures
        r == is_digit(c),
{
    let u: u32 = c as u32;
    0x30 <= u && u <= 0x39
}

/// Reads `s` as an unsigned decimal numeral of at most `max`.
pub fn parse_bounded(s: &Vec<char>, max: u64) -> (r: Option<u64>)
    ensures
        r is Some <==> parse_unsigned(s@, max as nat) is Some,
        r is Some ==> r->0 as nat == parse_unsigned(s@, max as nat)->0,
{
    let start: usize = if s.len() > 0 && s[0] == '+' {
        1
    } else {
        0
    };
    let ghost d = numeral_digits(s@);
    assert(d == s@.skip(start as int));
    if start == s.len() {
        return None;
    }
    let mut acc: u64 = 0;
    let mut i: usize = start;
    while i < s.len()
        invariant
            start <= i <= s.len(),
            d == s@.skip(start as int),
            d == numeral_digits(s@),
            all_digits(d.take(i - start)),
            acc as nat == digits_value(d.take(i - start)),
            acc <= max,
        decreases s.len() - i,
    {
        let c = s[i];
        assert(d[i - start] == c);
        if !is_digit_char(c) {
            return None;
        }
        let v: u64 = (c as u32 - 0x30) as u64;
        proof {
            let p = d.take(i - start + 1);
            assert(p.drop_last() == d.take(i - start));
            assert(p.last() == c);
            assert(digits_value(p) == acc * 10 + v);
            lemma_digits_value_prefix(d, i - start + 1);
        }
        if v > max || acc > (max - v) / 10 {
            assert(acc * 10 + v > max);
            return None;
        }
        acc = acc * 10 + v;
        i += 1;
    }
    assert(d.take(i - start) == d);
    Some(acc)
}

/// Reads `s` as an unsigned decimal numeral that fits in 64 bits.
pub fn parse_u64(s: &str) -> (r: Option<u64>)
    ensures
        r is Some <==> parse_unsigned(s@, u64::MAX as nat) is Some,
        r is Some ==> r->0 as nat == parse_unsigned(s@, u64::MAX as nat)->0,
{
    let v = crate::text::chars_of(s);
    parse_bounded(&v, u64::MAX)
}

/// The decimal numeral of `n`.
pub fn decimal_chars(n: u64) -> (r: Vec<char>)
    ensures
        r@ == decimal(n as nat),
{
    let mut acc: Vec<char> = Vec::new();
    acc.push(((n % 10) as u8 + 0x30) as char);
    let mut rest: u64 = n / 10;
    assert(acc@ == seq![digit_char((n % 10) as nat)]);
    while rest > 0
        invariant
            decimal(n as nat) == if rest > 0 {
                decimal(rest as nat) + acc@
            } else {
                acc@
            },
        decreases rest,
    {
        let c = ((rest % 10) as u8 + 0x30) as char;
        assert(c == digit_char((rest % 10) as nat));
        let ghost before = acc@;
        acc.insert(0, c);
        assert(acc@ == seq![c] + before);
        proof {
            if rest >= 10 {
                assert(decimal(rest as nat) == decimal((rest / 10) as nat).push(c));
                assert(decimal((rest / 10) as nat).push(c) + before == decimal(
                    (rest / 10) as nat,
                ) + acc@);
            } else {
                assert(decimal(rest as nat) == seq![c]);
            }
        }
        rest = rest / 10;
    }
    acc
}

/// The decimal numeral of `n`, as a string.
pub fn decimal_string(n: u64) -> (r: String)
    ensures
        r@ == decimal(n as nat),
{
    let v = decimal_chars(n);
    crate::text::string_of(&v)
}

} // verus!
