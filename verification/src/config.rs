//! The bot's settings and the reading of the numeric ones.

use vstd::prelude::*;

verus! {

/// How the bot connects: its command prefix, its token, its application id
/// and where its database lives.
#[derive(Clone, Debug, PartialEq, Eq)]
pub struct Config {
    pub prefix: String,
    pub token: String,
    pub application_id: u64,
    pub redis_url: String,
}

/// `c` is an ASCII decimal digit.
pub open spec fn is_digit(c: char) -> bool {
    '0' <= c && c <= '9'
}

/// The number written by the decimal digits `s`.
pub open spec fn digits_value(s: Seq<char>) -> int
    decreases s.len(),
{
    if s.len() == 0 {
        0
    } else {
        digits_value(s.drop_last()) * 10 + (s.last() as int - '0' as int)
    }
}

/// The digits of a decimal number: the text after an optional leading `+`.
pub open spec fn decimal_digits(s: Seq<char>) -> Seq<char> {
    if s.len() > 0 && s[0] == '+' {
        s.drop_first()
    } else {
        s
    }
}

/// `s` writes a number in decimal: an optional `+`, then one or more digits.
pub open spec fn is_decimal(s: Seq<char>) -> bool {
    let d = decimal_digits(s);
    &&& d.len() > 0
    &&& forall|i: int| 0 <= i < d.len() ==> is_digit(d[i])
}

/// Digits only grow the number they write: the value of a prefix is at most
/// the value of the whole, and no value is negative.
proof fn lemma_digits_value_grows(s: Seq<char>, k: int)
    requires
        0 <= k <= s.len(),
        forall|i: int| 0 <= i < s.len() ==> is_digit(s[i]),
    ensures
        0 <= digits_value(s.take(k)) <= digits_value(s),
    decreases s.len(),
{
    if k < s.len() {
        let p = s.drop_last();
        lemma_digits_value_grows(p, k);
        assert(p.take(k) =~= s.take(k));
        lemma_digits_value_grows(p, p.len() as int);
        assert(p.take(p.len() as int) =~= p);
    } else {
        assert(s.take(k) =~= s);
        if s.len() > 0 {
            lemma_digits_value_grows(s.drop_last(), s.len() - 1);
            assert(s.drop_last().take(s.len() - 1) =~= s.drop_last());
        }
    }
}

/// Reads an unsigned 64-bit number written in decimal, as Rust's
/// `u64::from_str_radix(text, 10)` does: an optional `+`, then one or more
/// ASCII digits, with a value that fits. Anything else gives `None`.
pub fn parse_decimal_u64(text: &str) -> (parsed: Option<u64>)
    ensures
        parsed == (if is_decimal(text@) && digits_value(decimal_digits(text@)) <= u64::MAX {
            Some(digits_value(decimal_digits(text@)) as u64)
        } else {
            None
        }),
{
    let len = text.unicode_len();
    let mut start: usize = 0;
    if len > 0 && text.get_char(0) == '+' {
        start = 1;
    }
    let ghost d = decimal_digits(text@);
    assert(d =~= text@.subrange(start as int, len as int));
    if start >= len {
        return None;
    }
    let mut value: u64 = 0;
    let mut i: usize = start;
    while i < len
        invariant
            start <= i <= len,
            len == text@.len(),
            d == text@.subrange(start as int, len as int),
            d == decimal_digits(text@),
            d.len() > 0,
            forall|k: int| 0 <= k < i - start ==> is_digit(d[k]),
            value == digits_value(d.take(i - start)),
        decreases len - i,
    {
        let c = text.get_char(i);
        if !('0' <= c && c <= '9') {
            assert(!is_digit(d[i - start]));
            return None;
        }
        let ghost k = i - start;
        assert(d.take(k + 1).drop_last() =~= d.take(k));
        let digit: u64 = (c as u32 - '0' as u32) as u64;
        let step = value.checked_mul(10);
        if step.is_none() {
            proof {
                if is_decimal(text@) {
                    lemma_digits_value_grows(d, k + 1);
                }
            }
            return None;
        }
        let next = step.unwrap().checked_add(digit);
        if next.is_none() {
            proof {
                if is_decimal(text@) {
                    lemma_digits_value_grows(d, k + 1);
                }
            }
            return None;
        }
        value = next.unwrap();
        i = i + 1;
    }
    assert(d.take(d.len() as int) =~= d);
    Some(value)
}

/// How decimal text reads: an optional leading `+`, then one or more of the
/// characters `0` to `9`; no digits write zero, and each further digit
/// multiplies the value by ten and adds the digit's worth.
pub proof fn law_decimal_reading(s: Seq<char>, d: Seq<char>, c: char)
    ensures
        s.len() > 0 && s[0] == '+' ==> (is_decimal(s) <==> s.len() > 1 && forall|i: int|
            1 <= i < s.len() ==> '0' <= #[trigger] s[i] && s[i] <= '9'),
        !(s.len() > 0 && s[0] == '+') ==> (is_decimal(s) <==> s.len() > 0 && forall|i: int|
            0 <= i < s.len() ==> '0' <= #[trigger] s[i] && s[i] <= '9'),
        digits_value(Seq::empty()) == 0,
        digits_value(d.push(c)) == digits_value(d) * 10 + (c as int - 48),
{
    assert(d.push(c).drop_last() =~= d);
    if s.len() > 0 && s[0] == '+' {
        let rest = s.drop_first();
        assert(decimal_digits(s) == rest);
        assert((forall|i: int| 0 <= i < rest.len() ==> is_digit(rest[i])) <==> (forall|i: int|
            1 <= i < s.len() ==> '0' <= #[trigger] s[i] && s[i] <= '9')) by {
            assert(forall|i: int| 1 <= i < s.len() ==> #[trigger] s[i] == rest[i - 1]);
        }
    }
}

/// Reading more digits never gives a smaller number, and no number read
/// from digits is negative.
pub proof fn law_more_digits_never_smaller(d: Seq<char>, k: int)
    requires
        0 <= k <= d.len(),
        forall|i: int| 0 <= i < d.len() ==> is_digit(d[i]),
    ensures
        0 <= digits_value(d.take(k)) <= digits_value(d),
{
    lemma_digits_value_grows(d, k);
}

} // verus!
