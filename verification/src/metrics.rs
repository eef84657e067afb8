//! The figures that close a job: how long it took and how fast it went, as
//! numbers with two decimal places, and their text.

use crate::cadence::elapsed;
use crate::decimal::{
    decimal, digit_char, digit_value, lemma_decimal_digits, lemma_parse_decimal, parse_decimal,
    parse_unsigned, push_decimal,
};
use crate::text::{is_digit, is_space, occurs_at, text_occurs_at};
use vstd::prelude::*;
use vstd::slice::slice_subrange;

verus! {

/// Hundredths of a second in `nanos` nanoseconds, rounded to the nearest.
pub open spec fn centiseconds(nanos: int) -> int {
    (nanos + 5000000) / 10000000
}

/// Hundredths of a megabyte per second when `bytes` went through in `nanos`
/// nanoseconds: rounded to the nearest, held within `u64`, and zero when
/// no time has passed. A megabyte is a million bytes.
pub open spec fn centi_megabytes_per_second(bytes: u64, nanos: int) -> int {
    if nanos <= 0 {
        0
    } else if (bytes * 100000 + nanos / 2) / nanos > u64::MAX {
        u64::MAX as int
    } else {
        (bytes * 100000 + nanos / 2) / nanos
    }
}

/// The duration of a job that ran from `started_at` to `now`, in hundredths
/// of a second.
pub fn elapsed_centis(started_at: u64, now: u64) -> (c: u64)
    ensures
        c == centiseconds(elapsed(started_at, now)),
{
    let nanos: u64 = if now >= started_at {
        now - started_at
    } else {
        0
    };
    ((nanos as u128 + 5000000) / 10000000) as u64
}

/// The average speed of a job that moved `bytes` from `started_at` to
/// `now`, in hundredths of a megabyte per second.
pub fn average_speed_centis(bytes: u64, started_at: u64, now: u64) -> (c: u64)
    ensures
        c == centi_megabytes_per_second(bytes, elapsed(started_at, now)),
{
    let nanos: u64 = if now >= started_at {
        now - started_at
    } else {
        0
    };
    if nanos == 0 {
        return 0;
    }
    assert(bytes as u128 * 100000 + (nanos / 2) as u128 <= u128::MAX) by (nonlinear_arith)
        requires
            bytes <= u64::MAX,
            nanos <= u64::MAX,
    ;
    let scaled: u128 = bytes as u128 * 100000 + (nanos / 2) as u128;
    let rate: u128 = scaled / nanos as u128;
    if rate > u64::MAX as u128 {
        u64::MAX
    } else {
        rate as u64
    }
}

/// The text of `n` hundredths: the whole part in decimal, a point, and two
/// digits.
pub open spec fn fixed2(n: nat) -> Seq<char> {
    decimal(n / 100) + seq!['.', digit_char(((n / 10) % 10) as int), digit_char((n % 10) as int)]
}

/// Appends the text of `n` hundredths to `out`.
pub fn push_fixed2(out: &mut Vec<char>, n: u64)
    ensures
        final(out)@ == old(out)@ + fixed2(n as nat),
{
    push_decimal(out, n / 100);
    out.push('.');
    let tens: u8 = ((n / 10) % 10) as u8;
    let ones: u8 = (n % 10) as u8;
    out.push((tens + 48) as char);
    out.push((ones + 48) as char);
    assert(out@ == old(out)@ + fixed2(n as nat));
}

/// The hundredths that a text with two decimal places denotes: a whole
/// part in decimal, a point and two digits, with a value within `u64`.
pub open spec fn fixed2_value(s: Seq<char>) -> Option<int> {
    if s.len() >= 4 && s[s.len() - 3] == '.' && is_digit(s[s.len() - 2]) && is_digit(
        s[s.len() - 1],
    ) {
        match parse_unsigned(s.take(s.len() - 3), u64::MAX as int) {
            Some(whole) => {
                let value = whole * 100 + digit_value(s[s.len() - 2]) * 10 + digit_value(
                    s[s.len() - 1],
                );
                if value <= u64::MAX {
                    Some(value)
                } else {
                    None
                }
            },
            None => None,
        }
    } else {
        None
    }
}

/// Reads a text with two decimal places as hundredths.
pub fn parse_fixed2(s: &[char]) -> (r: Option<u64>)
    ensures
        match r {
            Some(n) => fixed2_value(s@) == Some(n as int),
            None => fixed2_value(s@) is None,
        },
{
    let len = s.len();
    if len < 4 || s[len - 3] != '.' {
        return None;
    }
    let d1 = s[len - 2];
    let d2 = s[len - 1];
    if !('0' <= d1 && d1 <= '9' && '0' <= d2 && d2 <= '9') {
        return None;
    }
    let whole = match parse_decimal(slice_subrange(s, 0, len - 3), u64::MAX) {
        Some(w) => w,
        None => {
            return None;
        },
    };
    let fraction: u64 = ((d1 as u32 - 48) * 10 + (d2 as u32 - 48)) as u64;
    if whole > (u64::MAX - fraction) / 100 {
        return None;
    }
    Some(whole * 100 + fraction)
}

/// What is left of `word` between `prefix` at its front and `suffix` at
/// its back, where it has both.
pub open spec fn strip_affixes(word: Seq<char>, prefix: Seq<char>, suffix: Seq<char>) -> Option<
    Seq<char>,
> {
    if word.len() >= prefix.len() + suffix.len() && occurs_at(word, prefix, 0) && occurs_at(
        word,
        suffix,
        word.len() - suffix.len(),
    ) {
        Some(word.subrange(prefix.len() as int, word.len() - suffix.len()))
    } else {
        None
    }
}

/// Takes `prefix` off the front of `word` and `suffix` off its back.
pub fn text_strip_affixes<'a>(word: &'a [char], prefix: &[char], suffix: &[char]) -> (r: Option<
    &'a [char],
>)
    ensures
        match r {
            Some(body) => strip_affixes(word@, prefix@, suffix@) == Some(body@),
            None => strip_affixes(word@, prefix@, suffix@) is None,
        },
{
    if word.len() < prefix.len() || word.len() - prefix.len() < suffix.len() {
        return None;
    }
    if text_occurs_at(word, prefix, 0) && text_occurs_at(word, suffix, word.len() - suffix.len()) {
        Some(slice_subrange(word, prefix.len(), word.len() - suffix.len()))
    } else {
        None
    }
}

/// Whether no character of `s` is whitespace.
pub open spec fn no_spaces(s: Seq<char>) -> bool {
    forall|i: int| 0 <= i < s.len() ==> !is_space(#[trigger] s[i])
}

/// Texts without whitespace, put together, are without whitespace.
pub proof fn lemma_no_spaces_concat(a: Seq<char>, b: Seq<char>)
    requires
        no_spaces(a),
        no_spaces(b),
    ensures
        no_spaces(a + b),
{
    assert forall|i: int| 0 <= i < (a + b).len() implies !is_space(#[trigger] (a + b)[i]) by {
        if i < a.len() {
            assert((a + b)[i] == a[i]);
        } else {
            assert((a + b)[i] == b[i - a.len()]);
        }
    }
}

/// The decimal text of a number holds no whitespace.
pub proof fn lemma_decimal_no_spaces(n: nat)
    ensures
        no_spaces(decimal(n)),
        decimal(n).len() > 0,
{
    lemma_decimal_digits(n);
    assert forall|i: int| 0 <= i < decimal(n).len() implies !is_space(
        #[trigger] decimal(n)[i],
    ) by {
        assert(is_digit(decimal(n)[i]));
    }
}

/// The text of hundredths holds no whitespace and reads back as the same
/// hundredths.
pub proof fn lemma_fixed2_reads(n: u64)
    ensures
        no_spaces(fixed2(n as nat)),
        fixed2(n as nat).len() > 0,
        fixed2_value(fixed2(n as nat)) == Some(n as int),
{
    let whole = decimal((n / 100) as nat);
    let s = fixed2(n as nat);
    let d1 = digit_char(((n / 10) % 10) as int);
    let d2 = digit_char((n % 10) as int);
    lemma_decimal_no_spaces((n / 100) as nat);
    lemma_parse_decimal((n / 100) as nat, u64::MAX as int);
    assert(s.len() == whole.len() + 3);
    assert(s[s.len() - 3] == '.');
    assert(s[s.len() - 2] == d1);
    assert(s[s.len() - 1] == d2);
    assert(s.take(s.len() - 3) == whole);
    assert(digit_value(d1) == (n / 10) % 10);
    assert(digit_value(d2) == n % 10);
    assert((n / 100) * 100 + ((n / 10) % 10) * 10 + n % 10 == n);
    assert forall|i: int| 0 <= i < s.len() implies !is_space(#[trigger] s[i]) by {
        if i < whole.len() {
            assert(s[i] == whole[i]);
        }
    }
}

/// A body between a prefix and a suffix comes back when both are taken off.
pub proof fn lemma_strip_affixes(prefix: Seq<char>, body: Seq<char>, suffix: Seq<char>)
    ensures
        strip_affixes(prefix + body + suffix, prefix, suffix) == Some(body),
{
    let word = prefix + body + suffix;
    assert(word.subrange(0, prefix.len() as int) == prefix);
    assert(word.subrange(word.len() - suffix.len(), word.len() as int) == suffix);
    assert(word.subrange(prefix.len() as int, word.len() - suffix.len()) == body);
}

} // verus!
