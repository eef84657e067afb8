//! Runs of characters: trimming, whitespace-separated words and lines.

use crate::text::{is_digit, is_space, char_is_digit, char_is_space};
use vstd::prelude::*;
use vstd::slice::slice_subrange;

verus! {

/// A class of characters.
pub enum CharClass {
    /// Characters with the Unicode property `White_Space`.
    Space,
    /// Every other character.
    NonSpace,
    /// The ten ASCII decimal digits.
    Digit,
    /// Every character but the line feed.
    InLine,
    /// Every character but the slash.
    InName,
    /// The slash.
    Slash,
    /// Every character but the full stop.
    InPart,
    /// The small letter v.
    SmallV,
}

impl CharClass {
    /// Whether `c` belongs to the class.
    pub open spec fn has(self, c: char) -> bool {
        match self {
            CharClass::Space => is_space(c),
            CharClass::NonSpace => !is_space(c),
            CharClass::Digit => is_digit(c),
            CharClass::InLine => c != '\n',
            CharClass::InName => c != '/',
            CharClass::Slash => c == '/',
            CharClass::InPart => c != '.',
            CharClass::SmallV => c == 'v',
        }
    }

    /// Tests `c` for membership in the class.
    pub fn holds(&self, c: char) -> (r: bool)
        ensures
            r == self.has(c),
    {
        match self {
            CharClass::Space => char_is_space(c),
            CharClass::NonSpace => !char_is_space(c),
            CharClass::Digit => char_is_digit(c),
            CharClass::InLine => c != '\n',
            CharClass::InName => c != '/',
            CharClass::Slash => c == '/',
            CharClass::InPart => c != '.',
            CharClass::SmallV => c == 'v',
        }
    }
}

/// How many characters at the front of `s` belong to `class`, counted up to
/// the first one that does not.
pub open spec fn leading(s: Seq<char>, class: CharClass) -> nat
    decreases s.len(),
{
    if s.len() > 0 && class.has(s[0]) {
        1 + leading(s.drop_first(), class)
    } else {
        0
    }
}

/// How many characters at the back of `s` belong to `class`, counted down to
/// the last one that does not.
pub open spec fn trailing(s: Seq<char>, class: CharClass) -> nat
    decreases s.len(),
{
    if s.len() > 0 && class.has(s.last()) {
        1 + trailing(s.drop_last(), class)
    } else {
        0
    }
}

/// `leading` is the one `k` such that the first `k` characters are in the
/// class and the next, if there is one, is not.
pub proof fn lemma_leading_is(s: Seq<char>, class: CharClass, k: int)
    requires
        0 <= k <= s.len(),
        forall|i: int| 0 <= i < k ==> class.has(#[trigger] s[i]),
        k < s.len() ==> !class.has(s[k]),
    ensures
        leading(s, class) == k,
    decreases s.len(),
{
    if k > 0 {
        let t = s.drop_first();
        assert forall|i: int| 0 <= i < k - 1 implies class.has(#[trigger] t[i]) by {
            assert(t[i] == s[i + 1]);
        }
        lemma_leading_is(t, class, k - 1);
    }
}

/// What `leading` counts: a run of class members that stops at the end of
/// the text or at a character outside the class.
pub proof fn lemma_leading_run(s: Seq<char>, class: CharClass)
    ensures
        leading(s, class) <= s.len(),
        forall|i: int| 0 <= i < leading(s, class) ==> class.has(#[trigger] s[i]),
        leading(s, class) < s.len() ==> !class.has(s[leading(s, class) as int]),
    decreases s.len(),
{
    if s.len() > 0 && class.has(s[0]) {
        let t = s.drop_first();
        lemma_leading_run(t, class);
        assert forall|i: int| 0 <= i < leading(s, class) implies class.has(#[trigger] s[i]) by {
            if i > 0 {
                assert(s[i] == t[i - 1]);
            }
        }
    }
}

/// `trailing` is the one `k` such that the last `k` characters are in the
/// class and the one before them, if there is one, is not.
pub proof fn lemma_trailing_is(s: Seq<char>, class: CharClass, k: int)
    requires
        0 <= k <= s.len(),
        forall|i: int| s.len() - k <= i < s.len() ==> class.has(#[trigger] s[i]),
        k < s.len() ==> !class.has(s[s.len() - k - 1]),
    ensures
        trailing(s, class) == k,
    decreases s.len(),
{
    if k > 0 {
        let t = s.drop_last();
        assert forall|i: int| t.len() - (k - 1) <= i < t.len() implies class.has(
            #[trigger] t[i],
        ) by {
            assert(t[i] == s[i]);
        }
        lemma_trailing_is(t, class, k - 1);
    }
}

/// What `trailing` counts: a run of class members at the back that stops at
/// the start of the text or at a character outside the class.
pub proof fn lemma_trailing_run(s: Seq<char>, class: CharClass)
    ensures
        trailing(s, class) <= s.len(),
        forall|i: int|
            s.len() - trailing(s, class) <= i < s.len() ==> class.has(#[trigger] s[i]),
        trailing(s, class) < s.len() ==> !class.has(s[s.len() - trailing(s, class) - 1]),
    decreases s.len(),
{
    if s.len() > 0 && class.has(s.last()) {
        let t = s.drop_last();
        lemma_trailing_run(t, class);
        assert forall|i: int| s.len() - trailing(s, class) <= i < s.len() implies class.has(
            #[trigger] s[i],
        ) by {
            if i < s.len() - 1 {
                assert(s[i] == t[i]);
            }
        }
    }
}

/// Counts the class members at the front of `s`, starting at `from`.
pub fn count_leading(s: &[char], from: usize, class: CharClass) -> (k: usize)
    requires
        from <= s.len(),
    ensures
        k == leading(s@.skip(from as int), class),
        from + k <= s.len(),
{
    let mut i: usize = from;
    while i < s.len() && class.holds(s[i])
        invariant
            from <= i <= s.len(),
            forall|j: int| from <= j < i ==> class.has(#[trigger] s@[j]),
        decreases s.len() - i,
    {
        i += 1;
    }
    proof {
        lemma_leading_is(s@.skip(from as int), class, i - from);
    }
    i - from
}

/// Counts the class members at the back of the first `to` characters of `s`.
pub fn count_trailing(s: &[char], to: usize, class: CharClass) -> (k: usize)
    requires
        to <= s.len(),
    ensures
        k == trailing(s@.take(to as int), class),
        k <= to,
{
    let mut i: usize = to;
    while i > 0 && class.holds(s[i - 1])
        invariant
            i <= to <= s.len(),
            forall|j: int| i <= j < to ==> class.has(#[trigger] s@[j]),
        decreases i,
    {
        i -= 1;
    }
    proof {
        lemma_trailing_is(s@.take(to as int), class, to - i);
    }
    to - i
}

/// `s` without its leading whitespace.
pub open spec fn trim_start(s: Seq<char>) -> Seq<char> {
    s.skip(leading(s, CharClass::Space) as int)
}

/// `s` without its trailing whitespace.
pub open spec fn trim_end(s: Seq<char>) -> Seq<char> {
    s.take(s.len() - trailing(s, CharClass::Space))
}

/// `s` without leading and trailing whitespace.
pub open spec fn trim(s: Seq<char>) -> Seq<char> {
    trim_end(trim_start(s))
}

/// Removes leading and trailing whitespace.
pub fn text_trim(s: &[char]) -> (r: &[char])
    ensures
        r@ == trim(s@),
{
    let a = count_leading(s, 0, CharClass::Space);
    assert(s@.skip(0) == s@);
    let rest = slice_subrange(s, a, s.len());
    assert(rest@ == trim_start(s@));
    let b = count_trailing(rest, rest.len(), CharClass::Space);
    assert(rest@.take(rest.len() as int) == rest@);
    slice_subrange(rest, 0, rest.len() - b)
}

/// The whitespace-separated words of `s`, in order: its maximal runs of
/// characters that are not whitespace.
pub open spec fn words(s: Seq<char>) -> Seq<Seq<char>>
    decreases s.len(),
{
    let t = trim_start(s);
    if t.len() == 0 {
        Seq::empty()
    } else {
        let n = leading(t, CharClass::NonSpace) as int;
        proof {
            lemma_leading_run(s, CharClass::Space);
            assert(t[0] == s[leading(s, CharClass::Space) as int]);
            assert(CharClass::NonSpace.has(t[0]));
            lemma_leading_run(t, CharClass::NonSpace);
        }
        seq![t.take(n)] + words(t.skip(n))
    }
}

/// The first word of `s` at or after position `from`, as the pair of its
/// start and its end, or `None` when only whitespace is left.
pub fn next_word(s: &[char], from: usize) -> (r: Option<(usize, usize)>)
    requires
        from <= s.len(),
    ensures
        match r {
            None => words(s@.skip(from as int)) == Seq::<Seq<char>>::empty(),
            Some((a, b)) => {
                &&& from <= a < b <= s.len()
                &&& words(s@.skip(from as int)) == seq![s@.subrange(a as int, b as int)] + words(
                    s@.skip(b as int),
                )
                &&& forall|i: int| a <= i < b ==> !is_space(#[trigger] s@[i])
            },
        },
{
    let k = count_leading(s, from, CharClass::Space);
    let a = from + k;
    let ghost rest = s@.skip(from as int);
    let ghost t = trim_start(rest);
    assert(t == s@.skip(a as int));
    if a == s.len() {
        return None;
    }
    let n = count_leading(s, a, CharClass::NonSpace);
    let b = a + n;
    proof {
        lemma_leading_run(rest, CharClass::Space);
        lemma_leading_run(t, CharClass::NonSpace);
        assert(t.take(n as int) == s@.subrange(a as int, b as int));
        assert(t.skip(n as int) == s@.skip(b as int));
        assert forall|i: int| a <= i < b implies !is_space(#[trigger] s@[i]) by {
            assert(s@[i] == t[i - a]);
        }
    }
    Some((a, b))
}

/// `l` without one trailing carriage return.
pub open spec fn strip_cr(l: Seq<char>) -> Seq<char> {
    if l.len() > 0 && l.last() == '\r' {
        l.drop_last()
    } else {
        l
    }
}

/// The lines of `s`. A line ends at a line feed, or at a carriage return
/// directly followed by one; an unterminated last line counts, an empty
/// one after the final line ending does not.
pub open spec fn lines(s: Seq<char>) -> Seq<Seq<char>>
    decreases s.len(),
{
    if s.len() == 0 {
        Seq::empty()
    } else {
        let n = leading(s, CharClass::InLine) as int;
        proof {
            lemma_leading_run(s, CharClass::InLine);
        }
        if n == s.len() {
            seq![s]
        } else {
            seq![strip_cr(s.take(n))] + lines(s.skip(n + 1))
        }
    }
}

/// The first line of `s` at or after position `from`, with the position
/// where the next one starts, or `None` at the end of the text.
pub fn next_line(s: &[char], from: usize) -> (r: Option<(&[char], usize)>)
    requires
        from <= s.len(),
    ensures
        match r {
            None => from == s.len() && lines(s@.skip(from as int)) == Seq::<Seq<char>>::empty(),
            Some((line, next)) => {
                &&& from < next <= s.len()
                &&& lines(s@.skip(from as int)) == seq![line@] + lines(s@.skip(next as int))
            },
        },
{
    if from == s.len() {
        return None;
    }
    let ghost rest = s@.skip(from as int);
    let n = count_leading(s, from, CharClass::InLine);
    let end = from + n;
    proof {
        lemma_leading_run(rest, CharClass::InLine);
    }
    if end == s.len() {
        let line = slice_subrange(s, from, end);
        assert(line@ == rest);
        assert(lines(s@.skip(end as int)) == Seq::<Seq<char>>::empty());
        return Some((line, end));
    }
    assert(rest.take(n as int) == s@.subrange(from as int, end as int));
    assert(rest.skip(n + 1) == s@.skip(end + 1));
    let ghost body = rest.take(n as int);
    if n > 0 && s[end - 1] == '\r' {
        let line = slice_subrange(s, from, end - 1);
        assert(body.last() == s@[end - 1]);
        assert(line@ == body.drop_last());
        Some((line, end + 1))
    } else {
        let line = slice_subrange(s, from, end);
        assert(n > 0 ==> body.last() == s@[end - 1]);
        assert(line@ == body);
        Some((line, end + 1))
    }
}

/// A text without characters has no words.
pub proof fn lemma_words_empty()
    ensures
        words(Seq::<char>::empty()) == Seq::<Seq<char>>::empty(),
{
}

/// A run of characters that are not whitespace, followed by nothing or by
/// whitespace, is the first word of the text.
pub proof fn lemma_words_first(w: Seq<char>, rest: Seq<char>)
    requires
        w.len() > 0,
        forall|i: int| 0 <= i < w.len() ==> !is_space(#[trigger] w[i]),
        rest.len() > 0 ==> is_space(rest[0]),
    ensures
        words(w + rest) == seq![w] + words(rest),
{
    let s = w + rest;
    assert(s[0] == w[0]);
    lemma_leading_is(s, CharClass::Space, 0);
    assert(trim_start(s) == s);
    assert forall|i: int| 0 <= i < w.len() implies CharClass::NonSpace.has(#[trigger] s[i]) by {
        assert(s[i] == w[i]);
    }
    if rest.len() > 0 {
        assert(s[w.len() as int] == rest[0]);
    }
    lemma_leading_is(s, CharClass::NonSpace, w.len() as int);
    assert(s.take(w.len() as int) == w);
    assert(s.skip(w.len() as int) == rest);
}

/// Whitespace in front of a text does not change its words.
pub proof fn lemma_words_after_space(c: char, rest: Seq<char>)
    requires
        is_space(c),
    ensures
        words(seq![c] + rest) == words(rest),
{
    let s = seq![c] + rest;
    assert(s.drop_first() == rest);
    assert(leading(s, CharClass::Space) == 1 + leading(rest, CharClass::Space));
    lemma_leading_run(rest, CharClass::Space);
    assert(trim_start(s) == trim_start(rest));
}

} // verus!
