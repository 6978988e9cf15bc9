//! Splitting and trimming of text, stated over sequences of characters.

use vstd::prelude::*;
use vstd::string::StrSliceExecFns;

verus! {

/// Whether `c` has the Unicode property `White_Space`. The property is a table
/// of the Unicode Character Database and is not restated here.
pub uninterp spec fn white_space(c: char) -> bool;

/// `char::is_whitespace`, which reports whether a character has the Unicode
/// property `White_Space`. This is the one statement in this file that is
/// taken on trust.
#[verifier::external_body]
pub(crate) fn is_white_space(c: char) -> (blank: bool)
    ensures
        blank == white_space(c),
{
    c.is_whitespace()
}

/// Position of the first occurrence of `c` in `s`, or the length of `s` where
/// there is none.
pub open spec fn first_index_of(s: Seq<char>, c: char) -> int
    decreases s.len(),
{
    if s.len() == 0 || s[0] == c {
        0
    } else {
        1 + first_index_of(s.drop_first(), c)
    }
}

/// Number of leading characters of `s` that are white space.
pub open spec fn leading_white_space(s: Seq<char>) -> int
    decreases s.len(),
{
    if s.len() > 0 && white_space(s[0]) {
        1 + leading_white_space(s.drop_first())
    } else {
        0
    }
}

/// Number of trailing characters of `s` that are white space.
pub open spec fn trailing_white_space(s: Seq<char>) -> int
    decreases s.len(),
{
    if s.len() > 0 && white_space(s.last()) {
        1 + trailing_white_space(s.drop_last())
    } else {
        0
    }
}

/// `s` without its leading and trailing white space.
pub open spec fn trimmed(s: Seq<char>) -> Seq<char> {
    let rest = s.skip(leading_white_space(s));
    rest.take(rest.len() - trailing_white_space(rest))
}

/// Every character of `s` is white space.
pub open spec fn is_blank(s: Seq<char>) -> bool {
    forall|i: int| 0 <= i < s.len() ==> white_space(#[trigger] s[i])
}

/// `first_index_of` is the one position `at` such that `c` does not occur
/// before `at` and either occurs at `at` or `at` is the end of `s`.
pub proof fn lemma_first_index_of(s: Seq<char>, c: char, at: int)
    requires
        0 <= at <= s.len(),
        forall|j: int| 0 <= j < at ==> s[j] != c,
        at < s.len() ==> s[at] == c,
    ensures
        first_index_of(s, c) == at,
    decreases s.len(),
{
    if at > 0 {
        let rest = s.drop_first();
        assert forall|j: int| 0 <= j < at - 1 implies rest[j] != c by {
            assert(rest[j] == s[j + 1]);
        }
        lemma_first_index_of(rest, c, at - 1);
    }
}

/// `leading_white_space` is the one position `at` such that everything before
/// `at` is white space and `at` is the end of `s` or holds something else.
pub proof fn lemma_leading_white_space(s: Seq<char>, at: int)
    requires
        0 <= at <= s.len(),
        forall|j: int| 0 <= j < at ==> white_space(s[j]),
        at < s.len() ==> !white_space(s[at]),
    ensures
        leading_white_space(s) == at,
    decreases s.len(),
{
    if at > 0 {
        let rest = s.drop_first();
        assert forall|j: int| 0 <= j < at - 1 implies white_space(rest[j]) by {
            assert(rest[j] == s[j + 1]);
        }
        lemma_leading_white_space(rest, at - 1);
    }
}

/// `trailing_white_space` is the one count `n` such that the last `n`
/// characters are white space and the one before them, if any, is not.
pub proof fn lemma_trailing_white_space(s: Seq<char>, n: int)
    requires
        0 <= n <= s.len(),
        forall|j: int| s.len() - n <= j < s.len() ==> white_space(s[j]),
        n < s.len() ==> !white_space(s[s.len() - n - 1]),
    ensures
        trailing_white_space(s) == n,
    decreases s.len(),
{
    if n > 0 {
        let rest = s.drop_last();
        assert forall|j: int| rest.len() - (n - 1) <= j < rest.len() implies white_space(
            rest[j],
        ) by {
            assert(rest[j] == s[j]);
        }
        lemma_trailing_white_space(rest, n - 1);
    }
}

/// Trimming leaves nothing exactly when the text is blank.
pub proof fn lemma_trimmed_empty_iff_blank(s: Seq<char>)
    ensures
        trimmed(s).len() == 0 <==> is_blank(s),
{
    lemma_leading_bounds(s);
    let lead = leading_white_space(s);
    let rest = s.skip(lead);
    lemma_trailing_bounds(rest);
    if lead == s.len() {
        assert(is_blank(s));
        assert(trimmed(s).len() == 0);
    } else {
        assert(!white_space(s[lead]));
        assert(!is_blank(s));
        assert(rest[0] == s[lead]);
        if trailing_white_space(rest) == rest.len() {
            assert(white_space(rest[0]));
        }
    }
}

/// The leading white space of `s` ends inside `s`, holds white space only, and
/// ends at the first character that is not white space.
pub proof fn lemma_leading_bounds(s: Seq<char>)
    ensures
        0 <= leading_white_space(s) <= s.len(),
        forall|j: int| 0 <= j < leading_white_space(s) ==> white_space(#[trigger] s[j]),
        leading_white_space(s) < s.len() ==> !white_space(s[leading_white_space(s)]),
    decreases s.len(),
{
    if s.len() > 0 && white_space(s[0]) {
        let rest = s.drop_first();
        lemma_leading_bounds(rest);
        assert forall|j: int| 0 <= j < leading_white_space(s) implies white_space(
            #[trigger] s[j],
        ) by {
            if j > 0 {
                assert(s[j] == rest[j - 1]);
            }
        }
        if leading_white_space(s) < s.len() {
            assert(s[leading_white_space(s)] == rest[leading_white_space(rest)]);
        }
    }
}

/// The trailing white space of `s` begins inside `s`, holds white space only,
/// and begins after the last character that is not white space.
pub proof fn lemma_trailing_bounds(s: Seq<char>)
    ensures
        0 <= trailing_white_space(s) <= s.len(),
        forall|j: int|
            s.len() - trailing_white_space(s) <= j < s.len() ==> white_space(#[trigger] s[j]),
        trailing_white_space(s) < s.len() ==> !white_space(
            s[s.len() - trailing_white_space(s) - 1],
        ),
    decreases s.len(),
{
    if s.len() > 0 && white_space(s.last()) {
        let rest = s.drop_last();
        lemma_trailing_bounds(rest);
        assert forall|j: int| s.len() - trailing_white_space(s) <= j < s.len() implies white_space(
            #[trigger] s[j],
        ) by {
            if j < s.len() - 1 {
                assert(s[j] == rest[j]);
            }
        }
        if trailing_white_space(s) < s.len() {
            assert(s[s.len() - trailing_white_space(s) - 1] == rest[rest.len()
                - trailing_white_space(rest) - 1]);
        }
    }
}

/// What is left after trimming neither begins nor ends with white space.
pub proof fn lemma_trimmed_is_tight(s: Seq<char>)
    ensures
        trimmed(s).len() > 0 ==> !white_space(trimmed(s).first()) && !white_space(
            trimmed(s).last(),
        ),
{
    lemma_leading_bounds(s);
    let lead = leading_white_space(s);
    let rest = s.skip(lead);
    lemma_trailing_bounds(rest);
    if trimmed(s).len() > 0 {
        assert(trimmed(s).first() == s[lead]);
        assert(trimmed(s).last() == rest[rest.len() - trailing_white_space(rest) - 1]);
    }
}

/// Text that neither begins nor ends with white space is left as it is by
/// trimming.
pub proof fn lemma_trimmed_keeps_tight_text(s: Seq<char>)
    requires
        s.len() > 0 ==> !white_space(s.first()) && !white_space(s.last()),
    ensures
        trimmed(s) == s,
{
    lemma_leading_white_space(s, 0);
    assert(s.skip(0) =~= s);
    lemma_trailing_white_space(s, 0);
    assert(s.take(s.len() as int) =~= s);
}

/// Text that is put together from a head without `delimiter`, the delimiter
/// and a tail is split into that head and that tail, whatever the tail holds.
pub proof fn lemma_split_point(head: Seq<char>, delimiter: char, tail: Seq<char>)
    requires
        !head.contains(delimiter),
    ensures
        (head + seq![delimiter] + tail).contains(delimiter),
        first_index_of(head + seq![delimiter] + tail, delimiter) == head.len(),
        (head + seq![delimiter] + tail).take(head.len() as int) == head,
        (head + seq![delimiter] + tail).skip(head.len() as int + 1) == tail,
{
    let s = head + seq![delimiter] + tail;
    assert(s[head.len() as int] == delimiter);
    assert forall|j: int| 0 <= j < head.len() implies s[j] != delimiter by {
        assert(s[j] == head[j]);
        assert(head.contains(head[j]));
    }
    lemma_first_index_of(s, delimiter, head.len() as int);
    assert(s.take(head.len() as int) =~= head);
    assert(s.skip(head.len() as int + 1) =~= tail);
}

/// Splits `s` at the first occurrence of `delimiter`: the text before it and
/// the text after it, or nothing where `delimiter` does not occur.
pub fn split_once<'a>(s: &'a str, delimiter: char) -> (parts: Option<(&'a str, &'a str)>)
    ensures
        parts is Some <==> s@.contains(delimiter),
        parts matches Some((head, tail)) ==> {
            &&& head@ == s@.take(first_index_of(s@, delimiter))
            &&& tail@ == s@.skip(first_index_of(s@, delimiter) + 1)
        },
{
    let n: usize = s.unicode_len();
    let mut i: usize = 0;
    while i < n
        invariant
            i <= n,
            n == s@.len(),
            forall|j: int| 0 <= j < i ==> s@[j] != delimiter,
        decreases n - i,
    {
        if s.get_char(i) == delimiter {
            proof {
                lemma_first_index_of(s@, delimiter, i as int);
            }
            let head = s.substring_char(0, i);
            let tail = s.substring_char(i + 1, n);
            return Some((head, tail));
        }
        i += 1;
    }
    None
}

/// Removes leading and trailing white space from `s`.
pub fn trim<'a>(s: &'a str) -> (inner: &'a str)
    ensures
        inner@ == trimmed(s@),
{
    let n: usize = s.unicode_len();
    let mut lo: usize = 0;
    while lo < n && is_white_space(s.get_char(lo))
        invariant
            lo <= n,
            n == s@.len(),
            forall|j: int| 0 <= j < lo ==> white_space(s@[j]),
        decreases n - lo,
    {
        lo += 1;
    }
    let mut hi: usize = n;
    while hi > lo && is_white_space(s.get_char(hi - 1))
        invariant
            lo <= hi <= n,
            n == s@.len(),
            forall|j: int| hi <= j < n ==> white_space(s@[j]),
        decreases hi,
    {
        hi -= 1;
    }
    proof {
        lemma_leading_white_space(s@, lo as int);
        let rest = s@.skip(lo as int);
        assert forall|j: int| rest.len() - (n - hi) <= j < rest.len() implies white_space(
            rest[j],
        ) by {
            assert(rest[j] == s@[j + lo]);
        }
        if n - hi < rest.len() {
            assert(rest[rest.len() - (n - hi) - 1] == s@[hi - 1]);
        }
        lemma_trailing_white_space(rest, n - hi);
        assert(rest.take(rest.len() - (n - hi)) =~= s@.subrange(lo as int, hi as int));
    }
    s.substring_char(lo, hi)
}

} // verus!
