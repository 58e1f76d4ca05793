//! Small operations on text that the other modules share.

use vstd::prelude::*;
use vstd::string::*;

verus! {

/// Whether two texts hold the same characters.
pub(crate) fn text_eq(a: &str, b: &str) -> (r: bool)
    ensures
        r == (a@ == b@),
{
    let x: String = a.to_owned();
    let y: String = b.to_owned();
    x == y
}

/// The texts `a` and `b`, one after the other.
pub(crate) fn join2(a: &str, b: &str) -> (r: String)
    ensures
        r@ == a@ + b@,
{
    let mut out: String = a.to_owned();
    out.append(b);
    out
}

/// The texts `a`, `b`, `c` and `d`, one after the other.
pub(crate) fn join4(a: &str, b: &str, c: &str, d: &str) -> (r: String)
    ensures
        r@ == a@ + b@ + c@ + d@,
{
    let mut out: String = a.to_owned();
    out.append(b);
    out.append(c);
    out.append(d);
    out
}

/// Whether `needle` stands in `hay` at the position `i`.
pub open spec fn occurs_at(hay: Seq<char>, needle: Seq<char>, i: int) -> bool {
    0 <= i && i + needle.len() <= hay.len() && hay.subrange(i, i + needle.len()) == needle
}

/// Whether `needle` stands somewhere in `hay`.
pub open spec fn occurs(hay: Seq<char>, needle: Seq<char>) -> bool {
    exists|i: int| occurs_at(hay, needle, i)
}

/// Whether `i` is the first position at which `needle` stands in `hay`.
pub open spec fn first_occurrence(hay: Seq<char>, needle: Seq<char>, i: int) -> bool {
    occurs_at(hay, needle, i) && forall|j: int| 0 <= j < i ==> !occurs_at(hay, needle, j)
}

/// Some position at which `needle` stands in `hay` is the first.
pub proof fn lemma_first_occurrence(hay: Seq<char>, needle: Seq<char>, at: int)
    requires
        occurs_at(hay, needle, at),
    ensures
        exists|i: int| 0 <= i <= at && first_occurrence(hay, needle, i),
    decreases at,
{
    if exists|j: int| 0 <= j < at && occurs_at(hay, needle, j) {
        let j = choose|j: int| 0 <= j < at && occurs_at(hay, needle, j);
        lemma_first_occurrence(hay, needle, j);
    } else {
        assert(first_occurrence(hay, needle, at));
    }
}

/// `hay` with `with` in place of the `needle` that stands at `i`.
pub open spec fn replaced_at(hay: Seq<char>, needle: Seq<char>, with: Seq<char>, i: int) -> Seq<
    char,
> {
    hay.subrange(0, i) + with + hay.subrange(i + needle.len(), hay.len() as int)
}

/// Calls `str::contains` with a text as the pattern: whether `needle`
/// stands somewhere in `hay`.
#[verifier::external_body]
pub(crate) fn contains_text(hay: &str, needle: &str) -> (r: bool)
    ensures
        r == occurs(hay@, needle@),
{
    hay.contains(needle)
}

/// Calls `str::replacen` with a text as the pattern and a count of one:
/// `hay` with `with` in place of the first `needle`, or `hay` itself where
/// it holds none.
#[verifier::external_body]
pub(crate) fn replace_first(hay: &str, needle: &str, with: &str) -> (r: String)
    ensures
        !occurs(hay@, needle@) ==> r@ == hay@,
        forall|i: int| first_occurrence(hay@, needle@, i) ==> r@ == replaced_at(hay@, needle@, with@, i),
{
    hay.replacen(needle, with, 1)
}

/// Whether a character is white space as Unicode defines it (the property
/// `White_Space`).
pub open spec fn is_whitespace(c: char) -> bool {
    let code = c as u32;
    ||| 0x09 <= code <= 0x0d
    ||| code == 0x20
    ||| code == 0x85
    ||| code == 0xa0
    ||| code == 0x1680
    ||| 0x2000 <= code <= 0x200a
    ||| code == 0x2028
    ||| code == 0x2029
    ||| code == 0x202f
    ||| code == 0x205f
    ||| code == 0x3000
}

/// `s` without the white space that it starts with.
pub open spec fn trimmed_start(s: Seq<char>) -> Seq<char>
    decreases s.len(),
{
    if s.len() > 0 && is_whitespace(s.first()) {
        trimmed_start(s.drop_first())
    } else {
        s
    }
}

/// `s` without the white space that it ends with.
pub open spec fn trimmed_end(s: Seq<char>) -> Seq<char>
    decreases s.len(),
{
    if s.len() > 0 && is_whitespace(s.last()) {
        trimmed_end(s.drop_last())
    } else {
        s
    }
}

/// `s` without the white space at its two ends.
pub open spec fn trimmed(s: Seq<char>) -> Seq<char> {
    trimmed_end(trimmed_start(s))
}

/// Calls `str::trim`: the text without the white space at its two ends.
#[verifier::external_body]
pub(crate) fn trim_text(s: &str) -> (r: String)
    ensures
        r@ == trimmed(s@),
{
    s.trim().to_owned()
}

/// The position of the last `c` in `s`, or -1 where `s` holds none.
pub open spec fn last_index_of(s: Seq<char>, c: char) -> int
    decreases s.len(),
{
    if s.len() == 0 {
        -1
    } else if s.last() == c {
        s.len() - 1
    } else {
        last_index_of(s.drop_last(), c)
    }
}

/// What follows the last `c` in `s`; all of `s` where it holds no `c`.
pub open spec fn after_last(s: Seq<char>, c: char) -> Seq<char> {
    s.subrange(last_index_of(s, c) + 1, s.len() as int)
}

/// What follows the last `c` in `s`; all of `s` where it holds no `c`.
pub(crate) fn suffix_after_last(s: &str, c: char) -> (r: String)
    ensures
        r@ == after_last(s@, c),
{
    let n: usize = s.unicode_len();
    let mut i: usize = n;
    while i > 0
        invariant
            i <= n,
            n == s@.len(),
            forall|k: int| i <= k < n ==> s@[k] != c,
        decreases i,
    {
        if s.get_char(i - 1) == c {
            proof {
                lemma_last_index_at(s@, c, i - 1);
            }
            return s.substring_char(i, n).to_owned();
        }
        i = i - 1;
    }
    proof {
        lemma_last_index_none(s@, c);
    }
    s.to_owned()
}

proof fn lemma_last_index_at(s: Seq<char>, c: char, at: int)
    requires
        0 <= at < s.len(),
        s[at] == c,
        forall|k: int| at < k < s.len() ==> s[k] != c,
    ensures
        last_index_of(s, c) == at,
    decreases s.len(),
{
    if s.last() != c {
        lemma_last_index_at(s.drop_last(), c, at);
    }
}

proof fn lemma_last_index_none(s: Seq<char>, c: char)
    requires
        forall|k: int| 0 <= k < s.len() ==> s[k] != c,
    ensures
        last_index_of(s, c) == -1,
    decreases s.len(),
{
    if s.len() > 0 {
        lemma_last_index_none(s.drop_last(), c);
    }
}

} // verus!
