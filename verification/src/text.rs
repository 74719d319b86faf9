//! Trimming of text, modelled on sequences of characters.

use vstd::prelude::*;

verus! {

/// Whether `c` has the Unicode property `White_Space`: the controls from
/// tab to carriage return, the space, next line, the no-break spaces, the
/// Ogham space mark, the spaces of fixed width, the line and paragraph
/// separators, the medium mathematical space and the ideographic space.
pub open spec fn is_white_space(c: char) -> bool {
    let n = c as u32;
    ||| 0x0009 <= n <= 0x000D
    ||| n == 0x0020
    ||| n == 0x0085
    ||| n == 0x00A0
    ||| n == 0x1680
    ||| 0x2000 <= n <= 0x200A
    ||| n == 0x2028
    ||| n == 0x2029
    ||| n == 0x202F
    ||| n == 0x205F
    ||| n == 0x3000
}

/// `s` without the white space at its end.
pub open spec fn trim_end(s: Seq<char>) -> Seq<char>
    decreases s.len(),
{
    if s.len() > 0 && is_white_space(s.last()) {
        trim_end(s.drop_last())
    } else {
        s
    }
}

/// `s` without the white space at its start.
pub open spec fn trim_start(s: Seq<char>) -> Seq<char>
    decreases s.len(),
{
    if s.len() > 0 && is_white_space(s.first()) {
        trim_start(s.drop_first())
    } else {
        s
    }
}

/// `s` without the white space at either end.
pub open spec fn trim(s: Seq<char>) -> Seq<char> {
    trim_start(trim_end(s))
}

/// `s` without the run of `c` at its end.
pub open spec fn trim_end_char(s: Seq<char>, c: char) -> Seq<char>
    decreases s.len(),
{
    if s.len() > 0 && s.last() == c {
        trim_end_char(s.drop_last(), c)
    } else {
        s
    }
}

/// Whether every character of `s` is white space.
pub open spec fn is_blank(s: Seq<char>) -> bool {
    forall|i: int| 0 <= i < s.len() ==> is_white_space(#[trigger] s[i])
}

/// Calls `str::trim`.
///
/// Trusted: the slice that comes back is the argument without the leading and
/// trailing characters that have the Unicode property `White_Space`, and
/// those are the characters that [`is_white_space`] lists.
#[verifier::external_body]
pub(crate) fn trim_str<'a>(s: &'a str) -> (r: &'a str)
    ensures
        r@ == trim(s@),
{
    s.trim()
}

/// Calls `str::trim_end_matches` with a character as the pattern.
///
/// Trusted: the slice that comes back is the argument without the run of
/// `c` at its end, however long that run is.
#[verifier::external_body]
pub(crate) fn trim_end_matches_char<'a>(s: &'a str, c: char) -> (r: &'a str)
    ensures
        r@ == trim_end_char(s@, c),
{
    s.trim_end_matches(c)
}

/// `trim_end_char(s, c)` is the longest prefix of `s` that does not end in `c`:
/// a prefix, not ending in `c`, with nothing but `c` behind it.
pub proof fn lemma_trim_end_char(s: Seq<char>, c: char)
    ensures
        trim_end_char(s, c).len() <= s.len(),
        trim_end_char(s, c) == s.subrange(0, trim_end_char(s, c).len() as int),
        trim_end_char(s, c).len() > 0 ==> trim_end_char(s, c).last() != c,
        forall|i: int| trim_end_char(s, c).len() <= i < s.len() ==> s[i] == c,
    decreases s.len(),
{
    if s.len() > 0 && s.last() == c {
        lemma_trim_end_char(s.drop_last(), c);
        let r = trim_end_char(s, c);
        assert(r =~= s.subrange(0, r.len() as int));
    } else {
        assert(s =~= s.subrange(0, s.len() as int));
    }
}

/// `trim_end(s)` is the longest prefix of `s` that does not end in white space.
pub proof fn lemma_trim_end(s: Seq<char>)
    ensures
        trim_end(s).len() <= s.len(),
        trim_end(s) == s.subrange(0, trim_end(s).len() as int),
        trim_end(s).len() > 0 ==> !is_white_space(trim_end(s).last()),
        forall|i: int| trim_end(s).len() <= i < s.len() ==> is_white_space(s[i]),
    decreases s.len(),
{
    if s.len() > 0 && is_white_space(s.last()) {
        lemma_trim_end(s.drop_last());
        let r = trim_end(s);
        assert(r =~= s.subrange(0, r.len() as int));
    } else {
        assert(s =~= s.subrange(0, s.len() as int));
    }
}

/// `trim_start(s)` is the longest suffix of `s` that does not start with white
/// space.
pub proof fn lemma_trim_start(s: Seq<char>)
    ensures
        trim_start(s).len() <= s.len(),
        trim_start(s) == s.subrange(s.len() - trim_start(s).len(), s.len() as int),
        trim_start(s).len() > 0 ==> !is_white_space(trim_start(s).first()),
        forall|i: int| 0 <= i < s.len() - trim_start(s).len() ==> is_white_space(s[i]),
    decreases s.len(),
{
    if s.len() > 0 && is_white_space(s.first()) {
        let t = s.drop_first();
        lemma_trim_start(t);
        let r = trim_start(s);
        assert(r =~= s.subrange(s.len() - r.len(), s.len() as int));
        assert forall|i: int| 0 <= i < s.len() - r.len() implies is_white_space(s[i]) by {
            if i > 0 {
                assert(s[i] == t[i - 1]);
            }
        }
    } else {
        assert(s =~= s.subrange(0, s.len() as int));
    }
}

/// `trim(s)` is a stretch of `s` with white space, and nothing else, on either
/// side of it, and no white space at either of its own ends.
pub proof fn lemma_trim(s: Seq<char>)
    ensures
        trim(s).len() <= trim_end(s).len() <= s.len(),
        trim(s) == s.subrange(trim_end(s).len() - trim(s).len(), trim_end(s).len() as int),
        forall|i: int| 0 <= i < trim_end(s).len() - trim(s).len() ==> is_white_space(s[i]),
        forall|i: int| trim_end(s).len() <= i < s.len() ==> is_white_space(s[i]),
        trim(s).len() > 0 ==> !is_white_space(trim(s).first()) && !is_white_space(
            trim(s).last(),
        ),
{
    let e = trim_end(s);
    let t = trim(s);
    lemma_trim_end(s);
    lemma_trim_start(e);
    assert(t =~= s.subrange(e.len() - t.len(), e.len() as int));
    assert forall|i: int| 0 <= i < e.len() - t.len() implies is_white_space(s[i]) by {
        assert(s[i] == e[i]);
    }
    if t.len() > 0 {
        assert(t.last() == e.last());
    }
}

/// Trimming yields the empty text exactly for texts made of white space alone.
pub proof fn lemma_trim_empty_iff_blank(s: Seq<char>)
    ensures
        trim(s).len() == 0 <==> is_blank(s),
{
    lemma_trim(s);
    let e = trim_end(s);
    let t = trim(s);
    if t.len() == 0 {
        assert forall|i: int| 0 <= i < s.len() implies is_white_space(#[trigger] s[i]) by {
            if i < e.len() {
                assert(0 <= i < e.len() - t.len());
            }
        }
    } else {
        let k = e.len() - t.len();
        assert(s[k] == t.first());
    }
}

/// Text behind a text that ends in something other than white space is out of
/// reach of trimming at the start.
pub proof fn lemma_trim_start_append(s: Seq<char>, tail: Seq<char>)
    requires
        s.len() > 0,
        !is_white_space(s.last()),
    ensures
        trim_start(s + tail) == trim_start(s) + tail,
    decreases s.len(),
{
    if is_white_space(s.first()) {
        assert((s + tail).drop_first() =~= s.drop_first() + tail);
        lemma_trim_start_append(s.drop_first(), tail);
    } else {
        assert((s + tail).first() == s.first());
    }
}

/// `n` copies of `c`.
pub open spec fn run_of(c: char, n: nat) -> Seq<char> {
    Seq::new(n, |i: int| c)
}

/// A run of `c` added at the end does not change what `trim_end_char` leaves.
pub proof fn lemma_trim_end_char_ignores_run(s: Seq<char>, c: char, n: nat)
    ensures
        trim_end_char(s + run_of(c, n), c) == trim_end_char(s, c),
    decreases n,
{
    if n == 0 {
        assert(s + run_of(c, 0) =~= s);
    } else {
        let longer = s + run_of(c, n);
        assert(longer.last() == c);
        assert(longer.drop_last() =~= s + run_of(c, (n - 1) as nat));
        lemma_trim_end_char_ignores_run(s, c, (n - 1) as nat);
    }
}

} // verus!
