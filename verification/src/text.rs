//! Text as sequences of characters: conversion, comparison, searching,
//! splitting on a separator and joining back.

use vstd::prelude::*;

verus! {

/// The position of the last occurrence of `c` in `s`, or `-1` if there is none.
pub open spec fn last_index_of(s: Seq<char>, c: char) -> int
    decreases s.len(),
{
    if s.len() == 0 {
        -1
    } else if s.last() == c {
        s.len() - 1
    } else {
        last_index_of(s.drop_last(), c)
    }
}

/// The pieces of `s` between occurrences of `sep`. There is always at least
/// one piece; a text without `sep` is its own single piece.
pub open spec fn split(s: Seq<char>, sep: char) -> Seq<Seq<char>>
    decreases s.len(),
{
    let i = last_index_of(s, sep);
    if 0 <= i < s.len() {
        split(s.take(i), sep).push(s.skip(i + 1))
    } else {
        seq![s]
    }
}

/// The pieces of `parts` written one after the other with `sep` between them.
pub open spec fn join(parts: Seq<Seq<char>>, sep: char) -> Seq<char>
    decreases parts.len(),
{
    if parts.len() == 0 {
        Seq::<char>::empty()
    } else if parts.len() == 1 {
        parts[0]
    } else {
        join(parts.drop_last(), sep) + seq![sep] + parts.last()
    }
}

/// `p` is an initial part of `s`.
pub open spec fn is_prefix(p: Seq<char>, s: Seq<char>) -> bool {
    p.len() <= s.len() && s.take(p.len() as int) == p
}

/// `last_index_of` finds an occurrence after which there is no other, and
/// reports `-1` exactly when there is no occurrence at all.
pub proof fn lemma_last_index_of(s: Seq<char>, c: char)
    ensures
        -1 <= last_index_of(s, c) < s.len(),
        last_index_of(s, c) >= 0 ==> s[last_index_of(s, c)] == c,
        forall|j: int| last_index_of(s, c) < j < s.len() ==> s[j] != c,
        last_index_of(s, c) < 0 <==> !s.contains(c),
    decreases s.len(),
{
    if s.len() == 0 {
    } else if s.last() == c {
        assert(s[s.len() - 1] == c);
    } else {
        let t = s.drop_last();
        lemma_last_index_of(t, c);
        assert forall|j: int| last_index_of(s, c) < j < s.len() implies s[j] != c by {
            if j < t.len() {
                assert(t[j] == s[j]);
            }
        }
        if last_index_of(s, c) >= 0 {
            assert(t[last_index_of(t, c)] == s[last_index_of(t, c)]);
        } else {
            if s.contains(c) {
                let k = choose|k: int| 0 <= k < s.len() && s[k] == c;
                assert(t[k] == c);
                assert(t.contains(c));
            }
        }
    }
}

/// A text whose character at `i` is `c`, with no `c` after it, has its last
/// `c` at `i`.
pub proof fn lemma_last_index_is(s: Seq<char>, c: char, i: int)
    requires
        0 <= i < s.len(),
        s[i] == c,
        forall|j: int| i < j < s.len() ==> s[j] != c,
    ensures
        last_index_of(s, c) == i,
{
    lemma_last_index_of(s, c);
    let k = last_index_of(s, c);
    if k < 0 {
        assert(s.contains(c));
    }
}

/// Splitting always yields at least one piece, and no piece holds the separator.
pub proof fn lemma_split_pieces(s: Seq<char>, sep: char)
    ensures
        split(s, sep).len() >= 1,
        forall|k: int| 0 <= k < split(s, sep).len() ==> !(#[trigger] split(s, sep)[k]).contains(sep),
    decreases s.len(),
{
    lemma_last_index_of(s, sep);
    let i = last_index_of(s, sep);
    if 0 <= i < s.len() {
        lemma_split_pieces(s.take(i), sep);
        let tail = s.skip(i + 1);
        if tail.contains(sep) {
            let k = choose|k: int| 0 <= k < tail.len() && tail[k] == sep;
            assert(s[i + 1 + k] == sep);
        }
    }
}

/// Appending a separator and a piece without separators adds that piece to
/// the split.
pub proof fn lemma_split_append(a: Seq<char>, sep: char, b: Seq<char>)
    requires
        !b.contains(sep),
    ensures
        split(a + seq![sep] + b, sep) == split(a, sep).push(b),
{
    let s = a + seq![sep] + b;
    let i = a.len() as int;
    assert(s[i] == sep);
    assert forall|j: int| i < j < s.len() implies s[j] != sep by {
        assert(s[j] == b[j - i - 1]);
        assert(b.contains(b[j - i - 1]));
    }
    lemma_last_index_is(s, sep, i);
    assert(s.take(i) == a);
    assert(s.skip(i + 1) == b);
}

/// Joining the pieces of a split gives the text back.
pub proof fn lemma_join_split(s: Seq<char>, sep: char)
    ensures
        join(split(s, sep), sep) == s,
    decreases s.len(),
{
    lemma_last_index_of(s, sep);
    let i = last_index_of(s, sep);
    if 0 <= i < s.len() {
        let head = split(s.take(i), sep);
        lemma_join_split(s.take(i), sep);
        lemma_split_pieces(s.take(i), sep);
        let parts = head.push(s.skip(i + 1));
        assert(parts.drop_last() == head);
        assert(parts.last() == s.skip(i + 1));
        assert(s.take(i) + seq![sep] + s.skip(i + 1) == s);
    } else {
        assert(split(s, sep) == seq![s]);
    }
}

/// The characters of `s`, in order.
pub fn chars_of(s: &str) -> (v: Vec<char>)
    ensures
        v@ == s@,
{
    broadcast use vstd::string::group_string_axioms;

    let mut v: Vec<char> = Vec::new();
    for c in it: s.chars()
        invariant
            it.seq() == s@,
            v@ == s@.take(it.index()),
    {
        v.push(c);
        assert(s@.take(it.index() + 1) == s@.take(it.index()).push(c));
    }
    assert(s@.take(s@.len() as int) == s@);
    v
}

/// Whether two texts hold the same characters.
pub fn same_text(a: &str, b: &str) -> (r: bool)
    ensures
        r == (a@ == b@),
{
    let x = chars_of(a);
    let y = chars_of(b);
    if x.len() != y.len() {
        return false;
    }
    let mut i: usize = 0;
    while i < x.len()
        invariant
            i <= x.len(),
            x.len() == y.len(),
            x@ == a@,
            y@ == b@,
            forall|j: int| 0 <= j < i ==> x@[j] == y@[j],
        decreases x.len() - i,
    {
        if x[i] != y[i] {
            return false;
        }
        i += 1;
    }
    assert(x@ =~= y@);
    true
}

/// Whether `s` begins with `p`.
pub fn starts_with(s: &str, p: &str) -> (r: bool)
    ensures
        r == is_prefix(p@, s@),
{
    let x = chars_of(s);
    let y = chars_of(p);
    if y.len() > x.len() {
        return false;
    }
    let mut i: usize = 0;
    while i < y.len()
        invariant
            i <= y.len(),
            y.len() <= x.len(),
            x@ == s@,
            y@ == p@,
            forall|j: int| 0 <= j < i ==> x@[j] == y@[j],
        decreases y.len() - i,
    {
        if x[i] != y[i] {
            assert(x@.take(y@.len() as int)[i as int] != y@[i as int]);
            return false;
        }
        i += 1;
    }
    assert(x@.take(y@.len() as int) =~= y@);
    true
}

/// The position of the last `c` among `v`, if there is one.
pub fn find_last(v: &Vec<char>, c: char) -> (r: Option<usize>)
    ensures
        match r {
            Some(i) => i == last_index_of(v@, c),
            None => last_index_of(v@, c) == -1,
        },
{
    let mut i: usize = v.len();
    while i > 0
        invariant
            i <= v.len(),
            forall|j: int| i <= j < v.len() ==> v@[j] != c,
        decreases i,
    {
        i -= 1;
        if v[i] == c {
            proof {
                lemma_last_index_is(v@, c, i as int);
            }
            return Some(i);
        }
    }
    proof {
        lemma_last_index_of(v@, c);
    }
    None
}

/// The pieces of `s` between occurrences of `sep`, as owned texts.
pub fn split_text(s: &str, sep: char) -> (pieces: Vec<String>)
    ensures
        pieces.deep_view() == split(s@, sep),
{
    let chars = chars_of(s);
    let n = chars.len();
    let mut pieces: Vec<String> = Vec::new();
    let mut start: usize = 0;
    let mut i: usize = 0;
    while i < n
        invariant
            i <= n,
            n == chars.len(),
            chars@ == s@,
            start <= i,
            start == last_index_of(s@.take(i as int), sep) + 1,
            start == 0 ==> pieces.deep_view() == Seq::<Seq<char>>::empty(),
            start > 0 ==> pieces.deep_view() == split(s@.take(start - 1), sep),
        decreases n - i,
    {
        let ghost before = pieces.deep_view();
        let ghost head = s@.take(i as int);
        assert(s@.take(i + 1).drop_last() == head);
        if chars[i] == sep {
            let piece = s.substring_char(start, i).to_owned();
            pieces.push(piece);
            proof {
                assert(pieces.deep_view() == before.push(s@.subrange(start as int, i as int)));
                assert(head.skip(start as int) == s@.subrange(start as int, i as int));
                if start > 0 {
                    assert(head.take(start - 1) == s@.take(start - 1));
                } else {
                    assert(seq![head] == before.push(head));
                }
            }
            start = i + 1;
        }
        i += 1;
    }
    let piece = s.substring_char(start, n).to_owned();
    let ghost before = pieces.deep_view();
    pieces.push(piece);
    proof {
        assert(s@.take(n as int) == s@);
        assert(pieces.deep_view() == before.push(s@.subrange(start as int, n as int)));
        assert(s@.skip(start as int) == s@.subrange(start as int, n as int));
        if start == 0 {
            assert(seq![s@] == before.push(s@));
        }
    }
    pieces
}

} // verus!
