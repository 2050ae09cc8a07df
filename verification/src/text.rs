//! Character-level helpers for reading shortcut descriptors: ASCII case
//! folding and splitting on a separator.
//!
//! Everything is stated over `Seq<char>`, the view of a string.

use vstd::prelude::*;

verus! {

/// The lower-case form of `c`: an ASCII capital maps to its small letter,
/// every other character to itself.
pub open spec fn fold_case(c: char) -> char {
    if 'A' <= c && c <= 'Z' {
        ((c as u8) + 32) as char
    } else {
        c
    }
}

/// `s` with every character folded to lower case.
pub open spec fn folded(s: Seq<char>) -> Seq<char> {
    Seq::new(s.len(), |i: int| fold_case(s[i]))
}

/// The pieces of `s` that lie between occurrences of `sep`, in order.
///
/// Every separator ends one piece and starts the next, so pieces may be
/// empty: the empty sequence has the single empty piece, and a sequence that
/// ends in `sep` has an empty last piece.
pub open spec fn split_on(s: Seq<char>, sep: char) -> Seq<Seq<char>>
    decreases s.len(),
{
    if s.len() == 0 {
        seq![Seq::<char>::empty()]
    } else {
        let before = split_on(s.drop_last(), sep);
        if s.last() == sep {
            before.push(Seq::<char>::empty())
        } else {
            before.drop_last().push(before.last().push(s.last()))
        }
    }
}

/// `sep` occurs in `s` at position `at` and nowhere else.
pub open spec fn sole_separator(s: Seq<char>, sep: char, at: int) -> bool {
    &&& 0 <= at < s.len()
    &&& forall|j: int| 0 <= j < s.len() ==> (s[j] == sep <==> j == at)
}

/// The views of a vector of character vectors.
pub open spec fn views(parts: Seq<Vec<char>>) -> Seq<Seq<char>> {
    Seq::new(parts.len(), |i: int| parts[i]@)
}

/// Folds one character to lower case.
pub fn fold_char(c: char) -> (r: char)
    ensures
        r == fold_case(c),
{
    if 'A' <= c && c <= 'Z' {
        ((c as u8) + 32) as char
    } else {
        c
    }
}

/// The characters of `s`, folded to lower case.
pub fn lowercase(s: &str) -> (r: Vec<char>)
    ensures
        r@ == folded(s@),
{
    let mut out: Vec<char> = Vec::new();
    for c in it: s.chars()
        invariant
            it.seq() == s@,
            out@ == folded(s@.take(it.index())),
    {
        assert(s@.take(it.index() + 1) == s@.take(it.index()).push(c));
        out.push(fold_char(c));
    }
    assert(s@.take(s@.len() as int) == s@);
    out
}

/// Splits `chars` at every occurrence of `sep`.
pub fn split(chars: &Vec<char>, sep: char) -> (parts: Vec<Vec<char>>)
    ensures
        views(parts@) == split_on(chars@, sep),
{
    let mut parts: Vec<Vec<char>> = Vec::new();
    let mut current: Vec<char> = Vec::new();
    let mut i: usize = 0;
    assert(chars@.take(0) == Seq::<char>::empty());
    assert(views(parts@).push(current@) == seq![Seq::<char>::empty()]);
    while i < chars.len()
        invariant
            i <= chars.len(),
            views(parts@).push(current@) == split_on(chars@.take(i as int), sep),
        decreases chars.len() - i,
    {
        let ghost prefix = chars@.take(i as int);
        let ghost next = chars@.take(i + 1);
        let ghost done = views(parts@);
        let ghost piece = current@;
        assert(next.drop_last() == prefix);
        assert(next.last() == chars@[i as int]);
        assert(done.push(piece).drop_last() == done);
        if chars[i] == sep {
            parts.push(current);
            current = Vec::new();
            assert(views(parts@) == done.push(piece));
        } else {
            current.push(chars[i]);
            assert(views(parts@) == done);
        }
        i += 1;
    }
    assert(chars@.take(chars@.len() as int) == chars@);
    let ghost done = views(parts@);
    parts.push(current);
    assert(views(parts@) == done.push(current@));
    parts
}

/// Whether `chars` spells exactly `word`.
pub fn spells(chars: &Vec<char>, word: &str) -> (r: bool)
    ensures
        r == (chars@ == word@),
{
    let mut i: usize = 0;
    for c in it: word.chars()
        invariant
            it.seq() == word@,
            i == it.index(),
            i <= chars.len(),
            forall|j: int| 0 <= j < i ==> chars@[j] == word@[j],
    {
        if i >= chars.len() || chars[i] != c {
            return false;
        }
        i += 1;
    }
    assert(i == chars.len() ==> chars@ =~= word@);
    i == chars.len()
}

/// Folding changes letters only: a character folds to `+` exactly when it
/// is `+`.
pub proof fn lemma_fold_keeps_plus(c: char)
    ensures
        fold_case(c) == '+' <==> c == '+',
{
}

/// Folding commutes with taking a subrange.
pub proof fn lemma_folded_subrange(s: Seq<char>, from: int, to: int)
    requires
        0 <= from <= to <= s.len(),
    ensures
        folded(s.subrange(from, to)) == folded(s).subrange(from, to),
{
    assert(folded(s.subrange(from, to)) =~= folded(s).subrange(from, to));
}

/// A `+` stands alone in `s` exactly where it stands alone in `s` folded.
pub proof fn lemma_folded_sole_plus(s: Seq<char>, at: int)
    ensures
        sole_separator(folded(s), '+', at) <==> sole_separator(s, '+', at),
{
    assert forall|j: int| 0 <= j < s.len() implies (folded(s)[j] == '+' <==> s[j] == '+') by {
        lemma_fold_keeps_plus(s[j]);
    }
}

/// Splitting always yields at least one piece, and a single piece only for
/// a sequence without the separator.
pub proof fn lemma_split_one_piece(s: Seq<char>, sep: char)
    ensures
        split_on(s, sep).len() >= 1,
        split_on(s, sep).len() == 1 ==> forall|j: int| 0 <= j < s.len() ==> s[j] != sep,
    decreases s.len(),
{
    if s.len() > 0 {
        let rest = s.drop_last();
        lemma_split_one_piece(rest, sep);
        if split_on(s, sep).len() == 1 {
            assert forall|j: int| 0 <= j < s.len() implies s[j] != sep by {
                if j < rest.len() {
                    assert(rest[j] == s[j]);
                }
            }
        }
    }
}

/// A sequence without the separator is its own single piece.
pub proof fn lemma_split_without_separator(s: Seq<char>, sep: char)
    requires
        forall|j: int| 0 <= j < s.len() ==> s[j] != sep,
    ensures
        split_on(s, sep) == seq![s],
    decreases s.len(),
{
    if s.len() == 0 {
        assert(s == Seq::<char>::empty());
    } else {
        lemma_split_without_separator(s.drop_last(), sep);
        assert(s.drop_last().push(s.last()) == s);
        assert(seq![s.drop_last()].drop_last().push(s) == seq![s]);
    }
}

/// A sequence holding the separator exactly once splits into what stands
/// before it and what stands after it.
pub proof fn lemma_split_at_sole_separator(s: Seq<char>, sep: char, at: int)
    requires
        sole_separator(s, sep, at),
    ensures
        split_on(s, sep) == seq![s.subrange(0, at), s.subrange(at + 1, s.len() as int)],
    decreases s.len(),
{
    let head = s.subrange(0, at);
    let tail = s.subrange(at + 1, s.len() as int);
    let rest = s.drop_last();
    if at == s.len() - 1 {
        assert(rest == head);
        lemma_split_without_separator(head, sep);
        assert(tail == Seq::<char>::empty());
        assert(seq![head].push(tail) == seq![head, tail]);
    } else {
        assert(sole_separator(rest, sep, at));
        lemma_split_at_sole_separator(rest, sep, at);
        let short = rest.subrange(at + 1, rest.len() as int);
        assert(rest.subrange(0, at) == head);
        assert(short.push(s.last()) == tail);
        assert(seq![head, short].drop_last().push(tail) == seq![head, tail]);
    }
}

/// A sequence that splits into exactly two pieces holds the separator
/// exactly once; the result is its position.
pub proof fn lemma_split_two_pieces(s: Seq<char>, sep: char) -> (at: int)
    requires
        split_on(s, sep).len() == 2,
    ensures
        sole_separator(s, sep, at),
    decreases s.len(),
{
    let rest = s.drop_last();
    lemma_split_one_piece(rest, sep);
    let at = if s.last() == sep {
        s.len() - 1
    } else {
        lemma_split_two_pieces(rest, sep)
    };
    assert forall|j: int| 0 <= j < s.len() implies (s[j] == sep <==> j == at) by {
        if j < rest.len() {
            assert(rest[j] == s[j]);
        }
    }
    at
}

} // verus!
