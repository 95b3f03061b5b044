//! Sequences of characters: blanks, ASCII case, searching and trimming.
//!
//! The specifications speak of `Seq<char>`; the executable functions work on a
//! `Vec<char>` and on ranges of it.

use vstd::prelude::*;

verus! {

/// A space or a horizontal tab: the optional whitespace of a header value.
pub open spec fn is_blank(c: char) -> bool {
    c == ' ' || c == '\t'
}

/// The ASCII lower-case form of `c`; every other character is left alone.
pub open spec fn lower_char(c: char) -> char {
    if 'A' <= c && c <= 'Z' {
        ((c as u8) + 32) as char
    } else {
        c
    }
}

/// `s` with every ASCII upper-case letter replaced by its lower-case form.
pub open spec fn lowered(s: Seq<char>) -> Seq<char> {
    Seq::new(s.len(), |i: int| lower_char(s[i]))
}

/// The least index at or after `from` at which `s` holds `c`, or `s.len()`
/// if there is none.
pub open spec fn next_index(s: Seq<char>, from: int, c: char) -> int
    decreases s.len() - from,
{
    if from < 0 || from >= s.len() {
        s.len() as int
    } else if s[from] == c {
        from
    } else {
        next_index(s, from + 1, c)
    }
}

/// `s` without its leading blanks.
pub open spec fn trimmed_start(s: Seq<char>) -> Seq<char>
    decreases s.len(),
{
    if s.len() > 0 && is_blank(s.first()) {
        trimmed_start(s.drop_first())
    } else {
        s
    }
}

/// `s` without its trailing blanks.
pub open spec fn trimmed_end(s: Seq<char>) -> Seq<char>
    decreases s.len(),
{
    if s.len() > 0 && is_blank(s.last()) {
        trimmed_end(s.drop_last())
    } else {
        s
    }
}

/// `s` without its leading and trailing blanks.
pub open spec fn trimmed(s: Seq<char>) -> Seq<char> {
    trimmed_end(trimmed_start(s))
}

/// What `next_index` returns lies between `from` and the end, nothing before
/// it is `c`, and it is the end or a place that holds `c`.
pub proof fn lemma_next_index(s: Seq<char>, from: int, c: char)
    requires
        0 <= from <= s.len(),
    ensures
        from <= next_index(s, from, c) <= s.len(),
        next_index(s, from, c) < s.len() ==> s[next_index(s, from, c)] == c,
        forall|k: int| from <= k < next_index(s, from, c) ==> s[k] != c,
    decreases s.len() - from,
{
    if from < s.len() && s[from] != c {
        lemma_next_index(s, from + 1, c);
    }
}

/// Every character of `s` from `from` up to `to` is a blank.
pub open spec fn blanks_between(s: Seq<char>, from: int, to: int) -> bool {
    forall|k: int| from <= k < to ==> is_blank(#[trigger] s[k])
}

/// The range `a..b` of `s` is `s` without blanks at its ends: only blanks
/// stand before `a` and from `b` on.
pub open spec fn is_trim(s: Seq<char>, a: int, b: int) -> bool {
    0 <= a <= b <= s.len() && blanks_between(s, 0, a) && blanks_between(s, b, s.len() as int)
}

/// The leading blanks, and nothing else, are what `trimmed_start` removes.
pub proof fn lemma_trimmed_start(s: Seq<char>)
    ensures
        trimmed_start(s).len() > 0 ==> !is_blank(trimmed_start(s).first()),
        exists|a: int|
            #[trigger] is_trim(s, a, s.len() as int) && trimmed_start(s) == s.subrange(
                a,
                s.len() as int,
            ),
    decreases s.len(),
{
    if s.len() > 0 && is_blank(s.first()) {
        let r = s.drop_first();
        lemma_trimmed_start(r);
        let a = choose|a: int|
            #[trigger] is_trim(r, a, r.len() as int) && trimmed_start(r) == r.subrange(
                a,
                r.len() as int,
            );
        assert(r.subrange(a, r.len() as int) == s.subrange(a + 1, s.len() as int));
        assert forall|k: int| 0 <= k < a + 1 implies is_blank(#[trigger] s[k]) by {
            if k > 0 {
                assert(s[k] == r[k - 1]);
            }
        }
        assert(is_trim(s, a + 1, s.len() as int));
    } else {
        assert(s.subrange(0, s.len() as int) == s);
        assert(is_trim(s, 0, s.len() as int));
    }
}

/// The trailing blanks, and nothing else, are what `trimmed_end` removes.
pub proof fn lemma_trimmed_end(s: Seq<char>)
    ensures
        trimmed_end(s).len() > 0 ==> !is_blank(trimmed_end(s).last()),
        trimmed_end(s).len() > 0 ==> s.len() > 0 && trimmed_end(s).first() == s.first(),
        exists|b: int| #[trigger] is_trim(s, 0, b) && trimmed_end(s) == s.subrange(0, b),
    decreases s.len(),
{
    if s.len() > 0 && is_blank(s.last()) {
        let r = s.drop_last();
        lemma_trimmed_end(r);
        let b = choose|b: int| #[trigger] is_trim(r, 0, b) && trimmed_end(r) == r.subrange(0, b);
        assert(r.subrange(0, b) == s.subrange(0, b));
        assert forall|k: int| b <= k < s.len() implies is_blank(#[trigger] s[k]) by {
            if k < r.len() {
                assert(s[k] == r[k]);
            }
        }
        assert(is_trim(s, 0, b));
    } else {
        assert(s.subrange(0, s.len() as int) == s);
        assert(is_trim(s, 0, s.len() as int));
    }
}

/// Trimming takes blanks away and nothing else, and leaves none at either
/// end: the result is a range of `s` with only blanks before it and behind
/// it, and it neither starts nor ends with a blank.
pub proof fn lemma_trimmed(s: Seq<char>)
    ensures
        trimmed(s).len() > 0 ==> !is_blank(trimmed(s).first()) && !is_blank(trimmed(s).last()),
        exists|a: int, b: int| #[trigger] is_trim(s, a, b) && trimmed(s) == s.subrange(a, b),
{
    lemma_trimmed_start(s);
    let a = choose|a: int|
        #[trigger] is_trim(s, a, s.len() as int) && trimmed_start(s) == s.subrange(
            a,
            s.len() as int,
        );
    let t = trimmed_start(s);
    lemma_trimmed_end(t);
    let b = choose|b: int| #[trigger] is_trim(t, 0, b) && trimmed_end(t) == t.subrange(0, b);
    assert(trimmed(s) == s.subrange(a, a + b));
    assert forall|k: int| a + b <= k < s.len() implies is_blank(#[trigger] s[k]) by {
        assert(s[k] == t[k - a]);
    }
    assert(is_trim(s, a, a + b));
}

/// The pieces of `s` from `from` on that lie between one `sep` and the next:
/// the piece that starts at `from`, then the pieces behind each later `sep`.
pub open spec fn segments_from(s: Seq<char>, from: int, sep: char) -> Seq<Seq<char>>
    decreases s.len() - from,
{
    let end = next_index(s, from, sep);
    if from < 0 || from > s.len() {
        Seq::empty()
    } else if end < from || end >= s.len() {
        seq![s.subrange(from, s.len() as int)]
    } else {
        seq![s.subrange(from, end)] + segments_from(s, end + 1, sep)
    }
}

/// The pieces of `s` behind the separator at `at`; none where `at` is the end
/// of `s`.
pub open spec fn segments_after(s: Seq<char>, at: int, sep: char) -> Seq<Seq<char>> {
    if at >= s.len() {
        Seq::empty()
    } else {
        segments_from(s, at + 1, sep)
    }
}

/// `s` cut at every `sep`: one piece more than `s` holds separators.
pub open spec fn segments(s: Seq<char>, sep: char) -> Seq<Seq<char>> {
    segments_from(s, 0, sep)
}

/// The pieces put together again, with one `sep` between neighbours.
pub open spec fn joined(parts: Seq<Seq<char>>, sep: char) -> Seq<char>
    decreases parts.len(),
{
    if parts.len() == 0 {
        Seq::empty()
    } else if parts.len() == 1 {
        parts[0]
    } else {
        parts[0] + seq![sep] + joined(parts.drop_first(), sep)
    }
}

/// No piece holds `sep`.
pub open spec fn free_of(parts: Seq<Seq<char>>, sep: char) -> bool {
    forall|i: int, k: int|
        0 <= i < parts.len() && 0 <= k < parts[i].len() ==> #[trigger] parts[i][k] != sep
}

/// Each string of each pair, as the characters it holds.
pub open spec fn pairs_view(pairs: Seq<(String, String)>) -> Seq<(Seq<char>, Seq<char>)> {
    pairs.map_values(|p: (String, String)| (p.0@, p.1@))
}

/// The first piece from `from` on ends at the next separator, and the others
/// are the pieces behind that separator.
pub proof fn lemma_segments_from(s: Seq<char>, from: int, sep: char)
    requires
        0 <= from <= s.len(),
    ensures
        segments_from(s, from, sep) == seq![s.subrange(from, next_index(s, from, sep))]
            + segments_after(s, next_index(s, from, sep), sep),
{
    lemma_next_index(s, from, sep);
}

/// Cutting loses nothing and adds nothing: there is at least one piece, no
/// piece holds the separator, and the pieces joined by it give the rest of
/// `s` back.
pub proof fn lemma_segments_from_joined(s: Seq<char>, from: int, sep: char)
    requires
        0 <= from <= s.len(),
    ensures
        segments_from(s, from, sep).len() >= 1,
        free_of(segments_from(s, from, sep), sep),
        joined(segments_from(s, from, sep), sep) == s.subrange(from, s.len() as int),
    decreases s.len() - from,
{
    lemma_next_index(s, from, sep);
    let end = next_index(s, from, sep);
    let all = segments_from(s, from, sep);
    if end < s.len() {
        lemma_segments_from_joined(s, end + 1, sep);
        let rest = segments_from(s, end + 1, sep);
        let head = s.subrange(from, end);
        assert(all == seq![head] + rest);
        assert(all.drop_first() == rest);
        assert forall|i: int, k: int| 0 <= i < all.len() && 0 <= k < all[i].len() implies all[i][k]
            != sep by {
            if i > 0 {
                assert(all[i] == rest[i - 1]);
            }
        }
        assert(free_of(all, sep));
        assert(head + seq![sep] + s.subrange(end + 1, s.len() as int) == s.subrange(
            from,
            s.len() as int,
        ));
    }
}

/// Cutting `s` at every `sep` and joining the pieces by `sep` gives `s`, and
/// no piece holds `sep`.
pub proof fn lemma_segments_joined(s: Seq<char>, sep: char)
    ensures
        segments(s, sep).len() >= 1,
        free_of(segments(s, sep), sep),
        joined(segments(s, sep), sep) == s,
{
    lemma_segments_from_joined(s, 0, sep);
    assert(s.subrange(0, s.len() as int) == s);
}

/// Lowering changes no length and is the same done once or twice.
pub proof fn lemma_lowered_twice(s: Seq<char>)
    ensures
        lowered(s).len() == s.len(),
        lowered(lowered(s)) == lowered(s),
{
    assert forall|i: int| 0 <= i < s.len() implies lower_char(lower_char(s[i])) == lower_char(
        s[i],
    ) by {
        let c = s[i];
        if 'A' <= c && c <= 'Z' {
            let l = ((c as u8) + 32) as char;
            assert(l as u8 == c as u8 + 32);
        }
    }
    assert(lowered(lowered(s)) =~= lowered(s));
}

/// Tells whether `c` is a space or a horizontal tab.
pub fn blank(c: char) -> (r: bool)
    ensures
        r == is_blank(c),
{
    c == ' ' || c == '\t'
}

/// The ASCII lower-case form of `c`.
pub fn to_lower(c: char) -> (r: char)
    ensures
        r == lower_char(c),
{
    if 'A' <= c && c <= 'Z' {
        ((c as u8) + 32) as char
    } else {
        c
    }
}

/// The characters of `s`, in order.
pub fn chars_of(s: &str) -> (v: Vec<char>)
    ensures
        v@ == s@,
{
    let mut v: Vec<char> = Vec::new();
    for c in it: s.chars()
        invariant
            v@ == it.seq().take(it.index() as int),
            it.seq() == s@,
    {
        v.push(c);
    }
    v
}

/// The first place at or after `from` where `chars` holds `c`, or the length
/// of `chars` if it holds none there.
pub(crate) fn find(chars: &Vec<char>, from: usize, c: char) -> (r: usize)
    requires
        from <= chars.len(),
    ensures
        r == next_index(chars@, from as int, c),
        from <= r <= chars.len(),
{
    let mut i: usize = from;
    while i < chars.len() && chars[i] != c
        invariant
            from <= i <= chars.len(),
            next_index(chars@, from as int, c) == next_index(chars@, i as int, c),
        decreases chars.len() - i,
    {
        i = i + 1;
    }
    i
}

/// The bounds of what is left of the range `from..to` of `chars` once the
/// blanks at both of its ends are set aside.
pub(crate) fn trim_range(chars: &Vec<char>, from: usize, to: usize) -> (r: (usize, usize))
    requires
        from <= to <= chars.len(),
    ensures
        from <= r.0 <= r.1 <= to,
        chars@.subrange(r.0 as int, r.1 as int) == trimmed(chars@.subrange(from as int, to as int)),
{
    let mut a: usize = from;
    while a < to && blank(chars[a])
        invariant
            from <= a <= to <= chars.len(),
            trimmed_start(chars@.subrange(from as int, to as int)) == trimmed_start(
                chars@.subrange(a as int, to as int),
            ),
        decreases to - a,
    {
        assert(chars@.subrange(a as int, to as int).drop_first() == chars@.subrange(
            a as int + 1,
            to as int,
        ));
        a = a + 1;
    }
    let mut b: usize = to;
    while a < b && blank(chars[b - 1])
        invariant
            a <= b <= to <= chars.len(),
            trimmed_end(chars@.subrange(a as int, to as int)) == trimmed_end(
                chars@.subrange(a as int, b as int),
            ),
        decreases b - a,
    {
        assert(chars@.subrange(a as int, b as int).drop_last() == chars@.subrange(
            a as int,
            b as int - 1,
        ));
        b = b - 1;
    }
    (a, b)
}

/// A copy of the range `from..to` of `chars`.
pub(crate) fn copy_range(chars: &Vec<char>, from: usize, to: usize) -> (r: Vec<char>)
    requires
        from <= to <= chars.len(),
    ensures
        r@ == chars@.subrange(from as int, to as int),
{
    let mut out: Vec<char> = Vec::new();
    let mut i: usize = from;
    while i < to
        invariant
            from <= i <= to <= chars.len(),
            out@ == chars@.subrange(from as int, i as int),
        decreases to - i,
    {
        out.push(chars[i]);
        i = i + 1;
    }
    out
}

/// A copy of the range `from..to` of `chars`, in ASCII lower case.
pub(crate) fn copy_lowered(chars: &Vec<char>, from: usize, to: usize) -> (r: Vec<char>)
    requires
        from <= to <= chars.len(),
    ensures
        r@ == lowered(chars@.subrange(from as int, to as int)),
{
    let mut out: Vec<char> = Vec::new();
    let mut i: usize = from;
    while i < to
        invariant
            from <= i <= to <= chars.len(),
            out@ == lowered(chars@.subrange(from as int, i as int)),
        decreases to - i,
    {
        out.push(to_lower(chars[i]));
        i = i + 1;
    }
    out
}

/// `String::push` puts `c` behind the characters that the string holds.
pub assume_specification[ String::push ](s: &mut String, c: char)
    ensures
        final(s)@ == old(s)@.push(c),
;

/// The range `from..to` of `chars` as a string.
pub(crate) fn collect(chars: &Vec<char>, from: usize, to: usize) -> (r: String)
    requires
        from <= to <= chars.len(),
    ensures
        r@ == chars@.subrange(from as int, to as int),
{
    let mut out = String::new();
    let mut i: usize = from;
    while i < to
        invariant
            from <= i <= to <= chars.len(),
            out@ == chars@.subrange(from as int, i as int),
        decreases to - i,
    {
        out.push(chars[i]);
        i = i + 1;
    }
    out
}

/// The range `from..to` of `chars` as a string, in ASCII lower case.
pub(crate) fn collect_lowered(chars: &Vec<char>, from: usize, to: usize) -> (r: String)
    requires
        from <= to <= chars.len(),
    ensures
        r@ == lowered(chars@.subrange(from as int, to as int)),
{
    let mut out = String::new();
    let mut i: usize = from;
    while i < to
        invariant
            from <= i <= to <= chars.len(),
            out@ == lowered(chars@.subrange(from as int, i as int)),
        decreases to - i,
    {
        out.push(to_lower(chars[i]));
        i = i + 1;
    }
    out
}

/// Tells whether `a` and `b` hold the same characters.
pub fn same_text(a: &str, b: &str) -> (r: bool)
    ensures
        r == (a@ == b@),
{
    let x = String::from_str(a);
    let y = String::from_str(b);
    x == y
}

/// `s` in ASCII lower case.
pub fn to_lowered(s: &str) -> (r: String)
    ensures
        r@ == lowered(s@),
{
    let chars = chars_of(s);
    let r = collect_lowered(&chars, 0, chars.len());
    assert(chars@.subrange(0, chars@.len() as int) == chars@);
    r
}

} // verus!
