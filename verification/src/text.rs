//! Scanning of command lines and option values, character by character.

use vstd::prelude::*;
use vstd::string::*;

verus! {

/// Whether `c` is white space: the code points that carry Unicode's
/// `White_Space` property.
pub open spec fn is_space(c: char) -> bool {
    let n = c as u32;
    ||| 0x09 <= n <= 0x0D
    ||| n == 0x20
    ||| n == 0x85
    ||| n == 0xA0
    ||| n == 0x1680
    ||| 0x2000 <= n <= 0x200A
    ||| n == 0x2028
    ||| n == 0x2029
    ||| n == 0x202F
    ||| n == 0x205F
    ||| n == 0x3000
}

/// The first index at or after `from` whose character is not white space,
/// or `s.len()` where every character from `from` on is white space.
pub open spec fn skip_spaces(s: Seq<char>, from: int) -> int
    decreases s.len() - from,
{
    if 0 <= from < s.len() && is_space(s[from]) {
        skip_spaces(s, from + 1)
    } else {
        from
    }
}

/// The first index at or after `from` whose character is white space, or
/// `s.len()` where none is.
pub open spec fn skip_word(s: Seq<char>, from: int) -> int
    decreases s.len() - from,
{
    if 0 <= from < s.len() && !is_space(s[from]) {
        skip_word(s, from + 1)
    } else {
        from
    }
}

/// The first index at or after `from` that holds `sep`, or `s.len()` where
/// none does.
pub open spec fn find_char(s: Seq<char>, sep: char, from: int) -> int
    decreases s.len() - from,
{
    if 0 <= from < s.len() && s[from] != sep {
        find_char(s, sep, from + 1)
    } else {
        from
    }
}

/// The length of `s` without the white space at its end.
pub open spec fn trimmed_len(s: Seq<char>) -> int
    decreases s.len(),
{
    if s.len() > 0 && is_space(s.last()) {
        trimmed_len(s.drop_last())
    } else {
        s.len() as int
    }
}

/// `s` without the white space at its two ends.
pub open spec fn trim(s: Seq<char>) -> Seq<char> {
    let t = s.take(trimmed_len(s));
    t.skip(skip_spaces(t, 0))
}

/// What `skip_spaces` returns lies between `from` and the end, everything
/// it passed over is white space, and it stops at the end or at a
/// character that is not.
pub proof fn lemma_skip_spaces(s: Seq<char>, from: int)
    requires
        0 <= from <= s.len(),
    ensures
        from <= skip_spaces(s, from) <= s.len(),
        forall|i: int| from <= i < skip_spaces(s, from) ==> is_space(#[trigger] s[i]),
        skip_spaces(s, from) < s.len() ==> !is_space(s[skip_spaces(s, from)]),
    decreases s.len() - from,
{
    if from < s.len() && is_space(s[from]) {
        lemma_skip_spaces(s, from + 1);
    }
}

/// What `skip_word` returns lies between `from` and the end, nothing it
/// passed over is white space, and it stops at the end or at white space.
pub proof fn lemma_skip_word(s: Seq<char>, from: int)
    requires
        0 <= from <= s.len(),
    ensures
        from <= skip_word(s, from) <= s.len(),
        forall|i: int| from <= i < skip_word(s, from) ==> !is_space(#[trigger] s[i]),
        skip_word(s, from) < s.len() ==> is_space(s[skip_word(s, from)]),
    decreases s.len() - from,
{
    if from < s.len() && !is_space(s[from]) {
        lemma_skip_word(s, from + 1);
    }
}

/// An index is what `skip_spaces` returns where everything before it, from
/// `from` on, is white space, and it is the end or holds a character that is
/// not.
pub proof fn lemma_skip_spaces_is(s: Seq<char>, from: int, r: int)
    requires
        0 <= from <= r <= s.len(),
        forall|i: int| from <= i < r ==> is_space(#[trigger] s[i]),
        r < s.len() ==> !is_space(s[r]),
    ensures
        skip_spaces(s, from) == r,
    decreases r - from,
{
    if from < r {
        lemma_skip_spaces_is(s, from + 1, r);
    }
}

/// An index is what `skip_word` returns where nothing before it, from `from`
/// on, is white space, and it is the end or holds white space.
pub proof fn lemma_skip_word_is(s: Seq<char>, from: int, r: int)
    requires
        0 <= from <= r <= s.len(),
        forall|i: int| from <= i < r ==> !is_space(#[trigger] s[i]),
        r < s.len() ==> is_space(s[r]),
    ensures
        skip_word(s, from) == r,
    decreases r - from,
{
    if from < r {
        lemma_skip_word_is(s, from + 1, r);
    }
}

/// What `find_char` returns lies between `from` and the end, nothing it
/// passed over is `sep`, and it stops at the end or at a `sep`.
pub proof fn lemma_find_char(s: Seq<char>, sep: char, from: int)
    requires
        0 <= from <= s.len(),
    ensures
        from <= find_char(s, sep, from) <= s.len(),
        forall|i: int| from <= i < find_char(s, sep, from) ==> #[trigger] s[i] != sep,
        find_char(s, sep, from) < s.len() ==> s[find_char(s, sep, from)] == sep,
    decreases s.len() - from,
{
    if from < s.len() && s[from] != sep {
        lemma_find_char(s, sep, from + 1);
    }
}

/// What `trim` returns neither begins nor ends with white space, and it is
/// `s` itself where `s` does neither.
pub proof fn law_trim_bares_both_ends(s: Seq<char>)
    ensures
        trim(s).len() > 0 ==> !is_space(trim(s).first()) && !is_space(trim(s).last()),
        (s.len() > 0 && !is_space(s.first()) && !is_space(s.last())) ==> trim(s) == s,
        s.len() == 0 ==> trim(s) == s,
{
    lemma_trimmed_len(s);
    let t = s.take(trimmed_len(s));
    lemma_skip_spaces(t, 0);
    if s.len() == 0 || (!is_space(s.first()) && !is_space(s.last())) {
        assert(t =~= s);
        assert(trim(s) =~= s);
    }
}

/// What `trimmed_len` returns lies between 0 and the length, everything
/// behind it is white space, and the character before it is not.
pub proof fn lemma_trimmed_len(s: Seq<char>)
    ensures
        0 <= trimmed_len(s) <= s.len(),
        forall|i: int| trimmed_len(s) <= i < s.len() ==> is_space(#[trigger] s[i]),
        trimmed_len(s) > 0 ==> !is_space(s[trimmed_len(s) - 1]),
    decreases s.len(),
{
    if s.len() > 0 && is_space(s.last()) {
        let t = s.drop_last();
        lemma_trimmed_len(t);
        assert forall|i: int| trimmed_len(s) <= i < s.len() implies is_space(#[trigger] s[i]) by {
            if i < t.len() {
                assert(s[i] == t[i]);
            }
        }
        if trimmed_len(s) > 0 {
            assert(s[trimmed_len(s) - 1] == t[trimmed_len(s) - 1]);
        }
    }
}

/// Decides `is_space`.
pub fn is_space_char(c: char) -> (r: bool)
    ensures
        r == is_space(c),
{
    let n: u32 = c as u32;
    (0x09 <= n && n <= 0x0D) || n == 0x20 || n == 0x85 || n == 0xA0 || n == 0x1680 || (0x2000 <= n
        && n <= 0x200A) || n == 0x2028 || n == 0x2029 || n == 0x202F || n == 0x205F || n == 0x3000
}

/// The characters of `s`, in order.
pub fn chars_of(s: &str) -> (v: Vec<char>)
    ensures
        v@ == s@,
{
    let mut v: Vec<char> = Vec::new();
    for c in it: s.chars()
        invariant
            v@ == it.seq().take(it.index()),
            it.seq() == s@,
    {
        v.push(c);
    }
    v
}

/// Whether two strings hold the same characters.
pub fn same_text(a: &str, b: &str) -> (r: bool)
    ensures
        r == (a@ == b@),
{
    let x = chars_of(a);
    let y = chars_of(b);
    if x.len() != y.len() {
        return false;
    }
    let mut i: usize = 0;
    while i < x.len()
        invariant
            i <= x.len(),
            x.len() == y.len(),
            x@ == a@,
            y@ == b@,
            forall|j: int| 0 <= j < i ==> x@[j] == y@[j],
        decreases x.len() - i,
    {
        if x[i] != y[i] {
            assert(a@[i as int] != b@[i as int]);
            return false;
        }
        i += 1;
    }
    assert(x@ =~= y@);
    true
}

/// Computes `skip_spaces`.
pub fn scan_spaces(s: &Vec<char>, from: usize) -> (i: usize)
    ensures
        i == skip_spaces(s@, from as int),
        from <= i,
        from <= s.len() ==> i <= s.len(),
{
    let mut i: usize = from;
    while i < s.len() && is_space_char(s[i])
        invariant
            from <= i,
            from <= s.len() ==> i <= s.len(),
            skip_spaces(s@, from as int) == skip_spaces(s@, i as int),
        decreases s.len() - i,
    {
        i += 1;
    }
    i
}

/// Computes `skip_word`.
pub fn scan_word(s: &Vec<char>, from: usize) -> (i: usize)
    ensures
        i == skip_word(s@, from as int),
        from <= i,
        from <= s.len() ==> i <= s.len(),
{
    let mut i: usize = from;
    while i < s.len() && !is_space_char(s[i])
        invariant
            from <= i,
            from <= s.len() ==> i <= s.len(),
            skip_word(s@, from as int) == skip_word(s@, i as int),
        decreases s.len() - i,
    {
        i += 1;
    }
    i
}

/// Computes `find_char`.
pub fn scan_to(s: &Vec<char>, sep: char, from: usize) -> (i: usize)
    ensures
        i == find_char(s@, sep, from as int),
        from <= i,
        from <= s.len() ==> i <= s.len(),
{
    let mut i: usize = from;
    while i < s.len() && s[i] != sep
        invariant
            from <= i,
            from <= s.len() ==> i <= s.len(),
            find_char(s@, sep, from as int) == find_char(s@, sep, i as int),
        decreases s.len() - i,
    {
        i += 1;
    }
    i
}

/// `s` without the white space at its two ends.
pub fn trimmed<'a>(s: &'a str) -> (r: &'a str)
    ensures
        r@ == trim(s@),
{
    let chars = chars_of(s);
    let (start, end) = trim_bounds(&chars, 0, chars.len());
    assert(s@.subrange(0, s@.len() as int) =~= s@);
    s.substring_char(start, end)
}

/// The bounds of `trim` applied to the characters of `s` from `from` up to
/// `to`: the trimmed text is `s[start..end]`.
pub(crate) fn trim_bounds(s: &Vec<char>, from: usize, to: usize) -> (r: (usize, usize))
    requires
        from <= to <= s.len(),
    ensures
        from <= r.0 <= r.1 <= to,
        s@.subrange(r.0 as int, r.1 as int) == trim(s@.subrange(from as int, to as int)),
{
    let ghost piece = s@.subrange(from as int, to as int);
    let mut end: usize = to;
    assert(piece.take(to - from) =~= piece);
    while end > from && is_space_char(s[end - 1])
        invariant
            from <= end <= to <= s.len(),
            piece == s@.subrange(from as int, to as int),
            trimmed_len(piece) == trimmed_len(piece.take(end - from)),
        decreases end,
    {
        proof {
            let t = piece.take(end - from);
            assert(t.last() == s@[end - 1]);
            assert(t.drop_last() =~= piece.take(end - 1 - from));
        }
        end -= 1;
    }
    let ghost t = piece.take(end - from);
    assert(trimmed_len(piece) == end - from) by {
        if end > from {
            assert(t.last() == s@[end - 1]);
        }
    }
    let mut start: usize = from;
    while start < end && is_space_char(s[start])
        invariant
            from <= start <= end <= to <= s.len(),
            t == s@.subrange(from as int, to as int).take(end - from),
            skip_spaces(t, 0) == skip_spaces(t, start - from),
        decreases end - start,
    {
        assert(t[start - from] == s@[start as int]);
        start += 1;
    }
    proof {
        if start < end {
            assert(t[start - from] == s@[start as int]);
        }
        assert(skip_spaces(t, 0) == start - from);
        assert(s@.subrange(start as int, end as int) =~= t.skip(start - from));
    }
    (start, end)
}

} // verus!
