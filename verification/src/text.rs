//! Character-level helpers shared by the parsers: white space, trimming,
//! splitting into tokens, and moving between text and character sequences.
//!
//! Every position is a position in a sequence of characters, never a byte
//! offset.

use vstd::prelude::*;

verus! {

/// Whether `c` is white space (the Unicode `White_Space` property).
pub open spec fn is_space(c: char) -> bool {
    ||| c == ' '
    ||| '\t' <= c <= '\r'
    ||| c == '\u{85}'
    ||| c == '\u{a0}'
    ||| c == '\u{1680}'
    ||| '\u{2000}' <= c <= '\u{200a}'
    ||| c == '\u{2028}'
    ||| c == '\u{2029}'
    ||| c == '\u{202f}'
    ||| c == '\u{205f}'
    ||| c == '\u{3000}'
}

/// The first position at or after `from` that holds no white space, or the
/// length of `s` when only white space follows.
pub open spec fn skip_spaces(s: Seq<char>, from: int) -> int
    decreases s.len() - from,
{
    if 0 <= from < s.len() && is_space(s[from]) {
        skip_spaces(s, from + 1)
    } else {
        from
    }
}

/// The first position at or after `from` that holds white space, or the
/// length of `s` when none follows.
pub open spec fn skip_word(s: Seq<char>, from: int) -> int
    decreases s.len() - from,
{
    if 0 <= from < s.len() && !is_space(s[from]) {
        skip_word(s, from + 1)
    } else {
        from
    }
}

/// The end of `s` once the white space that precedes position `to` is cut
/// off: the least `b` such that only white space lies between `b` and `to`.
pub open spec fn drop_spaces_before(s: Seq<char>, to: int) -> int
    decreases to,
{
    if 0 < to <= s.len() && is_space(s[to - 1]) {
        drop_spaces_before(s, to - 1)
    } else {
        to
    }
}

/// The first position at or after `from` that holds `c`, or the length of
/// `s` when `c` does not follow.
pub open spec fn position_of(s: Seq<char>, c: char, from: int) -> int
    decreases s.len() - from,
{
    if 0 <= from < s.len() && s[from] != c {
        position_of(s, c, from + 1)
    } else {
        from
    }
}

/// `s` without the white space at its two ends.
pub open spec fn trimmed(s: Seq<char>) -> Seq<char> {
    let a = skip_spaces(s, 0);
    let b = drop_spaces_before(s, s.len() as int);
    if a < b {
        s.subrange(a, b)
    } else {
        Seq::empty()
    }
}

/// The tokens of `s` that start at or after `from`: the maximal runs of
/// characters that are not white space, in the order in which they occur.
///
/// A token starts at the first character `a` that is no white space and
/// ends where white space follows, at `b`. The bounds in the condition hold
/// whenever there is such a character; they are written out to show that
/// the positions move on.
pub open spec fn tokens_from(s: Seq<char>, from: int) -> Seq<Seq<char>>
    decreases s.len() - from,
{
    let a = skip_spaces(s, from);
    let b = skip_word(s, a);
    if from <= a < b <= s.len() {
        seq![s.subrange(a, b)] + tokens_from(s, b)
    } else {
        Seq::empty()
    }
}

/// The tokens of `s`.
pub open spec fn tokens(s: Seq<char>) -> Seq<Seq<char>> {
    tokens_from(s, 0)
}

/// `s` with every `from` turned into `to`.
pub open spec fn replaced(s: Seq<char>, from: char, to: char) -> Seq<char> {
    Seq::new(s.len(), |i: int| if s[i] == from { to } else { s[i] })
}

/// What several character vectors hold, each as a sequence.
pub open spec fn views(v: Seq<Vec<char>>) -> Seq<Seq<char>> {
    Seq::new(v.len(), |i: int| v[i]@)
}

/// What an optional text holds.
pub open spec fn text_of(r: Option<String>) -> Option<Seq<char>> {
    match r {
        Some(s) => Some(s@),
        None => None,
    }
}

/// `skip_spaces` stays within `s`, passes white space only, and stops at a
/// character that is none.
pub proof fn lemma_skip_spaces(s: Seq<char>, from: int)
    requires
        0 <= from <= s.len(),
    ensures
        from <= skip_spaces(s, from) <= s.len(),
        forall|k: int| from <= k < skip_spaces(s, from) ==> is_space(#[trigger] s[k]),
        skip_spaces(s, from) < s.len() ==> !is_space(s[skip_spaces(s, from)]),
    decreases s.len() - from,
{
    if from < s.len() && is_space(s[from]) {
        lemma_skip_spaces(s, from + 1);
    }
}

/// `skip_word` stays within `s`, passes no white space, and stops at white
/// space.
pub proof fn lemma_skip_word(s: Seq<char>, from: int)
    requires
        0 <= from <= s.len(),
    ensures
        from <= skip_word(s, from) <= s.len(),
        forall|k: int| from <= k < skip_word(s, from) ==> !is_space(#[trigger] s[k]),
        skip_word(s, from) < s.len() ==> is_space(s[skip_word(s, from)]),
        from < s.len() && !is_space(s[from]) ==> from < skip_word(s, from),
    decreases s.len() - from,
{
    if from < s.len() && !is_space(s[from]) {
        lemma_skip_word(s, from + 1);
    }
}

/// `drop_spaces_before` stays within `s`, cuts white space only, and stops
/// behind a character that is none.
pub proof fn lemma_drop_spaces_before(s: Seq<char>, to: int)
    requires
        0 <= to <= s.len(),
    ensures
        0 <= drop_spaces_before(s, to) <= to,
        forall|k: int| drop_spaces_before(s, to) <= k < to ==> is_space(#[trigger] s[k]),
        0 < drop_spaces_before(s, to) ==> !is_space(s[drop_spaces_before(s, to) - 1]),
    decreases to,
{
    if 0 < to && is_space(s[to - 1]) {
        lemma_drop_spaces_before(s, to - 1);
    }
}

/// `position_of` stays within `s`, passes no `c`, and stops at one.
pub proof fn lemma_position_of(s: Seq<char>, c: char, from: int)
    requires
        0 <= from <= s.len(),
    ensures
        from <= position_of(s, c, from) <= s.len(),
        forall|k: int| from <= k < position_of(s, c, from) ==> #[trigger] s[k] != c,
        position_of(s, c, from) < s.len() ==> s[position_of(s, c, from)] == c,
    decreases s.len() - from,
{
    if from < s.len() && s[from] != c {
        lemma_position_of(s, c, from + 1);
    }
}

/// Trimmed text neither starts nor ends with white space, and what was cut
/// off at either end is white space only.
pub proof fn lemma_trimmed(s: Seq<char>)
    ensures
        trimmed(s).len() > 0 ==> !is_space(trimmed(s).first()) && !is_space(trimmed(s).last()),
        exists|a: int, b: int|
            0 <= a <= b <= s.len() && trimmed(s) == #[trigger] s.subrange(a, b) && (forall|k: int|
                0 <= k < a ==> is_space(#[trigger] s[k])) && (forall|k: int|
                b <= k < s.len() ==> is_space(#[trigger] s[k])),
{
    let a = skip_spaces(s, 0);
    let b = drop_spaces_before(s, s.len() as int);
    lemma_skip_spaces(s, 0);
    lemma_drop_spaces_before(s, s.len() as int);
    if a < b {
        assert(trimmed(s) == s.subrange(a, b));
    } else {
        // Only white space: the empty range at the end of `s` is what is left.
        assert forall|k: int| 0 <= k < s.len() implies is_space(#[trigger] s[k]) by {
            if k >= a {
                assert(k >= b);
            }
        }
        let n = s.len() as int;
        assert(trimmed(s) =~= s.subrange(n, n));
    }
}

/// Every token is a run of one character or more, none of them white space.
pub proof fn lemma_tokens_are_words(s: Seq<char>, from: int)
    requires
        0 <= from <= s.len(),
    ensures
        forall|i: int, k: int|
            0 <= i < tokens_from(s, from).len() && 0 <= k < tokens_from(s, from)[i].len()
                ==> !is_space(#[trigger] tokens_from(s, from)[i][k]),
        forall|i: int|
            0 <= i < tokens_from(s, from).len() ==> (#[trigger] tokens_from(s, from)[i]).len() > 0,
    decreases s.len() - from,
{
    let a = skip_spaces(s, from);
    let b = skip_word(s, a);
    lemma_skip_spaces(s, from);
    lemma_skip_word(s, a);
    if a < b {
        lemma_tokens_are_words(s, b);
        let head = s.subrange(a, b);
        let rest = tokens_from(s, b);
        assert(tokens_from(s, from) == seq![head] + rest);
        assert forall|i: int, k: int|
            0 <= i < tokens_from(s, from).len() && 0 <= k < tokens_from(s, from)[i].len()
                implies !is_space(#[trigger] tokens_from(s, from)[i][k]) by {
            if i == 0 {
                assert(head[k] == s[a + k]);
            } else {
                assert(tokens_from(s, from)[i] == rest[i - 1]);
            }
        }
        assert forall|i: int| 0 <= i < tokens_from(s, from).len() implies (
        #[trigger] tokens_from(s, from)[i]).len() > 0 by {
            if i > 0 {
                assert(tokens_from(s, from)[i] == rest[i - 1]);
            }
        }
    }
}

/// Text has no token exactly where it holds white space only.
pub proof fn lemma_no_tokens(s: Seq<char>)
    ensures
        tokens(s).len() == 0 <==> forall|k: int| 0 <= k < s.len() ==> is_space(#[trigger] s[k]),
{
    let a = skip_spaces(s, 0);
    lemma_skip_spaces(s, 0);
    lemma_skip_word(s, a);
}

/// Tests a character for white space.
pub fn space(c: char) -> (r: bool)
    ensures
        r == is_space(c),
{
    c == ' '
        || ('\t' <= c && c <= '\r')
        || c == '\u{85}'
        || c == '\u{a0}'
        || c == '\u{1680}'
        || ('\u{2000}' <= c && c <= '\u{200a}')
        || c == '\u{2028}'
        || c == '\u{2029}'
        || c == '\u{202f}'
        || c == '\u{205f}'
        || c == '\u{3000}'
}

/// `String::push` appends one character and leaves the rest as it was.
pub assume_specification[ String::push ](s: &mut String, c: char)
    ensures
        final(s)@ == old(s)@.push(c),
;

/// The characters of `s`, in order.
pub fn to_chars(s: &str) -> (v: Vec<char>)
    ensures
        v@ == s@,
{
    let mut v: Vec<char> = Vec::new();
    for c in it: s.chars()
        invariant
            v@ == it.seq().take(it.index() as int),
    {
        v.push(c);
    }
    v
}

/// The text made of the characters of `v`.
pub fn from_chars(v: &[char]) -> (s: String)
    ensures
        s@ == v@,
{
    let mut s = String::new();
    let mut i: usize = 0;
    while i < v.len()
        invariant
            i <= v.len(),
            s@ == v@.take(i as int),
        decreases v.len() - i,
    {
        s.push(v[i]);
        i += 1;
    }
    s
}

/// The characters of `v` from position `from` up to, not including, `to`.
pub(crate) fn slice_chars(v: &[char], from: usize, to: usize) -> (r: Vec<char>)
    requires
        from <= to <= v.len(),
    ensures
        r@ == v@.subrange(from as int, to as int),
{
    let mut r: Vec<char> = Vec::new();
    let mut i: usize = from;
    while i < to
        invariant
            from <= i <= to <= v.len(),
            r@ == v@.subrange(from as int, i as int),
        decreases to - i,
    {
        r.push(v[i]);
        i += 1;
    }
    r
}

/// Whether `a` and `b` hold the same characters.
pub fn same_chars(a: &[char], b: &[char]) -> (r: bool)
    ensures
        r == (a@ == b@),
{
    if a.len() != b.len() {
        return false;
    }
    let mut i: usize = 0;
    while i < a.len()
        invariant
            i <= a.len() == b.len(),
            a@.take(i as int) == b@.take(i as int),
        decreases a.len() - i,
    {
        if a[i] != b[i] {
            return false;
        }
        assert(a@.take(i + 1) == a@.take(i as int).push(a@[i as int]));
        assert(b@.take(i + 1) == b@.take(i as int).push(b@[i as int]));
        i += 1;
    }
    assert(a@ == a@.take(a.len() as int));
    assert(b@ == b@.take(b.len() as int));
    true
}

/// Whether `a` and `b` are the same text.
pub fn same_text(a: &str, b: &str) -> (r: bool)
    ensures
        r == (a@ == b@),
{
    let x = to_chars(a);
    let y = to_chars(b);
    same_chars(x.as_slice(), y.as_slice())
}

/// Finds the first `c` at or after `from`.
pub(crate) fn find_char(v: &[char], c: char, from: usize) -> (r: usize)
    requires
        from <= v.len(),
    ensures
        r == position_of(v@, c, from as int),
        from <= r <= v.len(),
{
    let mut i: usize = from;
    while i < v.len() && v[i] != c
        invariant
            from <= i <= v.len(),
            position_of(v@, c, from as int) == position_of(v@, c, i as int),
        decreases v.len() - i,
    {
        i += 1;
    }
    i
}

/// Finds the first character at or after `from` that is no white space.
pub(crate) fn find_word(v: &[char], from: usize) -> (r: usize)
    requires
        from <= v.len(),
    ensures
        r == skip_spaces(v@, from as int),
        from <= r <= v.len(),
{
    let mut i: usize = from;
    while i < v.len() && space(v[i])
        invariant
            from <= i <= v.len(),
            skip_spaces(v@, from as int) == skip_spaces(v@, i as int),
        decreases v.len() - i,
    {
        i += 1;
    }
    i
}

/// Finds the first white space at or after `from`.
pub(crate) fn find_space(v: &[char], from: usize) -> (r: usize)
    requires
        from <= v.len(),
    ensures
        r == skip_word(v@, from as int),
        from <= r <= v.len(),
{
    let mut i: usize = from;
    while i < v.len() && !space(v[i])
        invariant
            from <= i <= v.len(),
            skip_word(v@, from as int) == skip_word(v@, i as int),
        decreases v.len() - i,
    {
        i += 1;
    }
    i
}

/// Finds where `v` ends once the white space before `to` is cut off.
pub(crate) fn find_end(v: &[char], to: usize) -> (r: usize)
    requires
        to <= v.len(),
    ensures
        r == drop_spaces_before(v@, to as int),
        r <= to,
{
    let mut i: usize = to;
    while i > 0 && space(v[i - 1])
        invariant
            i <= to <= v.len(),
            drop_spaces_before(v@, to as int) == drop_spaces_before(v@, i as int),
        decreases i,
    {
        i -= 1;
    }
    i
}

/// Cuts the white space off both ends of `v`.
pub fn trim(v: &[char]) -> (r: Vec<char>)
    ensures
        r@ == trimmed(v@),
{
    let a = find_word(v, 0);
    let b = find_end(v, v.len());
    if a < b {
        slice_chars(v, a, b)
    } else {
        Vec::new()
    }
}

/// Turns every `from` in `v` into `to`.
pub fn replace(v: &[char], from: char, to: char) -> (r: Vec<char>)
    ensures
        r@ == replaced(v@, from, to),
{
    let mut r: Vec<char> = Vec::new();
    let mut i: usize = 0;
    while i < v.len()
        invariant
            i <= v.len(),
            r@ == replaced(v@, from, to).take(i as int),
        decreases v.len() - i,
    {
        let c = v[i];
        r.push(if c == from { to } else { c });
        i += 1;
    }
    r
}

/// Splits `v` at white space.
pub fn split(v: &[char]) -> (r: Vec<Vec<char>>)
    ensures
        views(r@) == tokens(v@),
{
    let mut r: Vec<Vec<char>> = Vec::new();
    let mut i: usize = 0;
    loop
        invariant
            i <= v.len(),
            tokens(v@) == views(r@) + tokens_from(v@, i as int),
        ensures
            tokens(v@) == views(r@),
        decreases v.len() - i,
    {
        let a = find_word(v, i);
        if a >= v.len() {
            assert(tokens_from(v@, i as int) == Seq::<Seq<char>>::empty());
            break;
        }
        let b = find_space(v, a);
        proof {
            lemma_skip_spaces(v@, i as int);
            lemma_skip_word(v@, a as int);
        }
        let token = slice_chars(v, a, b);
        proof {
            assert(views(r@.push(token)) == views(r@) + seq![v@.subrange(a as int, b as int)]);
        }
        r.push(token);
        i = b;
    }
    r
}

} // verus!
