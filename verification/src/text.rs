//! Text as sequences of characters.
//!
//! The components of this crate edit, split and scan text. Their contracts are
//! stated over `Seq<char>`, the view of `str` and `String`; this module holds
//! the vocabulary those contracts share (whitespace trimming, line splitting,
//! substring search, UTF-8 byte offsets, decimal numbers) together with the
//! executable functions that compute each notion on a `Vec<char>`.
//!
//! Four properties of characters come from the standard library's Unicode
//! tables and are not defined here: whether a character is whitespace, whether
//! it is alphanumeric, and the upper- and lower-case forms of a text. They are
//! spec functions without a body, and the only thing assumed of them is that
//! the standard library computes them.

use vstd::prelude::*;

verus! {

/// Whether `c` has the Unicode `White_Space` property, as `char::is_whitespace`
/// reports it.
pub uninterp spec fn is_space(c: char) -> bool;

/// Whether `c` is alphabetic or numeric in Unicode's sense, as
/// `char::is_alphanumeric` reports it.
pub uninterp spec fn is_alnum(c: char) -> bool;

/// The upper-case form of a text, as `str::to_uppercase` computes it.
pub uninterp spec fn uppercase(s: Seq<char>) -> Seq<char>;

/// The lower-case form of a text, as `str::to_lowercase` computes it.
pub uninterp spec fn lowercase(s: Seq<char>) -> Seq<char>;

/// `char::is_whitespace` of the standard library. Assumed: its answer depends
/// on the character alone, and is what `is_space` names.
pub assume_specification[ char::is_whitespace ](c: char) -> (b: bool)
    ensures
        b == is_space(c),
;

/// `char::is_alphanumeric` of the standard library. Assumed: its answer
/// depends on the character alone, and is what `is_alnum` names.
pub assume_specification[ char::is_alphanumeric ](c: char) -> (b: bool)
    ensures
        b == is_alnum(c),
;

/// `str::to_uppercase` of the standard library. Assumed: the result depends on
/// the characters of the argument alone, and is what `uppercase` names.
pub assume_specification[ str::to_uppercase ](s: &str) -> (r: String)
    ensures
        r@ == uppercase(s@),
;

/// `str::to_lowercase` of the standard library. Assumed: the result depends on
/// the characters of the argument alone, and is what `lowercase` names.
pub assume_specification[ str::to_lowercase ](s: &str) -> (r: String)
    ensures
        r@ == lowercase(s@),
;

/// `String::push` of the standard library. Assumed: it appends the character
/// to the end of the string and changes nothing else.
pub assume_specification[ String::push ](s: &mut String, c: char)
    ensures
        final(s)@ == old(s)@.push(c),
;

/// The characters of `s`, in order.
pub fn chars_of(s: &str) -> (v: Vec<char>)
    ensures
        v@ == s@,
{
    let mut v: Vec<char> = Vec::new();
    for c in it: s.chars()
        invariant
            it.seq() == s@,
            v@ == it.seq().take(it.index() as int),
    {
        v.push(c);
    }
    v
}

/// The string that holds the characters `v[from..to]`.
pub fn string_of_range(v: &Vec<char>, from: usize, to: usize) -> (s: String)
    requires
        from <= to <= v.len(),
    ensures
        s@ == v@.subrange(from as int, to as int),
{
    let mut s = String::new();
    let mut i: usize = from;
    while i < to
        invariant
            from <= i <= to <= v.len(),
            s@ == v@.subrange(from as int, i as int),
        decreases to - i,
    {
        s.push(v[i]);
        i += 1;
    }
    s
}

/// The string that holds the characters of `v`.
pub fn string_of(v: &Vec<char>) -> (s: String)
    ensures
        s@ == v@,
{
    let s = string_of_range(v, 0, v.len());
    assert(v@.subrange(0, v@.len() as int) =~= v@);
    s
}

/// Whether two texts hold the same characters.
pub fn same_text(a: &str, b: &str) -> (r: bool)
    ensures
        r == (a@ == b@),
{
    let x = chars_of(a);
    let y = chars_of(b);
    if x.len() != y.len() {
        return false;
    }
    let mut i: usize = 0;
    while i < x.len()
        invariant
            x@ == a@,
            y@ == b@,
            x.len() == y.len(),
            i <= x.len(),
            x@.take(i as int) == y@.take(i as int),
        decreases x.len() - i,
    {
        if x[i] != y[i] {
            assert(a@[i as int] != b@[i as int]);
            return false;
        }
        assert(x@.take(i as int + 1) =~= x@.take(i as int).push(x@[i as int]));
        assert(y@.take(i as int + 1) =~= y@.take(i as int).push(y@[i as int]));
        i += 1;
    }
    assert(x@ =~= x@.take(x@.len() as int));
    assert(y@ =~= y@.take(y@.len() as int));
    true
}

/// Appends the characters of `s` to `v`.
pub fn push_str(v: &mut Vec<char>, s: &str)
    ensures
        final(v)@ == old(v)@ + s@,
{
    for c in it: s.chars()
        invariant
            it.seq() == s@,
            v@ == old(v)@ + it.seq().take(it.index() as int),
    {
        v.push(c);
    }
}

/// Appends the characters `src[from..to]` to `v`.
pub fn push_range(v: &mut Vec<char>, src: &Vec<char>, from: usize, to: usize)
    requires
        from <= to <= src.len(),
    ensures
        final(v)@ == old(v)@ + src@.subrange(from as int, to as int),
{
    let mut i: usize = from;
    while i < to
        invariant
            from <= i <= to <= src.len(),
            v@ == old(v)@ + src@.subrange(from as int, i as int),
        decreases to - i,
    {
        v.push(src[i]);
        i += 1;
    }
}

/// The first index at or after `i` whose character is not whitespace, or the
/// length of `s` if only whitespace follows.
pub open spec fn skip_whitespace(s: Seq<char>, i: int) -> int
    decreases s.len() - i,
{
    if 0 <= i < s.len() && is_space(s[i]) {
        skip_whitespace(s, i + 1)
    } else {
        i
    }
}

/// The end of `s[lo..hi]` once the whitespace at its end is left out.
pub open spec fn skip_whitespace_back(s: Seq<char>, lo: int, hi: int) -> int
    decreases hi,
{
    if 0 <= lo < hi <= s.len() && is_space(s[hi - 1]) {
        skip_whitespace_back(s, lo, hi - 1)
    } else {
        hi
    }
}

/// `s` without the whitespace at its start and at its end.
pub open spec fn trim(s: Seq<char>) -> Seq<char> {
    let a = skip_whitespace(s, 0);
    s.subrange(a, skip_whitespace_back(s, a, s.len() as int))
}

/// Whether `s` holds nothing but whitespace.
pub open spec fn is_blank(s: Seq<char>) -> bool {
    trim(s).len() == 0
}

/// `skip_whitespace` stays inside the text and only passes whitespace.
pub proof fn lemma_skip_whitespace(s: Seq<char>, i: int)
    requires
        0 <= i <= s.len(),
    ensures
        i <= skip_whitespace(s, i) <= s.len(),
        forall|j: int| i <= j < skip_whitespace(s, i) ==> is_space(#[trigger] s[j]),
        skip_whitespace(s, i) < s.len() ==> !is_space(s[skip_whitespace(s, i)]),
    decreases s.len() - i,
{
    if i < s.len() && is_space(s[i]) {
        lemma_skip_whitespace(s, i + 1);
    }
}

/// `skip_whitespace_back` stays inside `lo..hi` and only passes whitespace.
pub proof fn lemma_skip_whitespace_back(s: Seq<char>, lo: int, hi: int)
    requires
        0 <= lo <= hi <= s.len(),
    ensures
        lo <= skip_whitespace_back(s, lo, hi) <= hi,
        forall|j: int|
            skip_whitespace_back(s, lo, hi) <= j < hi ==> is_space(#[trigger] s[j]),
        lo < skip_whitespace_back(s, lo, hi) ==> !is_space(
            s[skip_whitespace_back(s, lo, hi) - 1],
        ),
    decreases hi,
{
    if lo < hi && is_space(s[hi - 1]) {
        lemma_skip_whitespace_back(s, lo, hi - 1);
    }
}

/// The bounds of `trim(v)` inside `v`.
pub fn trim_bounds(v: &Vec<char>) -> (r: (usize, usize))
    ensures
        r.0 == skip_whitespace(v@, 0),
        r.1 == skip_whitespace_back(v@, r.0 as int, v@.len() as int),
        r.0 <= r.1 <= v.len(),
        v@.subrange(r.0 as int, r.1 as int) == trim(v@),
{
    let n: usize = v.len();
    let mut a: usize = 0;
    while a < n && v[a].is_whitespace()
        invariant
            n == v.len(),
            a <= n,
            skip_whitespace(v@, a as int) == skip_whitespace(v@, 0),
        decreases n - a,
    {
        a += 1;
    }
    let mut b: usize = n;
    while a < b && v[b - 1].is_whitespace()
        invariant
            n == v.len(),
            a <= b <= n,
            skip_whitespace_back(v@, a as int, b as int) == skip_whitespace_back(
                v@,
                a as int,
                n as int,
            ),
        decreases b,
    {
        b -= 1;
    }
    (a, b)
}

/// `trim(v)` as a vector of its own.
pub fn trimmed(v: &Vec<char>) -> (r: Vec<char>)
    ensures
        r@ == trim(v@),
{
    let (a, b) = trim_bounds(v);
    let mut r: Vec<char> = Vec::new();
    push_range(&mut r, v, a, b);
    assert(r@ =~= v@.subrange(a as int, b as int));
    r
}

/// `line` without one `'\r'` at its end.
pub open spec fn strip_carriage_return(line: Seq<char>) -> Seq<char> {
    if line.len() > 0 && line.last() == '\r' {
        line.drop_last()
    } else {
        line
    }
}

/// The lines of `s[start..]`, given that `s[start..i]` holds no `'\n'`.
///
/// The text is cut after each `'\n'`. A line that ends in `'\n'` loses it, and
/// a `'\r'` just before it. What follows the last `'\n'` is a line only if it
/// is not empty, and keeps a `'\r'` at its end.
pub open spec fn lines_from(s: Seq<char>, start: int, i: int) -> Seq<Seq<char>>
    decreases s.len() - i,
{
    if 0 <= start <= i < s.len() {
        if s[i] == '\n' {
            seq![strip_carriage_return(s.subrange(start, i))] + lines_from(s, i + 1, i + 1)
        } else {
            lines_from(s, start, i + 1)
        }
    } else if 0 <= start < i == s.len() {
        seq![s.subrange(start, i)]
    } else {
        Seq::empty()
    }
}

/// The lines of `s`, as `str::lines` yields them.
pub open spec fn lines(s: Seq<char>) -> Seq<Seq<char>> {
    lines_from(s, 0, 0)
}

/// The views of the vectors in `v`, in order.
pub open spec fn rows(v: Seq<Vec<char>>) -> Seq<Seq<char>> {
    v.map_values(|r: Vec<char>| r@)
}

/// Splits `v` into its lines.
pub fn split_lines(v: &Vec<char>) -> (out: Vec<Vec<char>>)
    ensures
        rows(out@) == lines(v@),
{
    let n: usize = v.len();
    let mut out: Vec<Vec<char>> = Vec::new();
    let mut start: usize = 0;
    let mut i: usize = 0;
    assert(rows(out@) + lines_from(v@, 0, 0) =~= lines(v@));
    while i < n
        invariant
            n == v.len(),
            start <= i <= n,
            rows(out@) + lines_from(v@, start as int, i as int) == lines(v@),
        decreases n - i,
    {
        if v[i] == '\n' {
            let stop: usize = if i > start && v[i - 1] == '\r' {
                i - 1
            } else {
                i
            };
            let ghost before = out@;
            let mut line: Vec<char> = Vec::new();
            push_range(&mut line, v, start, stop);
            proof {
                assert(line@ =~= strip_carriage_return(v@.subrange(start as int, i as int)));
            }
            out.push(line);
            proof {
                assert(rows(out@) =~= rows(before).push(line@));
                assert(rows(out@) + lines_from(v@, i as int + 1, i as int + 1) =~= rows(before)
                    + lines_from(v@, start as int, i as int));
            }
            start = i + 1;
        }
        i += 1;
    }
    if start < n {
        let ghost before = out@;
        let mut line: Vec<char> = Vec::new();
        push_range(&mut line, v, start, n);
        assert(line@ =~= v@.subrange(start as int, n as int));
        out.push(line);
        assert(rows(out@) =~= rows(before).push(line@));
        assert(rows(out@) =~= rows(before) + lines_from(v@, start as int, n as int));
    } else {
        assert(rows(out@) + lines_from(v@, start as int, n as int) =~= rows(out@));
    }
    out
}

/// Whether `s` starts with `p`.
pub open spec fn has_prefix(s: Seq<char>, p: Seq<char>) -> bool {
    p.len() <= s.len() && s.subrange(0, p.len() as int) == p
}

/// Whether `p` stands in `s` at index `i`.
pub open spec fn occurs_at(s: Seq<char>, p: Seq<char>, i: int) -> bool {
    0 <= i && i + p.len() <= s.len() && s.subrange(i, i + p.len()) == p
}

/// The first index at or after `i` where `p` stands in `s`.
pub open spec fn first_occurrence(s: Seq<char>, p: Seq<char>, i: int) -> Option<int>
    decreases s.len() + 1 - i,
{
    if 0 <= i <= s.len() - p.len() {
        if occurs_at(s, p, i) {
            Some(i)
        } else {
            first_occurrence(s, p, i + 1)
        }
    } else {
        None
    }
}

/// The first index where `p` stands in `s`, as `str::find` reports it in
/// characters.
pub open spec fn find(s: Seq<char>, p: Seq<char>) -> Option<int> {
    first_occurrence(s, p, 0)
}

/// `first_occurrence` finds an occurrence, and none stands before it.
pub proof fn lemma_first_occurrence(s: Seq<char>, p: Seq<char>, i: int)
    requires
        0 <= i,
    ensures
        match first_occurrence(s, p, i) {
            Some(k) => i <= k && occurs_at(s, p, k) && forall|j: int|
                i <= j < k ==> !occurs_at(s, p, j),
            None => forall|j: int| i <= j ==> !occurs_at(s, p, j),
        },
    decreases s.len() + 1 - i,
{
    if i + p.len() <= s.len() && !occurs_at(s, p, i) {
        lemma_first_occurrence(s, p, i + 1);
    }
}

/// Whether `p` stands in `v` at index `i`.
pub fn occurs_here(v: &Vec<char>, p: &Vec<char>, i: usize) -> (r: bool)
    ensures
        r == occurs_at(v@, p@, i as int),
{
    if p.len() > v.len() || i > v.len() - p.len() {
        return false;
    }
    let mut j: usize = 0;
    while j < p.len()
        invariant
            i + p.len() <= v.len(),
            j <= p.len(),
            v@.subrange(i as int, i + j) == p@.take(j as int),
        decreases p.len() - j,
    {
        if v[i + j] != p[j] {
            assert(v@.subrange(i as int, i + p.len())[j as int] != p@[j as int]);
            return false;
        }
        assert(v@.subrange(i as int, i + j + 1) =~= v@.subrange(i as int, i + j).push(
            v@[i + j],
        ));
        assert(p@.take(j as int + 1) =~= p@.take(j as int).push(p@[j as int]));
        j += 1;
    }
    assert(p@.take(p@.len() as int) =~= p@);
    true
}

/// Whether `v` starts with `p`.
pub fn starts_with(v: &Vec<char>, p: &str) -> (r: bool)
    ensures
        r == has_prefix(v@, p@),
{
    let pat = chars_of(p);
    occurs_here(v, &pat, 0)
}

/// The first index where `p` stands in `v`.
pub fn find_text(v: &Vec<char>, p: &Vec<char>) -> (r: Option<usize>)
    ensures
        match r {
            Some(k) => find(v@, p@) == Some(k as int) && k + p@.len() <= v@.len(),
            None => find(v@, p@) is None,
        },
{
    if p.len() > v.len() {
        return None;
    }
    let last: usize = v.len() - p.len();
    let mut i: usize = 0;
    loop
        invariant
            last == v.len() - p.len(),
            i <= last,
            first_occurrence(v@, p@, i as int) == find(v@, p@),
        decreases last - i,
    {
        if occurs_here(v, p, i) {
            return Some(i);
        }
        if i == last {
            assert(first_occurrence(v@, p@, i as int + 1) is None);
            return None;
        }
        i += 1;
    }
}

/// How many bytes the UTF-8 encoding of `c` takes.
pub open spec fn utf8_width(c: char) -> nat {
    let n = c as u32;
    if n < 0x80 {
        1
    } else if n < 0x800 {
        2
    } else if n < 0x10000 {
        3
    } else {
        4
    }
}

/// How many bytes the UTF-8 encoding of `s` takes: the length that `str::len`
/// reports.
pub open spec fn byte_len(s: Seq<char>) -> nat
    decreases s.len(),
{
    if s.len() == 0 {
        0
    } else {
        byte_len(s.drop_last()) + utf8_width(s.last())
    }
}

/// The byte offset at which the character with index `k` starts.
pub open spec fn byte_offset(s: Seq<char>, k: int) -> nat {
    byte_len(s.take(k))
}

/// The index reached from `k` by passing whole characters that together take
/// no more than `budget` bytes.
pub open spec fn chars_within(s: Seq<char>, k: int, budget: int) -> int
    decreases s.len() - k,
{
    if 0 <= k < s.len() && utf8_width(s[k]) <= budget {
        chars_within(s, k + 1, budget - utf8_width(s[k]))
    } else {
        k
    }
}

/// The index of the character that the byte offset `pos` falls on or into;
/// the length of `s` if `pos` lies at or behind its end.
pub open spec fn char_index(s: Seq<char>, pos: int) -> int {
    chars_within(s, 0, pos)
}

/// Whether a character of `s` starts at the byte offset `pos`, or `s` ends
/// there.
pub open spec fn is_boundary(s: Seq<char>, pos: int) -> bool {
    byte_offset(s, char_index(s, pos)) == pos
}

/// The byte length of a text is the sum of the byte lengths of its parts.
pub proof fn lemma_byte_len_concat(a: Seq<char>, b: Seq<char>)
    ensures
        byte_len(a + b) == byte_len(a) + byte_len(b),
    decreases b.len(),
{
    if b.len() == 0 {
        assert(a + b =~= a);
    } else {
        lemma_byte_len_concat(a, b.drop_last());
        assert((a + b).drop_last() =~= a + b.drop_last());
        assert((a + b).last() == b.last());
    }
}

/// Byte offsets grow with the index, by the width of each character passed.
pub proof fn lemma_byte_offset_step(s: Seq<char>, k: int)
    requires
        0 <= k < s.len(),
    ensures
        byte_offset(s, k + 1) == byte_offset(s, k) + utf8_width(s[k]),
        byte_offset(s, 0) == 0,
{
    assert(s.take(k + 1).drop_last() =~= s.take(k));
    assert(s.take(k + 1).last() == s[k]);
    assert(s.take(0) =~= Seq::<char>::empty());
}

/// Byte offsets are monotonic in the index.
pub proof fn lemma_byte_offset_monotonic(s: Seq<char>, i: int, j: int)
    requires
        0 <= i <= j <= s.len(),
    ensures
        byte_offset(s, i) <= byte_offset(s, j),
        i < j ==> byte_offset(s, i) < byte_offset(s, j),
    decreases j - i,
{
    if i < j {
        lemma_byte_offset_monotonic(s, i, j - 1);
        lemma_byte_offset_step(s, j - 1);
    }
}

/// `chars_within` stops at the last character boundary inside the budget.
pub proof fn lemma_chars_within(s: Seq<char>, k: int, budget: int)
    requires
        0 <= k <= s.len(),
        0 <= budget,
    ensures
        k <= chars_within(s, k, budget) <= s.len(),
        byte_offset(s, chars_within(s, k, budget)) <= byte_offset(s, k) + budget,
        chars_within(s, k, budget) < s.len() ==> byte_offset(s, chars_within(s, k, budget) + 1)
            > byte_offset(s, k) + budget,
    decreases s.len() - k,
{
    if k < s.len() {
        lemma_byte_offset_step(s, k);
        if utf8_width(s[k]) <= budget {
            lemma_chars_within(s, k + 1, budget - utf8_width(s[k]));
        }
    }
}

/// The start of every character, and the end of the text, is a boundary, and
/// `char_index` finds the character back from its offset.
pub proof fn lemma_offset_is_boundary(s: Seq<char>, k: int)
    requires
        0 <= k <= s.len(),
    ensures
        char_index(s, byte_offset(s, k) as int) == k,
        is_boundary(s, byte_offset(s, k) as int),
{
    let pos = byte_offset(s, k) as int;
    lemma_byte_offset_step_zero(s);
    lemma_chars_within(s, 0, pos);
    let found = char_index(s, pos);
    if found < k {
        lemma_byte_offset_monotonic(s, found + 1, k);
    } else if found > k {
        lemma_byte_offset_monotonic(s, k, found);
    }
}

/// The first character starts at offset 0.
pub proof fn lemma_byte_offset_step_zero(s: Seq<char>)
    ensures
        byte_offset(s, 0) == 0,
{
    assert(s.take(0) =~= Seq::<char>::empty());
}

/// `byte_len` is the length of the UTF-8 encoding.
pub proof fn lemma_byte_len_encoded(s: Seq<char>)
    ensures
        vstd::utf8::encode_utf8(s).len() == byte_len(s),
    decreases s.len(),
{
    if s.len() > 0 {
        let c = s[0];
        lemma_byte_len_encoded(s.drop_first());
        lemma_byte_len_concat(seq![c], s.drop_first());
        assert(seq![c] + s.drop_first() =~= s);
        assert(seq![c].drop_last() =~= Seq::<char>::empty());
        assert(byte_len(seq![c].drop_last()) == 0);
        assert(seq![c].last() == c);
        assert(byte_len(seq![c]) == utf8_width(c));
        vstd::utf8::char_is_scalar(c);
        assert(vstd::utf8::is_scalar(c as u32));
        assert(vstd::utf8::encode_scalar(c as u32).len() == utf8_width(c));
    }
}

/// How many bytes the UTF-8 encoding of `c` takes.
pub fn width_of(c: char) -> (w: usize)
    ensures
        w == utf8_width(c),
{
    let n: u32 = c as u32;
    if n < 0x80 {
        1
    } else if n < 0x800 {
        2
    } else if n < 0x10000 {
        3
    } else {
        4
    }
}

/// The length of `s` in bytes.
pub fn byte_length(s: &str) -> (n: usize)
    ensures
        n == byte_len(s@),
{
    proof {
        lemma_byte_len_encoded(s@);
    }
    s.as_bytes().len()
}

/// The index of the character that the byte offset `pos` falls on or into,
/// and whether `pos` is a boundary.
pub fn locate(v: &Vec<char>, pos: usize) -> (r: (usize, bool))
    ensures
        r.0 == char_index(v@, pos as int),
        r.0 <= v.len(),
        r.1 == is_boundary(v@, pos as int),
        byte_offset(v@, r.0 as int) <= pos,
{
    let n: usize = v.len();
    let mut k: usize = 0;
    let mut acc: usize = 0;
    proof {
        lemma_byte_offset_step_zero(v@);
    }
    while k < n && width_of(v[k]) <= pos - acc
        invariant
            n == v.len(),
            k <= n,
            acc <= pos,
            acc == byte_offset(v@, k as int),
            chars_within(v@, k as int, pos - acc) == char_index(v@, pos as int),
        decreases n - k,
    {
        proof {
            lemma_byte_offset_step(v@, k as int);
        }
        acc += width_of(v[k]);
        k += 1;
    }
    (k, acc == pos)
}

/// The byte offset at which the character with index `k` starts.
pub fn offset_of(v: &Vec<char>, k: usize) -> (pos: usize)
    requires
        k <= v.len(),
        byte_len(v@) <= usize::MAX,
    ensures
        pos == byte_offset(v@, k as int),
{
    let mut i: usize = 0;
    let mut acc: usize = 0;
    proof {
        lemma_byte_offset_step_zero(v@);
    }
    while i < k
        invariant
            i <= k <= v.len(),
            acc == byte_offset(v@, i as int),
            byte_len(v@) <= usize::MAX,
        decreases k - i,
    {
        proof {
            lemma_byte_offset_step(v@, i as int);
            lemma_byte_offset_monotonic(v@, i as int + 1, v@.len() as int);
            assert(v@.take(v@.len() as int) =~= v@);
        }
        acc += width_of(v[i]);
        i += 1;
    }
    acc
}

/// Whether `c` is one of the digits `0` to `9`.
pub open spec fn is_digit(c: char) -> bool {
    0x30 <= c as u32 <= 0x39
}

/// The value of the digit `c`.
pub open spec fn digit_value(c: char) -> nat
    recommends
        is_digit(c),
{
    (c as u32 - 0x30) as nat
}

/// The digit whose value is `d`.
pub open spec fn digit_char(d: nat) -> char
    recommends
        d < 10,
{
    (d + 0x30) as u8 as char
}

/// Whether `s` holds digits only.
pub open spec fn all_digits(s: Seq<char>) -> bool {
    forall|i: int| 0 <= i < s.len() ==> is_digit(#[trigger] s[i])
}

/// The number that the digits of `s` denote in base ten.
pub open spec fn decimal_value(s: Seq<char>) -> nat
    decreases s.len(),
{
    if s.len() == 0 {
        0
    } else {
        decimal_value(s.drop_last()) * 10 + digit_value(s.last())
    }
}

/// `s` without a `+` at its start.
pub open spec fn unsigned_part(s: Seq<char>) -> Seq<char> {
    if s.len() > 0 && s[0] == '+' {
        s.drop_first()
    } else {
        s
    }
}

/// The number that `s` denotes, as `str::parse::<usize>` reads it: an
/// optional `+`, then one digit or more and nothing else, with a value that a
/// `usize` can hold.
pub open spec fn parse_usize(s: Seq<char>) -> Option<usize> {
    let digits = unsigned_part(s);
    if digits.len() > 0 && all_digits(digits) && decimal_value(digits) <= usize::MAX {
        Some(decimal_value(digits) as usize)
    } else {
        None
    }
}

/// The digits of `n` in base ten, without leading zeros.
pub open spec fn decimal(n: nat) -> Seq<char>
    decreases n,
{
    if n < 10 {
        seq![digit_char(n)]
    } else {
        decimal(n / 10).push(digit_char(n % 10))
    }
}

/// The value of a text of digits is no less than the value of each of its
/// prefixes.
pub proof fn lemma_decimal_value_prefix(s: Seq<char>, k: int)
    requires
        0 <= k <= s.len(),
    ensures
        decimal_value(s.take(k)) <= decimal_value(s),
    decreases s.len() - k,
{
    if k < s.len() {
        lemma_decimal_value_prefix(s, k + 1);
        assert(s.take(k + 1).drop_last() =~= s.take(k));
    } else {
        assert(s.take(k) =~= s);
    }
}

/// The digits of a number are digits, and denote that number.
pub proof fn lemma_decimal(n: nat)
    ensures
        decimal(n).len() > 0,
        all_digits(decimal(n)),
        decimal_value(decimal(n)) == n,
    decreases n,
{
    if n < 10 {
        let s = seq![digit_char(n)];
        assert(is_digit(s[0]));
        assert(s.drop_last() =~= Seq::<char>::empty());
        assert(decimal_value(s.drop_last()) == 0);
        assert(digit_value(s.last()) == n);
    } else {
        lemma_decimal(n / 10);
        let s = decimal(n / 10).push(digit_char(n % 10));
        assert(s.drop_last() =~= decimal(n / 10));
        assert(is_digit(digit_char(n % 10)));
        assert(digit_value(s.last()) == n % 10);
        assert forall|i: int| 0 <= i < s.len() implies is_digit(#[trigger] s[i]) by {
            if i < s.len() - 1 {
                assert(s[i] == decimal(n / 10)[i]);
            }
        }
    }
}

/// Reading the digits of a number gives the number back.
pub proof fn lemma_parse_decimal(n: usize)
    ensures
        parse_usize(decimal(n as nat)) == Some(n),
{
    lemma_decimal(n as nat);
    let s = decimal(n as nat);
    assert(is_digit(s[0]));
    assert(unsigned_part(s) == s);
}

/// The number that `v` denotes, if it is an optional `+` and then digits
/// whose value a `usize` can hold.
pub fn parse_number(v: &Vec<char>) -> (r: Option<usize>)
    ensures
        r == parse_usize(v@),
{
    let n: usize = v.len();
    let start: usize = if n > 0 && v[0] == '+' {
        1
    } else {
        0
    };
    let ghost digits = unsigned_part(v@);
    assert(digits =~= v@.skip(start as int));
    if start == n {
        return None;
    }
    let mut acc: usize = 0;
    let mut i: usize = start;
    assert(digits.take(0) =~= Seq::<char>::empty());
    while i < n
        invariant
            n == v.len(),
            start <= i <= n,
            digits == v@.skip(start as int),
            digits == unsigned_part(v@),
            all_digits(digits.take(i - start)),
            acc == decimal_value(digits.take(i - start)),
        decreases n - i,
    {
        let c: u32 = v[i] as u32;
        let ghost next = digits.take(i - start + 1);
        proof {
            assert(next.drop_last() =~= digits.take(i - start));
            assert(next.last() == v@[i as int]);
        }
        if c < 0x30 || c > 0x39 {
            assert(!is_digit(digits[i - start]));
            return None;
        }
        let d: usize = (c - 0x30) as usize;
        proof {
            lemma_decimal_value_prefix(digits, i - start + 1);
            assert(decimal_value(next) == acc * 10 + d);
        }
        if acc > (usize::MAX - d) / 10 {
            return None;
        }
        acc = acc * 10 + d;
        proof {
            assert forall|j: int| 0 <= j < next.len() implies is_digit(#[trigger] next[j]) by {
                if j < next.len() - 1 {
                    assert(next[j] == digits.take(i - start)[j]);
                }
            }
        }
        i += 1;
    }
    assert(digits.take(n - start) =~= digits);
    Some(acc)
}

/// Appends the digits of `n` in base ten to `out`.
pub fn push_decimal(out: &mut Vec<char>, n: usize)
    ensures
        final(out)@ == old(out)@ + decimal(n as nat),
    decreases n,
{
    if n >= 10 {
        push_decimal(out, n / 10);
    }
    let d: u8 = (n % 10) as u8;
    out.push((d + 0x30) as char);
    proof {
        if n >= 10 {
            assert(out@ =~= old(out)@ + decimal(n as nat / 10).push(digit_char(n as nat % 10)));
        } else {
            assert(out@ =~= old(out)@ + seq![digit_char(n as nat)]);
        }
    }
}

/// Appends the digits of `n` in base ten to `out`.
pub fn push_decimal_u64(out: &mut Vec<char>, n: u64)
    ensures
        final(out)@ == old(out)@ + decimal(n as nat),
    decreases n,
{
    if n >= 10 {
        push_decimal_u64(out, n / 10);
    }
    let d: u8 = (n % 10) as u8;
    out.push((d + 0x30) as char);
    proof {
        if n >= 10 {
            assert(out@ =~= old(out)@ + decimal(n as nat / 10).push(digit_char(n as nat % 10)));
        } else {
            assert(out@ =~= old(out)@ + seq![digit_char(n as nat)]);
        }
    }
}

/// `s` with every `from` replaced by `to`.
pub open spec fn replaced(s: Seq<char>, from: char, to: Seq<char>) -> Seq<char>
    decreases s.len(),
{
    if s.len() == 0 {
        Seq::empty()
    } else {
        replaced(s.drop_last(), from, to) + if s.last() == from {
            to
        } else {
            seq![s.last()]
        }
    }
}

/// Appends `s` to `out`, with every `from` replaced by `to`.
pub fn push_replaced(out: &mut Vec<char>, s: &str, from: char, to: &str)
    ensures
        final(out)@ == old(out)@ + replaced(s@, from, to@),
{
    let v = chars_of(s);
    let mut i: usize = 0;
    assert(v@.take(0) =~= Seq::<char>::empty());
    while i < v.len()
        invariant
            i <= v.len(),
            v@ == s@,
            out@ == old(out)@ + replaced(v@.take(i as int), from, to@),
        decreases v.len() - i,
    {
        let ghost before = out@;
        let ghost done = replaced(v@.take(i as int), from, to@);
        assert(v@.take(i as int + 1).drop_last() =~= v@.take(i as int));
        if v[i] == from {
            push_str(out, to);
            assert(out@ =~= old(out)@ + (done + to@));
        } else {
            out.push(v[i]);
            assert(out@ =~= old(out)@ + (done + seq![v@[i as int]]));
        }
        i += 1;
    }
    assert(v@.take(v@.len() as int) =~= v@);
}

/// Whether `s` can be cut down for display: it is short enough to be shown
/// whole, or a character starts at the byte offset `keep`.
pub open spec fn clip_ok(s: Seq<char>, limit: usize, keep: usize) -> bool {
    byte_len(s) > limit ==> is_boundary(s, keep as int)
}

/// `s` as it is displayed in a narrow place: a text of more than `limit`
/// bytes is cut down to its first `keep` bytes, and three dots follow.
pub open spec fn clipped(s: Seq<char>, limit: usize, keep: usize) -> Seq<char> {
    if byte_len(s) > limit {
        s.take(char_index(s, keep as int)) + "..."@
    } else {
        s
    }
}

/// `text` cut down for display, if it can be.
pub fn try_clip(text: &str, limit: usize, keep: usize) -> (r: Option<String>)
    ensures
        r is Some == clip_ok(text@, limit, keep),
        r is Some ==> r->0@ == clipped(text@, limit, keep),
{
    if byte_length(text) > limit {
        let v = chars_of(text);
        let (k, exact) = locate(&v, keep);
        if !exact {
            return None;
        }
        let mut out: Vec<char> = Vec::new();
        push_range(&mut out, &v, 0, k);
        push_str(&mut out, "...");
        assert(out@ =~= text@.take(k as int) + "..."@);
        Some(string_of(&out))
    } else {
        Some(text.to_owned())
    }
}

/// `text` cut down for display.
pub fn clip(text: &str, limit: usize, keep: usize) -> (r: String)
    requires
        clip_ok(text@, limit, keep),
    ensures
        r@ == clipped(text@, limit, keep),
{
    match try_clip(text, limit, keep) {
        Some(r) => r,
        None => String::new(),
    }
}

/// Whether `s` can be cut down from its start for display: it is short enough
/// to be shown whole, or a character starts `keep` bytes before its end.
pub open spec fn clip_start_ok(s: Seq<char>, limit: usize, keep: usize) -> bool {
    byte_len(s) > limit ==> keep <= byte_len(s) && is_boundary(s, byte_len(s) - keep)
}

/// `s` as it is displayed where its end matters: of a text of more than
/// `limit` bytes the last `keep` bytes are shown, behind three dots.
pub open spec fn clipped_start(s: Seq<char>, limit: usize, keep: usize) -> Seq<char> {
    if byte_len(s) > limit {
        "..."@ + s.skip(char_index(s, byte_len(s) - keep))
    } else {
        s
    }
}

/// `text` cut down from its start for display, if it can be.
pub fn try_clip_start(text: &str, limit: usize, keep: usize) -> (r: Option<String>)
    ensures
        r is Some == clip_start_ok(text@, limit, keep),
        r is Some ==> r->0@ == clipped_start(text@, limit, keep),
{
    let total = byte_length(text);
    if total > limit {
        if keep > total {
            return None;
        }
        let v = chars_of(text);
        let (k, exact) = locate(&v, total - keep);
        if !exact {
            return None;
        }
        let mut out = chars_of("...");
        let n: usize = v.len();
        push_range(&mut out, &v, k, n);
        assert(out@ =~= "..."@ + text@.skip(k as int));
        Some(string_of(&out))
    } else {
        Some(text.to_owned())
    }
}

/// `s` cut down to `max_len` characters: a longer text loses the rest, and
/// `…` follows.
pub open spec fn truncated(s: Seq<char>, max_len: usize) -> Seq<char> {
    if s.len() > max_len {
        s.take(max_len as int) + "…"@
    } else {
        s
    }
}

/// `s` cut down to `max_len` characters.
pub fn truncate_str(s: &str, max_len: usize) -> (r: String)
    ensures
        r@ == truncated(s@, max_len),
{
    let v = chars_of(s);
    if v.len() > max_len {
        let mut out: Vec<char> = Vec::new();
        push_range(&mut out, &v, 0, max_len);
        push_str(&mut out, "…");
        assert(out@ =~= s@.take(max_len as int) + "…"@);
        string_of(&out)
    } else {
        s.to_owned()
    }
}

/// Whether `p` stands somewhere in `s`.
pub open spec fn contains_text(s: Seq<char>, p: Seq<char>) -> bool {
    find(s, p) is Some
}

/// Whether `p` stands somewhere in `s`.
pub fn has_text(s: &Vec<char>, p: &str) -> (r: bool)
    ensures
        r == contains_text(s@, p@),
{
    let pattern = chars_of(p);
    find_text(s, &pattern).is_some()
}

} // verus!
