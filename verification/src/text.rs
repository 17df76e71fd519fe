//! Character-level text utilities shared by the voice-command parser and the
//! streaming reconciliation: case folding for French text, whitespace
//! classification, trimming, and case-insensitive substring search.
//!
//! Text is handled as sequences of characters. Case folding maps the ASCII
//! capitals and the accented capitals of the Latin-1 block to their
//! lowercase forms, one character for one character, so an index into the
//! folded text names the same position in the unfolded text.

use vstd::prelude::*;

verus! {

/// Lowercase form of one character: ASCII `A`-`Z` and the accented capitals
/// of the Latin-1 block fold to their lowercase pair; everything else is
/// left alone.
pub open spec fn lower_char(c: char) -> char {
    match c {
        'A' => 'a', 'B' => 'b', 'C' => 'c', 'D' => 'd', 'E' => 'e', 'F' => 'f',
        'G' => 'g', 'H' => 'h', 'I' => 'i', 'J' => 'j', 'K' => 'k', 'L' => 'l',
        'M' => 'm', 'N' => 'n', 'O' => 'o', 'P' => 'p', 'Q' => 'q', 'R' => 'r',
        'S' => 's', 'T' => 't', 'U' => 'u', 'V' => 'v', 'W' => 'w', 'X' => 'x',
        'Y' => 'y', 'Z' => 'z',
        '\u{C0}' => '\u{E0}', '\u{C1}' => '\u{E1}', '\u{C2}' => '\u{E2}',
        '\u{C3}' => '\u{E3}', '\u{C4}' => '\u{E4}', '\u{C5}' => '\u{E5}',
        '\u{C6}' => '\u{E6}', '\u{C7}' => '\u{E7}', '\u{C8}' => '\u{E8}',
        '\u{C9}' => '\u{E9}', '\u{CA}' => '\u{EA}', '\u{CB}' => '\u{EB}',
        '\u{CC}' => '\u{EC}', '\u{CD}' => '\u{ED}', '\u{CE}' => '\u{EE}',
        '\u{CF}' => '\u{EF}', '\u{D0}' => '\u{F0}', '\u{D1}' => '\u{F1}',
        '\u{D2}' => '\u{F2}', '\u{D3}' => '\u{F3}', '\u{D4}' => '\u{F4}',
        '\u{D5}' => '\u{F5}', '\u{D6}' => '\u{F6}', '\u{D8}' => '\u{F8}',
        '\u{D9}' => '\u{F9}', '\u{DA}' => '\u{FA}', '\u{DB}' => '\u{FB}',
        '\u{DC}' => '\u{FC}', '\u{DD}' => '\u{FD}', '\u{DE}' => '\u{FE}',
        _ => c,
    }
}

/// Case folding of a whole sequence, character by character.
pub open spec fn lower(s: Seq<char>) -> Seq<char> {
    s.map_values(|c: char| lower_char(c))
}

/// The whitespace the parser recognises: space, newline, tab, carriage
/// return.
pub open spec fn is_space_char(c: char) -> bool {
    c == ' ' || c == '\n' || c == '\t' || c == '\r'
}

/// `pat` occurs at position `i` of `text`, compared case-insensitively.
pub open spec fn match_at(text: Seq<char>, pat: Seq<char>, i: int) -> bool {
    &&& 0 <= i
    &&& i + pat.len() <= text.len()
    &&& lower(text.subrange(i, i + pat.len())) == lower(pat)
}

/// Position of the first case-insensitive occurrence of `pat` in `text` at
/// or after `i`, if any.
pub open spec fn first_match_from(text: Seq<char>, pat: Seq<char>, i: int) -> Option<int>
    decreases text.len() - i,
{
    if i < 0 || i + pat.len() > text.len() {
        None
    } else if pat.len() == 0 || match_at(text, pat, i) {
        Some(i)
    } else {
        first_match_from(text, pat, i + 1)
    }
}

/// Position of the first case-insensitive occurrence of `pat` in `text`.
pub open spec fn first_match(text: Seq<char>, pat: Seq<char>) -> Option<int> {
    first_match_from(text, pat, 0)
}

/// `text` with leading whitespace removed.
pub open spec fn trim_start_spec(s: Seq<char>) -> Seq<char>
    decreases s.len(),
{
    if s.len() > 0 && is_space_char(s[0]) {
        trim_start_spec(s.drop_first())
    } else {
        s
    }
}

/// `text` with trailing whitespace removed.
pub open spec fn trim_end_spec(s: Seq<char>) -> Seq<char>
    decreases s.len(),
{
    if s.len() > 0 && is_space_char(s[s.len() - 1]) {
        trim_end_spec(s.drop_last())
    } else {
        s
    }
}

/// `text` with whitespace removed at both ends.
pub open spec fn trim_spec(s: Seq<char>) -> Seq<char> {
    trim_end_spec(trim_start_spec(s))
}

/// `p` is a prefix of `s`.
pub open spec fn is_prefix(p: Seq<char>, s: Seq<char>) -> bool {
    p.len() <= s.len() && s.subrange(0, p.len() as int) == p
}

/// First position at or after `i` that holds a whitespace character, or the
/// end of the text.
pub open spec fn next_space(s: Seq<char>, i: int) -> int
    decreases s.len() - i when 0 <= i
{
    if i < s.len() && !is_space_char(s[i]) {
        next_space(s, i + 1)
    } else {
        i
    }
}

/// The next whitespace position lies between `i` and the end of the text,
/// and everything before it is non-whitespace.
pub proof fn lemma_next_space_bounds(s: Seq<char>, i: int)
    requires
        0 <= i <= s.len(),
    ensures
        i <= next_space(s, i) <= s.len(),
        forall|j: int| i <= j < next_space(s, i) ==> !is_space_char(s[j]),
        next_space(s, i) < s.len() ==> is_space_char(s[next_space(s, i)]),
    decreases s.len() - i,
{
    if i < s.len() && !is_space_char(s[i]) {
        lemma_next_space_bounds(s, i + 1);
    }
}

/// A run of non-whitespace from `i` that ends at `j` pins the next
/// whitespace position down to `j`.
pub proof fn lemma_next_space_at(s: Seq<char>, i: int, j: int)
    requires
        0 <= i <= j <= s.len(),
        forall|k: int| i <= k < j ==> !is_space_char(s[k]),
        j == s.len() || is_space_char(s[j]),
    ensures
        next_space(s, i) == j,
    decreases j - i,
{
    if i < j {
        lemma_next_space_at(s, i + 1, j);
    }
}

/// A found match lies at or after the search start, fits inside the text,
/// and really matches.
pub proof fn lemma_first_match_in_range(text: Seq<char>, pat: Seq<char>, i: int, j: int)
    requires
        first_match_from(text, pat, i) == Some(j),
    ensures
        i <= j,
        j + pat.len() <= text.len(),
        pat.len() > 0 ==> match_at(text, pat, j),
    decreases text.len() - i,
{
    if i < 0 || i + pat.len() > text.len() {
    } else if pat.len() == 0 || match_at(text, pat, i) {
    } else {
        lemma_first_match_in_range(text, pat, i + 1, j);
    }
}

/// One step of the whitespace cleanup over one character, carrying whether
/// the previous character was a space or a line break: repeated spaces
/// collapse, a space directly before a line break is taken back out, and a
/// space directly after a line break is dropped.
pub open spec fn clean_ws_step(
    acc: Seq<char>,
    prev_space: bool,
    prev_nl: bool,
    c: char,
) -> (Seq<char>, bool, bool) {
    if c == ' ' {
        if !prev_space && !prev_nl {
            (acc.push(' '), true, false)
        } else {
            (acc, true, false)
        }
    } else if c == '\n' {
        if prev_space && acc.len() > 0 {
            (acc.drop_last().push('\n'), false, true)
        } else {
            (acc.push('\n'), false, true)
        }
    } else {
        (acc.push(c), false, false)
    }
}

/// The whitespace cleanup run from position `i` onward.
pub open spec fn clean_ws_loop(
    s: Seq<char>,
    i: int,
    acc: Seq<char>,
    prev_space: bool,
    prev_nl: bool,
) -> Seq<char>
    decreases s.len() - i when 0 <= i
{
    if i >= s.len() {
        acc
    } else {
        let step = clean_ws_step(acc, prev_space, prev_nl, s[i]);
        clean_ws_loop(s, i + 1, step.0, step.1, step.2)
    }
}

/// Lowercase one character.
pub fn lower_char_exec(c: char) -> (r: char)
    ensures
        r == lower_char(c),
{
    match c {
        'A' => 'a', 'B' => 'b', 'C' => 'c', 'D' => 'd', 'E' => 'e', 'F' => 'f',
        'G' => 'g', 'H' => 'h', 'I' => 'i', 'J' => 'j', 'K' => 'k', 'L' => 'l',
        'M' => 'm', 'N' => 'n', 'O' => 'o', 'P' => 'p', 'Q' => 'q', 'R' => 'r',
        'S' => 's', 'T' => 't', 'U' => 'u', 'V' => 'v', 'W' => 'w', 'X' => 'x',
        'Y' => 'y', 'Z' => 'z',
        '\u{C0}' => '\u{E0}', '\u{C1}' => '\u{E1}', '\u{C2}' => '\u{E2}',
        '\u{C3}' => '\u{E3}', '\u{C4}' => '\u{E4}', '\u{C5}' => '\u{E5}',
        '\u{C6}' => '\u{E6}', '\u{C7}' => '\u{E7}', '\u{C8}' => '\u{E8}',
        '\u{C9}' => '\u{E9}', '\u{CA}' => '\u{EA}', '\u{CB}' => '\u{EB}',
        '\u{CC}' => '\u{EC}', '\u{CD}' => '\u{ED}', '\u{CE}' => '\u{EE}',
        '\u{CF}' => '\u{EF}', '\u{D0}' => '\u{F0}', '\u{D1}' => '\u{F1}',
        '\u{D2}' => '\u{F2}', '\u{D3}' => '\u{F3}', '\u{D4}' => '\u{F4}',
        '\u{D5}' => '\u{F5}', '\u{D6}' => '\u{F6}', '\u{D8}' => '\u{F8}',
        '\u{D9}' => '\u{F9}', '\u{DA}' => '\u{FA}', '\u{DB}' => '\u{FB}',
        '\u{DC}' => '\u{FC}', '\u{DD}' => '\u{FD}', '\u{DE}' => '\u{FE}',
        _ => c,
    }
}

/// Is this character one of the recognised whitespace characters?
pub fn is_space_exec(c: char) -> (r: bool)
    ensures
        r == is_space_char(c),
{
    c == ' ' || c == '\n' || c == '\t' || c == '\r'
}

/// The characters of a string slice, in order.
pub fn str_to_chars(s: &str) -> (v: Vec<char>)
    ensures
        v@ == s@,
{
    let n = s.unicode_len();
    let mut v: Vec<char> = Vec::new();
    let mut i: usize = 0;
    while i < n
        invariant
            n == s@.len(),
            i <= n,
            v@ == s@.take(i as int),
        decreases n - i,
    {
        v.push(s.get_char(i));
        proof {
            assert(s@.take(i as int).push(s@[i as int]) =~= s@.take(i + 1));
        }
        i = i + 1;
    }
    proof {
        assert(s@.take(s@.len() as int) =~= s@);
    }
    v
}

/// Relies on `String`'s `FromIterator` over `char`: collecting characters
/// builds the string holding exactly those characters in order.
#[verifier::external_body]
pub fn chars_to_string(v: &[char]) -> (s: String)
    ensures
        s@ == v@,
{
    v.iter().collect()
}

/// Copy of the range `[from, to)` of a character slice.
pub fn subrange_chars(v: &[char], from: usize, to: usize) -> (out: Vec<char>)
    requires
        from <= to <= v@.len(),
    ensures
        out@ == v@.subrange(from as int, to as int),
{
    let mut out: Vec<char> = Vec::new();
    let mut i: usize = from;
    while i < to
        invariant
            from <= i <= to <= v@.len(),
            out@ == v@.subrange(from as int, i as int),
        decreases to - i,
    {
        out.push(v[i]);
        proof {
            assert(v@.subrange(from as int, i as int).push(v@[i as int])
                =~= v@.subrange(from as int, i + 1));
        }
        i = i + 1;
    }
    out
}

/// A whitespace prefix ending at the first non-space position leaves exactly
/// the rest of the text after a front trim.
proof fn lemma_trim_start_at(s: Seq<char>, k: int)
    requires
        0 <= k <= s.len(),
        forall|j: int| 0 <= j < k ==> is_space_char(s[j]),
        k == s.len() || !is_space_char(s[k]),
    ensures
        trim_start_spec(s) == s.skip(k),
    decreases k,
{
    if k == 0 {
        assert(s.skip(0) =~= s);
    } else {
        assert(is_space_char(s[0]));
        lemma_trim_start_at(s.drop_first(), k - 1);
        assert(s.drop_first().skip(k - 1) =~= s.skip(k));
    }
}

/// A whitespace suffix starting at position `k` leaves exactly the front of
/// the text after an end trim.
proof fn lemma_trim_end_at(s: Seq<char>, k: int)
    requires
        0 <= k <= s.len(),
        forall|j: int| k <= j < s.len() ==> is_space_char(s[j]),
        k == 0 || !is_space_char(s[k - 1]),
    ensures
        trim_end_spec(s) == s.take(k),
    decreases s.len() - k,
{
    if k == s.len() {
        assert(s.take(k) =~= s);
    } else {
        assert(is_space_char(s[s.len() - 1]));
        lemma_trim_end_at(s.drop_last(), k);
        assert(s.drop_last().take(k) =~= s.take(k));
    }
}

/// `v` with leading whitespace removed.
pub fn trim_start_chars(v: &[char]) -> (out: Vec<char>)
    ensures
        out@ == trim_start_spec(v@),
{
    let mut i: usize = 0;
    while i < v.len() && is_space_exec(v[i])
        invariant
            i <= v@.len(),
            forall|j: int| 0 <= j < i ==> is_space_char(v@[j]),
        decreases v@.len() - i,
    {
        i = i + 1;
    }
    proof {
        lemma_trim_start_at(v@, i as int);
        assert(v@.skip(i as int) =~= v@.subrange(i as int, v@.len() as int));
    }
    subrange_chars(v, i, v.len())
}

/// `v` with trailing whitespace removed.
pub fn trim_end_chars(v: &[char]) -> (out: Vec<char>)
    ensures
        out@ == trim_end_spec(v@),
{
    let mut k: usize = v.len();
    while k > 0 && is_space_exec(v[k - 1])
        invariant
            k <= v@.len(),
            forall|j: int| k <= j < v@.len() ==> is_space_char(v@[j]),
        decreases k,
    {
        k = k - 1;
    }
    proof {
        lemma_trim_end_at(v@, k as int);
        assert(v@.take(k as int) =~= v@.subrange(0, k as int));
    }
    subrange_chars(v, 0, k)
}

/// `v` with whitespace removed at both ends.
pub fn trim_chars(v: &[char]) -> (out: Vec<char>)
    ensures
        out@ == trim_spec(v@),
{
    let front = trim_start_chars(v);
    trim_end_chars(front.as_slice())
}

/// Does `pat` occur at position `i` of `text`, ignoring case?
fn match_at_exec(text: &[char], pat: &[char], i: usize) -> (r: bool)
    requires
        i + pat@.len() <= text@.len(),
    ensures
        r == match_at(text@, pat@, i as int),
{
    let n = text.len();
    let m = pat.len();
    let mut k: usize = 0;
    while k < m
        invariant
            k <= m,
            m == pat@.len(),
            n == text@.len(),
            i + m <= n,
            forall|j: int| 0 <= j < k
                ==> lower_char(text@[i + j]) == lower_char(pat@[j]),
        decreases m - k,
    {
        let a = lower_char_exec(text[i + k]);
        let b = lower_char_exec(pat[k]);
        if a != b {
            proof {
                let sub = text@.subrange(i as int, i + m);
                assert(lower(sub)[k as int] == lower_char(sub[k as int]));
                assert(lower(pat@)[k as int] == lower_char(pat@[k as int]));
            }
            return false;
        }
        k = k + 1;
    }
    proof {
        let sub = text@.subrange(i as int, i + m);
        assert forall|j: int| 0 <= j < m implies lower(sub)[j] == lower(pat@)[j] by {
            assert(lower_char(text@[i + j]) == lower_char(pat@[j]));
        }
        assert(lower(sub) =~= lower(pat@));
    }
    true
}

/// Position of the first case-insensitive occurrence of `pat` in `text` at
/// or after `from`.
pub fn find_ci_from(text: &[char], pat: &[char], from: usize) -> (r: Option<usize>)
    ensures
        match r {
            Some(i) => first_match_from(text@, pat@, from as int) == Some(i as int)
                && from <= i,
            None => first_match_from(text@, pat@, from as int) is None,
        },
{
    let n = text.len();
    if pat.len() > n || from > n - pat.len() {
        proof {
            lemma_first_match_none_short(text@, pat@, from as int);
        }
        return None;
    }
    if pat.len() == 0 {
        return Some(from);
    }
    let last = n - pat.len();
    let mut i: usize = from;
    while i <= last
        invariant
            1 <= pat@.len() <= text@.len(),
            n == text@.len(),
            last == text@.len() - pat@.len(),
            from <= i <= last + 1,
            first_match_from(text@, pat@, from as int)
                == first_match_from(text@, pat@, i as int),
        decreases last + 1 - i,
    {
        if match_at_exec(text, pat, i) {
            return Some(i);
        }
        i = i + 1;
    }
    proof {
        lemma_first_match_none_short(text@, pat@, i as int);
    }
    None
}

/// Append every character of `src` onto `dst`.
pub fn append_chars(dst: &mut Vec<char>, src: &[char])
    ensures
        final(dst)@ == old(dst)@ + src@,
{
    let mut i: usize = 0;
    while i < src.len()
        invariant
            i <= src@.len(),
            dst@ == old(dst)@ + src@.take(i as int),
        decreases src@.len() - i,
    {
        dst.push(src[i]);
        proof {
            assert((old(dst)@ + src@.take(i as int)).push(src@[i as int])
                =~= old(dst)@ + src@.take(i + 1));
        }
        i = i + 1;
    }
    proof {
        assert(old(dst)@ + src@.take(src@.len() as int) =~= old(dst)@ + src@);
    }
}

/// The case-folded copy of a character slice.
pub fn lower_chars(v: &[char]) -> (out: Vec<char>)
    ensures
        out@ == lower(v@),
{
    let mut out: Vec<char> = Vec::new();
    let mut i: usize = 0;
    while i < v.len()
        invariant
            i <= v@.len(),
            out@ == lower(v@.take(i as int)),
        decreases v@.len() - i,
    {
        out.push(lower_char_exec(v[i]));
        proof {
            assert(lower(v@.take(i as int)).push(lower_char(v@[i as int]))
                =~= lower(v@.take(i + 1)));
        }
        i = i + 1;
    }
    proof {
        assert(lower(v@.take(v@.len() as int)) =~= lower(v@));
    }
    out
}

/// Past the last position where the pattern could still fit, no match
/// remains to be found.
proof fn lemma_first_match_none_short(text: Seq<char>, pat: Seq<char>, i: int)
    requires
        i + pat.len() > text.len(),
    ensures
        first_match_from(text, pat, i) is None,
{
}

/// Is `p` a prefix of `s`, compared exactly?
pub fn starts_with_chars(s: &[char], p: &[char]) -> (r: bool)
    ensures
        r == is_prefix(p@, s@),
{
    if p.len() > s.len() {
        return false;
    }
    let mut k: usize = 0;
    while k < p.len()
        invariant
            p@.len() <= s@.len(),
            k <= p@.len(),
            forall|j: int| 0 <= j < k ==> s@[j] == p@[j],
        decreases p@.len() - k,
    {
        if s[k] != p[k] {
            proof {
                assert(s@.subrange(0, p@.len() as int)[k as int] == s@[k as int]);
            }
            return false;
        }
        k = k + 1;
    }
    proof {
        assert(s@.subrange(0, p@.len() as int) =~= p@);
    }
    true
}

/// Are two strings equal, as character sequences?
pub fn str_eq(a: &str, b: &str) -> (r: bool)
    ensures
        r == (a@ == b@),
{
    let av = str_to_chars(a);
    let bv = str_to_chars(b);
    chars_eq(av.as_slice(), bv.as_slice())
}

/// Are two character sequences equal?
pub fn chars_eq(a: &[char], b: &[char]) -> (r: bool)
    ensures
        r == (a@ == b@),
{
    if a.len() != b.len() {
        return false;
    }
    let p = starts_with_chars(a, b);
    proof {
        if is_prefix(b@, a@) {
            assert(a@.subrange(0, b@.len() as int) =~= a@);
        }
        if a@ == b@ {
            assert(a@.subrange(0, b@.len() as int) =~= b@);
        }
    }
    p
}

} // verus!
