//! Character-level text utilities: lines, trimming, words, prefixes and
//! substring search, each specified over `Seq<char>`.
use vstd::prelude::*;

verus! {

// ---------------------------------------------------------------------------
// Building strings
// ---------------------------------------------------------------------------

/// `String::push`: appends one character to the end of the string.
#[verifier::external_body]
pub(crate) fn push_char(s: &mut String, c: char)
    ensures
        final(s)@ == old(s)@.push(c),
{
    s.push(c);
}

/// `str::to_lowercase`: the Unicode lowercase mapping of a string. The
/// mapping follows the Unicode case tables and is named (`lowercase`), not
/// stated.
#[verifier::external_body]
fn to_lowercase(s: &str) -> (r: String)
    ensures
        r@ == lowercase(s@),
{
    s.to_lowercase()
}

/// The result of Unicode lowercasing of a character sequence.
pub uninterp spec fn lowercase(s: Seq<char>) -> Seq<char>;

/// `str::to_lowercase` as this library uses it: an ASCII string is mapped
/// character by character (`A`-`Z` to `a`-`z`, the same as the Unicode
/// tables give for ASCII), any other string by the Unicode mapping.
pub open spec fn lower(s: Seq<char>) -> Seq<char> {
    if all_ascii(s) {
        ascii_lower_seq(s)
    } else {
        lowercase(s)
    }
}

/// `char::is_alphanumeric`: whether the character is alphabetic or numeric
/// in Unicode. The tables are named (`unicode_alphanumeric`), not stated.
#[verifier::external_body]
fn unicode_is_alphanumeric(c: char) -> (b: bool)
    ensures
        b == unicode_alphanumeric(c),
{
    c.is_alphanumeric()
}

/// Unicode alphanumeric property of a character.
pub uninterp spec fn unicode_alphanumeric(c: char) -> bool;

/// `char::is_alphanumeric`: ASCII letters and digits for ASCII characters,
/// the Unicode properties otherwise.
pub open spec fn alnum(c: char) -> bool {
    if (c as u32) < 128 {
        is_ascii_alnum(c)
    } else {
        unicode_alphanumeric(c)
    }
}

pub fn is_alphanumeric(c: char) -> (b: bool)
    ensures
        b == alnum(c),
{
    if (c as u32) < 128 {
        char_is_ascii_alnum(c)
    } else {
        unicode_is_alphanumeric(c)
    }
}

pub open spec fn all_ascii(s: Seq<char>) -> bool {
    forall|i: int| 0 <= i < s.len() ==> (#[trigger] s[i] as u32) < 128
}

pub open spec fn is_ascii_upper(c: char) -> bool {
    'A' <= c && c <= 'Z'
}

pub open spec fn is_ascii_lower(c: char) -> bool {
    'a' <= c && c <= 'z'
}

pub open spec fn is_ascii_alpha(c: char) -> bool {
    is_ascii_upper(c) || is_ascii_lower(c)
}

pub open spec fn is_ascii_digit(c: char) -> bool {
    '0' <= c && c <= '9'
}

pub open spec fn is_ascii_alnum(c: char) -> bool {
    is_ascii_alpha(c) || is_ascii_digit(c)
}

pub open spec fn ascii_lower_char(c: char) -> char {
    if is_ascii_upper(c) {
        ((c as u32) + 32) as char
    } else {
        c
    }
}

pub open spec fn ascii_lower_seq(s: Seq<char>) -> Seq<char> {
    s.map_values(|c: char| ascii_lower_char(c))
}

pub fn char_is_ascii_alpha(c: char) -> (b: bool)
    ensures
        b == is_ascii_alpha(c),
{
    ('A' <= c && c <= 'Z') || ('a' <= c && c <= 'z')
}

pub fn char_is_ascii_digit(c: char) -> (b: bool)
    ensures
        b == is_ascii_digit(c),
{
    '0' <= c && c <= '9'
}

pub fn char_is_ascii_alnum(c: char) -> (b: bool)
    ensures
        b == is_ascii_alnum(c),
{
    char_is_ascii_alpha(c) || char_is_ascii_digit(c)
}

/// Lowercases a string (see [`lower`]).
pub fn lower_str(s: &str) -> (r: String)
    ensures
        r@ == lower(s@),
{
    let cs = chars_of(s);
    let mut ascii = true;
    let mut i: usize = 0;
    while i < cs.len()
        invariant
            i <= cs@.len(),
            ascii == (forall|k: int| 0 <= k < i ==> (#[trigger] cs@[k] as u32) < 128),
        decreases cs.len() - i,
    {
        ascii = ascii && (cs[i] as u32) < 128;
        i = i + 1;
    }
    if !ascii {
        return to_lowercase(s);
    }
    let mut r = String::new();
    let mut i: usize = 0;
    while i < cs.len()
        invariant
            cs@ == s@,
            i <= cs@.len(),
            r@ == ascii_lower_seq(cs@.subrange(0, i as int)),
        decreases cs.len() - i,
    {
        let c = cs[i];
        let d = if 'A' <= c && c <= 'Z' {
            ((c as u8) + 32) as char
        } else {
            c
        };
        assert(d == ascii_lower_char(c));
        push_char(&mut r, d);
        assert(ascii_lower_seq(cs@.subrange(0, i + 1)) =~= ascii_lower_seq(
            cs@.subrange(0, i as int),
        ).push(d));
        i = i + 1;
    }
    assert(cs@.subrange(0, cs@.len() as int) == cs@);
    r
}

/// The characters of a string, in order.
pub fn chars_of(s: &str) -> (v: Vec<char>)
    ensures
        v@ == s@,
{
    let mut v: Vec<char> = Vec::new();
    for c in it: s.chars()
        invariant
            v@ == it.seq().take(it.index() as int),
    {
        v.push(c);
    }
    v
}

/// The string made of `cs[lo..hi]`.
pub fn string_of(cs: &Vec<char>, lo: usize, hi: usize) -> (r: String)
    requires
        lo <= hi <= cs@.len(),
    ensures
        r@ == cs@.subrange(lo as int, hi as int),
{
    let mut r = String::new();
    let mut i = lo;
    while i < hi
        invariant
            lo <= i <= hi <= cs@.len(),
            r@ == cs@.subrange(lo as int, i as int),
        decreases hi - i,
    {
        push_char(&mut r, cs[i]);
        assert(cs@.subrange(lo as int, i + 1) == cs@.subrange(lo as int, i as int).push(cs@[i as int]));
        i = i + 1;
    }
    r
}

/// The character vector `cs[lo..hi]`.
pub fn slice_chars(cs: &Vec<char>, lo: usize, hi: usize) -> (r: Vec<char>)
    requires
        lo <= hi <= cs@.len(),
    ensures
        r@ == cs@.subrange(lo as int, hi as int),
{
    let mut r: Vec<char> = Vec::new();
    let mut i = lo;
    while i < hi
        invariant
            lo <= i <= hi <= cs@.len(),
            r@ == cs@.subrange(lo as int, i as int),
        decreases hi - i,
    {
        r.push(cs[i]);
        assert(cs@.subrange(lo as int, i + 1) == cs@.subrange(lo as int, i as int).push(cs@[i as int]));
        i = i + 1;
    }
    r
}

/// Appends `cs[lo..hi]` to `r`.
pub fn append_chars(r: &mut String, cs: &Vec<char>, lo: usize, hi: usize)
    requires
        lo <= hi <= cs@.len(),
    ensures
        final(r)@ == old(r)@ + cs@.subrange(lo as int, hi as int),
{
    let mut i = lo;
    while i < hi
        invariant
            lo <= i <= hi <= cs@.len(),
            r@ == old(r)@ + cs@.subrange(lo as int, i as int),
        decreases hi - i,
    {
        push_char(r, cs[i]);
        assert(cs@.subrange(lo as int, i + 1) == cs@.subrange(lo as int, i as int).push(cs@[i as int]));
        i = i + 1;
    }
}

/// Appends a string slice to `r`.
pub fn append_str(r: &mut String, s: &str)
    ensures
        final(r)@ == old(r)@ + s@,
{
    let cs = chars_of(s);
    append_chars(r, &cs, 0, cs.len());
    assert(cs@.subrange(0, cs@.len() as int) == cs@);
}

/// A fresh copy of a string slice.
pub fn owned(s: &str) -> (r: String)
    ensures
        r@ == s@,
{
    let mut r = String::new();
    append_str(&mut r, s);
    r
}

/// Whether two character sequences are equal.
pub fn seq_eq(a: &Vec<char>, b: &Vec<char>) -> (r: bool)
    ensures
        r == (a@ == b@),
{
    if a.len() != b.len() {
        return false;
    }
    let mut i: usize = 0;
    while i < a.len()
        invariant
            a@.len() == b@.len(),
            i <= a@.len(),
            forall|k: int| 0 <= k < i ==> a@[k] == b@[k],
        decreases a.len() - i,
    {
        if a[i] != b[i] {
            return false;
        }
        i = i + 1;
    }
    assert(a@ =~= b@);
    true
}

/// Whether two string slices hold the same characters.
pub fn str_eq(a: &str, b: &str) -> (r: bool)
    ensures
        r == (a@ == b@),
{
    let x = chars_of(a);
    let y = chars_of(b);
    seq_eq(&x, &y)
}

/// The character sequences held by a sequence of character vectors.
pub open spec fn char_views(v: Seq<Vec<char>>) -> Seq<Seq<char>> {
    v.map_values(|x: Vec<char>| x@)
}

/// The character sequences held by a sequence of strings.
pub open spec fn string_views(v: Seq<String>) -> Seq<Seq<char>> {
    v.map_values(|x: String| x@)
}

// ---------------------------------------------------------------------------
// Whitespace and trimming
// ---------------------------------------------------------------------------

/// The Unicode `White_Space` property, which `char::is_whitespace` follows.
pub open spec fn is_ws(c: char) -> bool {
    let u = c as u32;
    ||| (0x09 <= u && u <= 0x0D)
    ||| u == 0x20
    ||| u == 0x85
    ||| u == 0xA0
    ||| u == 0x1680
    ||| (0x2000 <= u && u <= 0x200A)
    ||| u == 0x2028
    ||| u == 0x2029
    ||| u == 0x202F
    ||| u == 0x205F
    ||| u == 0x3000
}

pub fn is_whitespace(c: char) -> (b: bool)
    ensures
        b == is_ws(c),
{
    let u = c as u32;
    (0x09 <= u && u <= 0x0D) || u == 0x20 || u == 0x85 || u == 0xA0 || u == 0x1680 || (0x2000
        <= u && u <= 0x200A) || u == 0x2028 || u == 0x2029 || u == 0x202F || u == 0x205F || u
        == 0x3000
}

/// `s` without leading whitespace.
pub open spec fn trim_start(s: Seq<char>) -> Seq<char>
    decreases s.len(),
{
    if s.len() > 0 && is_ws(s[0]) {
        trim_start(s.drop_first())
    } else {
        s
    }
}

/// `s` without trailing whitespace.
pub open spec fn trim_end(s: Seq<char>) -> Seq<char>
    decreases s.len(),
{
    if s.len() > 0 && is_ws(s.last()) {
        trim_end(s.drop_last())
    } else {
        s
    }
}

/// `str::trim`: `s` without leading and trailing whitespace.
pub open spec fn trim(s: Seq<char>) -> Seq<char> {
    trim_end(trim_start(s))
}

/// The bounds of `trim(cs[lo..hi])` inside `cs`.
pub fn trim_range(cs: &Vec<char>, lo: usize, hi: usize) -> (r: (usize, usize))
    requires
        lo <= hi <= cs@.len(),
    ensures
        lo <= r.0 <= r.1 <= hi,
        cs@.subrange(r.0 as int, r.1 as int) == trim(cs@.subrange(lo as int, hi as int)),
{
    let mut a = lo;
    while a < hi && is_whitespace(cs[a])
        invariant
            lo <= a <= hi <= cs@.len(),
            trim_start(cs@.subrange(lo as int, hi as int)) == trim_start(
                cs@.subrange(a as int, hi as int),
            ),
        decreases hi - a,
    {
        assert(cs@.subrange(a as int, hi as int).drop_first() == cs@.subrange(a + 1, hi as int));
        a = a + 1;
    }
    let mut b = hi;
    while b > a && is_whitespace(cs[b - 1])
        invariant
            lo <= a <= b <= hi <= cs@.len(),
            trim_end(cs@.subrange(a as int, hi as int)) == trim_end(
                cs@.subrange(a as int, b as int),
            ),
        decreases b - a,
    {
        assert(cs@.subrange(a as int, b as int).drop_last() == cs@.subrange(a as int, b - 1));
        b = b - 1;
    }
    (a, b)
}

/// `str::trim` on a string slice.
pub fn trim_str(s: &str) -> (r: String)
    ensures
        r@ == trim(s@),
{
    let cs = chars_of(s);
    let (a, b) = trim_range(&cs, 0, cs.len());
    assert(cs@.subrange(0, cs@.len() as int) == cs@);
    string_of(&cs, a, b)
}

// ---------------------------------------------------------------------------
// Lines
// ---------------------------------------------------------------------------

/// Index of the first `'\n'` at or after `i`, or the length when there is none.
pub open spec fn line_end(s: Seq<char>, i: int) -> int
    decreases s.len() - i,
{
    if i >= s.len() {
        s.len() as int
    } else if s[i] == '\n' {
        i
    } else {
        line_end(s, i + 1)
    }
}

pub proof fn lemma_line_end(s: Seq<char>, i: int)
    requires
        0 <= i,
    ensures
        i <= line_end(s, i) || i > s.len(),
        line_end(s, i) <= s.len(),
        i <= s.len() ==> i <= line_end(s, i),
        line_end(s, i) < s.len() ==> s[line_end(s, i)] == '\n',
        forall|k: int| i <= k < line_end(s, i) ==> s[k] != '\n',
    decreases s.len() - i,
{
    if i < s.len() && s[i] != '\n' {
        lemma_line_end(s, i + 1);
    }
}

/// A line as `str::lines` yields it: a trailing `'\r'` is dropped when the
/// line was ended by `'\n'`.
pub open spec fn line_text(s: Seq<char>, i: int, j: int) -> Seq<char> {
    let piece = s.subrange(i, j);
    if j < s.len() && piece.len() > 0 && piece.last() == '\r' {
        piece.drop_last()
    } else {
        piece
    }
}

/// The lines of `s` from position `i` on.
pub open spec fn lines_from(s: Seq<char>, i: int) -> Seq<Seq<char>>
    decreases s.len() + 1 - i,
{
    if i < 0 || i >= s.len() {
        Seq::empty()
    } else {
        let j = line_end(s, i);
        proof {
            lemma_line_end(s, i);
        }
        seq![line_text(s, i, j)] + lines_from(s, j + 1)
    }
}

/// `str::lines`: the lines of `s`, split at `"\n"` or `"\r\n"`; a final line
/// ending is optional.
pub open spec fn lines(s: Seq<char>) -> Seq<Seq<char>> {
    lines_from(s, 0)
}

/// Finds the end of the line that starts at `i`.
pub fn find_line_end(cs: &Vec<char>, i: usize) -> (j: usize)
    requires
        i <= cs@.len(),
    ensures
        j == line_end(cs@, i as int),
{
    let mut j = i;
    while j < cs.len() && cs[j] != '\n'
        invariant
            i <= j <= cs@.len(),
            line_end(cs@, i as int) == line_end(cs@, j as int),
        decreases cs.len() - j,
    {
        j = j + 1;
    }
    j
}

/// The lines of `cs`, each as a character vector.
pub fn split_lines_chars(cs: &Vec<char>) -> (r: Vec<Vec<char>>)
    ensures
        char_views(r@) == lines(cs@),
{
    let mut r: Vec<Vec<char>> = Vec::new();
    let mut i: usize = 0;
    let n = cs.len();
    while i < n
        invariant
            n == cs@.len(),
            i <= n,
            char_views(r@) + lines_from(cs@, i as int) == lines(cs@),
        decreases n - i,
    {
        let j = find_line_end(cs, i);
        proof {
            lemma_line_end(cs@, i as int);
        }
        let mut e = j;
        if j < n && j > i && cs[j - 1] == '\r' {
            e = j - 1;
        }
        assert(cs@.subrange(i as int, e as int) == line_text(cs@, i as int, j as int));
        let line = slice_chars(cs, i, e);
        let ghost before = char_views(r@);
        r.push(line);
        assert(char_views(r@) =~= before.push(line_text(cs@, i as int, j as int)));
        assert(lines_from(cs@, i as int) == seq![line_text(cs@, i as int, j as int)] + lines_from(
            cs@,
            j + 1,
        ));
        if j == n {
            assert(lines_from(cs@, j + 1) == Seq::<Seq<char>>::empty());
            assert(char_views(r@) == lines(cs@));
            return r;
        }
        assert(char_views(r@) + lines_from(cs@, j + 1) == before + lines_from(cs@, i as int));
        i = j + 1;
    }
    assert(char_views(r@) + lines_from(cs@, i as int) == char_views(r@));
    r
}

/// `str::lines` on a string slice, as owned strings.
pub fn split_lines(s: &str) -> (r: Vec<String>)
    ensures
        string_views(r@) == lines(s@),
{
    let cs = chars_of(s);
    let ls = split_lines_chars(&cs);
    let mut r: Vec<String> = Vec::new();
    let mut k: usize = 0;
    while k < ls.len()
        invariant
            k <= ls@.len(),
            char_views(ls@) == lines(s@),
            r@.len() == k,
            forall|m: int| 0 <= m < k ==> #[trigger] r@[m]@ == ls@[m]@,
        decreases ls.len() - k,
    {
        let line = string_of(&ls[k], 0, ls[k].len());
        assert(ls@[k as int]@.subrange(0, ls@[k as int]@.len() as int) == ls@[k as int]@);
        r.push(line);
        k = k + 1;
    }
    assert(string_views(r@) =~= char_views(ls@));
    r
}

// ---------------------------------------------------------------------------
// Words
// ---------------------------------------------------------------------------

/// Index of the first whitespace character at or after `i`, or the length.
pub open spec fn word_end(s: Seq<char>, i: int) -> int
    decreases s.len() - i,
{
    if i >= s.len() {
        s.len() as int
    } else if is_ws(s[i]) {
        i
    } else {
        word_end(s, i + 1)
    }
}

pub proof fn lemma_word_end(s: Seq<char>, i: int)
    requires
        0 <= i <= s.len(),
    ensures
        i <= word_end(s, i) <= s.len(),
        word_end(s, i) < s.len() ==> is_ws(s[word_end(s, i)]),
        forall|k: int| i <= k < word_end(s, i) ==> !is_ws(s[k]),
        i < s.len() && !is_ws(s[i]) ==> i < word_end(s, i),
    decreases s.len() - i,
{
    if i < s.len() && !is_ws(s[i]) {
        lemma_word_end(s, i + 1);
    }
}

/// The whitespace-separated words of `s` from position `i` on.
pub open spec fn words_from(s: Seq<char>, i: int) -> Seq<Seq<char>>
    decreases s.len() - i,
{
    if i < 0 || i >= s.len() {
        Seq::empty()
    } else if is_ws(s[i]) {
        words_from(s, i + 1)
    } else {
        let e = word_end(s, i);
        proof {
            lemma_word_end(s, i);
        }
        seq![s.subrange(i, e)] + words_from(s, e)
    }
}

/// `str::split_whitespace`: the maximal runs of non-whitespace characters.
pub open spec fn words(s: Seq<char>) -> Seq<Seq<char>> {
    words_from(s, 0)
}

/// `str::split_whitespace` on a character vector, as owned strings.
pub fn split_words(cs: &Vec<char>) -> (r: Vec<String>)
    ensures
        string_views(r@) == words(cs@),
{
    let mut r: Vec<String> = Vec::new();
    let mut i: usize = 0;
    let n = cs.len();
    while i < n
        invariant
            n == cs@.len(),
            i <= n,
            string_views(r@) + words_from(cs@, i as int) == words(cs@),
        decreases n - i,
    {
        if is_whitespace(cs[i]) {
            i = i + 1;
        } else {
            let mut e = i;
            while e < n && !is_whitespace(cs[e])
                invariant
                    i <= e <= n == cs@.len(),
                    word_end(cs@, i as int) == word_end(cs@, e as int),
                decreases n - e,
            {
                e = e + 1;
            }
            proof {
                lemma_word_end(cs@, i as int);
            }
            let w = string_of(cs, i, e);
            let ghost before = string_views(r@);
            r.push(w);
            assert(string_views(r@) =~= before.push(cs@.subrange(i as int, e as int)));
            assert(words_from(cs@, i as int) == seq![cs@.subrange(i as int, e as int)]
                + words_from(cs@, e as int));
            assert(string_views(r@) + words_from(cs@, e as int) == before + words_from(
                cs@,
                i as int,
            ));
            i = e;
        }
    }
    assert(string_views(r@) + words_from(cs@, i as int) == string_views(r@));
    r
}

/// `str::split_whitespace` on a string slice, as owned strings.
pub fn split_words_str(s: &str) -> (r: Vec<String>)
    ensures
        string_views(r@) == words(s@),
{
    let cs = chars_of(s);
    split_words(&cs)
}

// ---------------------------------------------------------------------------
// Prefixes and substrings
// ---------------------------------------------------------------------------

/// Whether `p` occurs in `s` at position `k`.
pub open spec fn occurs_at(s: Seq<char>, p: Seq<char>, k: int) -> bool {
    0 <= k && k + p.len() <= s.len() && s.subrange(k, k + p.len()) == p
}

pub open spec fn starts_with(s: Seq<char>, p: Seq<char>) -> bool {
    occurs_at(s, p, 0)
}

pub open spec fn ends_with(s: Seq<char>, p: Seq<char>) -> bool {
    p.len() <= s.len() && occurs_at(s, p, s.len() - p.len())
}

/// `str::contains` with a string pattern.
pub open spec fn contains(s: Seq<char>, p: Seq<char>) -> bool {
    exists|k: int| occurs_at(s, p, k)
}

/// Whether `p` occurs in `cs` at position `k`.
pub fn matches_at(cs: &Vec<char>, p: &Vec<char>, k: usize) -> (r: bool)
    ensures
        r == occurs_at(cs@, p@, k as int),
{
    let n = cs.len();
    if k > n || p.len() > n - k {
        return false;
    }
    let mut i: usize = 0;
    while i < p.len()
        invariant
            n == cs@.len(),
            k + p@.len() <= cs@.len(),
            i <= p@.len(),
            forall|m: int| 0 <= m < i ==> cs@[k + m] == p@[m],
        decreases p.len() - i,
    {
        if cs[k + i] != p[i] {
            assert(cs@.subrange(k as int, k + p@.len())[i as int] != p@[i as int]);
            return false;
        }
        i = i + 1;
    }
    assert(cs@.subrange(k as int, k + p@.len()) =~= p@);
    true
}

/// The first position at or after `from` where `p` occurs in `cs`.
pub fn find_from(cs: &Vec<char>, p: &Vec<char>, from: usize) -> (r: Option<usize>)
    ensures
        match r {
            Some(k) => from <= k && occurs_at(cs@, p@, k as int) && forall|m: int|
                from <= m < k ==> !occurs_at(cs@, p@, m),
            None => forall|m: int| from <= m ==> !occurs_at(cs@, p@, m),
        },
{
    let n = cs.len();
    if from > n {
        return None;
    }
    let mut k = from;
    while k < n
        invariant
            n == cs@.len(),
            from <= k <= n,
            forall|m: int| from <= m < k ==> !occurs_at(cs@, p@, m),
        decreases n - k,
    {
        if matches_at(cs, p, k) {
            return Some(k);
        }
        k = k + 1;
    }
    if matches_at(cs, p, n) {
        return Some(n);
    }
    None
}

/// `str::contains` with a string pattern.
pub fn contains_seq(cs: &Vec<char>, p: &Vec<char>) -> (r: bool)
    ensures
        r == contains(cs@, p@),
{
    match find_from(cs, p, 0) {
        Some(_) => true,
        None => {
            assert forall|m: int| !occurs_at(cs@, p@, m) by {
                if 0 <= m {
                }
            }
            false
        },
    }
}

/// `str::starts_with` with a string pattern.
pub fn starts_with_seq(cs: &Vec<char>, p: &Vec<char>) -> (r: bool)
    ensures
        r == starts_with(cs@, p@),
{
    matches_at(cs, p, 0)
}

/// `str::ends_with` with a string pattern.
pub fn ends_with_seq(cs: &Vec<char>, p: &Vec<char>) -> (r: bool)
    ensures
        r == ends_with(cs@, p@),
{
    if p.len() > cs.len() {
        false
    } else {
        matches_at(cs, p, cs.len() - p.len())
    }
}

/// The first position of character `c` in `cs[from..]`.
pub fn find_char(cs: &Vec<char>, c: char, from: usize) -> (r: Option<usize>)
    ensures
        match r {
            Some(k) => from <= k < cs@.len() && cs@[k as int] == c && forall|m: int|
                from <= m < k ==> cs@[m] != c,
            None => forall|m: int| from <= m < cs@.len() ==> cs@[m] != c,
        },
{
    let mut k = from;
    while k < cs.len()
        invariant
            from <= k,
            forall|m: int| from <= m < k ==> cs@[m] != c,
        decreases cs.len() - k,
    {
        if cs[k] == c {
            return Some(k);
        }
        k = k + 1;
    }
    None
}

/// Whether character `c` occurs in the sequence.
pub open spec fn has_char(s: Seq<char>, c: char) -> bool {
    exists|k: int| 0 <= k < s.len() && s[k] == c
}

// ---------------------------------------------------------------------------
// Editing
// ---------------------------------------------------------------------------

/// `s` without its last character, if any (`String::pop`).
pub open spec fn pop_spec(s: Seq<char>) -> Seq<char> {
    if s.len() > 0 {
        s.drop_last()
    } else {
        s
    }
}

/// Removes the last character of the string, if any.
pub fn pop_char(s: &mut String)
    ensures
        final(s)@ == pop_spec(old(s)@),
{
    let cs = chars_of(s.as_str());
    if cs.len() > 0 {
        *s = string_of(&cs, 0, cs.len() - 1);
        assert(cs@.subrange(0, cs@.len() - 1) =~= cs@.drop_last());
    }
}

/// Characters that end a word on their own when deleting a word.
pub open spec fn is_word_boundary(c: char) -> bool {
    c == '-' || c == '_' || c == '/' || c == '.' || c == '@' || c == ':'
}

/// `s` without its trailing alphanumeric characters.
pub open spec fn drop_trailing_alnum(s: Seq<char>) -> Seq<char>
    decreases s.len(),
{
    if s.len() > 0 && alnum(s.last()) {
        drop_trailing_alnum(s.drop_last())
    } else {
        s
    }
}

/// Deleting the last word: trailing whitespace goes; then a single
/// boundary character (`- _ / . @ :`) if that is last, else the run of
/// alphanumeric characters before it.
pub open spec fn delete_last_word_spec(s: Seq<char>) -> Seq<char> {
    let t = trim_end(s);
    if t.len() == 0 {
        t
    } else if is_word_boundary(t.last()) {
        t.drop_last()
    } else {
        drop_trailing_alnum(t)
    }
}

/// Deletes the last word of the string (Ctrl+W / Ctrl+Backspace).
pub fn delete_last_word(s: &mut String)
    ensures
        final(s)@ == delete_last_word_spec(old(s)@),
{
    let cs = chars_of(s.as_str());
    let mut end = cs.len();
    assert(cs@.subrange(0, end as int) =~= cs@);
    while end > 0 && is_whitespace(cs[end - 1])
        invariant
            end <= cs@.len(),
            trim_end(cs@) == trim_end(cs@.subrange(0, end as int)),
        decreases end,
    {
        assert(cs@.subrange(0, end as int).drop_last() =~= cs@.subrange(0, end - 1));
        end = end - 1;
    }
    assert(cs@.subrange(0, cs@.len() as int) =~= cs@);
    let ghost t = cs@.subrange(0, end as int);
    assert(trim_end(cs@) == t);
    if end == 0 {
        *s = String::new();
        assert(t =~= Seq::<char>::empty());
        return;
    }
    let c = cs[end - 1];
    if c == '-' || c == '_' || c == '/' || c == '.' || c == '@' || c == ':' {
        *s = string_of(&cs, 0, end - 1);
        assert(cs@.subrange(0, end - 1) =~= t.drop_last());
        return;
    }
    let mut e2 = end;
    while e2 > 0 && is_alphanumeric(cs[e2 - 1])
        invariant
            e2 <= end <= cs@.len(),
            drop_trailing_alnum(t) == drop_trailing_alnum(cs@.subrange(0, e2 as int)),
        decreases e2,
    {
        assert(cs@.subrange(0, e2 as int).drop_last() =~= cs@.subrange(0, e2 - 1));
        e2 = e2 - 1;
    }
    *s = string_of(&cs, 0, e2);
}

// ---------------------------------------------------------------------------
// Numbers
// ---------------------------------------------------------------------------

/// The decimal digit for a value below ten.
pub open spec fn digit_char(d: nat) -> char {
    if d == 0 {
        '0'
    } else if d == 1 {
        '1'
    } else if d == 2 {
        '2'
    } else if d == 3 {
        '3'
    } else if d == 4 {
        '4'
    } else if d == 5 {
        '5'
    } else if d == 6 {
        '6'
    } else if d == 7 {
        '7'
    } else if d == 8 {
        '8'
    } else {
        '9'
    }
}

/// The decimal representation of `n`, without leading zeros.
pub open spec fn decimal(n: nat) -> Seq<char>
    decreases n,
{
    if n < 10 {
        seq![digit_char(n)]
    } else {
        decimal(n / 10).push(digit_char(n % 10))
    }
}

fn digit_of(d: usize) -> (c: char)
    requires
        d < 10,
    ensures
        c == digit_char(d as nat),
{
    if d == 0 {
        '0'
    } else if d == 1 {
        '1'
    } else if d == 2 {
        '2'
    } else if d == 3 {
        '3'
    } else if d == 4 {
        '4'
    } else if d == 5 {
        '5'
    } else if d == 6 {
        '6'
    } else if d == 7 {
        '7'
    } else if d == 8 {
        '8'
    } else {
        '9'
    }
}

/// Appends the decimal representation of `n`.
pub fn push_decimal(out: &mut String, n: usize)
    ensures
        final(out)@ == old(out)@ + decimal(n as nat),
    decreases n,
{
    if n >= 10 {
        push_decimal(out, n / 10);
    }
    push_char(out, digit_of(n % 10));
    assert(final(out)@ =~= old(out)@ + decimal(n as nat));
}

// ---------------------------------------------------------------------------
// Joining lines
// ---------------------------------------------------------------------------

/// The lines, each ended by a newline.
pub open spec fn join_lines(ls: Seq<Seq<char>>) -> Seq<char>
    decreases ls.len(),
{
    if ls.len() == 0 {
        Seq::empty()
    } else {
        ls[0] + seq!['\n'] + join_lines(ls.drop_first())
    }
}

/// A line that `str::lines` gives back unchanged: no newline in it, and no
/// carriage return at its end.
pub open spec fn is_plain_line(l: Seq<char>) -> bool {
    &&& forall|k: int| 0 <= k < l.len() ==> #[trigger] l[k] != '\n'
    &&& (l.len() == 0 || l.last() != '\r')
}

/// The lines, each ended by a newline.
pub fn join_lines_exec(ls: &Vec<String>) -> (r: String)
    ensures
        r@ == join_lines(string_views(ls@)),
{
    let ghost lv = string_views(ls@);
    let mut out = String::new();
    let mut i: usize = 0;
    assert(lv.subrange(0, lv.len() as int) =~= lv);
    while i < ls.len()
        invariant
            lv == string_views(ls@),
            i <= ls@.len(),
            out@ + join_lines(lv.subrange(i as int, lv.len() as int)) == join_lines(lv),
        decreases ls.len() - i,
    {
        let ghost rest = lv.subrange(i as int, lv.len() as int);
        assert(rest[0] == lv[i as int]);
        assert(rest.drop_first() =~= lv.subrange(i + 1, lv.len() as int));
        let ghost before = out@;
        append_str(&mut out, ls[i].as_str());
        push_char(&mut out, '\n');
        assert(out@ + join_lines(lv.subrange(i + 1, lv.len() as int)) =~= before + join_lines(rest));
        i = i + 1;
    }
    assert(join_lines(lv.subrange(i as int, lv.len() as int)) =~= Seq::<char>::empty());
    assert(out@ =~= join_lines(lv));
    out
}

proof fn lemma_line_end_at(s: Seq<char>, i: int, j: int)
    requires
        0 <= i <= j < s.len(),
        s[j] == '\n',
        forall|k: int| i <= k < j ==> s[k] != '\n',
    ensures
        line_end(s, i) == j,
    decreases j - i,
{
    if i < j {
        lemma_line_end_at(s, i + 1, j);
    }
}

proof fn lemma_line_end_shift(p: Seq<char>, r: Seq<char>, k: int)
    requires
        0 <= k,
    ensures
        line_end(p + r, p.len() + k) == p.len() + line_end(r, k),
    decreases r.len() - k,
{
    let s = p + r;
    if k < r.len() {
        assert(s[p.len() + k] == r[k]);
        if r[k] != '\n' {
            lemma_line_end_shift(p, r, k + 1);
        }
    }
}

proof fn lemma_lines_from_shift(p: Seq<char>, r: Seq<char>, k: int)
    requires
        0 <= k,
    ensures
        lines_from(p + r, p.len() + k) == lines_from(r, k),
    decreases r.len() + 1 - k,
{
    let s = p + r;
    if k < r.len() {
        lemma_line_end_shift(p, r, k);
        lemma_line_end(r, k);
        let j = line_end(r, k);
        assert(s.subrange(p.len() + k, p.len() + j) =~= r.subrange(k, j));
        assert(line_text(s, p.len() + k, p.len() + j) == line_text(r, k, j));
        lemma_lines_from_shift(p, r, j + 1);
    }
}

/// The lines of a plain line followed by a newline and more text: that
/// line, then the lines of the rest.
pub proof fn lemma_lines_cons(a: Seq<char>, rest: Seq<char>)
    requires
        is_plain_line(a),
    ensures
        lines(a + seq!['\n'] + rest) == seq![a] + lines(rest),
{
    let p = a + seq!['\n'];
    let s = p + rest;
    assert(s[a.len() as int] == '\n');
    assert forall|k: int| 0 <= k < a.len() implies s[k] != '\n' by {
        assert(s[k] == a[k]);
    }
    lemma_line_end_at(s, 0, a.len() as int);
    assert(s.subrange(0, a.len() as int) =~= a);
    assert(line_text(s, 0, a.len() as int) == a);
    lemma_lines_from_shift(p, rest, 0);
    assert(lines_from(s, 0) == seq![a] + lines_from(s, a.len() as int + 1));
    assert(a + seq!['\n'] + rest == s);
}

/// From a position where no newline follows, the line runs to the end.
proof fn lemma_line_end_none(s: Seq<char>, i: int)
    requires
        0 <= i <= s.len(),
        forall|k: int| i <= k < s.len() ==> s[k] != '\n',
    ensures
        line_end(s, i) == s.len(),
{
    lemma_line_end(s, i);
}

proof fn lemma_lines_from_append(p: Seq<char>, r: Seq<char>, i: int)
    requires
        p.len() == 0 || p.last() == '\n',
        0 <= i <= p.len(),
    ensures
        lines_from(p + r, i) == lines_from(p, i) + lines(r),
    decreases p.len() - i,
{
    let s = p + r;
    if i == p.len() {
        lemma_lines_from_shift(p, r, 0);
        assert(lines_from(p, i) =~= Seq::<Seq<char>>::empty());
        assert(lines_from(p, i) + lines(r) =~= lines(r));
    } else {
        lemma_line_end(p, i);
        let j = line_end(p, i);
        assert(p[p.len() - 1] == '\n');
        assert(j < p.len());
        assert(s[j] == p[j]);
        assert forall|k: int| i <= k < j implies s[k] != '\n' by {
            assert(s[k] == p[k]);
        }
        lemma_line_end_at(s, i, j);
        assert(s.subrange(i, j) =~= p.subrange(i, j));
        assert(line_text(s, i, j) == line_text(p, i, j));
        lemma_lines_from_append(p, r, j + 1);
        assert(lines_from(s, i) == seq![line_text(s, i, j)] + lines_from(s, j + 1));
        assert(lines_from(p, i) == seq![line_text(p, i, j)] + lines_from(p, j + 1));
        assert(lines_from(s, i) =~= lines_from(p, i) + lines(r));
    }
}

/// The lines of a text that ends with a newline (or is empty), followed by
/// more text: its lines, then the lines of the rest.
pub proof fn lemma_lines_append(p: Seq<char>, r: Seq<char>)
    requires
        p.len() == 0 || p.last() == '\n',
    ensures
        lines(p + r) == lines(p) + lines(r),
{
    lemma_lines_from_append(p, r, 0);
}

/// A text without a newline is one line (none when empty).
pub proof fn lemma_lines_single(x: Seq<char>)
    requires
        forall|k: int| 0 <= k < x.len() ==> x[k] != '\n',
    ensures
        lines(x) == (if x.len() == 0 {
            Seq::<Seq<char>>::empty()
        } else {
            seq![x]
        }),
{
    if x.len() == 0 {
        assert(lines(x) =~= Seq::<Seq<char>>::empty());
    } else {
        lemma_line_end_none(x, 0);
        assert(x.subrange(0, x.len() as int) =~= x);
        assert(lines_from(x, x.len() as int + 1) =~= Seq::<Seq<char>>::empty());
        assert(lines(x) =~= seq![x]);
    }
}

/// A text without a newline, ended by one, is one line, without a
/// carriage return at its end.
pub proof fn lemma_lines_ended(x: Seq<char>)
    requires
        forall|k: int| 0 <= k < x.len() ==> x[k] != '\n',
    ensures
        lines(x.push('\n')) == seq![
            if x.len() > 0 && x.last() == '\r' {
                x.drop_last()
            } else {
                x
            },
        ],
{
    let s = x.push('\n');
    assert forall|k: int| 0 <= k < x.len() implies s[k] != '\n' by {
        assert(s[k] == x[k]);
    }
    lemma_line_end_at(s, 0, x.len() as int);
    assert(s.subrange(0, x.len() as int) =~= x);
    assert(lines_from(s, x.len() as int + 1) =~= Seq::<Seq<char>>::empty());
    assert(lines(s) =~= seq![line_text(s, 0, x.len() as int)]);
}

/// Where the last line of a text starts: just after its last newline, or at
/// the start.
pub open spec fn last_line_start(s: Seq<char>) -> int
    decreases s.len(),
{
    if s.len() == 0 {
        0
    } else if s.last() == '\n' {
        s.len() as int
    } else {
        last_line_start(s.drop_last())
    }
}

pub proof fn lemma_last_line_start(s: Seq<char>)
    ensures
        0 <= last_line_start(s) <= s.len(),
        last_line_start(s) == 0 || s[last_line_start(s) - 1] == '\n',
        forall|k: int| last_line_start(s) <= k < s.len() ==> s[k] != '\n',
    decreases s.len(),
{
    if s.len() > 0 && s.last() != '\n' {
        let t = s.drop_last();
        lemma_last_line_start(t);
        assert forall|k: int| last_line_start(s) <= k < s.len() implies s[k] != '\n' by {
            if k < t.len() {
                assert(s[k] == t[k]);
            }
        }
        if last_line_start(t) > 0 {
            assert(s[last_line_start(t) - 1] == t[last_line_start(t) - 1]);
        }
    }
}

/// `str::lines` gives back the plain lines that were joined.
pub proof fn lemma_lines_join(ls: Seq<Seq<char>>)
    requires
        forall|i: int| 0 <= i < ls.len() ==> is_plain_line(#[trigger] ls[i]),
    ensures
        lines(join_lines(ls)) == ls,
    decreases ls.len(),
{
    if ls.len() == 0 {
        assert(lines(Seq::<char>::empty()) =~= Seq::<Seq<char>>::empty());
    } else {
        let rest = ls.drop_first();
        assert forall|i: int| 0 <= i < rest.len() implies is_plain_line(#[trigger] rest[i]) by {
            assert(rest[i] == ls[i + 1]);
        }
        lemma_lines_join(rest);
        assert(is_plain_line(ls[0]));
        lemma_lines_cons(ls[0], join_lines(rest));
        assert(seq![ls[0]] + rest =~= ls);
    }
}

} // verus!
