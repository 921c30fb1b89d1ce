//! Text layout for the interface: truncating, wrapping detail fields, the
//! colors of repositories and package states.
use vstd::prelude::*;
use crate::text::{all_ascii, append_str, chars_of, owned, push_char, split_words_str, string_of, string_views, words};
use crate::theme::{Color, Theme, ThemeView};

verus! {

// ---------------------------------------------------------------------------
// Truncation
// ---------------------------------------------------------------------------

/// The number of bytes of a character in UTF-8.
pub open spec fn utf8_width(c: char) -> int {
    let v = c as u32;
    if v < 0x80 {
        1
    } else if v < 0x800 {
        2
    } else if v < 0x10000 {
        3
    } else {
        4
    }
}

/// The number of bytes of a text in UTF-8 (`str::len`).
pub open spec fn utf8_len(s: Seq<char>) -> int
    decreases s.len(),
{
    if s.len() == 0 {
        0
    } else {
        utf8_len(s.drop_last()) + utf8_width(s.last())
    }
}

/// Byte `n` of the text is a character boundary.
pub open spec fn is_boundary(s: Seq<char>, n: int) -> bool {
    exists|k: int| 0 <= k <= s.len() && utf8_len(#[trigger] s.subrange(0, k)) == n
}

/// The number of leading characters that make up the first `n` bytes.
pub open spec fn chars_in_bytes(s: Seq<char>, n: int) -> int {
    choose|k: int| 0 <= k <= s.len() && utf8_len(#[trigger] s.subrange(0, k)) == n
}

/// The text cut to at most `max` bytes: kept when it fits, else cut to
/// `max - 1` bytes and ended by `…` when `max` is above 2, else cut to
/// `max` bytes.
pub open spec fn truncate_spec(s: Seq<char>, max: int) -> Seq<char> {
    if utf8_len(s) <= max {
        s
    } else if max > 2 {
        s.subrange(0, chars_in_bytes(s, max - 1)) + seq!['…']
    } else {
        s.subrange(0, chars_in_bytes(s, max))
    }
}


proof fn lemma_prefix_len_increasing(s: Seq<char>, a: int, b: int)
    requires
        0 <= a < b <= s.len(),
    ensures
        utf8_len(s.subrange(0, a)) < utf8_len(s.subrange(0, b)),
    decreases b - a,
{
    assert(s.subrange(0, b).drop_last() =~= s.subrange(0, b - 1));
    if a < b - 1 {
        lemma_prefix_len_increasing(s, a, b - 1);
    }
}

fn char_width(c: char) -> (w: usize)
    ensures
        w == utf8_width(c),
{
    let v = c as u32;
    if v < 0x80 {
        1
    } else if v < 0x800 {
        2
    } else if v < 0x10000 {
        3
    } else {
        4
    }
}

/// The number of characters making up the first `n` bytes of `cs`, and the
/// byte length of all of it, as far as `n` reaches.
fn byte_prefix(cs: &Vec<char>, n: usize) -> (r: (usize, bool))
    requires
        cs@.len() <= usize::MAX / 4,
    ensures
        r.0 <= cs@.len(),
        r.1 ==> utf8_len(cs@.subrange(0, r.0 as int)) == n,
        r.1 <==> is_boundary(cs@, n as int),
{
    let mut k: usize = 0;
    let mut bytes: usize = 0;
    while k < cs.len() && bytes < n
        invariant
            cs@.len() <= usize::MAX / 4,
            k <= cs@.len(),
            bytes == utf8_len(cs@.subrange(0, k as int)),
            bytes <= 4 * k,
            forall|j: int| 0 <= j < k ==> utf8_len(#[trigger] cs@.subrange(0, j)) < n,
        decreases cs.len() - k,
    {
        assert(cs@.subrange(0, k + 1).drop_last() =~= cs@.subrange(0, k as int));
        bytes = bytes + char_width(cs[k]);
        k = k + 1;
    }
    let found = bytes == n;
    proof {
        if !found {
            assert forall|j: int| 0 <= j <= cs@.len() implies utf8_len(#[trigger] cs@.subrange(0, j)) != n by {
                if j < k {
                } else if j > k {
                    lemma_prefix_len_increasing(cs@, k as int, j);
                }
            }
        }
    }
    (k, found)
}

/// The text's UTF-8 byte length.
fn byte_len(cs: &Vec<char>) -> (n: usize)
    requires
        cs@.len() <= usize::MAX / 4,
    ensures
        n == utf8_len(cs@),
{
    let mut k: usize = 0;
    let mut bytes: usize = 0;
    while k < cs.len()
        invariant
            cs@.len() <= usize::MAX / 4,
            k <= cs@.len(),
            bytes == utf8_len(cs@.subrange(0, k as int)),
            bytes <= 4 * k,
        decreases cs.len() - k,
    {
        assert(cs@.subrange(0, k + 1).drop_last() =~= cs@.subrange(0, k as int));
        bytes = bytes + char_width(cs[k]);
        k = k + 1;
    }
    assert(cs@.subrange(0, cs@.len() as int) =~= cs@);
    bytes
}

/// The UTF-8 byte length of a text (`str::len`).
pub fn byte_count(s: &str) -> (n: usize)
    requires
        s@.len() <= usize::MAX / 4,
    ensures
        n == utf8_len(s@),
{
    let cs = chars_of(s);
    byte_len(&cs)
}

/// Cuts a text to at most `max` bytes, marking a cut with `…` when there
/// is room. The cut must fall on a character boundary.
pub fn truncate_str(s: &str, max: usize) -> (r: String)
    requires
        s@.len() <= usize::MAX / 4,
        utf8_len(s@) > max ==> is_boundary(s@, if max > 2 {
            max - 1
        } else {
            max as int
        }),
    ensures
        r@ == truncate_spec(s@, max as int),
{
    let cs = chars_of(s);
    let total = byte_len(&cs);
    if total <= max {
        return owned(s);
    }
    let cut = if max > 2 {
        max - 1
    } else {
        max
    };
    let (k, found) = byte_prefix(&cs, cut);
    proof {
        let c = chars_in_bytes(s@, cut as int);
        assert(0 <= c <= s@.len() && utf8_len(s@.subrange(0, c)) == cut);
        if c < k {
            lemma_prefix_len_increasing(s@, c, k as int);
        } else if c > k {
            lemma_prefix_len_increasing(s@, k as int, c);
        }
    }
    let mut r = string_of(&cs, 0, k);
    if max > 2 {
        push_char(&mut r, '…');
    }
    r
}

/// An ASCII text has as many bytes as characters.
proof fn lemma_ascii_utf8_len(s: Seq<char>)
    requires
        all_ascii(s),
    ensures
        utf8_len(s) == s.len(),
    decreases s.len(),
{
    if s.len() > 0 {
        let t = s.drop_last();
        assert forall|i: int| 0 <= i < t.len() implies (#[trigger] t[i] as u32) < 128 by {
            assert(t[i] == s[i]);
        }
        lemma_ascii_utf8_len(t);
        assert((s[s.len() - 1] as u32) < 128);
    }
}

/// An ASCII text is cut on a character boundary, and the cut text, `…`
/// included, has at most `max` characters.
pub proof fn lemma_truncate_ascii(s: Seq<char>, max: int)
    requires
        all_ascii(s),
        max >= 0,
    ensures
        utf8_len(s) > max ==> is_boundary(s, if max > 2 {
            max - 1
        } else {
            max
        }),
        truncate_spec(s, max).len() <= max || utf8_len(s) <= max && truncate_spec(s, max) == s,
{
    lemma_ascii_utf8_len(s);
    if utf8_len(s) > max {
        let cut = if max > 2 {
            max - 1
        } else {
            max
        };
        let p = s.subrange(0, cut);
        assert forall|i: int| 0 <= i < p.len() implies (#[trigger] p[i] as u32) < 128 by {
            assert(p[i] == s[i]);
        }
        lemma_ascii_utf8_len(p);
        assert(utf8_len(s.subrange(0, cut)) == cut);
        let k = chars_in_bytes(s, cut);
        let q = s.subrange(0, k);
        assert forall|i: int| 0 <= i < q.len() implies (#[trigger] q[i] as u32) < 128 by {
            assert(q[i] == s[i]);
        }
        lemma_ascii_utf8_len(q);
    }
}

// ---------------------------------------------------------------------------
// Wrapping detail fields
// ---------------------------------------------------------------------------

/// Rows filled so far and the row being filled.
pub ghost struct WrapState {
    pub rows: Seq<Seq<char>>,
    pub cur: Seq<char>,
}

/// Adds a word: to the row being filled when it still fits within `avail`
/// characters (with a space before it), else on a new row.
pub open spec fn wrap_step(st: WrapState, w: Seq<char>, avail: int) -> WrapState {
    if st.cur.len() == 0 {
        WrapState { cur: w, ..st }
    } else if st.cur.len() + 1 + w.len() <= avail {
        WrapState { cur: st.cur + seq![' '] + w, ..st }
    } else {
        WrapState { rows: st.rows.push(st.cur), cur: w }
    }
}

pub open spec fn wrap_fold(ws: Seq<Seq<char>>, avail: int) -> WrapState
    decreases ws.len(),
{
    if ws.len() == 0 {
        WrapState { rows: Seq::empty(), cur: Seq::empty() }
    } else {
        wrap_step(wrap_fold(ws.drop_last(), avail), ws.last(), avail)
    }
}

/// The room for a field's value on a row `width` wide after a label `kw`
/// wide: two spaces, the label, two spaces; at least one character.
pub open spec fn wrap_room(width: int, kw: int) -> int {
    let indent = 2 + kw + 2;
    if width - indent >= 1 {
        width - indent
    } else {
        1
    }
}

/// The rows of a field's value: its words filled greedily into rows; one
/// empty row when there are no words.
pub open spec fn wrap_rows_spec(value: Seq<char>, width: int, kw: int) -> Seq<Seq<char>> {
    let st = wrap_fold(words(value), wrap_room(width, kw));
    let rows = if st.cur.len() > 0 {
        st.rows.push(st.cur)
    } else {
        st.rows
    };
    if rows.len() == 0 {
        seq![Seq::empty()]
    } else {
        rows
    }
}

/// Fills the words of a field's value into rows.
pub fn wrap_rows(value: &str, width: usize, kw: usize) -> (r: Vec<String>)
    requires
        kw + 4 <= usize::MAX,
    ensures
        string_views(r@) == wrap_rows_spec(value@, width as int, kw as int),
{
    let indent = 2 + kw + 2;
    let avail = if width >= indent && width - indent >= 1 {
        width - indent
    } else {
        1
    };
    let ws = split_words_str(value);
    let ghost wv = string_views(ws@);
    let mut rows: Vec<String> = Vec::new();
    let mut cur = String::new();
    let mut cur_len: usize = 0;
    let mut i: usize = 0;
    while i < ws.len()
        invariant
            wv == string_views(ws@),
            wv == words(value@),
            i <= ws@.len(),
            avail == wrap_room(width as int, kw as int),
            string_views(rows@) == wrap_fold(wv.subrange(0, i as int), avail as int).rows,
            cur@ == wrap_fold(wv.subrange(0, i as int), avail as int).cur,
            cur_len == cur@.len(),
        decreases ws.len() - i,
    {
        assert(wv.subrange(0, i + 1).drop_last() =~= wv.subrange(0, i as int));
        let w = ws[i].as_str();
        let wlen = w.unicode_len();
        if cur_len == 0 {
            cur = owned(w);
            cur_len = wlen;
        } else if cur_len < avail && wlen <= avail - cur_len - 1 {
            push_char(&mut cur, ' ');
            append_str(&mut cur, w);
            cur_len = cur_len + 1 + wlen;
        } else {
            let ghost before = string_views(rows@);
            let mut done = owned(w);
            std::mem::swap(&mut done, &mut cur);
            rows.push(done);
            assert(string_views(rows@) =~= before.push(done@));
            cur_len = wlen;
        }
        i = i + 1;
    }
    assert(wv.subrange(0, wv.len() as int) =~= wv);
    if cur_len > 0 {
        let ghost before = string_views(rows@);
        rows.push(cur);
        assert(string_views(rows@) =~= before.push(wrap_fold(wv, avail as int).cur));
    }
    if rows.len() == 0 {
        rows.push(String::new());
        assert(string_views(rows@) =~= seq![Seq::<char>::empty()]);
    }
    rows
}

/// The prefix of a field's first row: two spaces, the label padded with
/// spaces to `kw` characters, two spaces.
pub open spec fn label_prefix_spec(label: Seq<char>, kw: int) -> Seq<char> {
    let pad = if label.len() < kw {
        kw - label.len()
    } else {
        0
    };
    "  "@ + label + Seq::new(pad as nat, |i: int| ' ') + "  "@
}

/// The prefix of a field's first row.
pub fn label_prefix(label: &str, kw: usize) -> (r: String)
    ensures
        r@ == label_prefix_spec(label@, kw as int),
{
    let mut r = owned("  ");
    append_str(&mut r, label);
    let n = label.unicode_len();
    let mut k = n;
    let ghost start = r@;
    while k < kw
        invariant
            n <= k,
            k == n || k <= kw,
            r@ == start + Seq::new((k - n) as nat, |i: int| ' '),
        decreases kw - k,
    {
        push_char(&mut r, ' ');
        assert(r@ =~= start + Seq::new((k + 1 - n) as nat, |i: int| ' '));
        k = k + 1;
    }
    assert((k - n) as int == (if (n as int) < (kw as int) {
        kw - n
    } else {
        0
    }));
    let ghost padded = r@;
    append_str(&mut r, "  ");
    assert(r@ =~= padded + "  "@);
    assert(r@ =~= label_prefix_spec(label@, kw as int));
    r
}

// ---------------------------------------------------------------------------
// Colors
// ---------------------------------------------------------------------------

/// The color of a repository's name.
pub open spec fn repo_color_spec(repo: Seq<char>, t: ThemeView) -> Color {
    if repo == "core"@ {
        t.accent
    } else if repo == "extra"@ {
        t.selected
    } else if repo == "community"@ {
        t.success
    } else if repo == "aur"@ {
        t.accent
    } else {
        t.border
    }
}

/// The color of a repository's name.
pub fn repo_color(repo: &str, theme: &Theme) -> (c: Color)
    ensures
        c == repo_color_spec(repo@, theme@),
{
    if crate::text::str_eq(repo, "core") {
        theme.accent
    } else if crate::text::str_eq(repo, "extra") {
        theme.selected
    } else if crate::text::str_eq(repo, "community") {
        theme.success
    } else if crate::text::str_eq(repo, "aur") {
        theme.accent
    } else {
        theme.border
    }
}

/// The mark of a package's state: ` ↑` in bold warning color when it can be
/// upgraded, ` ✔` in success color when installed, ` ○` in border color
/// otherwise.
pub fn status_icon(installed: bool, upgradable: bool, theme: &Theme) -> (r: (&'static str, Color, bool))
    ensures
        upgradable ==> r.0@ == " ↑"@ && r.1 == theme.warning && r.2,
        !upgradable && installed ==> r.0@ == " ✔"@ && r.1 == theme.success && !r.2,
        !upgradable && !installed ==> r.0@ == " ○"@ && r.1 == theme.border && !r.2,
{
    if upgradable {
        (" ↑", theme.warning, true)
    } else if installed {
        (" ✔", theme.success, false)
    } else {
        (" ○", theme.border, false)
    }
}

} // verus!
