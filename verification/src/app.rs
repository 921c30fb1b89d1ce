//! Application state: the package list and its filtered, sorted view, the
//! status message, the console log of running commands, and the modes of
//! the interface.
use vstd::prelude::*;
use crate::package::{pkg_views, repo_priority, repo_priority_spec, ConfirmAction, Package, PkgInfo};
use crate::sort::{before, has_pos, is_sorting_order, lemma_sorting_order_unique, sorted_positions, SortKey, key_views};
use crate::text::{
    char_is_ascii_alpha, chars_of, contains, contains_seq, is_ascii_alpha, lower, lower_str,
    owned, push_char, str_eq, string_views,
};
use crate::theme::{theme_default, Theme};

verus! {

// ---------------------------------------------------------------------------
// Clock
// ---------------------------------------------------------------------------

#[verifier::external_type_specification]
#[verifier::external_body]
pub struct ExInstant(std::time::Instant);

/// `Instant::now`: a reading of the monotonic clock. Nothing is stated of it.
#[verifier::external_body]
fn instant_now() -> (r: std::time::Instant) {
    std::time::Instant::now()
}

/// `Instant::elapsed`: the time passed since `origin`. It depends on the
/// time of the call; nothing is stated of it.
#[verifier::external_body]
fn elapsed_since(origin: &std::time::Instant) -> (d: std::time::Duration) {
    origin.elapsed()
}

/// `Duration::as_nanos`: the whole nanoseconds of a duration. A duration
/// is opaque here, so nothing is stated of the number.
#[verifier::external_body]
fn whole_nanos(d: &std::time::Duration) -> (r: u128) {
    d.as_nanos()
}

/// Nanoseconds since `origin`, saturating at `u64::MAX` (some 584 years).
fn nanos_since(origin: &std::time::Instant) -> (r: u64) {
    let ns = whole_nanos(&elapsed_since(origin));
    if ns > u64::MAX as u128 {
        u64::MAX
    } else {
        ns as u64
    }
}

/// The time `secs` seconds after `now` (in nanoseconds), saturating at
/// `u64::MAX`.
pub open spec fn expiry_spec(now: u64, secs: u64) -> u64 {
    if now + secs * 1_000_000_000 <= u64::MAX {
        (now + secs * 1_000_000_000) as u64
    } else {
        u64::MAX
    }
}

pub fn expiry_after(now: u64, secs: u64) -> (r: u64)
    ensures
        r == expiry_spec(now, secs),
{
    let room = (u64::MAX - now) / 1_000_000_000;
    if secs > room {
        assert(secs * 1_000_000_000 > u64::MAX - now) by (nonlinear_arith)
            requires
                secs > room,
                room == (u64::MAX - now) / 1_000_000_000,
                now <= u64::MAX,
        ;
        u64::MAX
    } else {
        assert(secs * 1_000_000_000 <= u64::MAX - now) by (nonlinear_arith)
            requires
                secs <= room,
                room == (u64::MAX - now) / 1_000_000_000,
                now <= u64::MAX,
        ;
        now + secs * 1_000_000_000
    }
}

// ---------------------------------------------------------------------------
// Filters
// ---------------------------------------------------------------------------

/// The number of filter tabs.
pub const FILTER_COUNT: usize = 7;

/// The name of each filter tab.
pub open spec fn filter_name(i: int) -> Seq<char> {
    if i == 0 {
        "all"@
    } else if i == 1 {
        "installed"@
    } else if i == 2 {
        "updates"@
    } else if i == 3 {
        "core"@
    } else if i == 4 {
        "extra"@
    } else if i == 5 {
        "multilib"@
    } else {
        "aur"@
    }
}

/// The names of the filter tabs, in order.
pub fn filters() -> (r: Vec<String>)
    ensures
        r@.len() == FILTER_COUNT,
        forall|i: int| 0 <= i < FILTER_COUNT ==> #[trigger] r@[i]@ == filter_name(i),
{
    let mut r: Vec<String> = Vec::new();
    r.push(owned("all"));
    r.push(owned("installed"));
    r.push(owned("updates"));
    r.push(owned("core"));
    r.push(owned("extra"));
    r.push(owned("multilib"));
    r.push(owned("aur"));
    r
}

/// Whether a package passes the lowercased query and the filter tab.
pub open spec fn pkg_passes(p: PkgInfo, q: Seq<char>, filter_idx: int) -> bool {
    &&& (q.len() == 0 || contains(p.search_key, q))
    &&& if filter_idx == 0 {
        true
    } else if filter_idx == 1 {
        p.installed
    } else if filter_idx == 2 {
        p.upgradable
    } else {
        p.repo == filter_name(filter_idx)
    }
}

/// Indices below `n` of the packages that pass, in increasing order.
pub open spec fn matching_upto(pkgs: Seq<PkgInfo>, q: Seq<char>, filter_idx: int, n: int) -> Seq<
    usize,
>
    decreases n,
{
    if n <= 0 {
        Seq::empty()
    } else if pkg_passes(pkgs[n - 1], q, filter_idx) {
        matching_upto(pkgs, q, filter_idx, n - 1).push((n - 1) as usize)
    } else {
        matching_upto(pkgs, q, filter_idx, n - 1)
    }
}

/// Indices of the packages that pass, in increasing order.
pub open spec fn matching(pkgs: Seq<PkgInfo>, q: Seq<char>, filter_idx: int) -> Seq<usize> {
    matching_upto(pkgs, q, filter_idx, pkgs.len() as int)
}

// ---------------------------------------------------------------------------
// Sort orders
// ---------------------------------------------------------------------------

/// The number of sort modes.
pub const SORT_MODES: usize = 4;

/// The installed-size order key of package `i`; zero when none is known.
pub open spec fn size_key(sizes: Seq<u64>, i: int) -> int {
    if 0 <= i < sizes.len() {
        sizes[i] as int
    } else {
        0
    }
}

/// The key a package is sorted by in each mode: name (mode 0) and repo
/// (mode 1) both order by repository priority, then lowercased name; size
/// (mode 2) orders larger installed sizes first; installed (mode 3) puts
/// installed packages first, then orders by lowercased name.
pub open spec fn sort_key(p: PkgInfo, size: int, mode: int) -> (int, Seq<char>) {
    if mode == 2 {
        (u64::MAX - size, Seq::empty())
    } else if mode == 3 {
        (if p.installed {
            0
        } else {
            1
        }, lower(p.name))
    } else {
        (repo_priority_spec(p.repo) as int, lower(p.name))
    }
}

/// The keys of the entries of a view.
pub open spec fn view_keys(pkgs: Seq<PkgInfo>, sizes: Seq<u64>, mode: int, view: Seq<usize>) -> Seq<
    (int, Seq<char>),
> {
    Seq::new(
        view.len(),
        |i: int| sort_key(pkgs[view[i] as int], size_key(sizes, view[i] as int), mode),
    )
}

/// `output` is `input` stably sorted in the mode: for a mode above 3 it is
/// `input` unchanged; otherwise it holds the entries of `input` by a
/// sorting order of their keys, equal keys keeping their order.
#[verifier::opaque]
pub open spec fn sorted_arrangement(
    pkgs: Seq<PkgInfo>,
    sizes: Seq<u64>,
    mode: int,
    input: Seq<usize>,
    output: Seq<usize>,
) -> bool {
    if mode > 3 {
        output == input
    } else {
        exists|order: Seq<usize>|
            #![trigger is_sorting_order(view_keys(pkgs, sizes, mode, input), order)]
            is_sorting_order(view_keys(pkgs, sizes, mode, input), order) && output
                == order.map_values(|p: usize| input[p as int])
    }
}

/// Sorting is deterministic: a view has exactly one stable arrangement in
/// each mode.
pub proof fn lemma_sorted_arrangement_unique(
    pkgs: Seq<PkgInfo>,
    sizes: Seq<u64>,
    mode: int,
    input: Seq<usize>,
    out1: Seq<usize>,
    out2: Seq<usize>,
)
    requires
        sorted_arrangement(pkgs, sizes, mode, input, out1),
        sorted_arrangement(pkgs, sizes, mode, input, out2),
    ensures
        out1 == out2,
{
    reveal(sorted_arrangement);
    if mode <= 3 {
        let keys = view_keys(pkgs, sizes, mode, input);
        let o1 = choose|order: Seq<usize>|
            is_sorting_order(keys, order) && out1 == order.map_values(|p: usize| input[p as int]);
        let o2 = choose|order: Seq<usize>|
            is_sorting_order(keys, order) && out2 == order.map_values(|p: usize| input[p as int]);
        lemma_sorting_order_unique(keys, o1, o2);
    }
}

/// An occurrence of an occurrence is an occurrence.
proof fn lemma_contains_transitive(s: Seq<char>, q2: Seq<char>, q1: Seq<char>)
    requires
        contains(s, q2),
        contains(q2, q1),
    ensures
        contains(s, q1),
{
    let k2 = choose|k: int| crate::text::occurs_at(s, q2, k);
    let k1 = choose|k: int| crate::text::occurs_at(q2, q1, k);
    assert(s.subrange(k2 + k1, k2 + k1 + q1.len()) =~= q2.subrange(k1, k1 + q1.len()));
    assert(crate::text::occurs_at(s, q1, k2 + k1));
}

/// The matching indices below `n` are the indices below `n` of the packages
/// that pass.
proof fn lemma_matching_upto_contains(pkgs: Seq<PkgInfo>, q: Seq<char>, f: int, n: int, x: usize)
    requires
        n <= pkgs.len(),
        pkgs.len() <= usize::MAX,
    ensures
        matching_upto(pkgs, q, f, n).contains(x) <==> (x < n && pkg_passes(pkgs[x as int], q, f)),
    decreases n,
{
    if n > 0 {
        lemma_matching_upto_contains(pkgs, q, f, n - 1, x);
        let m = matching_upto(pkgs, q, f, n - 1);
        if pkg_passes(pkgs[n - 1], q, f) {
            let mp = m.push((n - 1) as usize);
            assert(mp[m.len() as int] == (n - 1) as usize);
            if mp.contains(x) && x != n - 1 {
                let i = choose|i: int| 0 <= i < mp.len() && mp[i] == x;
                assert(i != m.len());
                assert(m[i] == x);
            }
            if m.contains(x) {
                let i = choose|i: int| 0 <= i < m.len() && m[i] == x;
                assert(m.push((n - 1) as usize)[i] == x);
            }
        }
    }
}

/// A sorted arrangement holds the same entries as its input.
proof fn lemma_arrangement_contains(pkgs: Seq<PkgInfo>, sizes: Seq<u64>, mode: int, input: Seq<usize>, output: Seq<usize>, x: usize)
    requires
        sorted_arrangement(pkgs, sizes, mode, input, output),
    ensures
        output.contains(x) <==> input.contains(x),
{
    reveal(sorted_arrangement);
    if mode <= 3 {
        let keys = view_keys(pkgs, sizes, mode, input);
        let order = choose|order: Seq<usize>|
            is_sorting_order(keys, order) && output == order.map_values(|p: usize| input[p as int]);
        if output.contains(x) {
            let i = choose|i: int| 0 <= i < output.len() && output[i] == x;
            assert(output[i] == input[order[i] as int]);
        }
        if input.contains(x) {
            let p = choose|p: int| 0 <= p < input.len() && input[p] == x;
            assert(has_pos(order, p));
            let i = choose|i: int| 0 <= i < order.len() && order[i] == p;
            assert(output[i] == x);
        }
    }
}

/// Typing more of a query never shows more packages: when the lowercased
/// shorter query occurs in the lowercased longer one, every package in the
/// view for the longer query is in the view for the shorter one (same
/// packages, sizes, sort mode and filter tab).
pub proof fn lemma_longer_query_narrows(
    pkgs: Seq<PkgInfo>,
    sizes: Seq<u64>,
    mode: int,
    filter_idx: int,
    q1: Seq<char>,
    q2: Seq<char>,
    v1: Seq<usize>,
    v2: Seq<usize>,
)
    requires
        pkgs.len() <= usize::MAX,
        contains(lower(q2), lower(q1)),
        sorted_arrangement(pkgs, sizes, mode, matching(pkgs, lower(q1), filter_idx), v1),
        sorted_arrangement(pkgs, sizes, mode, matching(pkgs, lower(q2), filter_idx), v2),
    ensures
        forall|x: usize| #[trigger] v2.contains(x) ==> v1.contains(x),
{
    assert forall|x: usize| #[trigger] v2.contains(x) implies v1.contains(x) by {
        let n = pkgs.len() as int;
        lemma_arrangement_contains(pkgs, sizes, mode, matching(pkgs, lower(q2), filter_idx), v2, x);
        lemma_arrangement_contains(pkgs, sizes, mode, matching(pkgs, lower(q1), filter_idx), v1, x);
        lemma_matching_upto_contains(pkgs, lower(q2), filter_idx, n, x);
        lemma_matching_upto_contains(pkgs, lower(q1), filter_idx, n, x);
        let p = pkgs[x as int];
        if lower(q1).len() > 0 {
            if lower(q2).len() == 0 {
                let k = choose|k: int| crate::text::occurs_at(lower(q2), lower(q1), k);
            } else {
                lemma_contains_transitive(p.search_key, lower(q2), lower(q1));
            }
        }
    }
}

/// Sorting a sorted view again changes nothing.
pub proof fn lemma_sort_idempotent(
    pkgs: Seq<PkgInfo>,
    sizes: Seq<u64>,
    mode: int,
    input: Seq<usize>,
    out: Seq<usize>,
    out2: Seq<usize>,
)
    requires
        input.len() <= usize::MAX,
        forall|i: int| 0 <= i < input.len() ==> (#[trigger] input[i] as int) < pkgs.len(),
        sorted_arrangement(pkgs, sizes, mode, input, out),
        sorted_arrangement(pkgs, sizes, mode, out, out2),
    ensures
        out2 == out,
{
    reveal(sorted_arrangement);
    if mode <= 3 {
        let ki = view_keys(pkgs, sizes, mode, input);
        let o = choose|order: Seq<usize>|
            is_sorting_order(ki, order) && out == order.map_values(|p: usize| input[p as int]);
        let n = out.len();
        assert(n == input.len());
        let ko = view_keys(pkgs, sizes, mode, out);
        let ident = Seq::new(n, |i: int| i as usize);
        assert forall|i: int| 0 <= i < n implies #[trigger] ko[i] == ki[o[i] as int] by {
            assert(out[i] == input[o[i] as int]);
        }
        assert forall|p: int| 0 <= p < ko.len() implies #[trigger] has_pos(ident, p) by {
            assert(ident[p] as int == p);
        }
        assert forall|i: int, j: int| 0 <= i < j < ident.len() implies before(
            ko,
            #[trigger] ident[i] as int,
            #[trigger] ident[j] as int,
        ) by {
            assert(before(ki, o[i] as int, o[j] as int));
            assert(ko[i] == ki[o[i] as int]);
            assert(ko[j] == ki[o[j] as int]);
        }
        assert(is_sorting_order(ko, ident));
        assert(out =~= ident.map_values(|p: usize| out[p as int]));
        assert(sorted_arrangement(pkgs, sizes, mode, out, out));
        lemma_sorted_arrangement_unique(pkgs, sizes, mode, out, out, out2);
    }
}

// ---------------------------------------------------------------------------
// Console log
// ---------------------------------------------------------------------------

/// The most lines the console keeps.
pub const CONSOLE_MAX_LINES: usize = 1000;

/// The console log: finished lines, the line being written, and whether an
/// escape sequence is being skipped.
pub ghost struct ConsoleModel {
    pub lines: Seq<Seq<char>>,
    pub current: Seq<char>,
    pub in_escape: bool,
}

/// One character of command output: an escape sequence (`ESC` up to the next
/// ASCII letter) is dropped, `'\n'` ends the line, `'\r'` restarts it, any
/// other character is appended to it.
pub open spec fn console_step(m: ConsoleModel, c: char) -> ConsoleModel {
    if m.in_escape {
        if is_ascii_alpha(c) {
            ConsoleModel { in_escape: false, ..m }
        } else {
            m
        }
    } else if c == '\x1b' {
        ConsoleModel { in_escape: true, ..m }
    } else if c == '\n' {
        ConsoleModel { lines: m.lines.push(m.current), current: Seq::empty(), ..m }
    } else if c == '\r' {
        ConsoleModel { current: Seq::empty(), ..m }
    } else {
        ConsoleModel { current: m.current.push(c), ..m }
    }
}

/// The console after a run of characters, before lines are dropped.
pub open spec fn console_feed(m: ConsoleModel, cs: Seq<char>) -> ConsoleModel
    decreases cs.len(),
{
    if cs.len() == 0 {
        m
    } else {
        console_step(console_feed(m, cs.drop_last()), cs.last())
    }
}

/// The last `CONSOLE_MAX_LINES` lines.
pub open spec fn keep_last_lines(ls: Seq<Seq<char>>) -> Seq<Seq<char>> {
    if ls.len() > CONSOLE_MAX_LINES {
        ls.subrange(ls.len() - CONSOLE_MAX_LINES, ls.len() as int)
    } else {
        ls
    }
}

/// The console after a chunk of output: the characters are fed, then only
/// the last `CONSOLE_MAX_LINES` lines are kept.
pub open spec fn console_write(m: ConsoleModel, cs: Seq<char>) -> ConsoleModel {
    let f = console_feed(m, cs);
    ConsoleModel { lines: keep_last_lines(f.lines), ..f }
}

proof fn lemma_console_feed_split(m: ConsoleModel, a: Seq<char>, b: Seq<char>)
    ensures
        console_feed(m, a + b) == console_feed(console_feed(m, a), b),
    decreases b.len(),
{
    if b.len() == 0 {
        assert(a + b =~= a);
    } else {
        assert((a + b).drop_last() =~= a + b.drop_last());
        assert((a + b).last() == b.last());
        lemma_console_feed_split(m, a, b.drop_last());
    }
}

/// While an escape sequence is open, characters that are not ASCII letters
/// are dropped.
proof fn lemma_console_escape_body(m: ConsoleModel, p: Seq<char>)
    requires
        m.in_escape,
        forall|k: int| 0 <= k < p.len() ==> !(('a' <= #[trigger] p[k] && p[k] <= 'z') || ('A' <= p[k] && p[k] <= 'Z')),
    ensures
        console_feed(m, p) == m,
    decreases p.len(),
{
    if p.len() > 0 {
        let q = p.drop_last();
        assert forall|k: int| 0 <= k < q.len() implies !(('a' <= #[trigger] q[k] && q[k] <= 'z') || ('A' <= q[k]
            && q[k] <= 'Z')) by {
            assert(q[k] == p[k]);
        }
        lemma_console_escape_body(m, q);
        assert(p.last() == p[p.len() - 1]);
    }
}

/// An escape sequence (ESC, then characters that are not ASCII letters,
/// then an ASCII letter of either case) leaves nothing behind: writing it
/// before a text is the same as writing the text alone.
pub proof fn lemma_escape_sequence_dropped(m: ConsoleModel, p: Seq<char>, l: char, t: Seq<char>)
    requires
        !m.in_escape,
        forall|k: int| 0 <= k < p.len() ==> !(('a' <= #[trigger] p[k] && p[k] <= 'z') || ('A' <= p[k] && p[k] <= 'Z')),
        ('a' <= l && l <= 'z') || ('A' <= l && l <= 'Z'),
    ensures
        console_write(m, seq!['\x1b'] + p + seq![l] + t) == console_write(m, t),
{
    let esc = seq!['\x1b'];
    let open = ConsoleModel { in_escape: true, ..m };
    assert(esc.drop_last() =~= Seq::<char>::empty());
    assert(console_feed(m, Seq::<char>::empty()) == m);
    assert(esc.last() == '\x1b');
    assert(console_step(m, '\x1b') == open);
    assert(console_feed(m, esc) == open);
    lemma_console_feed_split(m, esc, p);
    lemma_console_escape_body(open, p);
    let e = esc + p + seq![l];
    assert(e.drop_last() =~= esc + p);
    assert(e.last() == l);
    assert(console_feed(m, e) == m);
    lemma_console_feed_split(m, e, t);
}

/// Characters that are not control characters of the console (escape,
/// newline, carriage return) are appended to the current line.
proof fn lemma_console_plain(m: ConsoleModel, t: Seq<char>)
    requires
        !m.in_escape,
        forall|k: int| 0 <= k < t.len() ==> #[trigger] t[k] != '\x1b' && t[k] != '\n' && t[k] != '\r',
    ensures
        console_feed(m, t) == (ConsoleModel { current: m.current + t, ..m }),
    decreases t.len(),
{
    if t.len() == 0 {
        assert(m.current + t =~= m.current);
    } else {
        let u = t.drop_last();
        assert forall|k: int| 0 <= k < u.len() implies #[trigger] u[k] != '\x1b' && u[k] != '\n' && u[k] != '\r' by {
            assert(u[k] == t[k]);
        }
        lemma_console_plain(m, u);
        assert(t.last() == t[t.len() - 1]);
        assert((m.current + u).push(t.last()) =~= m.current + t);
    }
}

/// Writing a line of plain text and a newline ends the current line with
/// that text: the log gains the line, the new current line is empty, and at
/// most the last thousand lines are kept.
pub proof fn lemma_console_line_written(m: ConsoleModel, t: Seq<char>)
    requires
        !m.in_escape,
        forall|k: int| 0 <= k < t.len() ==> #[trigger] t[k] != '\x1b' && t[k] != '\n' && t[k] != '\r',
    ensures
        ({
            let all = m.lines.push(m.current + t);
            let r = console_write(m, t.push('\n'));
            &&& r.current.len() == 0
            &&& !r.in_escape
            &&& r.lines.len() == (if all.len() > 1000 { 1000 } else { all.len() })
            &&& r.lines.last() == m.current + t
            &&& forall|i: int| 0 <= i < r.lines.len() ==> #[trigger] r.lines[i] == all[all.len() - r.lines.len() + i]
        }),
{
    lemma_console_plain(m, t);
    assert(t.push('\n').drop_last() =~= t);
    let all = m.lines.push(m.current + t);
    let r = console_write(m, t.push('\n'));
    assert(console_feed(m, t.push('\n')).lines == all);
}

/// A carriage return starts the current line over: what was written on it
/// since the last newline is dropped.
pub proof fn lemma_console_carriage_return(m: ConsoleModel, t: Seq<char>, u: Seq<char>)
    requires
        !m.in_escape,
        forall|k: int| 0 <= k < t.len() ==> #[trigger] t[k] != '\x1b' && t[k] != '\n' && t[k] != '\r',
    ensures
        console_write(m, t + seq!['\r'] + u) == console_write(ConsoleModel { current: Seq::empty(), ..m }, u),
{
    lemma_console_plain(m, t);
    let e = t.push('\r');
    assert(e.drop_last() =~= t);
    assert(t + seq!['\r'] + u =~= e + u);
    lemma_console_feed_split(m, e, u);
}

/// Feeding characters appends lines to what was there; the lines already
/// there do not change what is appended or the current line.
proof fn lemma_console_feed_lines(m: ConsoleModel, cs: Seq<char>)
    ensures
        console_feed(m, cs).lines == m.lines + console_feed(
            ConsoleModel { lines: Seq::empty(), ..m },
            cs,
        ).lines,
        console_feed(m, cs).current == console_feed(
            ConsoleModel { lines: Seq::empty(), ..m },
            cs,
        ).current,
        console_feed(m, cs).in_escape == console_feed(
            ConsoleModel { lines: Seq::empty(), ..m },
            cs,
        ).in_escape,
    decreases cs.len(),
{
    if cs.len() > 0 {
        lemma_console_feed_lines(m, cs.drop_last());
        let e = ConsoleModel { lines: Seq::empty(), ..m };
        let f = console_feed(m, cs.drop_last());
        let g = console_feed(e, cs.drop_last());
        if !f.in_escape && cs.last() == '\n' {
            assert(f.lines.push(f.current) =~= m.lines + g.lines.push(g.current));
        }
    }
}

proof fn lemma_keep_last_twice(l: Seq<Seq<char>>, e: Seq<Seq<char>>)
    ensures
        keep_last_lines(keep_last_lines(l) + e) == keep_last_lines(l + e),
{
    let n = CONSOLE_MAX_LINES as int;
    if l.len() > n {
        let t = l.subrange(l.len() - n, l.len() as int);
        let x = keep_last_lines(t + e);
        let y = keep_last_lines(l + e);
        if e.len() == 0 {
            assert(t + e =~= t);
            assert(l + e =~= l);
        } else {
            assert(x.len() == y.len());
            assert forall|i: int| 0 <= i < x.len() implies x[i] == y[i] by {
                if i < n - e.len() {
                    assert(x[i] == (t + e)[e.len() + i]);
                    assert(y[i] == (l + e)[l.len() + e.len() - n + i]);
                } else {
                    assert(x[i] == (t + e)[e.len() + i]);
                    assert(y[i] == (l + e)[l.len() + e.len() - n + i]);
                }
            }
            assert(x =~= y);
        }
    }
}

/// Writing two chunks one after the other leaves the console as writing
/// their concatenation at once.
pub proof fn lemma_console_write_concat(m: ConsoleModel, a: Seq<char>, b: Seq<char>)
    ensures
        console_write(console_write(m, a), b) == console_write(m, a + b),
{
    let f1 = console_feed(m, a);
    let w1 = console_write(m, a);
    lemma_console_feed_split(m, a, b);
    lemma_console_feed_lines(f1, b);
    lemma_console_feed_lines(w1, b);
    let e1 = ConsoleModel { lines: Seq::empty(), ..f1 };
    let e2 = ConsoleModel { lines: Seq::empty(), ..w1 };
    assert(e1 == e2);
    lemma_keep_last_twice(f1.lines, console_feed(e1, b).lines);
}

/// The console never holds more than `CONSOLE_MAX_LINES` lines after a
/// chunk of output, whatever it held before.
pub proof fn lemma_console_write_bounded(m: ConsoleModel, cs: Seq<char>)
    ensures
        console_write(m, cs).lines.len() <= CONSOLE_MAX_LINES,
{
}

// ---------------------------------------------------------------------------
// The application state
// ---------------------------------------------------------------------------

/// The status-line message.
pub struct StatusMsg {
    pub text: String,
    /// Kept until replaced, never expiring.
    pub keep: bool,
    /// When the message expires, in nanoseconds on the application clock.
    pub expires: Option<u64>,
}

/// A status message as plain values: its text, whether it is kept, and
/// when it expires.
pub type StatusView = (Seq<char>, bool, Option<u64>);

impl View for StatusMsg {
    type V = StatusView;

    open spec fn view(&self) -> StatusView {
        (self.text@, self.keep, self.expires)
    }
}

/// The message shown by `set_msg_at(text, secs, keep, now)`.
pub open spec fn message_set(text: Seq<char>, secs: u64, keep: bool, now: u64) -> StatusView {
    (text, keep, if keep {
        None
    } else {
        Some(expiry_spec(now, secs))
    })
}

/// The message after a check for expiry at time `now`: a message that is
/// not kept is cleared once `now` is past its expiry.
pub open spec fn message_checked(m: StatusView, now: u64) -> StatusView {
    if !m.1 && (m.2 matches Some(e) && now > e) {
        (Seq::empty(), m.1, None)
    } else {
        m
    }
}

/// The message after checks for expiry at the times `ts`, in order.
pub open spec fn message_checked_at(m: StatusView, ts: Seq<u64>) -> StatusView
    decreases ts.len(),
{
    if ts.len() == 0 {
        m
    } else {
        message_checked(message_checked_at(m, ts.drop_last()), ts.last())
    }
}

/// A message shown at time `t0` and then checked at the nondecreasing
/// times `ts` is cleared exactly when it is not kept and the last check
/// comes after its expiry; otherwise it is still the message shown. A kept
/// message is never cleared.
pub proof fn lemma_message_lifetime(text: Seq<char>, secs: u64, keep: bool, t0: u64, ts: Seq<u64>)
    requires
        ts.len() > 0,
        forall|i: int, j: int| 0 <= i <= j < ts.len() ==> ts[i] <= ts[j],
    ensures
        message_checked_at(message_set(text, secs, keep, t0), ts) == (if !keep && ts.last() > expiry_spec(t0, secs) {
            (Seq::<char>::empty(), false, None::<u64>)
        } else {
            message_set(text, secs, keep, t0)
        }),
    decreases ts.len(),
{
    let m = message_set(text, secs, keep, t0);
    if ts.len() > 1 {
        let prev = ts.drop_last();
        assert forall|i: int, j: int| 0 <= i <= j < prev.len() implies prev[i] <= prev[j] by {
            assert(prev[i] == ts[i] && prev[j] == ts[j]);
        }
        lemma_message_lifetime(text, secs, keep, t0, prev);
        assert(prev.last() == ts[ts.len() - 2]);
        assert(ts[ts.len() - 2] <= ts[ts.len() - 1]);
        assert(message_checked_at(m, ts) == message_checked(message_checked_at(m, prev), ts.last()));
    } else {
        assert(message_checked_at(m, ts.drop_last()) == m);
        assert(message_checked_at(m, ts) == message_checked(m, ts.last()));
    }
}

/// The console that shows the output of a running command.
pub struct Console {
    pub mode: bool,
    pub lines: Vec<String>,
    pub scroll: usize,
    /// `Some(success)` once the command finished.
    pub finished: Option<bool>,
    /// An escape sequence is being skipped.
    pub in_escape: bool,
    /// The line being written, not yet ended by a newline.
    pub current_line: String,
}

impl Console {
    /// The log as plain values.
    pub open spec fn model(&self) -> ConsoleModel {
        ConsoleModel { lines: string_views(self.lines@), current: self.current_line@, in_escape: self.in_escape }
    }

    /// A console that is closed and empty.
    pub fn closed() -> (c: Console)
        ensures
            !c.mode,
            c.lines@.len() == 0,
            c.scroll == 0,
            c.finished is None,
            !c.in_escape,
            c.current_line@.len() == 0,
    {
        Console {
            mode: false,
            lines: Vec::new(),
            scroll: 0,
            finished: None,
            in_escape: false,
            current_line: String::new(),
        }
    }

    /// Appends a chunk of command output (see [`console_write`]) and
    /// scrolls to the end of the log.
    pub fn write_chunk(&mut self, chunk: &str)
        ensures
            final(self).model() == console_write(old(self).model(), chunk@),
            final(self).scroll == final(self).lines@.len(),
            final(self).mode == old(self).mode,
            final(self).finished == old(self).finished,
    {
        let mut lines: Vec<String> = Vec::new();
        std::mem::swap(&mut lines, &mut self.lines);
        let mut cur = String::new();
        std::mem::swap(&mut cur, &mut self.current_line);
        let esc = console_write_parts(&mut lines, &mut cur, self.in_escape, chunk);
        self.lines = lines;
        self.current_line = cur;
        self.in_escape = esc;
        self.scroll = self.lines.len();
    }
}

/// The sudo password prompt.
pub struct SudoPrompt {
    pub mode: bool,
    pub password: String,
    /// The action that runs once the password is entered.
    pub pending_action: Option<(ConfirmAction, Vec<String>)>,
}

/// The wiki page viewer.
pub struct WikiView {
    pub show: bool,
    pub loading: bool,
    pub pkg_name: String,
    pub content: Vec<String>,
    pub err_msg: Option<String>,
    pub scroll: usize,
}

/// The theme editor: a cursor over its eleven rows (the theme, then its ten
/// colours) and the index of the chosen predefined theme, where the number
/// of predefined themes stands for the custom one.
pub struct ThemeBuilder {
    pub open: bool,
    pub cursor: usize,
    pub selected_theme_idx: usize,
}

/// The dependency tree panel.
pub struct DepTree {
    pub show: bool,
    /// The package whose tree was last fetched.
    pub pkg_name: Option<String>,
    pub loading: bool,
    pub content: Vec<String>,
}

/// The whole state of the interface.
pub struct App {
    pub pkgs: Vec<Package>,
    /// Indices into `pkgs` of the packages shown, in display order.
    pub view: Vec<usize>,
    /// Names of the selected packages, each once, in the order selected.
    pub selected: Vec<String>,
    pub cursor: usize,
    pub list_top: usize,
    pub detail_top: usize,
    pub query: String,
    pub filter_idx: usize,
    pub sort_idx: usize,
    pub status: StatusMsg,
    pub search_mode: bool,
    pub show_help: bool,
    pub help_scroll: usize,
    pub confirm: Option<(ConfirmAction, Vec<String>)>,
    pub disk_free: String,
    pub is_loading: bool,
    pub spinner_tick: u64,
    pub needs_filter: bool,
    pub url_input_mode: bool,
    pub url_query: String,
    /// A script shown before it runs: (url, content).
    pub script_preview: Option<(String, String)>,
    pub console: Console,
    pub sudo: SudoPrompt,
    pub terminal_needs_clear: bool,
    /// When the cursor last moved, in nanoseconds on the application clock.
    pub last_cursor_change: u64,
    pub wiki: WikiView,
    pub theme_builder: ThemeBuilder,
    pub theme: Theme,
    pub dep_tree: DepTree,
    /// Order keys of the installed sizes of `pkgs`, larger sizes having
    /// larger keys; used by the size sort.
    pub inst_size_keys: Vec<u64>,
    /// The origin of the application clock.
    pub clock: std::time::Instant,
}

impl App {
    /// Every entry of the view is an index into `pkgs`.
    pub open spec fn view_in_bounds(&self) -> bool {
        forall|i: int| 0 <= i < self.view@.len() ==> (#[trigger] self.view@[i] as int) < self.pkgs@.len()
    }

    /// No package name is selected twice: the selection is a set of names.
    pub open spec fn selection_unique(&self) -> bool {
        string_views(self.selected@).no_duplicates()
    }

    /// The initial state: no packages, nothing selected, all modes off, the
    /// default theme.
    pub fn new(disk_free: String) -> (app: App)
        ensures
            app.pkgs@.len() == 0,
            app.view@.len() == 0,
            app.selected@.len() == 0,
            app.selection_unique(),
            app.cursor == 0,
            app.list_top == 0,
            app.detail_top == 0,
            app.query@.len() == 0,
            app.filter_idx == 0,
            app.sort_idx == 0,
            app.status.text@.len() == 0,
            !app.status.keep,
            app.status.expires is None,
            !app.search_mode,
            !app.show_help,
            app.help_scroll == 0,
            app.confirm is None,
            app.disk_free == disk_free,
            !app.is_loading,
            app.spinner_tick == 0,
            !app.needs_filter,
            !app.url_input_mode,
            app.url_query@.len() == 0,
            app.script_preview is None,
            !app.console.mode,
            app.console.lines@.len() == 0,
            app.console.scroll == 0,
            app.console.finished is None,
            !app.console.in_escape,
            app.console.current_line@.len() == 0,
            !app.sudo.mode,
            app.sudo.password@.len() == 0,
            app.sudo.pending_action is None,
            !app.terminal_needs_clear,
            app.last_cursor_change == 0,
            !app.wiki.show,
            !app.wiki.loading,
            app.wiki.pkg_name@.len() == 0,
            app.wiki.content@.len() == 0,
            app.wiki.err_msg is None,
            app.wiki.scroll == 0,
            !app.theme_builder.open,
            app.theme_builder.cursor == 0,
            app.theme_builder.selected_theme_idx == 0,
            app.theme@ == crate::theme::theme_default_spec(),
            !app.dep_tree.show,
            app.dep_tree.pkg_name is None,
            !app.dep_tree.loading,
            app.dep_tree.content@.len() == 0,
            app.inst_size_keys@.len() == 0,
    {
        App {
            pkgs: Vec::new(),
            view: Vec::new(),
            selected: Vec::new(),
            cursor: 0,
            list_top: 0,
            detail_top: 0,
            query: String::new(),
            filter_idx: 0,
            sort_idx: 0,
            status: StatusMsg { text: String::new(), keep: false, expires: None },
            search_mode: false,
            show_help: false,
            help_scroll: 0,
            confirm: None,
            disk_free,
            is_loading: false,
            spinner_tick: 0,
            needs_filter: false,
            url_input_mode: false,
            url_query: String::new(),
            script_preview: None,
            console: Console::closed(),
            sudo: SudoPrompt { mode: false, password: String::new(), pending_action: None },
            terminal_needs_clear: false,
            last_cursor_change: 0,
            wiki: WikiView {
                show: false,
                loading: false,
                pkg_name: String::new(),
                content: Vec::new(),
                err_msg: None,
                scroll: 0,
            },
            theme_builder: ThemeBuilder { open: false, cursor: 0, selected_theme_idx: 0 },
            theme: theme_default(),
            dep_tree: DepTree { show: false, pkg_name: None, loading: false, content: Vec::new() },
            inst_size_keys: Vec::new(),
            clock: instant_now(),
        }
    }

    /// Nanoseconds on the application clock.
    pub fn now_ns(&self) -> (r: u64) {
        nanos_since(&self.clock)
    }

    // -----------------------------------------------------------------------
    // Status message
    // -----------------------------------------------------------------------

    /// Shows `text` at time `now`: kept until replaced when `keep`, else
    /// until `secs` seconds later (the expiry saturates at `u64::MAX`).
    pub fn set_msg_at(&mut self, text: &str, secs: u64, keep: bool, now: u64)
        ensures
            final(self).status.text@ == text@,
            final(self).status.keep == keep,
            final(self).status.expires == (if keep {
                None
            } else {
                Some(expiry_spec(now, secs))
            }),
            *final(self) == (App { status: final(self).status, ..*old(self) }),
            final(self).status@ == message_set(text@, secs, keep, now),
    {
        let expires = if keep {
            None
        } else {
            Some(expiry_after(now, secs))
        };
        self.status = StatusMsg { text: owned(text), keep, expires };
    }

    /// Shows `text`: kept until replaced when `keep`, else for `secs`
    /// seconds from now.
    pub fn set_msg(&mut self, text: &str, secs: u64, keep: bool)
        ensures
            final(self).status.text@ == text@,
            final(self).status.keep == keep,
            keep <==> final(self).status.expires is None,
            !keep ==> exists|n: u64| final(self).status.expires == Some(expiry_spec(n, secs)),
            *final(self) == (App { status: final(self).status, ..*old(self) }),
    {
        let now = self.now_ns();
        self.set_msg_at(text, secs, keep, now);
        assert(!keep ==> self.status.expires == Some(expiry_spec(now, secs)));
    }

    /// Clears a message that is not kept once time `now` is past its expiry.
    pub fn check_msg_expiry_at(&mut self, now: u64)
        ensures
            ({
                let expired = !old(self).status.keep && (old(self).status.expires matches Some(e)
                    && now > e);
                if expired {
                    &&& final(self).status.text@.len() == 0
                    &&& final(self).status.keep == old(self).status.keep
                    &&& final(self).status.expires is None
                    &&& *final(self) == (App { status: final(self).status, ..*old(self) })
                } else {
                    *final(self) == *old(self)
                }
            }),
            final(self).status@ == message_checked(old(self).status@, now),
    {
        if !self.status.keep {
            if let Some(expiry) = self.status.expires {
                if now > expiry {
                    self.status = StatusMsg { text: String::new(), keep: false, expires: None };
                }
            }
        }
    }

    /// Clears a message that is not kept once it has expired.
    pub fn check_msg_expiry(&mut self)
        ensures
            final(self).status.keep == old(self).status.keep,
            old(self).status.keep ==> *final(self) == *old(self),
            old(self).status.expires is None ==> *final(self) == *old(self),
            *final(self) == *old(self) || (final(self).status.text@.len() == 0
                && final(self).status.expires is None
                && *final(self) == (App { status: final(self).status, ..*old(self) })),
    {
        let now = self.now_ns();
        self.check_msg_expiry_at(now);
    }

    // -----------------------------------------------------------------------
    // Filtering and sorting
    // -----------------------------------------------------------------------

    /// Rebuilds the view: the packages whose search key contains the
    /// lowercased query and that pass the selected filter tab, in the
    /// current sort order; the cursor and scroll offsets go back to the top.
    pub fn apply_filter(&mut self)
        requires
            old(self).filter_idx < FILTER_COUNT,
        ensures
            sorted_arrangement(
                pkg_views(old(self).pkgs@),
                old(self).inst_size_keys@,
                old(self).sort_idx as int,
                matching(pkg_views(old(self).pkgs@), lower(old(self).query@), old(self).filter_idx as int),
                final(self).view@,
            ),
            final(self).view_in_bounds(),
            *final(self) == (App { view: final(self).view, cursor: 0, list_top: 0, detail_top: 0, ..*old(self) }),
    {
        let v = matching_indices(&self.pkgs, self.query.as_str(), self.filter_idx);
        self.view = v;
        self.apply_sort(true);
    }

    /// Stably sorts the view in the current sort mode; with `reset_cursor`
    /// the cursor and scroll offsets go back to the top.
    pub fn apply_sort(&mut self, reset_cursor: bool)
        requires
            old(self).view_in_bounds(),
        ensures
            sorted_arrangement(
                pkg_views(old(self).pkgs@),
                old(self).inst_size_keys@,
                old(self).sort_idx as int,
                old(self).view@,
                final(self).view@,
            ),
            final(self).view_in_bounds(),
            reset_cursor ==> *final(self) == (App {
                view: final(self).view,
                cursor: 0,
                list_top: 0,
                detail_top: 0,
                ..*old(self)
            }),
            !reset_cursor ==> *final(self) == (App { view: final(self).view, ..*old(self) }),
    {
        let nv = sorted_view(&self.pkgs, &self.inst_size_keys, self.sort_idx, &self.view);
        self.view = nv;
        if reset_cursor {
            self.cursor = 0;
            self.list_top = 0;
            self.detail_top = 0;
        }
    }

    /// Moves to the next of the four sort modes and re-sorts, going back to
    /// the top of the list.
    pub fn cycle_sort(&mut self)
        requires
            old(self).view_in_bounds(),
        ensures
            final(self).sort_idx == (old(self).sort_idx + 1) % (SORT_MODES as int),
            sorted_arrangement(
                pkg_views(old(self).pkgs@),
                old(self).inst_size_keys@,
                final(self).sort_idx as int,
                old(self).view@,
                final(self).view@,
            ),
            final(self).view_in_bounds(),
            *final(self) == (App {
                view: final(self).view,
                sort_idx: final(self).sort_idx,
                cursor: 0,
                list_top: 0,
                detail_top: 0,
                ..*old(self)
            }),
    {
        proof {
            vstd::arithmetic::div_mod::lemma_add_mod_noop(self.sort_idx as int, 1, 4);
            vstd::arithmetic::div_mod::lemma_small_mod(1, 4);
        }
        self.sort_idx = (self.sort_idx % 4 + 1) % 4;
        self.apply_sort(true);
    }

    // -----------------------------------------------------------------------
    // Console
    // -----------------------------------------------------------------------

    /// Appends a chunk of command output to the console log (see
    /// [`console_write`]) and scrolls to its end.
    pub fn write_console_chunk(&mut self, chunk: &str)
        ensures
            final(self).console.model() == console_write(old(self).console.model(), chunk@),
            final(self).console.scroll == final(self).console.lines@.len(),
            final(self).console.mode == old(self).console.mode,
            final(self).console.finished == old(self).console.finished,
            *final(self) == (App { console: final(self).console, ..*old(self) }),
    {
        self.console.write_chunk(chunk);
    }
}
/// Indices of the packages whose search key contains the lowercased query
/// and that pass filter tab `fidx`, in increasing order.
pub fn matching_indices(pkgs: &Vec<Package>, query: &str, fidx: usize) -> (v: Vec<usize>)
    requires
        fidx < FILTER_COUNT,
    ensures
        v@ == matching(pkg_views(pkgs@), lower(query@), fidx as int),
        forall|i: int| 0 <= i < v@.len() ==> (#[trigger] v@[i] as int) < pkgs@.len(),
{
    let q = lower_str(query);
    let qc = chars_of(q.as_str());
    let names = filters();
    let mode = names[fidx].as_str();
    let ghost pv = pkg_views(pkgs@);
    let mut v: Vec<usize> = Vec::new();
    let mut idx: usize = 0;
    while idx < pkgs.len()
        invariant
            pv == pkg_views(pkgs@),
            idx <= pkgs@.len(),
            qc@ == lower(query@),
            fidx < FILTER_COUNT,
            mode@ == filter_name(fidx as int),
            v@ == matching_upto(pv, qc@, fidx as int, idx as int),
            forall|i: int| 0 <= i < v@.len() ==> (#[trigger] v@[i] as int) < idx,
        decreases pkgs.len() - idx,
    {
        let p = &pkgs[idx];
        assert(pv[idx as int] == p@);
        let key = chars_of(p.search_key.as_str());
        let matches_query = qc.len() == 0 || contains_seq(&key, &qc);
        let matches_filter = if fidx == 0 {
            true
        } else if fidx == 1 {
            p.installed
        } else if fidx == 2 {
            p.upgradable
        } else {
            str_eq(p.repo.as_str(), mode)
        };
        if matches_query && matches_filter {
            v.push(idx);
        }
        idx = idx + 1;
    }
    v
}

/// The sort key of package `idx` in a mode from 0 to 3.
fn key_of(pkgs: &Vec<Package>, sizes: &Vec<u64>, mode: usize, idx: usize) -> (k: SortKey)
    requires
        mode <= 3,
        idx < pkgs@.len(),
    ensures
        crate::sort::key_view(k) == sort_key(pkgs@[idx as int]@, size_key(sizes@, idx as int), mode as int),
{
    let p = &pkgs[idx];
    let size: u64 = if idx < sizes.len() {
        sizes[idx]
    } else {
        0
    };
    if mode == 2 {
        SortKey { major: u64::MAX - size, minor: Vec::new() }
    } else if mode == 3 {
        let name = lower_str(p.name.as_str());
        SortKey {
            major: if p.installed {
                0
            } else {
                1
            },
            minor: chars_of(name.as_str()),
        }
    } else {
        let name = lower_str(p.name.as_str());
        SortKey { major: repo_priority(p.repo.as_str()) as u64, minor: chars_of(name.as_str()) }
    }
}

/// The view stably sorted in the mode (unchanged for a mode above 3).
pub fn sorted_view(pkgs: &Vec<Package>, sizes: &Vec<u64>, mode: usize, view: &Vec<usize>) -> (r: Vec<usize>)
    requires
        forall|i: int| 0 <= i < view@.len() ==> (#[trigger] view@[i] as int) < pkgs@.len(),
    ensures
        sorted_arrangement(pkg_views(pkgs@), sizes@, mode as int, view@, r@),
        forall|i: int| 0 <= i < r@.len() ==> (#[trigger] r@[i] as int) < pkgs@.len(),
{
    reveal(sorted_arrangement);
    if mode > 3 {
        let mut r: Vec<usize> = Vec::new();
        let mut k: usize = 0;
        while k < view.len()
            invariant
                k <= view@.len(),
                r@ == view@.subrange(0, k as int),
            decreases view.len() - k,
        {
            r.push(view[k]);
            assert(view@.subrange(0, k + 1) =~= view@.subrange(0, k as int).push(view@[k as int]));
            k = k + 1;
        }
        assert(view@.subrange(0, view@.len() as int) =~= view@);
        return r;
    }
    let n = view.len();
    let ghost pv = pkg_views(pkgs@);
    let ghost keys_spec = view_keys(pv, sizes@, mode as int, view@);
    let mut keys: Vec<SortKey> = Vec::new();
    let mut i: usize = 0;
    while i < n
        invariant
            n == view@.len(),
            i <= n,
            forall|j: int| 0 <= j < view@.len() ==> (#[trigger] view@[j] as int) < pkgs@.len(),
            pv == pkg_views(pkgs@),
            keys_spec == view_keys(pv, sizes@, mode as int, view@),
            mode <= 3,
            keys@.len() == i,
            forall|k: int| 0 <= k < i ==> #[trigger] key_views(keys@)[k] == keys_spec[k],
        decreases n - i,
    {
        let idx = view[i];
        let key = key_of(pkgs, sizes, mode, idx);
        assert(pv[idx as int] == pkgs@[idx as int]@);
        let ghost before_push = keys@;
        keys.push(key);
        proof {
            assert forall|k: int| 0 <= k < i + 1 implies #[trigger] key_views(keys@)[k] == keys_spec[k] by {
                if k < i {
                    assert(keys@[k] == before_push[k]);
                    assert(key_views(before_push)[k] == keys_spec[k]);
                } else {
                    assert(keys@[k] == key);
                }
            }
        }
        i = i + 1;
    }
    assert(key_views(keys@) =~= keys_spec);
    let order = sorted_positions(&keys);
    let mut nv: Vec<usize> = Vec::new();
    let mut k: usize = 0;
    while k < n
        invariant
            n == view@.len(),
            k <= n,
            forall|j: int| 0 <= j < view@.len() ==> (#[trigger] view@[j] as int) < pkgs@.len(),
            keys_spec.len() == n,
            is_sorting_order(keys_spec, order@),
            nv@.len() == k,
            forall|m: int| 0 <= m < k ==> #[trigger] nv@[m] == view@[order@[m] as int],
        decreases n - k,
    {
        assert((order@[k as int] as int) < keys_spec.len());
        nv.push(view[order[k]]);
        k = k + 1;
    }
    proof {
        assert(nv@ =~= order@.map_values(|p: usize| view@[p as int]));
        assert forall|m: int| 0 <= m < nv@.len() implies (#[trigger] nv@[m] as int) < pkgs@.len() by {
            assert((order@[m] as int) < keys_spec.len());
        }
    }
    nv
}

/// [`console_write`] on a console held as its parts; returns whether an
/// escape sequence is being skipped afterwards.
fn console_write_parts(lines: &mut Vec<String>, cur: &mut String, esc: bool, chunk: &str) -> (r: bool)
    ensures
        (ConsoleModel { lines: string_views(final(lines)@), current: final(cur)@, in_escape: r })
            == console_write(
            ConsoleModel { lines: string_views(old(lines)@), current: old(cur)@, in_escape: esc },
            chunk@,
        ),
{
    let cs = chars_of(chunk);
    let mut esc = esc;
    let ghost m0 = ConsoleModel { lines: string_views(lines@), current: cur@, in_escape: esc };
    let mut i: usize = 0;
    while i < cs.len()
        invariant
            cs@ == chunk@,
            i <= cs@.len(),
            (ConsoleModel { lines: string_views(lines@), current: cur@, in_escape: esc })
                == console_feed(m0, cs@.subrange(0, i as int)),
        decreases cs.len() - i,
    {
        let c = cs[i];
        let ghost before = ConsoleModel { lines: string_views(lines@), current: cur@, in_escape: esc };
        if esc {
            if char_is_ascii_alpha(c) {
                esc = false;
            }
        } else if c == '\x1b' {
            esc = true;
        } else if c == '\n' {
            let mut finished = String::new();
            std::mem::swap(&mut finished, cur);
            lines.push(finished);
            assert(string_views(lines@) =~= before.lines.push(before.current));
        } else if c == '\r' {
            *cur = String::new();
        } else {
            push_char(cur, c);
        }
        assert(cs@.subrange(0, i + 1).drop_last() =~= cs@.subrange(0, i as int));
        assert(cs@.subrange(0, i + 1).last() == c);
        assert((ConsoleModel { lines: string_views(lines@), current: cur@, in_escape: esc })
            =~= console_step(before, c));
        i = i + 1;
    }
    assert(cs@.subrange(0, cs@.len() as int) =~= chunk@);
    let n = lines.len();
    if n > CONSOLE_MAX_LINES {
        let tail = lines.split_off(n - CONSOLE_MAX_LINES);
        *lines = tail;
        assert(string_views(lines@) =~= keep_last_lines(console_feed(m0, chunk@).lines));
    }
    esc
}

} // verus!
