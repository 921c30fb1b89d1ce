//! Stable sorting of list positions by a key made of a number and a text.
//!
//! Keys are compared first by their number, then by their text in code-point
//! order (the order of `str::cmp`); equal keys keep their original order.
use vstd::prelude::*;

verus! {

// ---------------------------------------------------------------------------
// Lexicographic order on character sequences
// ---------------------------------------------------------------------------

/// `a` is before `b` when compared from position `i` on, character by
/// character, a proper prefix coming first.
pub open spec fn chars_lt_from(a: Seq<char>, b: Seq<char>, i: int) -> bool
    decreases a.len() - i,
{
    if i >= a.len() {
        i < b.len()
    } else if i >= b.len() {
        false
    } else if a[i] < b[i] {
        true
    } else if a[i] > b[i] {
        false
    } else {
        chars_lt_from(a, b, i + 1)
    }
}

/// Lexicographic order of character sequences by code point.
pub open spec fn chars_lt(a: Seq<char>, b: Seq<char>) -> bool {
    chars_lt_from(a, b, 0)
}

pub proof fn lemma_chars_lt_irreflexive(a: Seq<char>, i: int)
    requires
        0 <= i,
    ensures
        !chars_lt_from(a, a, i),
    decreases a.len() - i,
{
    if i < a.len() {
        lemma_chars_lt_irreflexive(a, i + 1);
    }
}

pub proof fn lemma_chars_lt_transitive(a: Seq<char>, b: Seq<char>, c: Seq<char>, i: int)
    requires
        0 <= i,
        chars_lt_from(a, b, i),
        chars_lt_from(b, c, i),
    ensures
        chars_lt_from(a, c, i),
    decreases a.len() - i,
{
    if i < a.len() && i < b.len() && i < c.len() && a[i] == b[i] && b[i] == c[i] {
        lemma_chars_lt_transitive(a, b, c, i + 1);
    }
}

pub proof fn lemma_chars_lt_total(a: Seq<char>, b: Seq<char>, i: int)
    requires
        0 <= i <= a.len(),
        i <= b.len(),
    ensures
        chars_lt_from(a, b, i) || chars_lt_from(b, a, i) || (a.len() == b.len() && forall|k: int|
            i <= k < a.len() ==> a[k] == b[k]),
    decreases a.len() - i,
{
    if i < a.len() && i < b.len() && a[i] == b[i] {
        lemma_chars_lt_total(a, b, i + 1);
    }
}

pub proof fn lemma_chars_lt_asymmetric(a: Seq<char>, b: Seq<char>, i: int)
    requires
        0 <= i,
        chars_lt_from(a, b, i),
    ensures
        !chars_lt_from(b, a, i),
    decreases a.len() - i,
{
    if i < a.len() && i < b.len() && a[i] == b[i] {
        lemma_chars_lt_asymmetric(a, b, i + 1);
    }
}

/// Whether `a` comes before `b` in code-point order.
pub fn chars_less(a: &Vec<char>, b: &Vec<char>) -> (r: bool)
    ensures
        r == chars_lt(a@, b@),
{
    let mut i: usize = 0;
    while i < a.len() && i < b.len() && a[i] == b[i]
        invariant
            i <= a@.len(),
            i <= b@.len(),
            chars_lt(a@, b@) == chars_lt_from(a@, b@, i as int),
        decreases a.len() - i,
    {
        i = i + 1;
    }
    if i >= a.len() {
        i < b.len()
    } else if i >= b.len() {
        false
    } else {
        a[i] < b[i]
    }
}

// ---------------------------------------------------------------------------
// Keys and the order of positions
// ---------------------------------------------------------------------------

/// A sort key: a number compared first, then a text.
pub struct SortKey {
    pub major: u64,
    pub minor: Vec<char>,
}

/// The key as plain values.
pub open spec fn key_view(k: SortKey) -> (int, Seq<char>) {
    (k.major as int, k.minor@)
}

pub open spec fn key_views(ks: Seq<SortKey>) -> Seq<(int, Seq<char>)> {
    ks.map_values(|k: SortKey| key_view(k))
}

/// Strict order of keys: by number, then by text.
pub open spec fn key_lt(a: (int, Seq<char>), b: (int, Seq<char>)) -> bool {
    a.0 < b.0 || (a.0 == b.0 && chars_lt(a.1, b.1))
}

/// Position `p` goes before position `q`: its key is smaller, or the keys
/// are equal and `p` came first.
pub open spec fn before(keys: Seq<(int, Seq<char>)>, p: int, q: int) -> bool {
    key_lt(keys[p], keys[q]) || (keys[p] == keys[q] && p < q)
}

pub proof fn lemma_before_irreflexive(keys: Seq<(int, Seq<char>)>, p: int)
    ensures
        !before(keys, p, p),
{
    lemma_chars_lt_irreflexive(keys[p].1, 0);
}

pub proof fn lemma_before_asymmetric(keys: Seq<(int, Seq<char>)>, p: int, q: int)
    requires
        before(keys, p, q),
    ensures
        !before(keys, q, p),
{
    if keys[p].0 == keys[q].0 && chars_lt(keys[p].1, keys[q].1) {
        lemma_chars_lt_asymmetric(keys[p].1, keys[q].1, 0);
    }
    if keys[p] == keys[q] {
        lemma_chars_lt_irreflexive(keys[p].1, 0);
    }
}

pub proof fn lemma_before_transitive(keys: Seq<(int, Seq<char>)>, p: int, q: int, r: int)
    requires
        before(keys, p, q),
        before(keys, q, r),
    ensures
        before(keys, p, r),
{
    let (a, b, c) = (keys[p], keys[q], keys[r]);
    if a.0 == b.0 && b.0 == c.0 && chars_lt(a.1, b.1) && chars_lt(b.1, c.1) {
        lemma_chars_lt_transitive(a.1, b.1, c.1, 0);
    }
}

pub proof fn lemma_before_total(keys: Seq<(int, Seq<char>)>, p: int, q: int)
    requires
        p != q,
    ensures
        before(keys, p, q) || before(keys, q, p),
{
    let (a, b) = (keys[p], keys[q]);
    lemma_chars_lt_total(a.1, b.1, 0);
    if a.0 == b.0 && !chars_lt(a.1, b.1) && !chars_lt(b.1, a.1) {
        assert(a.1 =~= b.1);
    }
}

/// Whether position `p` occurs in `order`.
pub open spec fn has_pos(order: Seq<usize>, p: int) -> bool {
    exists|i: int| 0 <= i < order.len() && order[i] == p
}

/// `order` lists every position of `keys` exactly once, each before the next.
pub open spec fn is_sorting_order(keys: Seq<(int, Seq<char>)>, order: Seq<usize>) -> bool {
    &&& order.len() == keys.len()
    &&& forall|i: int| 0 <= i < order.len() ==> (#[trigger] order[i] as int) < keys.len()
    &&& forall|p: int| 0 <= p < keys.len() ==> #[trigger] has_pos(order, p)
    &&& forall|i: int, j: int| 0 <= i < j < order.len() ==> before(keys, #[trigger] order[i] as int, #[trigger] order[j] as int)
}

/// The sorting order of positions is unique.
pub proof fn lemma_sorting_order_unique(keys: Seq<(int, Seq<char>)>, o1: Seq<usize>, o2: Seq<usize>)
    requires
        is_sorting_order(keys, o1),
        is_sorting_order(keys, o2),
    ensures
        o1 == o2,
{
    assert forall|i: int| 0 <= i < o1.len() implies o1[i] == o2[i] by {
        lemma_sorted_rank(keys, o1, i);
        lemma_sorted_rank(keys, o2, i);
        // both equal the position with exactly i positions before it
        let p = o1[i] as int;
        let q = o2[i] as int;
        if p != q {
            lemma_before_total(keys, p, q);
            if before(keys, p, q) {
                // every position before p in o2 order... count argument
                lemma_rank_monotone(keys, p, q);
            } else {
                lemma_rank_monotone(keys, q, p);
            }
        }
    }
    assert(o1 =~= o2);
}

/// The set of positions that go before `p`.
pub open spec fn preds(keys: Seq<(int, Seq<char>)>, p: int) -> Set<int> {
    Set::new(|q: int| 0 <= q < keys.len() && before(keys, q, p))
}

proof fn lemma_rank_monotone(keys: Seq<(int, Seq<char>)>, p: int, q: int)
    requires
        0 <= p < keys.len(),
        0 <= q < keys.len(),
        before(keys, p, q),
    ensures
        preds(keys, p).len() < preds(keys, q).len(),
{
    let a = preds(keys, p);
    let b = preds(keys, q);
    lemma_preds_finite(keys, p);
    lemma_preds_finite(keys, q);
    assert forall|x: int| a.contains(x) implies b.contains(x) by {
        lemma_before_transitive(keys, x, p, q);
    }
    lemma_before_irreflexive(keys, p);
    assert(!a.contains(p));
    assert(b.contains(p));
    assert(a.subset_of(b.remove(p)));
    vstd::set_lib::lemma_len_subset(a, b.remove(p));
}

proof fn lemma_preds_finite(keys: Seq<(int, Seq<char>)>, p: int)
    ensures
        preds(keys, p).finite(),
{
    let s = vstd::set_lib::set_int_range(0, keys.len() as int);
    assert(preds(keys, p).subset_of(s));
    vstd::set_lib::lemma_int_range(0, keys.len() as int);
    vstd::set::axiom_set_intersect_finite(s, preds(keys, p));
    assert(s.intersect(preds(keys, p)) =~= preds(keys, p));
}

/// In a sorting order, the position at index `i` has exactly `i` positions
/// going before it.
proof fn lemma_sorted_rank(keys: Seq<(int, Seq<char>)>, o: Seq<usize>, i: int)
    requires
        is_sorting_order(keys, o),
        0 <= i < o.len(),
    ensures
        preds(keys, o[i] as int).len() == i,
{
    let p = o[i] as int;
    let idx = Set::new(|j: int| 0 <= j < i);
    let f = |j: int| o[j] as int;
    // preds(p) is the image of {0..i} under o
    assert forall|q: int| #[trigger] preds(keys, p).contains(q) implies idx.map(f).contains(q) by {
        assert(has_pos(o, q));
        let j = choose|j: int| 0 <= j < o.len() && o[j] == q;
        if j >= i {
            if j == i {
                lemma_before_irreflexive(keys, p);
            } else {
                lemma_before_asymmetric(keys, p, q);
            }
        }
        assert(idx.contains(j) && f(j) == q);
    }
    assert forall|q: int| idx.map(f).contains(q) implies #[trigger] preds(keys, p).contains(q) by {
        let j = choose|j: int| idx.contains(j) && f(j) == q;
        assert(before(keys, o[j] as int, o[i] as int));
    }
    assert(preds(keys, p) =~= idx.map(f));
    vstd::set_lib::lemma_int_range(0, i);
    assert(idx =~= vstd::set_lib::set_int_range(0, i));
    assert forall|x: int, y: int| idx.contains(x) && idx.contains(y) && #[trigger] f(x) == #[trigger] f(y) implies x == y by {
        if x != y {
            if x < y {
                lemma_before_irreflexive(keys, o[x] as int);
            } else {
                lemma_before_irreflexive(keys, o[y] as int);
            }
        }
    }
    vstd::set_lib::lemma_map_size(idx, idx.map(f), f);
}

// ---------------------------------------------------------------------------
// Merge sort
// ---------------------------------------------------------------------------

/// Whether position `p` goes before position `q`.
pub fn goes_before(keys: &Vec<SortKey>, p: usize, q: usize) -> (r: bool)
    requires
        p < keys@.len(),
        q < keys@.len(),
    ensures
        r == before(key_views(keys@), p as int, q as int),
{
    let a = &keys[p];
    let b = &keys[q];
    let ghost kv = key_views(keys@);
    assert(kv[p as int] == key_view(keys@[p as int]));
    assert(kv[q as int] == key_view(keys@[q as int]));
    if a.major < b.major {
        return true;
    }
    if a.major > b.major {
        return false;
    }
    if chars_less(&a.minor, &b.minor) {
        return true;
    }
    if chars_less(&b.minor, &a.minor) {
        proof {
            lemma_chars_lt_asymmetric(b.minor@, a.minor@, 0);
        }
        return false;
    }
    proof {
        lemma_chars_lt_total(a.minor@, b.minor@, 0);
        assert(a.minor@ =~= b.minor@);
    }
    p < q
}

/// Positions `lo..hi`, each once, in sorted order.
pub open spec fn sorts_range(keys: Seq<(int, Seq<char>)>, r: Seq<usize>, lo: int, hi: int) -> bool {
    &&& r.len() == hi - lo
    &&& forall|i: int| 0 <= i < r.len() ==> lo <= #[trigger] r[i] < hi
    &&& forall|p: int| lo <= p < hi ==> #[trigger] has_pos(r, p)
    &&& forall|i: int, j: int| 0 <= i < j < r.len() ==> before(keys, #[trigger] r[i] as int, #[trigger] r[j] as int)
}

fn merge_runs(keys: &Vec<SortKey>, left: Vec<usize>, right: Vec<usize>, lo: usize, mid: usize, hi: usize) -> (r: Vec<usize>)
    requires
        lo <= mid <= hi <= keys@.len(),
        sorts_range(key_views(keys@), left@, lo as int, mid as int),
        sorts_range(key_views(keys@), right@, mid as int, hi as int),
    ensures
        sorts_range(key_views(keys@), r@, lo as int, hi as int),
{
    let ghost kv = key_views(keys@);
    let mut out: Vec<usize> = Vec::new();
    let mut i: usize = 0;
    let mut j: usize = 0;
    while i < left.len() || j < right.len()
        invariant
            kv == key_views(keys@),
            kv.len() == keys@.len(),
            lo <= mid <= hi <= keys@.len(),
            sorts_range(kv, left@, lo as int, mid as int),
            sorts_range(kv, right@, mid as int, hi as int),
            i <= left@.len(),
            j <= right@.len(),
            out@.len() == i + j,
            forall|m: int| 0 <= m < out@.len() ==> lo <= #[trigger] out@[m] < hi,
            forall|k: int| 0 <= k < i ==> has_pos(out@, #[trigger] left@[k] as int),
            forall|k: int| 0 <= k < j ==> has_pos(out@, #[trigger] right@[k] as int),
            forall|a: int, b: int| 0 <= a < b < out@.len() ==> before(kv, #[trigger] out@[a] as int, #[trigger] out@[b] as int),
            out@.len() > 0 && i < left@.len() ==> before(kv, out@.last() as int, left@[i as int] as int),
            out@.len() > 0 && j < right@.len() ==> before(kv, out@.last() as int, right@[j as int] as int),
        decreases left@.len() + right@.len() - i - j,
    {
        let take_left = if i >= left.len() {
            false
        } else if j >= right.len() {
            true
        } else {
            goes_before(keys, left[i], right[j])
        };
        let x = if take_left { left[i] } else { right[j] };
        proof {
            if !take_left && i < left@.len() {
                lemma_before_total(kv, left@[i as int] as int, right@[j as int] as int);
            }
        }
        let ghost old_out = out@;
        out.push(x);
        proof {
            assert forall|a: int, b: int| 0 <= a < b < out@.len() implies before(kv, #[trigger] out@[a] as int, #[trigger] out@[b] as int) by {
                if b == out@.len() - 1 && a < b {
                    if a < old_out.len() - 1 {
                        lemma_before_transitive(kv, out@[a] as int, old_out.last() as int, x as int);
                    }
                }
            }
        }
        if take_left {
            i = i + 1;
        } else {
            j = j + 1;
        }
        proof {
            if i < left@.len() && take_left {
                assert(before(kv, left@[i - 1] as int, left@[i as int] as int));
            }
            if j < right@.len() && !take_left {
                assert(before(kv, right@[j - 1] as int, right@[j as int] as int));
            }
            assert forall|k: int| 0 <= k < i implies has_pos(out@, #[trigger] left@[k] as int) by {
                if k == i - 1 && take_left {
                    assert(out@[out@.len() - 1] == left@[k]);
                } else {
                    assert(has_pos(old_out, left@[k] as int));
                    let m = choose|m: int| 0 <= m < old_out.len() && old_out[m] == left@[k];
                    assert(out@[m] == left@[k]);
                }
            }
            assert forall|k: int| 0 <= k < j implies has_pos(out@, #[trigger] right@[k] as int) by {
                if k == j - 1 && !take_left {
                    assert(out@[out@.len() - 1] == right@[k]);
                } else {
                    assert(has_pos(old_out, right@[k] as int));
                    let m = choose|m: int| 0 <= m < old_out.len() && old_out[m] == right@[k];
                    assert(out@[m] == right@[k]);
                }
            }
        }
    }
    proof {
        assert forall|p: int| lo <= p < hi implies #[trigger] has_pos(out@, p) by {
            if p < mid {
                assert(has_pos(left@, p));
                let k = choose|k: int| 0 <= k < left@.len() && left@[k] == p;
                assert(has_pos(out@, left@[k] as int));
            } else {
                assert(has_pos(right@, p));
                let k = choose|k: int| 0 <= k < right@.len() && right@[k] == p;
                assert(has_pos(out@, right@[k] as int));
            }
        }
    }
    out
}

fn merge_sort_range(keys: &Vec<SortKey>, lo: usize, hi: usize) -> (r: Vec<usize>)
    requires
        lo <= hi <= keys@.len(),
    ensures
        sorts_range(key_views(keys@), r@, lo as int, hi as int),
    decreases hi - lo,
{
    if hi - lo <= 1 {
        let mut r: Vec<usize> = Vec::new();
        if hi > lo {
            r.push(lo);
            assert(r@[0] == lo);
            assert(has_pos(r@, lo as int));
        }
        return r;
    }
    let mid = lo + (hi - lo) / 2;
    let left = merge_sort_range(keys, lo, mid);
    let right = merge_sort_range(keys, mid, hi);
    merge_runs(keys, left, right, lo, mid, hi)
}

/// The positions of `keys` in stable sorted order.
pub fn sorted_positions(keys: &Vec<SortKey>) -> (r: Vec<usize>)
    ensures
        is_sorting_order(key_views(keys@), r@),
{
    merge_sort_range(keys, 0, keys.len())
}

} // verus!
