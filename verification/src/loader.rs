//! Building the package list from the output of pacman and the AUR helper:
//! the sync database dump (`pacman -Si`), the installed names
//! (`pacman -Qq`), the pending updates (`-Qu`), the installed foreign
//! packages (`pacman -Qm`), the AUR package lists, AUR search results and
//! the free disk space line of `df`.
use vstd::prelude::*;
use crate::package::{field_views, map_pkg, names_contain, pkg_from_fields, pkg_views, Package, PkgInfo};
use crate::text::{
    append_str, chars_of, find_char, lines, lower, lower_str, matches_at, owned, push_decimal, decimal,
    occurs_at, split_lines, split_words_str, starts_with, str_eq, string_of, string_views, trim, trim_str, words,
};
use crate::theme::eq_ignore_ascii_case;

verus! {

// ---------------------------------------------------------------------------
// `Key : Value` lines
// ---------------------------------------------------------------------------

/// The first position at or after `i` where `p` occurs in `s`, or -1.
pub open spec fn first_occurrence(s: Seq<char>, p: Seq<char>, i: int) -> int
    decreases s.len() + 1 - i,
{
    if i < 0 || i + p.len() > s.len() {
        -1
    } else if occurs_at(s, p, i) {
        i
    } else {
        first_occurrence(s, p, i + 1)
    }
}

/// The trimmed key and value of a `Key : Value` line, split at the first
/// `" : "`.
pub open spec fn line_field(line: Seq<char>) -> Option<(Seq<char>, Seq<char>)> {
    let pos = first_occurrence(line, " : "@, 0);
    if pos < 0 {
        None
    } else {
        Some((trim(line.subrange(0, pos)), trim(line.subrange(pos + 3, line.len() as int))))
    }
}

proof fn lemma_first_occurrence_at(s: Seq<char>, p: Seq<char>, i: int, j: int)
    requires
        0 <= i <= j,
        j + p.len() <= s.len(),
        occurs_at(s, p, j),
        forall|m: int| i <= m < j ==> !occurs_at(s, p, m),
    ensures
        first_occurrence(s, p, i) == j,
    decreases j - i,
{
    if i < j {
        lemma_first_occurrence_at(s, p, i + 1, j);
    }
}

/// A `Key : Value` line gives its key and its value: for a key without a
/// colon and a value, neither with whitespace around it, the line
/// `key : value` reads as the pair (key, value).
pub proof fn lemma_field_line(k: Seq<char>, v: Seq<char>)
    requires
        k.len() > 0,
        !crate::text::is_ws(k[0]),
        !crate::text::is_ws(k.last()),
        forall|m: int| 0 <= m < k.len() ==> #[trigger] k[m] != ':',
        v.len() == 0 || (!crate::text::is_ws(v[0]) && !crate::text::is_ws(v.last())),
    ensures
        line_field(k + " : "@ + v) == Some((k, v)),
{
    reveal_strlit(" : ");
    let line = k + " : "@ + v;
    let n = k.len() as int;
    assert(line.subrange(n, n + 3) =~= " : "@);
    assert forall|m: int| 0 <= m < n implies !occurs_at(line, " : "@, m) by {
        if occurs_at(line, " : "@, m) {
            assert(line.subrange(m, m + 3)[1] == ':');
            assert(line[m + 1] == ':');
            if m + 1 < n {
                assert(line[m + 1] == k[m + 1]);
            } else {
                assert(line[m] == k[m]);
                assert(m == n - 1);
                assert(line.subrange(m, m + 3)[0] == ' ');
                assert(crate::text::is_ws(' '));
            }
        }
    }
    lemma_first_occurrence_at(line, " : "@, 0, n);
    assert(line.subrange(0, n) =~= k);
    assert(line.subrange(n + 3, line.len() as int) =~= v);
    if v.len() == 0 {
        assert(trim(v) =~= v);
    }
}

fn first_match(cs: &Vec<char>, p: &Vec<char>) -> (r: Option<usize>)
    requires
        p@.len() > 0,
    ensures
        match r {
            Some(k) => first_occurrence(cs@, p@, 0) == k as int && occurs_at(cs@, p@, k as int),
            None => first_occurrence(cs@, p@, 0) == -1,
        },
{
    let mut k: usize = 0;
    while k <= cs.len() && p.len() <= cs.len() - k
        invariant
            p@.len() > 0,
            k <= cs@.len() + 1,
            first_occurrence(cs@, p@, 0) == first_occurrence(cs@, p@, k as int),
        decreases cs.len() + 1 - k,
    {
        if matches_at(cs, p, k) {
            return Some(k);
        }
        k = k + 1;
    }
    None
}

/// The key and value of a `Key : Value` line.
pub fn parse_field_line(line: &str) -> (r: Option<(String, String)>)
    ensures
        match r {
            Some(kv) => line_field(line@) == Some((kv.0@, kv.1@)),
            None => line_field(line@) is None,
        },
{
    let cs = chars_of(line);
    let sep = chars_of(" : ");
    proof {
        reveal_strlit(" : ");
    }
    assert(sep@.len() == 3);
    match first_match(&cs, &sep) {
        Some(pos) => {
            let k = trim_str(string_of(&cs, 0, pos).as_str());
            let v = trim_str(string_of(&cs, pos + 3, cs.len()).as_str());
            Some((k, v))
        },
        None => None,
    }
}

// ---------------------------------------------------------------------------
// The sync database
// ---------------------------------------------------------------------------

/// Packages read so far and the fields of the record being read.
pub ghost struct SyncState {
    pub pkgs: Seq<PkgInfo>,
    pub cur: Seq<(Seq<char>, Seq<char>)>,
}

pub open spec fn push_some(ps: Seq<PkgInfo>, p: Option<PkgInfo>) -> Seq<PkgInfo> {
    match p {
        Some(x) => ps.push(x),
        None => ps,
    }
}

/// One line of `pacman -Si`: a `Repository` line ends the record being read
/// (which becomes a package if it has a name); a `Key : Value` line adds a
/// field.
pub open spec fn sync_step(
    st: SyncState,
    line: Seq<char>,
    inst: Seq<Seq<char>>,
    upd: Seq<Seq<char>>,
) -> SyncState {
    let st1 = if starts_with(line, "Repository"@) && st.cur.len() > 0 {
        SyncState { pkgs: push_some(st.pkgs, pkg_from_fields(st.cur, inst, upd)), cur: Seq::empty() }
    } else {
        st
    };
    match line_field(line) {
        Some(kv) => SyncState { cur: st1.cur.push(kv), ..st1 },
        None => st1,
    }
}

pub open spec fn sync_fold(ls: Seq<Seq<char>>, inst: Seq<Seq<char>>, upd: Seq<Seq<char>>) -> SyncState
    decreases ls.len(),
{
    if ls.len() == 0 {
        SyncState { pkgs: Seq::empty(), cur: Seq::empty() }
    } else {
        sync_step(sync_fold(ls.drop_last(), inst, upd), ls.last(), inst, upd)
    }
}

/// The packages of a `pacman -Si` dump, marked installed or upgradable by
/// name.
pub open spec fn sync_packages(text: Seq<char>, inst: Seq<Seq<char>>, upd: Seq<Seq<char>>) -> Seq<PkgInfo> {
    let st = sync_fold(lines(text), inst, upd);
    if st.cur.len() > 0 {
        push_some(st.pkgs, pkg_from_fields(st.cur, inst, upd))
    } else {
        st.pkgs
    }
}

fn push_record(pkgs: &mut Vec<Package>, cur: &Vec<(String, String)>, inst: &Vec<String>, upd: &Vec<String>)
    ensures
        pkg_views(final(pkgs)@) == push_some(
            pkg_views(old(pkgs)@),
            pkg_from_fields(field_views(cur@), string_views(inst@), string_views(upd@)),
        ),
{
    match map_pkg(cur, inst, upd) {
        Some(p) => {
            let ghost before = pkg_views(pkgs@);
            pkgs.push(p);
            assert(pkg_views(pkgs@) =~= before.push(p@));
        },
        None => {},
    }
}

/// The packages of a `pacman -Si` dump.
pub fn parse_sync_db(text: &str, inst: &Vec<String>, upd: &Vec<String>) -> (r: Vec<Package>)
    ensures
        pkg_views(r@) == sync_packages(text@, string_views(inst@), string_views(upd@)),
{
    let ls = split_lines(text);
    let ghost lv = string_views(ls@);
    let ghost iv = string_views(inst@);
    let ghost uv = string_views(upd@);
    let mut pkgs: Vec<Package> = Vec::new();
    let mut cur: Vec<(String, String)> = Vec::new();
    let mut i: usize = 0;
    while i < ls.len()
        invariant
            lv == string_views(ls@),
            lv == lines(text@),
            iv == string_views(inst@),
            uv == string_views(upd@),
            i <= ls@.len(),
            pkg_views(pkgs@) == sync_fold(lv.subrange(0, i as int), iv, uv).pkgs,
            field_views(cur@) == sync_fold(lv.subrange(0, i as int), iv, uv).cur,
        decreases ls.len() - i,
    {
        let line = ls[i].as_str();
        assert(lv.subrange(0, i + 1).drop_last() =~= lv.subrange(0, i as int));
        let lc = chars_of(line);
        let rep = chars_of("Repository");
        proof {
            reveal_strlit("Repository");
        }
        if matches_at(&lc, &rep, 0) && cur.len() > 0 {
            push_record(&mut pkgs, &cur, inst, upd);
            cur = Vec::new();
            assert(field_views(cur@) =~= Seq::<(Seq<char>, Seq<char>)>::empty());
        }
        match parse_field_line(line) {
            Some(kv) => {
                let ghost before = field_views(cur@);
                cur.push(kv);
                assert(field_views(cur@) =~= before.push((kv.0@, kv.1@)));
            },
            None => {},
        }
        i = i + 1;
    }
    assert(lv.subrange(0, lv.len() as int) =~= lv);
    if cur.len() > 0 {
        push_record(&mut pkgs, &cur, inst, upd);
    }
    pkgs
}

// ---------------------------------------------------------------------------
// Installed names, updates, foreign packages
// ---------------------------------------------------------------------------

/// The trimmed lines that are not blank.
pub open spec fn nonblank_lines(ls: Seq<Seq<char>>) -> Seq<Seq<char>>
    decreases ls.len(),
{
    if ls.len() == 0 {
        Seq::empty()
    } else if trim(ls.last()).len() > 0 {
        nonblank_lines(ls.drop_last()).push(trim(ls.last()))
    } else {
        nonblank_lines(ls.drop_last())
    }
}

/// The installed package names of `pacman -Qq`: its lines, trimmed, without
/// blank ones.
pub fn installed_names(text: &str) -> (r: Vec<String>)
    ensures
        string_views(r@) == nonblank_lines(lines(text@)),
{
    let ls = split_lines(text);
    let ghost lv = string_views(ls@);
    let mut r: Vec<String> = Vec::new();
    let mut i: usize = 0;
    while i < ls.len()
        invariant
            lv == string_views(ls@),
            i <= ls@.len(),
            string_views(r@) == nonblank_lines(lv.subrange(0, i as int)),
        decreases ls.len() - i,
    {
        assert(lv.subrange(0, i + 1).drop_last() =~= lv.subrange(0, i as int));
        let t = trim_str(ls[i].as_str());
        if t.as_str().unicode_len() > 0 {
            let ghost before = string_views(r@);
            r.push(t);
            assert(string_views(r@) =~= before.push(trim(lv[i as int])));
        }
        i = i + 1;
    }
    assert(lv.subrange(0, lv.len() as int) =~= lv);
    r
}

/// The first word of each line that has one.
pub open spec fn first_words(ls: Seq<Seq<char>>) -> Seq<Seq<char>>
    decreases ls.len(),
{
    if ls.len() == 0 {
        Seq::empty()
    } else if words(ls.last()).len() > 0 {
        first_words(ls.drop_last()).push(words(ls.last())[0])
    } else {
        first_words(ls.drop_last())
    }
}

/// The names of the packages with pending updates (`-Qu`): the first word
/// of each line.
pub fn update_names(text: &str) -> (r: Vec<String>)
    ensures
        string_views(r@) == first_words(lines(text@)),
{
    let ls = split_lines(text);
    let ghost lv = string_views(ls@);
    let mut r: Vec<String> = Vec::new();
    let mut i: usize = 0;
    while i < ls.len()
        invariant
            lv == string_views(ls@),
            i <= ls@.len(),
            string_views(r@) == first_words(lv.subrange(0, i as int)),
        decreases ls.len() - i,
    {
        assert(lv.subrange(0, i + 1).drop_last() =~= lv.subrange(0, i as int));
        let mut ws = split_words_str(ls[i].as_str());
        if ws.len() > 0 {
            let ghost before = string_views(r@);
            let ghost w0 = ws@[0]@;
            let first = ws.swap_remove(0);
            r.push(first);
            assert(string_views(r@) =~= before.push(w0));
        }
        i = i + 1;
    }
    assert(lv.subrange(0, lv.len() as int) =~= lv);
    r
}

/// The position of the entry named `n`, or -1.
pub open spec fn entry_index(es: Seq<(Seq<char>, Seq<char>)>, n: Seq<char>) -> int
    decreases es.len(),
{
    if es.len() == 0 {
        -1
    } else if es.last().0 == n {
        es.len() - 1
    } else {
        entry_index(es.drop_last(), n)
    }
}

/// The entries with `(n, v)` set: replacing the entry named `n`, else added.
pub open spec fn upsert(es: Seq<(Seq<char>, Seq<char>)>, n: Seq<char>, v: Seq<char>) -> Seq<(Seq<char>, Seq<char>)> {
    let k = entry_index(es, n);
    if k >= 0 {
        es.update(k, (n, v))
    } else {
        es.push((n, v))
    }
}

/// The `(name, version)` pairs of `pacman -Qm`, one per name (a later line
/// wins), from the lines with at least two words.
pub open spec fn foreign_entries(ls: Seq<Seq<char>>) -> Seq<(Seq<char>, Seq<char>)>
    decreases ls.len(),
{
    if ls.len() == 0 {
        Seq::empty()
    } else {
        let prev = foreign_entries(ls.drop_last());
        let w = words(ls.last());
        if w.len() >= 2 {
            upsert(prev, w[0], w[1])
        } else {
            prev
        }
    }
}


fn find_entry(es: &Vec<(String, String)>, n: &str) -> (r: Option<usize>)
    ensures
        match r {
            Some(k) => entry_index(field_views(es@), n@) == k as int && k < es@.len(),
            None => entry_index(field_views(es@), n@) == -1,
        },
{
    let ghost ev = field_views(es@);
    let mut k = es.len();
    assert(ev.subrange(0, k as int) =~= ev);
    while k > 0
        invariant
            k <= es@.len(),
            ev == field_views(es@),
            entry_index(ev, n@) == entry_index(ev.subrange(0, k as int), n@),
        decreases k,
    {
        let ghost pre = ev.subrange(0, k as int);
        assert(pre.drop_last() == ev.subrange(0, k - 1));
        if str_eq(es[k - 1].0.as_str(), n) {
            return Some(k - 1);
        }
        k = k - 1;
    }
    None
}

/// The installed foreign packages listed by `pacman -Qm`, as
/// `(name, version)` pairs, one per name.
pub fn parse_foreign(text: &str) -> (r: Vec<(String, String)>)
    ensures
        field_views(r@) == foreign_entries(lines(text@)),
{
    let ls = split_lines(text);
    let ghost lv = string_views(ls@);
    let mut r: Vec<(String, String)> = Vec::new();
    let mut i: usize = 0;
    while i < ls.len()
        invariant
            lv == string_views(ls@),
            i <= ls@.len(),
            field_views(r@) == foreign_entries(lv.subrange(0, i as int)),
        decreases ls.len() - i,
    {
        assert(lv.subrange(0, i + 1).drop_last() =~= lv.subrange(0, i as int));
        let ws = split_words_str(ls[i].as_str());
        if ws.len() >= 2 {
            let name = ws[0].clone();
            let version = ws[1].clone();
            let ghost before = field_views(r@);
            match find_entry(&r, name.as_str()) {
                Some(k) => {
                    r.set(k, (name, version));
                    assert(field_views(r@) =~= before.update(k as int, (ws@[0]@, ws@[1]@)));
                },
                None => {
                    r.push((name, version));
                    assert(field_views(r@) =~= before.push((ws@[0]@, ws@[1]@)));
                },
            }
        }
        i = i + 1;
    }
    assert(lv.subrange(0, lv.len() as int) =~= lv);
    r
}

// ---------------------------------------------------------------------------
// Packages known only by name
// ---------------------------------------------------------------------------

/// A package with only a name, version, description, architecture and
/// packager known; the other text fields read `None`.
pub open spec fn sparse_info(
    name: Seq<char>,
    version: Seq<char>,
    desc: Seq<char>,
    arch: Seq<char>,
    packager: Seq<char>,
    installed: bool,
    upgradable: bool,
    search_key: Seq<char>,
) -> PkgInfo {
    PkgInfo {
        name,
        version,
        repo: "aur"@,
        desc,
        arch,
        url: "None"@,
        licenses: "None"@,
        groups: "None"@,
        provides: "None"@,
        depends: "None"@,
        optdeps: "None"@,
        req_by: "None"@,
        opt_for: "None"@,
        conflicts: "None"@,
        replaces: "None"@,
        dl_size: "None"@,
        inst_size: "None"@,
        packager,
        build_date: "None"@,
        installed,
        upgradable,
        search_key,
    }
}

fn sparse_package(
    name: String,
    version: String,
    desc: &str,
    arch: &str,
    packager: &str,
    installed: bool,
    upgradable: bool,
    search_key: String,
) -> (p: Package)
    ensures
        p@ == sparse_info(name@, version@, desc@, arch@, packager@, installed, upgradable, search_key@),
{
    proof {
        reveal_strlit("aur");
        reveal_strlit("None");
    }
    Package {
        name,
        version,
        repo: owned("aur"),
        desc: owned(desc),
        arch: owned(arch),
        url: owned("None"),
        licenses: owned("None"),
        groups: owned("None"),
        provides: owned("None"),
        depends: owned("None"),
        optdeps: owned("None"),
        req_by: owned("None"),
        opt_for: owned("None"),
        conflicts: owned("None"),
        replaces: owned("None"),
        dl_size: owned("None"),
        inst_size: owned("None"),
        packager: owned(packager),
        build_date: owned("None"),
        installed,
        upgradable,
        search_key,
    }
}

/// The lowercased `name + suffix`.
fn key_with(name: &str, suffix: &str) -> (r: String)
    ensures
        r@ == lower(name@ + suffix@),
{
    let mut s = owned(name);
    append_str(&mut s, suffix);
    lower_str(s.as_str())
}

/// An installed foreign package known from `pacman -Qm`.
pub open spec fn foreign_info(name: Seq<char>, version: Seq<char>, upgradable: bool) -> PkgInfo {
    sparse_info(
        name,
        version,
        "Installed foreign/AUR package"@,
        "x86_64"@,
        "AUR / Foreign"@,
        true,
        upgradable,
        lower(name + " foreign/aur package"@),
    )
}

/// The names of packages.
pub open spec fn pkg_names(ps: Seq<PkgInfo>) -> Seq<Seq<char>> {
    ps.map_values(|p: PkgInfo| p.name)
}

/// The foreign packages whose names are not among `known`.
pub open spec fn foreign_packages(
    es: Seq<(Seq<char>, Seq<char>)>,
    known: Seq<Seq<char>>,
    upd: Seq<Seq<char>>,
) -> Seq<PkgInfo>
    decreases es.len(),
{
    if es.len() == 0 {
        Seq::empty()
    } else {
        let prev = foreign_packages(es.drop_last(), known, upd);
        let (n, v) = es.last();
        if known.contains(n) {
            prev
        } else {
            prev.push(foreign_info(n, v, names_contain(upd, n)))
        }
    }
}

/// The package list: the sync database packages, then the installed foreign
/// packages that are not among them.
pub open spec fn package_list_spec(si: Seq<char>, qq: Seq<char>, qu: Seq<char>, qm: Seq<char>) -> Seq<PkgInfo> {
    let inst = nonblank_lines(lines(qq));
    let upd = first_words(lines(qu));
    let sync = sync_packages(si, inst, upd);
    sync + foreign_packages(foreign_entries(lines(qm)), pkg_names(sync), upd)
}

/// Whether one of the packages is named `name`.
fn has_package_named(ps: &Vec<Package>, n: usize, name: &str) -> (r: bool)
    requires
        n <= ps@.len(),
    ensures
        r == pkg_names(pkg_views(ps@.subrange(0, n as int))).contains(name@),
{
    let ghost names = pkg_names(pkg_views(ps@.subrange(0, n as int)));
    let mut k: usize = 0;
    while k < n
        invariant
            n <= ps@.len(),
            names == pkg_names(pkg_views(ps@.subrange(0, n as int))),
            k <= n,
            forall|m: int| 0 <= m < k ==> names[m] != name@,
        decreases n - k,
    {
        assert(names[k as int] == ps@[k as int].name@);
        if str_eq(ps[k].name.as_str(), name) {
            return true;
        }
        k = k + 1;
    }
    false
}

/// The package list from the outputs of `pacman -Si`, `pacman -Qq`, the
/// update query (`-Qu`) and `pacman -Qm`.
pub fn build_package_list(si: &str, qq: &str, qu: &str, qm: &str) -> (r: Vec<Package>)
    ensures
        pkg_views(r@) == package_list_spec(si@, qq@, qu@, qm@),
{
    let inst = installed_names(qq);
    let upd = update_names(qu);
    let mut pkgs = parse_sync_db(si, &inst, &upd);
    let n = pkgs.len();
    let ghost sync = pkg_views(pkgs@);
    let ghost known = pkg_names(sync);
    let ghost uv = string_views(upd@);
    let foreign = parse_foreign(qm);
    let ghost fv = field_views(foreign@);
    let mut i: usize = 0;
    assert(pkgs@.subrange(0, n as int) =~= pkgs@);
    while i < foreign.len()
        invariant
            n <= pkgs@.len(),
            sync == pkg_views(pkgs@.subrange(0, n as int)),
            known == pkg_names(sync),
            uv == string_views(upd@),
            fv == field_views(foreign@),
            i <= foreign@.len(),
            pkg_views(pkgs@) == sync + foreign_packages(fv.subrange(0, i as int), known, uv),
        decreases foreign.len() - i,
    {
        assert(fv.subrange(0, i + 1).drop_last() =~= fv.subrange(0, i as int));
        let name = foreign[i].0.as_str();
        if !has_package_named(&pkgs, n, name) {
            let upg = crate::package::contains_name(&upd, name);
            let p = sparse_package(
                foreign[i].0.clone(),
                foreign[i].1.clone(),
                "Installed foreign/AUR package",
                "x86_64",
                "AUR / Foreign",
                true,
                upg,
                key_with(name, " foreign/aur package"),
            );
            let ghost before = pkg_views(pkgs@);
            let ghost before_seq = pkgs@;
            pkgs.push(p);
            assert(pkg_views(pkgs@) =~= before.push(p@));
            assert(pkgs@.subrange(0, n as int) =~= before_seq.subrange(0, n as int));
        }
        i = i + 1;
    }
    assert(fv.subrange(0, fv.len() as int) =~= fv);
    pkgs
}

// ---------------------------------------------------------------------------
// AUR package lists
// ---------------------------------------------------------------------------

/// An AUR package known from a package list.
pub open spec fn aur_info(name: Seq<char>, version: Seq<char>) -> PkgInfo {
    sparse_info(name, version, "AUR Package"@, "any"@, "AUR"@, false, false, lower(name + " aur package"@))
}

fn aur_package(name: String, version: String) -> (p: Package)
    ensures
        p@ == aur_info(name@, version@),
{
    let key = key_with(name.as_str(), " aur package");
    sparse_package(name, version, "AUR Package", "any", "AUR", false, false, key)
}

/// The AUR packages of a helper's completion cache: the lines whose second
/// word is `AUR` (in any case) name one, of unknown version.
pub open spec fn cache_packages(ls: Seq<Seq<char>>) -> Seq<PkgInfo>
    decreases ls.len(),
{
    if ls.len() == 0 {
        Seq::empty()
    } else {
        let prev = cache_packages(ls.drop_last());
        let w = words(ls.last());
        if w.len() >= 2 && eq_ignore_ascii_case(w[1], "AUR"@) {
            prev.push(aur_info(w[0], "unknown"@))
        } else {
            prev
        }
    }
}

/// The AUR packages of a helper's completion cache.
pub fn parse_completion_cache(text: &str) -> (r: Vec<Package>)
    ensures
        pkg_views(r@) == cache_packages(lines(text@)),
{
    let ls = split_lines(text);
    let ghost lv = string_views(ls@);
    let mut r: Vec<Package> = Vec::new();
    let mut i: usize = 0;
    while i < ls.len()
        invariant
            lv == string_views(ls@),
            i <= ls@.len(),
            pkg_views(r@) == cache_packages(lv.subrange(0, i as int)),
        decreases ls.len() - i,
    {
        assert(lv.subrange(0, i + 1).drop_last() =~= lv.subrange(0, i as int));
        let ws = split_words_str(ls[i].as_str());
        if ws.len() >= 2 && crate::theme::str_eq_ignore_ascii_case(ws[1].as_str(), "AUR") {
            let p = aur_package(ws[0].clone(), owned("unknown"));
            let ghost before = pkg_views(r@);
            r.push(p);
            assert(pkg_views(r@) =~= before.push(p@));
        }
        i = i + 1;
    }
    assert(lv.subrange(0, lv.len() as int) =~= lv);
    r
}

/// The packages of the first completion cache that lists any.
pub open spec fn first_cache_packages(caches: Seq<Seq<char>>) -> Seq<PkgInfo>
    decreases caches.len(),
{
    if caches.len() == 0 {
        Seq::empty()
    } else if cache_packages(lines(caches[0])).len() > 0 {
        cache_packages(lines(caches[0]))
    } else {
        first_cache_packages(caches.drop_first())
    }
}

/// The AUR packages of the first of the completion caches (in order of
/// preference) that lists any; none when no cache does.
pub fn packages_from_caches(caches: &Vec<String>) -> (r: Vec<Package>)
    ensures
        pkg_views(r@) == first_cache_packages(string_views(caches@)),
{
    let ghost cv = string_views(caches@);
    let mut i: usize = 0;
    assert(cv.subrange(0, cv.len() as int) =~= cv);
    while i < caches.len()
        invariant
            cv == string_views(caches@),
            i <= caches@.len(),
            first_cache_packages(cv) == first_cache_packages(cv.subrange(i as int, cv.len() as int)),
        decreases caches.len() - i,
    {
        let ghost rest = cv.subrange(i as int, cv.len() as int);
        assert(rest[0] == cv[i as int]);
        assert(rest.drop_first() =~= cv.subrange(i + 1, cv.len() as int));
        let p = parse_completion_cache(caches[i].as_str());
        if p.len() > 0 {
            return p;
        }
        i = i + 1;
    }
    Vec::new()
}

/// The AUR packages of `<helper> -Sl aur`: each line of at least two words
/// names one by its second word, with the third as version when present.
pub open spec fn list_packages(ls: Seq<Seq<char>>) -> Seq<PkgInfo>
    decreases ls.len(),
{
    if ls.len() == 0 {
        Seq::empty()
    } else {
        let prev = list_packages(ls.drop_last());
        let w = words(ls.last());
        if w.len() >= 2 {
            prev.push(aur_info(w[1], if w.len() > 2 {
                w[2]
            } else {
                "unknown"@
            }))
        } else {
            prev
        }
    }
}

/// The AUR packages of `<helper> -Sl aur`.
pub fn parse_aur_list(text: &str) -> (r: Vec<Package>)
    ensures
        pkg_views(r@) == list_packages(lines(text@)),
{
    let ls = split_lines(text);
    let ghost lv = string_views(ls@);
    let mut r: Vec<Package> = Vec::new();
    let mut i: usize = 0;
    while i < ls.len()
        invariant
            lv == string_views(ls@),
            i <= ls@.len(),
            pkg_views(r@) == list_packages(lv.subrange(0, i as int)),
        decreases ls.len() - i,
    {
        assert(lv.subrange(0, i + 1).drop_last() =~= lv.subrange(0, i as int));
        let ws = split_words_str(ls[i].as_str());
        if ws.len() >= 2 {
            let version = if ws.len() > 2 {
                ws[2].clone()
            } else {
                owned("unknown")
            };
            let p = aur_package(ws[1].clone(), version);
            let ghost before = pkg_views(r@);
            r.push(p);
            assert(pkg_views(r@) =~= before.push(p@));
        }
        i = i + 1;
    }
    assert(lv.subrange(0, lv.len() as int) =~= lv);
    r
}

// ---------------------------------------------------------------------------
// AUR search results
// ---------------------------------------------------------------------------

/// The part of `s` after its first `/`, or `s` when it has none.
pub open spec fn after_slash(s: Seq<char>) -> Seq<char> {
    let p = crate::config::index_from(s, '/', 0);
    if p < s.len() {
        s.subrange(p + 1, s.len() as int)
    } else {
        s
    }
}

/// A package found by an AUR search, from its header words and description.
pub open spec fn search_info(w: Seq<Seq<char>>, desc: Seq<char>) -> PkgInfo {
    let name = after_slash(w[0]);
    sparse_info(
        name,
        if w.len() > 1 {
            w[1]
        } else {
            Seq::empty()
        },
        desc,
        "x86_64"@,
        "AUR"@,
        false,
        false,
        lower(name + " "@ + desc),
    )
}

/// The packages of `<helper> -Ss --aur` output from line `i` on. Lines come
/// in pairs: a header `repo/name version ...` and a description; a header
/// without `/` is skipped with its pair.
pub open spec fn search_results(ls: Seq<Seq<char>>, i: int) -> Seq<PkgInfo>
    decreases ls.len() + 1 - i,
{
    if i < 0 || i >= ls.len() {
        Seq::empty()
    } else {
        let hdr = trim(ls[i]);
        let desc = if i + 1 < ls.len() {
            trim(ls[i + 1])
        } else {
            Seq::empty()
        };
        let w = words(hdr);
        let rest = search_results(ls, i + 2);
        if crate::text::has_char(hdr, '/') && w.len() > 0 {
            seq![search_info(w, desc)] + rest
        } else {
            rest
        }
    }
}

fn name_after_slash(s: &str) -> (r: String)
    ensures
        r@ == after_slash(s@),
{
    let cs = chars_of(s);
    let mut p: usize = 0;
    while p < cs.len() && cs[p] != '/'
        invariant
            p <= cs@.len(),
            crate::config::index_from(cs@, '/', 0) == crate::config::index_from(cs@, '/', p as int),
        decreases cs.len() - p,
    {
        p = p + 1;
    }
    if p < cs.len() {
        string_of(&cs, p + 1, cs.len())
    } else {
        owned(s)
    }
}

/// The packages found by an AUR search.
pub fn parse_aur_search(text: &str) -> (r: Vec<Package>)
    ensures
        pkg_views(r@) == search_results(lines(text@), 0),
{
    let ls = split_lines(text);
    let ghost lv = string_views(ls@);
    let mut r: Vec<Package> = Vec::new();
    let mut i: usize = 0;
    while i < ls.len()
        invariant
            lv == string_views(ls@),
            lv == lines(text@),
            pkg_views(r@) + search_results(lv, i as int) == search_results(lv, 0),
        decreases ls.len() - i,
    {
        let hdr = trim_str(ls[i].as_str());
        let desc = if i + 1 < ls.len() {
            trim_str(ls[i + 1].as_str())
        } else {
            String::new()
        };
        let hc = chars_of(hdr.as_str());
        let ws = split_words_str(hdr.as_str());
        let has_slash = match find_char(&hc, '/', 0) {
            Some(_) => true,
            None => false,
        };
        let ghost before = pkg_views(r@);
        if has_slash && ws.len() > 0 {
            let name = name_after_slash(ws[0].as_str());
            let version = if ws.len() > 1 {
                ws[1].clone()
            } else {
                String::new()
            };
            let mut key_src = name.clone();
            append_str(&mut key_src, " ");
            append_str(&mut key_src, desc.as_str());
            let key = lower_str(key_src.as_str());
            let p = sparse_package(name, version, desc.as_str(), "x86_64", "AUR", false, false, key);
            r.push(p);
            assert(pkg_views(r@) =~= before.push(p@));
            assert(p@ == search_info(words(trim(lv[i as int])), if i + 1 < lv.len() {
                trim(lv[i + 1])
            } else {
                Seq::empty()
            }));
            assert(before.push(p@) + search_results(lv, i + 2) =~= before + search_results(lv, i as int));
        }
        if ls.len() - i < 2 {
            assert(search_results(lv, i + 2) == Seq::<PkgInfo>::empty());
            assert(pkg_views(r@) + search_results(lv, i + 2) =~= pkg_views(r@));
            return r;
        }
        i = i + 2;
    }
    assert(pkg_views(r@) + search_results(lv, i as int) =~= pkg_views(r@));
    r
}

/// The message after a successful AUR search.
pub open spec fn found_message(n: nat) -> Seq<char> {
    "Found "@ + decimal(n) + " AUR packages."@
}

/// The packages an AUR search found, or none when the search failed, with
/// the message that reports it.
pub fn aur_search_report(output: Option<&str>) -> (r: (Option<Vec<Package>>, String))
    ensures
        match output {
            Some(text) => r.0 matches Some(ps) && pkg_views(ps@) == search_results(lines(text@), 0)
                && r.1@ == found_message(ps@.len()),
            None => r.0 is None && r.1@ == "AUR search failed."@,
        },
{
    match output {
        Some(text) => {
            let ps = parse_aur_search(text);
            let mut msg = owned("Found ");
            push_decimal(&mut msg, ps.len());
            append_str(&mut msg, " AUR packages.");
            (Some(ps), msg)
        },
        None => (None, owned("AUR search failed.")),
    }
}

// ---------------------------------------------------------------------------
// Package details, disk space
// ---------------------------------------------------------------------------

/// The `Key : Value` fields of all lines.
pub open spec fn all_fields(ls: Seq<Seq<char>>) -> Seq<(Seq<char>, Seq<char>)>
    decreases ls.len(),
{
    if ls.len() == 0 {
        Seq::empty()
    } else {
        match line_field(ls.last()) {
            Some(kv) => all_fields(ls.drop_last()).push(kv),
            None => all_fields(ls.drop_last()),
        }
    }
}

/// The package described by `<helper> -Si <name>`: none without fields or
/// without a name.
pub open spec fn details_spec(text: Seq<char>) -> Option<PkgInfo> {
    let f = all_fields(lines(text));
    if f.len() > 0 {
        pkg_from_fields(f, Seq::empty(), Seq::empty())
    } else {
        None
    }
}

/// The package described by `<helper> -Si <name>`.
pub fn parse_details(text: &str) -> (r: Option<Package>)
    ensures
        match r {
            Some(p) => details_spec(text@) == Some(p@),
            None => details_spec(text@) is None,
        },
{
    let ls = split_lines(text);
    let ghost lv = string_views(ls@);
    let mut fields: Vec<(String, String)> = Vec::new();
    let mut i: usize = 0;
    while i < ls.len()
        invariant
            lv == string_views(ls@),
            lv == lines(text@),
            i <= ls@.len(),
            field_views(fields@) == all_fields(lv.subrange(0, i as int)),
        decreases ls.len() - i,
    {
        assert(lv.subrange(0, i + 1).drop_last() =~= lv.subrange(0, i as int));
        match parse_field_line(ls[i].as_str()) {
            Some(kv) => {
                let ghost before = field_views(fields@);
                fields.push(kv);
                assert(field_views(fields@) =~= before.push((kv.0@, kv.1@)));
            },
            None => {},
        }
        i = i + 1;
    }
    assert(lv.subrange(0, lv.len() as int) =~= lv);
    if fields.len() == 0 {
        return None;
    }
    let none: Vec<String> = Vec::new();
    assert(string_views(none@) =~= Seq::<Seq<char>>::empty());
    map_pkg(&fields, &none, &none)
}

/// The free-space label from `df /`: the fourth word of its second line.
pub open spec fn disk_free_spec(text: Seq<char>) -> Seq<char> {
    let ls = lines(text);
    if ls.len() > 1 && words(ls[1]).len() > 3 {
        "Disk: "@ + words(ls[1])[3] + " Free"@
    } else {
        Seq::empty()
    }
}

/// The free-space label from the output of `df /`, or an empty string.
pub fn disk_free_label(text: &str) -> (r: String)
    ensures
        r@ == disk_free_spec(text@),
{
    let ls = split_lines(text);
    if ls.len() > 1 {
        let ws = split_words_str(ls[1].as_str());
        if ws.len() > 3 {
            let mut r = owned("Disk: ");
            append_str(&mut r, ws[3].as_str());
            append_str(&mut r, " Free");
            return r;
        }
    }
    String::new()
}

} // verus!
