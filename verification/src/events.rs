//! What the application does with the events of its main loop: the clock
//! tick, loaded package lists, fetched details, dependency trees and wiki
//! pages, and the end of a command.
use vstd::prelude::*;
use crate::app::{expiry_spec, App, Console, DepTree, WikiView};
use crate::handlers::{current_pkg, has_current};
use crate::loader::pkg_names;
use crate::package::{pkg_views, Package, PkgInfo};
use crate::text::{append_str, decimal, owned, push_decimal, str_eq, string_views};

verus! {

/// How long the cursor must rest on a package before its AUR details are
/// fetched, in nanoseconds (300 ms).
pub const DETAILS_DELAY_NS: u64 = 300_000_000;

/// How long the cursor must rest on a package before its dependency tree is
/// fetched, in nanoseconds (250 ms).
pub const DEP_TREE_DELAY_NS: u64 = 250_000_000;

/// Fetches a clock tick asks for.
pub struct TickWork {
    /// Fetch the AUR details of this package.
    pub details: Option<String>,
    /// Fetch the dependency tree of this package, which is installed or not.
    pub dep_tree: Option<(String, bool)>,
}

/// Milliseconds from `since` to `now`, none when `now` is earlier.
pub open spec fn elapsed(now: u64, since: u64) -> int {
    if now >= since {
        now - since
    } else {
        0
    }
}

/// The package under the cursor is an AUR package whose details have not
/// been fetched, and the cursor has rested on it long enough.
pub open spec fn wants_details(a: App, now: u64, aur_enabled: bool) -> bool {
    &&& has_current(a)
    &&& aur_enabled
    &&& current_pkg(a).repo == "aur"@
    &&& current_pkg(a).desc == "AUR Package"@
    &&& elapsed(now, a.last_cursor_change) > DETAILS_DELAY_NS
}

/// The dependency tree is shown for another package than the one under the
/// cursor, nothing is being fetched, and the cursor has rested long enough.
pub open spec fn wants_dep_tree(a: App, now: u64) -> bool {
    &&& a.dep_tree.show
    &&& has_current(a)
    &&& match a.dep_tree.pkg_name {
        Some(n) => n@ != current_pkg(a).name,
        None => true,
    }
    &&& !a.dep_tree.loading
    &&& elapsed(now, a.last_cursor_change) > DEP_TREE_DELAY_NS
}

impl App {
    fn mark_fetching(&mut self, idx: usize)
        requires
            idx < old(self).pkgs@.len(),
        ensures
            final(self).pkgs@.len() == old(self).pkgs@.len(),
            pkg_views(final(self).pkgs@) == pkg_views(old(self).pkgs@).update(
                idx as int,
                PkgInfo { desc: "Fetching details..."@, ..old(self).pkgs@[idx as int]@ },
            ),
            *final(self) == (App { pkgs: final(self).pkgs, ..*old(self) }),
    {
        let mut p = self.pkgs[idx].clone_package();
        p.desc = owned("Fetching details...");
        let ghost before = pkg_views(self.pkgs@);
        self.pkgs.set(idx, p);
        assert(pkg_views(self.pkgs@) =~= before.update(idx as int, p@));
    }

    /// A clock tick at time `now`: the spinner turns while loading, and an
    /// expired message is cleared.
    pub fn tick(&mut self, now: u64)
        requires
            old(self).is_loading ==> old(self).spinner_tick < u64::MAX,
        ensures
            ({
                let a = *old(self);
                let b = *final(self);
                let expired = !a.status.keep && (a.status.expires matches Some(e) && now > e);
                &&& b == (App {
                    spinner_tick: if a.is_loading {
                        (a.spinner_tick + 1) as u64
                    } else {
                        a.spinner_tick
                    },
                    status: b.status,
                    ..a
                })
                &&& if expired {
                    &&& b.status.text@.len() == 0
                    &&& b.status.keep == a.status.keep
                    &&& b.status.expires is None
                } else {
                    b.status == a.status
                }
            }),
    {
        if self.is_loading {
            self.spinner_tick = self.spinner_tick + 1;
        }
        self.check_msg_expiry_at(now);
    }

    /// The fetches a clock tick at time `now` starts for the package under
    /// the cursor: its AUR details (it is then marked as being fetched), and
    /// its dependency tree when the tree is shown.
    pub fn tick_fetches(&mut self, now: u64, aur_enabled: bool) -> (w: TickWork)
        requires
            old(self).view_in_bounds(),
        ensures
            final(self).view_in_bounds(),
            ({
                let a = *old(self);
                let d = wants_details(a, now, aur_enabled);
                let name = current_pkg(a).name;
                let idx = a.view@[a.cursor as int] as int;
                let a2 = if d {
                    App { pkgs: final(self).pkgs, ..a }
                } else {
                    a
                };
                &&& d ==> pkg_views(final(self).pkgs@) == pkg_views(a.pkgs@).update(
                    idx,
                    PkgInfo { desc: "Fetching details..."@, ..a.pkgs@[idx]@ },
                )
                &&& match w.details {
                    Some(n) => d && n@ == name,
                    None => !d,
                }
                &&& if wants_dep_tree(a, now) {
                    &&& *final(self) == (App {
                        dep_tree: DepTree { loading: true, content: final(self).dep_tree.content, ..a.dep_tree },
                        ..a2
                    })
                    &&& final(self).dep_tree.content@.len() == 0
                    &&& w.dep_tree matches Some(dt) && dt.0@ == name && dt.1 == current_pkg(a).installed
                } else {
                    &&& *final(self) == a2
                    &&& w.dep_tree is None
                }
            }),
    {
        let ghost a = *self;
        let elapsed_ns = now.saturating_sub(self.last_cursor_change);
        let mut details: Option<String> = None;
        if self.cursor < self.view.len() {
            let idx = self.view[self.cursor];
            assert(pkg_views(a.pkgs@)[idx as int] == a.pkgs@[idx as int]@);
            if aur_enabled && str_eq(self.pkgs[idx].repo.as_str(), "aur") && str_eq(
                self.pkgs[idx].desc.as_str(),
                "AUR Package",
            ) && elapsed_ns > DETAILS_DELAY_NS {
                let name = self.pkgs[idx].name.clone();
                self.mark_fetching(idx);
                details = Some(name);
            }
        }
        let mut dep: Option<(String, bool)> = None;
        if self.dep_tree.show && self.cursor < self.view.len() {
            let idx = self.view[self.cursor];
            assert(pkg_views(self.pkgs@)[idx as int] == self.pkgs@[idx as int]@);
            assert(self.pkgs@[idx as int]@.name == a.pkgs@[idx as int]@.name);
            assert(self.pkgs@[idx as int]@.installed == a.pkgs@[idx as int]@.installed);
            let differs = match &self.dep_tree.pkg_name {
                Some(n) => !str_eq(n.as_str(), self.pkgs[idx].name.as_str()),
                None => true,
            };
            if differs && !self.dep_tree.loading && elapsed_ns > DEP_TREE_DELAY_NS {
                self.dep_tree.loading = true;
                self.dep_tree.content = Vec::new();
                dep = Some((self.pkgs[idx].name.clone(), self.pkgs[idx].installed));
            }
        }
        TickWork { details, dep_tree: dep }
    }

    /// The sync database was (re)loaded: it replaces the package list, and
    /// the view is to be rebuilt.
    pub fn on_db_loaded(&mut self, pkgs: Vec<Package>)
        ensures
            *final(self) == (App { pkgs, needs_filter: true, ..*old(self) }),
    {
        self.pkgs = pkgs;
        self.needs_filter = true;
    }

    /// The AUR package list was loaded at time `now`: the packages whose
    /// names were not already listed are added, loading ends, the number of
    /// packages is reported, and the view is to be rebuilt.
    pub fn on_aur_loaded(&mut self, aur: Vec<Package>, now: u64)
        ensures
            pkg_views(final(self).pkgs@) == pkg_views(old(self).pkgs@) + new_packages(
                pkg_views(aur@),
                pkg_names(pkg_views(old(self).pkgs@)),
            ),
            final(self).status.text@ == loaded_message(final(self).pkgs@.len()),
            !final(self).status.keep,
            final(self).status.expires == Some(expiry_spec(now, 4)),
            *final(self) == (App {
                pkgs: final(self).pkgs,
                status: final(self).status,
                is_loading: false,
                needs_filter: true,
                ..*old(self)
            }),
    {
        let n = self.pkgs.len();
        let ghost old_pkgs = pkg_views(self.pkgs@);
        let ghost known = pkg_names(old_pkgs);
        let ghost av = pkg_views(aur@);
        let mut pkgs: Vec<Package> = Vec::new();
        std::mem::swap(&mut pkgs, &mut self.pkgs);
        let mut i: usize = 0;
        assert(pkgs@.subrange(0, n as int) =~= pkgs@);
        while i < aur.len()
            invariant
                n <= pkgs@.len(),
                old_pkgs == pkg_views(pkgs@.subrange(0, n as int)),
                known == pkg_names(old_pkgs),
                av == pkg_views(aur@),
                i <= aur@.len(),
                pkg_views(pkgs@) == old_pkgs + new_packages(av.subrange(0, i as int), known),
            decreases aur.len() - i,
        {
            assert(av.subrange(0, i + 1).drop_last() =~= av.subrange(0, i as int));
            if !known_name(&pkgs, n, aur[i].name.as_str()) {
                let ghost before = pkg_views(pkgs@);
                let ghost before_seq = pkgs@;
                pkgs.push(aur[i].clone_package());
                assert(pkg_views(pkgs@) =~= before.push(av[i as int]));
                assert(pkgs@.subrange(0, n as int) =~= before_seq.subrange(0, n as int));
            }
            i = i + 1;
        }
        assert(av.subrange(0, av.len() as int) =~= av);
        self.pkgs = pkgs;
        self.is_loading = false;
        let mut msg = owned("Loaded ");
        push_decimal(&mut msg, self.pkgs.len());
        append_str(&mut msg, " packages.");
        self.set_msg_at(msg.as_str(), 4, false, now);
        self.needs_filter = true;
    }

    /// The command in the console finished: the console shows its outcome
    /// and loading ends. Returns whether the databases should be reloaded
    /// (after a success).
    pub fn on_console_finished(&mut self, success: bool) -> (reload: bool)
        ensures
            reload == success,
            *final(self) == (App {
                console: Console { finished: Some(success), ..old(self).console },
                is_loading: false,
                ..*old(self)
            }),
    {
        self.console.finished = Some(success);
        self.is_loading = false;
        success
    }

    /// The details of an AUR package arrived: they replace the first package
    /// of that name, which keeps its installed and upgradable marks and the
    /// `aur` repository.
    pub fn on_aur_details_loaded(&mut self, fetched: Package)
        ensures
            match first_named(pkg_views(old(self).pkgs@), fetched.name@) {
                Some(k) => pkg_views(final(self).pkgs@) == pkg_views(old(self).pkgs@).update(
                    k,
                    PkgInfo {
                        installed: old(self).pkgs@[k]@.installed,
                        upgradable: old(self).pkgs@[k]@.upgradable,
                        repo: "aur"@,
                        ..fetched@
                    },
                ),
                None => final(self).pkgs@ == old(self).pkgs@,
            },
            final(self).pkgs@.len() == old(self).pkgs@.len(),
            *final(self) == (App { pkgs: final(self).pkgs, ..*old(self) }),
    {
        let ghost pv = pkg_views(self.pkgs@);
        match find_named(&self.pkgs, fetched.name.as_str()) {
            Some(k) => {
                assert(pv[k as int] == self.pkgs@[k as int]@);
                let installed = self.pkgs[k].installed;
                let upgradable = self.pkgs[k].upgradable;
                let mut p = fetched;
                p.installed = installed;
                p.upgradable = upgradable;
                p.repo = owned("aur");
                self.pkgs.set(k, p);
                assert(pkg_views(self.pkgs@) =~= pv.update(k as int, p@));
            },
            None => {},
        }
    }

    /// A dependency tree arrived: when it is for the package under the
    /// cursor it is shown (an error as two lines), and loading ends.
    pub fn on_dep_tree_loaded(&mut self, pkg_name: String, res: Result<Vec<String>, String>)
        requires
            old(self).view_in_bounds(),
        ensures
            if has_current(*old(self)) && current_pkg(*old(self)).name == pkg_name@ {
                &&& *final(self) == (App {
                    dep_tree: DepTree {
                        loading: false,
                        content: final(self).dep_tree.content,
                        pkg_name: final(self).dep_tree.pkg_name,
                        ..old(self).dep_tree
                    },
                    ..*old(self)
                })
                &&& final(self).dep_tree.pkg_name matches Some(n) && n@ == pkg_name@
                &&& match res {
                    Ok(tree) => final(self).dep_tree.content == tree,
                    Err(e) => string_views(final(self).dep_tree.content@) == seq![
                        "Error loading dependency tree:"@,
                        e@,
                    ],
                }
            } else {
                *final(self) == *old(self)
            },
    {
        if self.cursor < self.view.len() {
            let idx = self.view[self.cursor];
            if str_eq(self.pkgs[idx].name.as_str(), pkg_name.as_str()) {
                self.dep_tree.loading = false;
                match res {
                    Ok(tree) => {
                        self.dep_tree.content = tree;
                    },
                    Err(err) => {
                        let mut c: Vec<String> = Vec::new();
                        c.push(owned("Error loading dependency tree:"));
                        c.push(err);
                        self.dep_tree.content = c;
                        assert(string_views(self.dep_tree.content@) =~= seq![
                            "Error loading dependency tree:"@,
                            err@,
                        ]);
                    },
                }
                self.dep_tree.pkg_name = Some(pkg_name);
            }
        }
    }

    /// A wiki page arrived: when it is for the page being shown, loading
    /// ends and its lines (or the error) are shown.
    pub fn on_wiki_loaded(&mut self, pkg_name: &str, res: Result<Vec<String>, String>)
        ensures
            if old(self).wiki.pkg_name@ == pkg_name@ {
                match res {
                    Ok(lines) => *final(self) == (App {
                        wiki: WikiView { loading: false, content: lines, err_msg: None, ..old(self).wiki },
                        ..*old(self)
                    }),
                    Err(e) => *final(self) == (App {
                        wiki: WikiView { loading: false, err_msg: Some(e), ..old(self).wiki },
                        ..*old(self)
                    }),
                }
            } else {
                *final(self) == *old(self)
            },
    {
        if str_eq(self.wiki.pkg_name.as_str(), pkg_name) {
            self.wiki.loading = false;
            match res {
                Ok(lines) => {
                    self.wiki.content = lines;
                    self.wiki.err_msg = None;
                },
                Err(e) => {
                    self.wiki.err_msg = Some(e);
                },
            }
        }
    }
}

/// The report after the package lists loaded.
pub open spec fn loaded_message(n: nat) -> Seq<char> {
    "Loaded "@ + decimal(n) + " packages."@
}

/// The packages whose names are not among `known` (checked against `known`
/// only, so two new packages of one name are both kept).
pub open spec fn new_packages(ps: Seq<PkgInfo>, known: Seq<Seq<char>>) -> Seq<PkgInfo>
    decreases ps.len(),
{
    if ps.len() == 0 {
        Seq::empty()
    } else if known.contains(ps.last().name) {
        new_packages(ps.drop_last(), known)
    } else {
        new_packages(ps.drop_last(), known).push(ps.last())
    }
}

/// The position of the first package named `name` from `k` on.
pub open spec fn first_named_from(ps: Seq<PkgInfo>, name: Seq<char>, k: int) -> Option<int>
    decreases ps.len() - k,
{
    if k < 0 || k >= ps.len() {
        None
    } else if ps[k].name == name {
        Some(k)
    } else {
        first_named_from(ps, name, k + 1)
    }
}

/// The position of the first package named `name`.
pub open spec fn first_named(ps: Seq<PkgInfo>, name: Seq<char>) -> Option<int> {
    first_named_from(ps, name, 0)
}

/// The position of the first package named `name`.
fn find_named(ps: &Vec<Package>, name: &str) -> (r: Option<usize>)
    ensures
        match r {
            Some(k) => first_named(pkg_views(ps@), name@) == Some(k as int) && k < ps@.len(),
            None => first_named(pkg_views(ps@), name@) is None,
        },
{
    let ghost pv = pkg_views(ps@);
    let mut k: usize = 0;
    while k < ps.len()
        invariant
            pv == pkg_views(ps@),
            k <= ps@.len(),
            first_named(pv, name@) == first_named_from(pv, name@, k as int),
        decreases ps.len() - k,
    {
        assert(pv[k as int] == ps@[k as int]@);
        if str_eq(ps[k].name.as_str(), name) {
            return Some(k);
        }
        k = k + 1;
    }
    None
}

/// Whether one of the first `n` packages is named `name`.
fn known_name(ps: &Vec<Package>, n: usize, name: &str) -> (r: bool)
    requires
        n <= ps@.len(),
    ensures
        r == pkg_names(pkg_views(ps@.subrange(0, n as int))).contains(name@),
{
    let ghost names = pkg_names(pkg_views(ps@.subrange(0, n as int)));
    let mut k: usize = 0;
    while k < n
        invariant
            n <= ps@.len(),
            names == pkg_names(pkg_views(ps@.subrange(0, n as int))),
            k <= n,
            forall|m: int| 0 <= m < k ==> names[m] != name@,
        decreases n - k,
    {
        assert(names[k as int] == ps@[k as int].name@);
        if str_eq(ps[k].name.as_str(), name) {
            return true;
        }
        k = k + 1;
    }
    false
}

} // verus!
