//! Package records, their construction from `Key : Value` fields, and
//! repository priorities.
use vstd::prelude::*;
use crate::text::{append_str, lower, lower_str, str_eq, string_views};

verus! {

/// One package as shown in the list and the detail panel.
#[derive(Clone, Debug)]
pub struct Package {
    pub name: String,
    pub version: String,
    pub repo: String,
    pub desc: String,
    pub arch: String,
    pub url: String,
    pub licenses: String,
    pub groups: String,
    pub provides: String,
    pub depends: String,
    pub optdeps: String,
    pub req_by: String,
    pub opt_for: String,
    pub conflicts: String,
    pub replaces: String,
    pub dl_size: String,
    pub inst_size: String,
    pub packager: String,
    pub build_date: String,
    pub installed: bool,
    pub upgradable: bool,
    pub search_key: String,
}

/// The contents of a [`Package`], as character sequences.
pub ghost struct PkgInfo {
    pub name: Seq<char>,
    pub version: Seq<char>,
    pub repo: Seq<char>,
    pub desc: Seq<char>,
    pub arch: Seq<char>,
    pub url: Seq<char>,
    pub licenses: Seq<char>,
    pub groups: Seq<char>,
    pub provides: Seq<char>,
    pub depends: Seq<char>,
    pub optdeps: Seq<char>,
    pub req_by: Seq<char>,
    pub opt_for: Seq<char>,
    pub conflicts: Seq<char>,
    pub replaces: Seq<char>,
    pub dl_size: Seq<char>,
    pub inst_size: Seq<char>,
    pub packager: Seq<char>,
    pub build_date: Seq<char>,
    pub installed: bool,
    pub upgradable: bool,
    pub search_key: Seq<char>,
}

impl View for Package {
    type V = PkgInfo;

    open spec fn view(&self) -> PkgInfo {
        PkgInfo {
            name: self.name@,
            version: self.version@,
            repo: self.repo@,
            desc: self.desc@,
            arch: self.arch@,
            url: self.url@,
            licenses: self.licenses@,
            groups: self.groups@,
            provides: self.provides@,
            depends: self.depends@,
            optdeps: self.optdeps@,
            req_by: self.req_by@,
            opt_for: self.opt_for@,
            conflicts: self.conflicts@,
            replaces: self.replaces@,
            dl_size: self.dl_size@,
            inst_size: self.inst_size@,
            packager: self.packager@,
            build_date: self.build_date@,
            installed: self.installed,
            upgradable: self.upgradable,
            search_key: self.search_key@,
        }
    }
}

impl Package {
    /// A copy of the package.
    pub fn clone_package(&self) -> (p: Package)
        ensures
            p@ == self@,
    {
        Package {
            name: self.name.clone(),
            version: self.version.clone(),
            repo: self.repo.clone(),
            desc: self.desc.clone(),
            arch: self.arch.clone(),
            url: self.url.clone(),
            licenses: self.licenses.clone(),
            groups: self.groups.clone(),
            provides: self.provides.clone(),
            depends: self.depends.clone(),
            optdeps: self.optdeps.clone(),
            req_by: self.req_by.clone(),
            opt_for: self.opt_for.clone(),
            conflicts: self.conflicts.clone(),
            replaces: self.replaces.clone(),
            dl_size: self.dl_size.clone(),
            inst_size: self.inst_size.clone(),
            packager: self.packager.clone(),
            build_date: self.build_date.clone(),
            installed: self.installed,
            upgradable: self.upgradable,
            search_key: self.search_key.clone(),
        }
    }
}

/// The contents of a sequence of packages.
pub open spec fn pkg_views(v: Seq<Package>) -> Seq<PkgInfo> {
    v.map_values(|p: Package| p@)
}

/// The kind of change a confirmed action makes.
#[derive(Clone, Copy, PartialEq, Eq, Debug, Structural)]
pub enum ConfirmAction {
    Install,
    Remove,
    Update,
}

// ---------------------------------------------------------------------------
// Repository priority
// ---------------------------------------------------------------------------

/// Priority of an already lowercased repository name: official repositories
/// first, custom ones in the middle, the AUR and local packages last.
pub open spec fn priority_of_lower(l: Seq<char>) -> nat {
    if l == "core"@ {
        0
    } else if l == "extra"@ {
        1
    } else if l == "multilib"@ {
        2
    } else if l == "community"@ {
        3
    } else if l == "aur"@ {
        10
    } else if l == "local"@ {
        11
    } else {
        5
    }
}

/// Sort priority of a repository, compared without regard to case.
pub open spec fn repo_priority_spec(repo: Seq<char>) -> nat {
    priority_of_lower(lower(repo))
}

/// Sort priority of a repository name.
pub fn repo_priority(repo: &str) -> (r: usize)
    ensures
        r == repo_priority_spec(repo@),
{
    let l = lower_str(repo);
    let l = l.as_str();
    if str_eq(l, "core") {
        0
    } else if str_eq(l, "extra") {
        1
    } else if str_eq(l, "multilib") {
        2
    } else if str_eq(l, "community") {
        3
    } else if str_eq(l, "aur") {
        10
    } else if str_eq(l, "local") {
        11
    } else {
        5
    }
}

// ---------------------------------------------------------------------------
// Packages from fields
// ---------------------------------------------------------------------------

/// The `(key, value)` pairs of a field list, as character sequences.
pub open spec fn field_views(v: Seq<(String, String)>) -> Seq<(Seq<char>, Seq<char>)> {
    v.map_values(|p: (String, String)| (p.0@, p.1@))
}

/// The value of `key` among the fields: a later pair overrides an earlier
/// one with the same key.
pub open spec fn field_lookup(fields: Seq<(Seq<char>, Seq<char>)>, key: Seq<char>) -> Option<
    Seq<char>,
>
    decreases fields.len(),
{
    if fields.len() == 0 {
        None
    } else if fields.last().0 == key {
        Some(fields.last().1)
    } else {
        field_lookup(fields.drop_last(), key)
    }
}

/// The value of `key`, or the empty string when the key is absent.
pub open spec fn field_or_empty(fields: Seq<(Seq<char>, Seq<char>)>, key: Seq<char>) -> Seq<char> {
    match field_lookup(fields, key) {
        Some(v) => v,
        None => Seq::empty(),
    }
}

/// Whether `name` is one of the names.
pub open spec fn names_contain(names: Seq<Seq<char>>, name: Seq<char>) -> bool {
    names.contains(name)
}

/// The package described by a field list; `None` without a `Name` field.
pub open spec fn pkg_from_fields(
    f: Seq<(Seq<char>, Seq<char>)>,
    installed: Seq<Seq<char>>,
    updates: Seq<Seq<char>>,
) -> Option<PkgInfo> {
    match field_lookup(f, "Name"@) {
        None => None,
        Some(name) => {
            let desc = field_or_empty(f, "Description"@);
            Some(
                PkgInfo {
                    name: name,
                    version: field_or_empty(f, "Version"@),
                    repo: field_or_empty(f, "Repository"@),
                    desc: desc,
                    arch: field_or_empty(f, "Architecture"@),
                    url: field_or_empty(f, "URL"@),
                    licenses: field_or_empty(f, "Licenses"@),
                    groups: field_or_empty(f, "Groups"@),
                    provides: field_or_empty(f, "Provides"@),
                    depends: field_or_empty(f, "Depends On"@),
                    optdeps: field_or_empty(f, "Optional Deps"@),
                    req_by: field_or_empty(f, "Required By"@),
                    opt_for: field_or_empty(f, "Optional For"@),
                    conflicts: field_or_empty(f, "Conflicts With"@),
                    replaces: field_or_empty(f, "Replaces"@),
                    dl_size: field_or_empty(f, "Download Size"@),
                    inst_size: field_or_empty(f, "Installed Size"@),
                    packager: field_or_empty(f, "Packager"@),
                    build_date: field_or_empty(f, "Build Date"@),
                    installed: names_contain(installed, name),
                    upgradable: names_contain(updates, name),
                    search_key: lower(name + " "@ + desc),
                },
            )
        },
    }
}

/// The value of a key after one more pair: the new value for its own key,
/// else what it was.
proof fn lemma_lookup_push(f: Seq<(Seq<char>, Seq<char>)>, k: Seq<char>, w: Seq<char>, k2: Seq<char>)
    ensures
        field_lookup(f.push((k, w)), k2) == (if k == k2 {
            Some(w)
        } else {
            field_lookup(f, k2)
        }),
{
    assert(f.push((k, w)).drop_last() =~= f);
}

#[verifier::spinoff_prover]
#[verifier::rlimit(60)]
proof fn lemma_record_sets_version(
    f: Seq<(Seq<char>, Seq<char>)>,
    installed: Seq<Seq<char>>,
    updates: Seq<Seq<char>>,
    v: Seq<char>,
)
    requires
        field_lookup(f, "Name"@) is Some,
    ensures
        pkg_from_fields(f.push(("Version"@, v)), installed, updates) == Some(PkgInfo { version: v, ..pkg_from_fields(f, installed, updates)->Some_0 }),
{
    reveal_strlit("Version");
    reveal_strlit("Name");
    reveal_strlit("Repository");
    reveal_strlit("Architecture");
    reveal_strlit("URL");
    reveal_strlit("Licenses");
    reveal_strlit("Groups");
    reveal_strlit("Provides");
    reveal_strlit("Depends On");
    reveal_strlit("Optional Deps");
    reveal_strlit("Required By");
    reveal_strlit("Optional For");
    reveal_strlit("Conflicts With");
    reveal_strlit("Replaces");
    reveal_strlit("Download Size");
    reveal_strlit("Installed Size");
    reveal_strlit("Packager");
    reveal_strlit("Build Date");
    reveal_strlit("Description");
    assert("Version"@.len() != "Name"@.len());
    lemma_lookup_push(f, "Version"@, v, "Name"@);
    assert("Version"@.len() != "Repository"@.len());
    lemma_lookup_push(f, "Version"@, v, "Repository"@);
    assert("Version"@.len() != "Architecture"@.len());
    lemma_lookup_push(f, "Version"@, v, "Architecture"@);
    assert("Version"@.len() != "URL"@.len());
    lemma_lookup_push(f, "Version"@, v, "URL"@);
    assert("Version"@.len() != "Licenses"@.len());
    lemma_lookup_push(f, "Version"@, v, "Licenses"@);
    assert("Version"@.len() != "Groups"@.len());
    lemma_lookup_push(f, "Version"@, v, "Groups"@);
    assert("Version"@.len() != "Provides"@.len());
    lemma_lookup_push(f, "Version"@, v, "Provides"@);
    assert("Version"@.len() != "Depends On"@.len());
    lemma_lookup_push(f, "Version"@, v, "Depends On"@);
    assert("Version"@.len() != "Optional Deps"@.len());
    lemma_lookup_push(f, "Version"@, v, "Optional Deps"@);
    assert("Version"@.len() != "Required By"@.len());
    lemma_lookup_push(f, "Version"@, v, "Required By"@);
    assert("Version"@.len() != "Optional For"@.len());
    lemma_lookup_push(f, "Version"@, v, "Optional For"@);
    assert("Version"@.len() != "Conflicts With"@.len());
    lemma_lookup_push(f, "Version"@, v, "Conflicts With"@);
    assert("Version"@.len() != "Replaces"@.len());
    lemma_lookup_push(f, "Version"@, v, "Replaces"@);
    assert("Version"@.len() != "Download Size"@.len());
    lemma_lookup_push(f, "Version"@, v, "Download Size"@);
    assert("Version"@.len() != "Installed Size"@.len());
    lemma_lookup_push(f, "Version"@, v, "Installed Size"@);
    assert("Version"@.len() != "Packager"@.len());
    lemma_lookup_push(f, "Version"@, v, "Packager"@);
    assert("Version"@.len() != "Build Date"@.len());
    lemma_lookup_push(f, "Version"@, v, "Build Date"@);
    assert("Version"@.len() != "Description"@.len());
    lemma_lookup_push(f, "Version"@, v, "Description"@);
    lemma_lookup_push(f, "Version"@, v, "Version"@);
}

#[verifier::spinoff_prover]
#[verifier::rlimit(60)]
proof fn lemma_record_sets_repo(
    f: Seq<(Seq<char>, Seq<char>)>,
    installed: Seq<Seq<char>>,
    updates: Seq<Seq<char>>,
    v: Seq<char>,
)
    requires
        field_lookup(f, "Name"@) is Some,
    ensures
        pkg_from_fields(f.push(("Repository"@, v)), installed, updates) == Some(PkgInfo { repo: v, ..pkg_from_fields(f, installed, updates)->Some_0 }),
{
    reveal_strlit("Repository");
    reveal_strlit("Name");
    reveal_strlit("Version");
    reveal_strlit("Architecture");
    reveal_strlit("URL");
    reveal_strlit("Licenses");
    reveal_strlit("Groups");
    reveal_strlit("Provides");
    reveal_strlit("Depends On");
    reveal_strlit("Optional Deps");
    reveal_strlit("Required By");
    reveal_strlit("Optional For");
    reveal_strlit("Conflicts With");
    reveal_strlit("Replaces");
    reveal_strlit("Download Size");
    reveal_strlit("Installed Size");
    reveal_strlit("Packager");
    reveal_strlit("Build Date");
    reveal_strlit("Description");
    assert("Repository"@.len() != "Name"@.len());
    lemma_lookup_push(f, "Repository"@, v, "Name"@);
    assert("Repository"@.len() != "Version"@.len());
    lemma_lookup_push(f, "Repository"@, v, "Version"@);
    assert("Repository"@.len() != "Architecture"@.len());
    lemma_lookup_push(f, "Repository"@, v, "Architecture"@);
    assert("Repository"@.len() != "URL"@.len());
    lemma_lookup_push(f, "Repository"@, v, "URL"@);
    assert("Repository"@.len() != "Licenses"@.len());
    lemma_lookup_push(f, "Repository"@, v, "Licenses"@);
    assert("Repository"@.len() != "Groups"@.len());
    lemma_lookup_push(f, "Repository"@, v, "Groups"@);
    assert("Repository"@.len() != "Provides"@.len());
    lemma_lookup_push(f, "Repository"@, v, "Provides"@);
    assert("Repository"@[0] != "Depends On"@[0]);
    lemma_lookup_push(f, "Repository"@, v, "Depends On"@);
    assert("Repository"@.len() != "Optional Deps"@.len());
    lemma_lookup_push(f, "Repository"@, v, "Optional Deps"@);
    assert("Repository"@.len() != "Required By"@.len());
    lemma_lookup_push(f, "Repository"@, v, "Required By"@);
    assert("Repository"@.len() != "Optional For"@.len());
    lemma_lookup_push(f, "Repository"@, v, "Optional For"@);
    assert("Repository"@.len() != "Conflicts With"@.len());
    lemma_lookup_push(f, "Repository"@, v, "Conflicts With"@);
    assert("Repository"@.len() != "Replaces"@.len());
    lemma_lookup_push(f, "Repository"@, v, "Replaces"@);
    assert("Repository"@.len() != "Download Size"@.len());
    lemma_lookup_push(f, "Repository"@, v, "Download Size"@);
    assert("Repository"@.len() != "Installed Size"@.len());
    lemma_lookup_push(f, "Repository"@, v, "Installed Size"@);
    assert("Repository"@.len() != "Packager"@.len());
    lemma_lookup_push(f, "Repository"@, v, "Packager"@);
    assert("Repository"@[0] != "Build Date"@[0]);
    lemma_lookup_push(f, "Repository"@, v, "Build Date"@);
    assert("Repository"@.len() != "Description"@.len());
    lemma_lookup_push(f, "Repository"@, v, "Description"@);
    lemma_lookup_push(f, "Repository"@, v, "Repository"@);
}

#[verifier::spinoff_prover]
#[verifier::rlimit(60)]
proof fn lemma_record_sets_arch(
    f: Seq<(Seq<char>, Seq<char>)>,
    installed: Seq<Seq<char>>,
    updates: Seq<Seq<char>>,
    v: Seq<char>,
)
    requires
        field_lookup(f, "Name"@) is Some,
    ensures
        pkg_from_fields(f.push(("Architecture"@, v)), installed, updates) == Some(PkgInfo { arch: v, ..pkg_from_fields(f, installed, updates)->Some_0 }),
{
    reveal_strlit("Architecture");
    reveal_strlit("Name");
    reveal_strlit("Version");
    reveal_strlit("Repository");
    reveal_strlit("URL");
    reveal_strlit("Licenses");
    reveal_strlit("Groups");
    reveal_strlit("Provides");
    reveal_strlit("Depends On");
    reveal_strlit("Optional Deps");
    reveal_strlit("Required By");
    reveal_strlit("Optional For");
    reveal_strlit("Conflicts With");
    reveal_strlit("Replaces");
    reveal_strlit("Download Size");
    reveal_strlit("Installed Size");
    reveal_strlit("Packager");
    reveal_strlit("Build Date");
    reveal_strlit("Description");
    assert("Architecture"@.len() != "Name"@.len());
    lemma_lookup_push(f, "Architecture"@, v, "Name"@);
    assert("Architecture"@.len() != "Version"@.len());
    lemma_lookup_push(f, "Architecture"@, v, "Version"@);
    assert("Architecture"@.len() != "Repository"@.len());
    lemma_lookup_push(f, "Architecture"@, v, "Repository"@);
    assert("Architecture"@.len() != "URL"@.len());
    lemma_lookup_push(f, "Architecture"@, v, "URL"@);
    assert("Architecture"@.len() != "Licenses"@.len());
    lemma_lookup_push(f, "Architecture"@, v, "Licenses"@);
    assert("Architecture"@.len() != "Groups"@.len());
    lemma_lookup_push(f, "Architecture"@, v, "Groups"@);
    assert("Architecture"@.len() != "Provides"@.len());
    lemma_lookup_push(f, "Architecture"@, v, "Provides"@);
    assert("Architecture"@.len() != "Depends On"@.len());
    lemma_lookup_push(f, "Architecture"@, v, "Depends On"@);
    assert("Architecture"@.len() != "Optional Deps"@.len());
    lemma_lookup_push(f, "Architecture"@, v, "Optional Deps"@);
    assert("Architecture"@.len() != "Required By"@.len());
    lemma_lookup_push(f, "Architecture"@, v, "Required By"@);
    assert("Architecture"@[0] != "Optional For"@[0]);
    lemma_lookup_push(f, "Architecture"@, v, "Optional For"@);
    assert("Architecture"@.len() != "Conflicts With"@.len());
    lemma_lookup_push(f, "Architecture"@, v, "Conflicts With"@);
    assert("Architecture"@.len() != "Replaces"@.len());
    lemma_lookup_push(f, "Architecture"@, v, "Replaces"@);
    assert("Architecture"@.len() != "Download Size"@.len());
    lemma_lookup_push(f, "Architecture"@, v, "Download Size"@);
    assert("Architecture"@.len() != "Installed Size"@.len());
    lemma_lookup_push(f, "Architecture"@, v, "Installed Size"@);
    assert("Architecture"@.len() != "Packager"@.len());
    lemma_lookup_push(f, "Architecture"@, v, "Packager"@);
    assert("Architecture"@.len() != "Build Date"@.len());
    lemma_lookup_push(f, "Architecture"@, v, "Build Date"@);
    assert("Architecture"@.len() != "Description"@.len());
    lemma_lookup_push(f, "Architecture"@, v, "Description"@);
    lemma_lookup_push(f, "Architecture"@, v, "Architecture"@);
}

#[verifier::spinoff_prover]
#[verifier::rlimit(60)]
proof fn lemma_record_sets_url(
    f: Seq<(Seq<char>, Seq<char>)>,
    installed: Seq<Seq<char>>,
    updates: Seq<Seq<char>>,
    v: Seq<char>,
)
    requires
        field_lookup(f, "Name"@) is Some,
    ensures
        pkg_from_fields(f.push(("URL"@, v)), installed, updates) == Some(PkgInfo { url: v, ..pkg_from_fields(f, installed, updates)->Some_0 }),
{
    reveal_strlit("URL");
    reveal_strlit("Name");
    reveal_strlit("Version");
    reveal_strlit("Repository");
    reveal_strlit("Architecture");
    reveal_strlit("Licenses");
    reveal_strlit("Groups");
    reveal_strlit("Provides");
    reveal_strlit("Depends On");
    reveal_strlit("Optional Deps");
    reveal_strlit("Required By");
    reveal_strlit("Optional For");
    reveal_strlit("Conflicts With");
    reveal_strlit("Replaces");
    reveal_strlit("Download Size");
    reveal_strlit("Installed Size");
    reveal_strlit("Packager");
    reveal_strlit("Build Date");
    reveal_strlit("Description");
    assert("URL"@.len() != "Name"@.len());
    lemma_lookup_push(f, "URL"@, v, "Name"@);
    assert("URL"@.len() != "Version"@.len());
    lemma_lookup_push(f, "URL"@, v, "Version"@);
    assert("URL"@.len() != "Repository"@.len());
    lemma_lookup_push(f, "URL"@, v, "Repository"@);
    assert("URL"@.len() != "Architecture"@.len());
    lemma_lookup_push(f, "URL"@, v, "Architecture"@);
    assert("URL"@.len() != "Licenses"@.len());
    lemma_lookup_push(f, "URL"@, v, "Licenses"@);
    assert("URL"@.len() != "Groups"@.len());
    lemma_lookup_push(f, "URL"@, v, "Groups"@);
    assert("URL"@.len() != "Provides"@.len());
    lemma_lookup_push(f, "URL"@, v, "Provides"@);
    assert("URL"@.len() != "Depends On"@.len());
    lemma_lookup_push(f, "URL"@, v, "Depends On"@);
    assert("URL"@.len() != "Optional Deps"@.len());
    lemma_lookup_push(f, "URL"@, v, "Optional Deps"@);
    assert("URL"@.len() != "Required By"@.len());
    lemma_lookup_push(f, "URL"@, v, "Required By"@);
    assert("URL"@.len() != "Optional For"@.len());
    lemma_lookup_push(f, "URL"@, v, "Optional For"@);
    assert("URL"@.len() != "Conflicts With"@.len());
    lemma_lookup_push(f, "URL"@, v, "Conflicts With"@);
    assert("URL"@.len() != "Replaces"@.len());
    lemma_lookup_push(f, "URL"@, v, "Replaces"@);
    assert("URL"@.len() != "Download Size"@.len());
    lemma_lookup_push(f, "URL"@, v, "Download Size"@);
    assert("URL"@.len() != "Installed Size"@.len());
    lemma_lookup_push(f, "URL"@, v, "Installed Size"@);
    assert("URL"@.len() != "Packager"@.len());
    lemma_lookup_push(f, "URL"@, v, "Packager"@);
    assert("URL"@.len() != "Build Date"@.len());
    lemma_lookup_push(f, "URL"@, v, "Build Date"@);
    assert("URL"@.len() != "Description"@.len());
    lemma_lookup_push(f, "URL"@, v, "Description"@);
    lemma_lookup_push(f, "URL"@, v, "URL"@);
}

#[verifier::spinoff_prover]
#[verifier::rlimit(60)]
proof fn lemma_record_sets_licenses(
    f: Seq<(Seq<char>, Seq<char>)>,
    installed: Seq<Seq<char>>,
    updates: Seq<Seq<char>>,
    v: Seq<char>,
)
    requires
        field_lookup(f, "Name"@) is Some,
    ensures
        pkg_from_fields(f.push(("Licenses"@, v)), installed, updates) == Some(PkgInfo { licenses: v, ..pkg_from_fields(f, installed, updates)->Some_0 }),
{
    reveal_strlit("Licenses");
    reveal_strlit("Name");
    reveal_strlit("Version");
    reveal_strlit("Repository");
    reveal_strlit("Architecture");
    reveal_strlit("URL");
    reveal_strlit("Groups");
    reveal_strlit("Provides");
    reveal_strlit("Depends On");
    reveal_strlit("Optional Deps");
    reveal_strlit("Required By");
    reveal_strlit("Optional For");
    reveal_strlit("Conflicts With");
    reveal_strlit("Replaces");
    reveal_strlit("Download Size");
    reveal_strlit("Installed Size");
    reveal_strlit("Packager");
    reveal_strlit("Build Date");
    reveal_strlit("Description");
    assert("Licenses"@.len() != "Name"@.len());
    lemma_lookup_push(f, "Licenses"@, v, "Name"@);
    assert("Licenses"@.len() != "Version"@.len());
    lemma_lookup_push(f, "Licenses"@, v, "Version"@);
    assert("Licenses"@.len() != "Repository"@.len());
    lemma_lookup_push(f, "Licenses"@, v, "Repository"@);
    assert("Licenses"@.len() != "Architecture"@.len());
    lemma_lookup_push(f, "Licenses"@, v, "Architecture"@);
    assert("Licenses"@.len() != "URL"@.len());
    lemma_lookup_push(f, "Licenses"@, v, "URL"@);
    assert("Licenses"@.len() != "Groups"@.len());
    lemma_lookup_push(f, "Licenses"@, v, "Groups"@);
    assert("Licenses"@[0] != "Provides"@[0]);
    lemma_lookup_push(f, "Licenses"@, v, "Provides"@);
    assert("Licenses"@.len() != "Depends On"@.len());
    lemma_lookup_push(f, "Licenses"@, v, "Depends On"@);
    assert("Licenses"@.len() != "Optional Deps"@.len());
    lemma_lookup_push(f, "Licenses"@, v, "Optional Deps"@);
    assert("Licenses"@.len() != "Required By"@.len());
    lemma_lookup_push(f, "Licenses"@, v, "Required By"@);
    assert("Licenses"@.len() != "Optional For"@.len());
    lemma_lookup_push(f, "Licenses"@, v, "Optional For"@);
    assert("Licenses"@.len() != "Conflicts With"@.len());
    lemma_lookup_push(f, "Licenses"@, v, "Conflicts With"@);
    assert("Licenses"@[0] != "Replaces"@[0]);
    lemma_lookup_push(f, "Licenses"@, v, "Replaces"@);
    assert("Licenses"@.len() != "Download Size"@.len());
    lemma_lookup_push(f, "Licenses"@, v, "Download Size"@);
    assert("Licenses"@.len() != "Installed Size"@.len());
    lemma_lookup_push(f, "Licenses"@, v, "Installed Size"@);
    assert("Licenses"@[0] != "Packager"@[0]);
    lemma_lookup_push(f, "Licenses"@, v, "Packager"@);
    assert("Licenses"@.len() != "Build Date"@.len());
    lemma_lookup_push(f, "Licenses"@, v, "Build Date"@);
    assert("Licenses"@.len() != "Description"@.len());
    lemma_lookup_push(f, "Licenses"@, v, "Description"@);
    lemma_lookup_push(f, "Licenses"@, v, "Licenses"@);
}

#[verifier::spinoff_prover]
#[verifier::rlimit(60)]
proof fn lemma_record_sets_groups(
    f: Seq<(Seq<char>, Seq<char>)>,
    installed: Seq<Seq<char>>,
    updates: Seq<Seq<char>>,
    v: Seq<char>,
)
    requires
        field_lookup(f, "Name"@) is Some,
    ensures
        pkg_from_fields(f.push(("Groups"@, v)), installed, updates) == Some(PkgInfo { groups: v, ..pkg_from_fields(f, installed, updates)->Some_0 }),
{
    reveal_strlit("Groups");
    reveal_strlit("Name");
    reveal_strlit("Version");
    reveal_strlit("Repository");
    reveal_strlit("Architecture");
    reveal_strlit("URL");
    reveal_strlit("Licenses");
    reveal_strlit("Provides");
    reveal_strlit("Depends On");
    reveal_strlit("Optional Deps");
    reveal_strlit("Required By");
    reveal_strlit("Optional For");
    reveal_strlit("Conflicts With");
    reveal_strlit("Replaces");
    reveal_strlit("Download Size");
    reveal_strlit("Installed Size");
    reveal_strlit("Packager");
    reveal_strlit("Build Date");
    reveal_strlit("Description");
    assert("Groups"@.len() != "Name"@.len());
    lemma_lookup_push(f, "Groups"@, v, "Name"@);
    assert("Groups"@.len() != "Version"@.len());
    lemma_lookup_push(f, "Groups"@, v, "Version"@);
    assert("Groups"@.len() != "Repository"@.len());
    lemma_lookup_push(f, "Groups"@, v, "Repository"@);
    assert("Groups"@.len() != "Architecture"@.len());
    lemma_lookup_push(f, "Groups"@, v, "Architecture"@);
    assert("Groups"@.len() != "URL"@.len());
    lemma_lookup_push(f, "Groups"@, v, "URL"@);
    assert("Groups"@.len() != "Licenses"@.len());
    lemma_lookup_push(f, "Groups"@, v, "Licenses"@);
    assert("Groups"@.len() != "Provides"@.len());
    lemma_lookup_push(f, "Groups"@, v, "Provides"@);
    assert("Groups"@.len() != "Depends On"@.len());
    lemma_lookup_push(f, "Groups"@, v, "Depends On"@);
    assert("Groups"@.len() != "Optional Deps"@.len());
    lemma_lookup_push(f, "Groups"@, v, "Optional Deps"@);
    assert("Groups"@.len() != "Required By"@.len());
    lemma_lookup_push(f, "Groups"@, v, "Required By"@);
    assert("Groups"@.len() != "Optional For"@.len());
    lemma_lookup_push(f, "Groups"@, v, "Optional For"@);
    assert("Groups"@.len() != "Conflicts With"@.len());
    lemma_lookup_push(f, "Groups"@, v, "Conflicts With"@);
    assert("Groups"@.len() != "Replaces"@.len());
    lemma_lookup_push(f, "Groups"@, v, "Replaces"@);
    assert("Groups"@.len() != "Download Size"@.len());
    lemma_lookup_push(f, "Groups"@, v, "Download Size"@);
    assert("Groups"@.len() != "Installed Size"@.len());
    lemma_lookup_push(f, "Groups"@, v, "Installed Size"@);
    assert("Groups"@.len() != "Packager"@.len());
    lemma_lookup_push(f, "Groups"@, v, "Packager"@);
    assert("Groups"@.len() != "Build Date"@.len());
    lemma_lookup_push(f, "Groups"@, v, "Build Date"@);
    assert("Groups"@.len() != "Description"@.len());
    lemma_lookup_push(f, "Groups"@, v, "Description"@);
    lemma_lookup_push(f, "Groups"@, v, "Groups"@);
}

#[verifier::spinoff_prover]
#[verifier::rlimit(60)]
proof fn lemma_record_sets_provides(
    f: Seq<(Seq<char>, Seq<char>)>,
    installed: Seq<Seq<char>>,
    updates: Seq<Seq<char>>,
    v: Seq<char>,
)
    requires
        field_lookup(f, "Name"@) is Some,
    ensures
        pkg_from_fields(f.push(("Provides"@, v)), installed, updates) == Some(PkgInfo { provides: v, ..pkg_from_fields(f, installed, updates)->Some_0 }),
{
    reveal_strlit("Provides");
    reveal_strlit("Name");
    reveal_strlit("Version");
    reveal_strlit("Repository");
    reveal_strlit("Architecture");
    reveal_strlit("URL");
    reveal_strlit("Licenses");
    reveal_strlit("Groups");
    reveal_strlit("Depends On");
    reveal_strlit("Optional Deps");
    reveal_strlit("Required By");
    reveal_strlit("Optional For");
    reveal_strlit("Conflicts With");
    reveal_strlit("Replaces");
    reveal_strlit("Download Size");
    reveal_strlit("Installed Size");
    reveal_strlit("Packager");
    reveal_strlit("Build Date");
    reveal_strlit("Description");
    assert("Provides"@.len() != "Name"@.len());
    lemma_lookup_push(f, "Provides"@, v, "Name"@);
    assert("Provides"@.len() != "Version"@.len());
    lemma_lookup_push(f, "Provides"@, v, "Version"@);
    assert("Provides"@.len() != "Repository"@.len());
    lemma_lookup_push(f, "Provides"@, v, "Repository"@);
    assert("Provides"@.len() != "Architecture"@.len());
    lemma_lookup_push(f, "Provides"@, v, "Architecture"@);
    assert("Provides"@.len() != "URL"@.len());
    lemma_lookup_push(f, "Provides"@, v, "URL"@);
    assert("Provides"@[0] != "Licenses"@[0]);
    lemma_lookup_push(f, "Provides"@, v, "Licenses"@);
    assert("Provides"@.len() != "Groups"@.len());
    lemma_lookup_push(f, "Provides"@, v, "Groups"@);
    assert("Provides"@.len() != "Depends On"@.len());
    lemma_lookup_push(f, "Provides"@, v, "Depends On"@);
    assert("Provides"@.len() != "Optional Deps"@.len());
    lemma_lookup_push(f, "Provides"@, v, "Optional Deps"@);
    assert("Provides"@.len() != "Required By"@.len());
    lemma_lookup_push(f, "Provides"@, v, "Required By"@);
    assert("Provides"@.len() != "Optional For"@.len());
    lemma_lookup_push(f, "Provides"@, v, "Optional For"@);
    assert("Provides"@.len() != "Conflicts With"@.len());
    lemma_lookup_push(f, "Provides"@, v, "Conflicts With"@);
    assert("Provides"@[0] != "Replaces"@[0]);
    lemma_lookup_push(f, "Provides"@, v, "Replaces"@);
    assert("Provides"@.len() != "Download Size"@.len());
    lemma_lookup_push(f, "Provides"@, v, "Download Size"@);
    assert("Provides"@.len() != "Installed Size"@.len());
    lemma_lookup_push(f, "Provides"@, v, "Installed Size"@);
    assert("Provides"@[1] != "Packager"@[1]);
    lemma_lookup_push(f, "Provides"@, v, "Packager"@);
    assert("Provides"@.len() != "Build Date"@.len());
    lemma_lookup_push(f, "Provides"@, v, "Build Date"@);
    assert("Provides"@.len() != "Description"@.len());
    lemma_lookup_push(f, "Provides"@, v, "Description"@);
    lemma_lookup_push(f, "Provides"@, v, "Provides"@);
}

#[verifier::spinoff_prover]
#[verifier::rlimit(60)]
proof fn lemma_record_sets_depends(
    f: Seq<(Seq<char>, Seq<char>)>,
    installed: Seq<Seq<char>>,
    updates: Seq<Seq<char>>,
    v: Seq<char>,
)
    requires
        field_lookup(f, "Name"@) is Some,
    ensures
        pkg_from_fields(f.push(("Depends On"@, v)), installed, updates) == Some(PkgInfo { depends: v, ..pkg_from_fields(f, installed, updates)->Some_0 }),
{
    reveal_strlit("Depends On");
    reveal_strlit("Name");
    reveal_strlit("Version");
    reveal_strlit("Repository");
    reveal_strlit("Architecture");
    reveal_strlit("URL");
    reveal_strlit("Licenses");
    reveal_strlit("Groups");
    reveal_strlit("Provides");
    reveal_strlit("Optional Deps");
    reveal_strlit("Required By");
    reveal_strlit("Optional For");
    reveal_strlit("Conflicts With");
    reveal_strlit("Replaces");
    reveal_strlit("Download Size");
    reveal_strlit("Installed Size");
    reveal_strlit("Packager");
    reveal_strlit("Build Date");
    reveal_strlit("Description");
    assert("Depends On"@.len() != "Name"@.len());
    lemma_lookup_push(f, "Depends On"@, v, "Name"@);
    assert("Depends On"@.len() != "Version"@.len());
    lemma_lookup_push(f, "Depends On"@, v, "Version"@);
    assert("Depends On"@[0] != "Repository"@[0]);
    lemma_lookup_push(f, "Depends On"@, v, "Repository"@);
    assert("Depends On"@.len() != "Architecture"@.len());
    lemma_lookup_push(f, "Depends On"@, v, "Architecture"@);
    assert("Depends On"@.len() != "URL"@.len());
    lemma_lookup_push(f, "Depends On"@, v, "URL"@);
    assert("Depends On"@.len() != "Licenses"@.len());
    lemma_lookup_push(f, "Depends On"@, v, "Licenses"@);
    assert("Depends On"@.len() != "Groups"@.len());
    lemma_lookup_push(f, "Depends On"@, v, "Groups"@);
    assert("Depends On"@.len() != "Provides"@.len());
    lemma_lookup_push(f, "Depends On"@, v, "Provides"@);
    assert("Depends On"@.len() != "Optional Deps"@.len());
    lemma_lookup_push(f, "Depends On"@, v, "Optional Deps"@);
    assert("Depends On"@.len() != "Required By"@.len());
    lemma_lookup_push(f, "Depends On"@, v, "Required By"@);
    assert("Depends On"@.len() != "Optional For"@.len());
    lemma_lookup_push(f, "Depends On"@, v, "Optional For"@);
    assert("Depends On"@.len() != "Conflicts With"@.len());
    lemma_lookup_push(f, "Depends On"@, v, "Conflicts With"@);
    assert("Depends On"@.len() != "Replaces"@.len());
    lemma_lookup_push(f, "Depends On"@, v, "Replaces"@);
    assert("Depends On"@.len() != "Download Size"@.len());
    lemma_lookup_push(f, "Depends On"@, v, "Download Size"@);
    assert("Depends On"@.len() != "Installed Size"@.len());
    lemma_lookup_push(f, "Depends On"@, v, "Installed Size"@);
    assert("Depends On"@.len() != "Packager"@.len());
    lemma_lookup_push(f, "Depends On"@, v, "Packager"@);
    assert("Depends On"@[0] != "Build Date"@[0]);
    lemma_lookup_push(f, "Depends On"@, v, "Build Date"@);
    assert("Depends On"@.len() != "Description"@.len());
    lemma_lookup_push(f, "Depends On"@, v, "Description"@);
    lemma_lookup_push(f, "Depends On"@, v, "Depends On"@);
}

#[verifier::spinoff_prover]
#[verifier::rlimit(60)]
proof fn lemma_record_sets_optdeps(
    f: Seq<(Seq<char>, Seq<char>)>,
    installed: Seq<Seq<char>>,
    updates: Seq<Seq<char>>,
    v: Seq<char>,
)
    requires
        field_lookup(f, "Name"@) is Some,
    ensures
        pkg_from_fields(f.push(("Optional Deps"@, v)), installed, updates) == Some(PkgInfo { optdeps: v, ..pkg_from_fields(f, installed, updates)->Some_0 }),
{
    reveal_strlit("Optional Deps");
    reveal_strlit("Name");
    reveal_strlit("Version");
    reveal_strlit("Repository");
    reveal_strlit("Architecture");
    reveal_strlit("URL");
    reveal_strlit("Licenses");
    reveal_strlit("Groups");
    reveal_strlit("Provides");
    reveal_strlit("Depends On");
    reveal_strlit("Required By");
    reveal_strlit("Optional For");
    reveal_strlit("Conflicts With");
    reveal_strlit("Replaces");
    reveal_strlit("Download Size");
    reveal_strlit("Installed Size");
    reveal_strlit("Packager");
    reveal_strlit("Build Date");
    reveal_strlit("Description");
    assert("Optional Deps"@.len() != "Name"@.len());
    lemma_lookup_push(f, "Optional Deps"@, v, "Name"@);
    assert("Optional Deps"@.len() != "Version"@.len());
    lemma_lookup_push(f, "Optional Deps"@, v, "Version"@);
    assert("Optional Deps"@.len() != "Repository"@.len());
    lemma_lookup_push(f, "Optional Deps"@, v, "Repository"@);
    assert("Optional Deps"@.len() != "Architecture"@.len());
    lemma_lookup_push(f, "Optional Deps"@, v, "Architecture"@);
    assert("Optional Deps"@.len() != "URL"@.len());
    lemma_lookup_push(f, "Optional Deps"@, v, "URL"@);
    assert("Optional Deps"@.len() != "Licenses"@.len());
    lemma_lookup_push(f, "Optional Deps"@, v, "Licenses"@);
    assert("Optional Deps"@.len() != "Groups"@.len());
    lemma_lookup_push(f, "Optional Deps"@, v, "Groups"@);
    assert("Optional Deps"@.len() != "Provides"@.len());
    lemma_lookup_push(f, "Optional Deps"@, v, "Provides"@);
    assert("Optional Deps"@.len() != "Depends On"@.len());
    lemma_lookup_push(f, "Optional Deps"@, v, "Depends On"@);
    assert("Optional Deps"@.len() != "Required By"@.len());
    lemma_lookup_push(f, "Optional Deps"@, v, "Required By"@);
    assert("Optional Deps"@.len() != "Optional For"@.len());
    lemma_lookup_push(f, "Optional Deps"@, v, "Optional For"@);
    assert("Optional Deps"@.len() != "Conflicts With"@.len());
    lemma_lookup_push(f, "Optional Deps"@, v, "Conflicts With"@);
    assert("Optional Deps"@.len() != "Replaces"@.len());
    lemma_lookup_push(f, "Optional Deps"@, v, "Replaces"@);
    assert("Optional Deps"@[0] != "Download Size"@[0]);
    lemma_lookup_push(f, "Optional Deps"@, v, "Download Size"@);
    assert("Optional Deps"@.len() != "Installed Size"@.len());
    lemma_lookup_push(f, "Optional Deps"@, v, "Installed Size"@);
    assert("Optional Deps"@.len() != "Packager"@.len());
    lemma_lookup_push(f, "Optional Deps"@, v, "Packager"@);
    assert("Optional Deps"@.len() != "Build Date"@.len());
    lemma_lookup_push(f, "Optional Deps"@, v, "Build Date"@);
    assert("Optional Deps"@.len() != "Description"@.len());
    lemma_lookup_push(f, "Optional Deps"@, v, "Description"@);
    lemma_lookup_push(f, "Optional Deps"@, v, "Optional Deps"@);
}

#[verifier::spinoff_prover]
#[verifier::rlimit(60)]
proof fn lemma_record_sets_req_by(
    f: Seq<(Seq<char>, Seq<char>)>,
    installed: Seq<Seq<char>>,
    updates: Seq<Seq<char>>,
    v: Seq<char>,
)
    requires
        field_lookup(f, "Name"@) is Some,
    ensures
        pkg_from_fields(f.push(("Required By"@, v)), installed, updates) == Some(PkgInfo { req_by: v, ..pkg_from_fields(f, installed, updates)->Some_0 }),
{
    reveal_strlit("Required By");
    reveal_strlit("Name");
    reveal_strlit("Version");
    reveal_strlit("Repository");
    reveal_strlit("Architecture");
    reveal_strlit("URL");
    reveal_strlit("Licenses");
    reveal_strlit("Groups");
    reveal_strlit("Provides");
    reveal_strlit("Depends On");
    reveal_strlit("Optional Deps");
    reveal_strlit("Optional For");
    reveal_strlit("Conflicts With");
    reveal_strlit("Replaces");
    reveal_strlit("Download Size");
    reveal_strlit("Installed Size");
    reveal_strlit("Packager");
    reveal_strlit("Build Date");
    reveal_strlit("Description");
    assert("Required By"@.len() != "Name"@.len());
    lemma_lookup_push(f, "Required By"@, v, "Name"@);
    assert("Required By"@.len() != "Version"@.len());
    lemma_lookup_push(f, "Required By"@, v, "Version"@);
    assert("Required By"@.len() != "Repository"@.len());
    lemma_lookup_push(f, "Required By"@, v, "Repository"@);
    assert("Required By"@.len() != "Architecture"@.len());
    lemma_lookup_push(f, "Required By"@, v, "Architecture"@);
    assert("Required By"@.len() != "URL"@.len());
    lemma_lookup_push(f, "Required By"@, v, "URL"@);
    assert("Required By"@.len() != "Licenses"@.len());
    lemma_lookup_push(f, "Required By"@, v, "Licenses"@);
    assert("Required By"@.len() != "Groups"@.len());
    lemma_lookup_push(f, "Required By"@, v, "Groups"@);
    assert("Required By"@.len() != "Provides"@.len());
    lemma_lookup_push(f, "Required By"@, v, "Provides"@);
    assert("Required By"@.len() != "Depends On"@.len());
    lemma_lookup_push(f, "Required By"@, v, "Depends On"@);
    assert("Required By"@.len() != "Optional Deps"@.len());
    lemma_lookup_push(f, "Required By"@, v, "Optional Deps"@);
    assert("Required By"@.len() != "Optional For"@.len());
    lemma_lookup_push(f, "Required By"@, v, "Optional For"@);
    assert("Required By"@.len() != "Conflicts With"@.len());
    lemma_lookup_push(f, "Required By"@, v, "Conflicts With"@);
    assert("Required By"@.len() != "Replaces"@.len());
    lemma_lookup_push(f, "Required By"@, v, "Replaces"@);
    assert("Required By"@.len() != "Download Size"@.len());
    lemma_lookup_push(f, "Required By"@, v, "Download Size"@);
    assert("Required By"@.len() != "Installed Size"@.len());
    lemma_lookup_push(f, "Required By"@, v, "Installed Size"@);
    assert("Required By"@.len() != "Packager"@.len());
    lemma_lookup_push(f, "Required By"@, v, "Packager"@);
    assert("Required By"@.len() != "Build Date"@.len());
    lemma_lookup_push(f, "Required By"@, v, "Build Date"@);
    assert("Required By"@[0] != "Description"@[0]);
    lemma_lookup_push(f, "Required By"@, v, "Description"@);
    lemma_lookup_push(f, "Required By"@, v, "Required By"@);
}

#[verifier::spinoff_prover]
#[verifier::rlimit(60)]
proof fn lemma_record_sets_opt_for(
    f: Seq<(Seq<char>, Seq<char>)>,
    installed: Seq<Seq<char>>,
    updates: Seq<Seq<char>>,
    v: Seq<char>,
)
    requires
        field_lookup(f, "Name"@) is Some,
    ensures
        pkg_from_fields(f.push(("Optional For"@, v)), installed, updates) == Some(PkgInfo { opt_for: v, ..pkg_from_fields(f, installed, updates)->Some_0 }),
{
    reveal_strlit("Optional For");
    reveal_strlit("Name");
    reveal_strlit("Version");
    reveal_strlit("Repository");
    reveal_strlit("Architecture");
    reveal_strlit("URL");
    reveal_strlit("Licenses");
    reveal_strlit("Groups");
    reveal_strlit("Provides");
    reveal_strlit("Depends On");
    reveal_strlit("Optional Deps");
    reveal_strlit("Required By");
    reveal_strlit("Conflicts With");
    reveal_strlit("Replaces");
    reveal_strlit("Download Size");
    reveal_strlit("Installed Size");
    reveal_strlit("Packager");
    reveal_strlit("Build Date");
    reveal_strlit("Description");
    assert("Optional For"@.len() != "Name"@.len());
    lemma_lookup_push(f, "Optional For"@, v, "Name"@);
    assert("Optional For"@.len() != "Version"@.len());
    lemma_lookup_push(f, "Optional For"@, v, "Version"@);
    assert("Optional For"@.len() != "Repository"@.len());
    lemma_lookup_push(f, "Optional For"@, v, "Repository"@);
    assert("Optional For"@[0] != "Architecture"@[0]);
    lemma_lookup_push(f, "Optional For"@, v, "Architecture"@);
    assert("Optional For"@.len() != "URL"@.len());
    lemma_lookup_push(f, "Optional For"@, v, "URL"@);
    assert("Optional For"@.len() != "Licenses"@.len());
    lemma_lookup_push(f, "Optional For"@, v, "Licenses"@);
    assert("Optional For"@.len() != "Groups"@.len());
    lemma_lookup_push(f, "Optional For"@, v, "Groups"@);
    assert("Optional For"@.len() != "Provides"@.len());
    lemma_lookup_push(f, "Optional For"@, v, "Provides"@);
    assert("Optional For"@.len() != "Depends On"@.len());
    lemma_lookup_push(f, "Optional For"@, v, "Depends On"@);
    assert("Optional For"@.len() != "Optional Deps"@.len());
    lemma_lookup_push(f, "Optional For"@, v, "Optional Deps"@);
    assert("Optional For"@.len() != "Required By"@.len());
    lemma_lookup_push(f, "Optional For"@, v, "Required By"@);
    assert("Optional For"@.len() != "Conflicts With"@.len());
    lemma_lookup_push(f, "Optional For"@, v, "Conflicts With"@);
    assert("Optional For"@.len() != "Replaces"@.len());
    lemma_lookup_push(f, "Optional For"@, v, "Replaces"@);
    assert("Optional For"@.len() != "Download Size"@.len());
    lemma_lookup_push(f, "Optional For"@, v, "Download Size"@);
    assert("Optional For"@.len() != "Installed Size"@.len());
    lemma_lookup_push(f, "Optional For"@, v, "Installed Size"@);
    assert("Optional For"@.len() != "Packager"@.len());
    lemma_lookup_push(f, "Optional For"@, v, "Packager"@);
    assert("Optional For"@.len() != "Build Date"@.len());
    lemma_lookup_push(f, "Optional For"@, v, "Build Date"@);
    assert("Optional For"@.len() != "Description"@.len());
    lemma_lookup_push(f, "Optional For"@, v, "Description"@);
    lemma_lookup_push(f, "Optional For"@, v, "Optional For"@);
}

#[verifier::spinoff_prover]
#[verifier::rlimit(60)]
proof fn lemma_record_sets_conflicts(
    f: Seq<(Seq<char>, Seq<char>)>,
    installed: Seq<Seq<char>>,
    updates: Seq<Seq<char>>,
    v: Seq<char>,
)
    requires
        field_lookup(f, "Name"@) is Some,
    ensures
        pkg_from_fields(f.push(("Conflicts With"@, v)), installed, updates) == Some(PkgInfo { conflicts: v, ..pkg_from_fields(f, installed, updates)->Some_0 }),
{
    reveal_strlit("Conflicts With");
    reveal_strlit("Name");
    reveal_strlit("Version");
    reveal_strlit("Repository");
    reveal_strlit("Architecture");
    reveal_strlit("URL");
    reveal_strlit("Licenses");
    reveal_strlit("Groups");
    reveal_strlit("Provides");
    reveal_strlit("Depends On");
    reveal_strlit("Optional Deps");
    reveal_strlit("Required By");
    reveal_strlit("Optional For");
    reveal_strlit("Replaces");
    reveal_strlit("Download Size");
    reveal_strlit("Installed Size");
    reveal_strlit("Packager");
    reveal_strlit("Build Date");
    reveal_strlit("Description");
    assert("Conflicts With"@.len() != "Name"@.len());
    lemma_lookup_push(f, "Conflicts With"@, v, "Name"@);
    assert("Conflicts With"@.len() != "Version"@.len());
    lemma_lookup_push(f, "Conflicts With"@, v, "Version"@);
    assert("Conflicts With"@.len() != "Repository"@.len());
    lemma_lookup_push(f, "Conflicts With"@, v, "Repository"@);
    assert("Conflicts With"@.len() != "Architecture"@.len());
    lemma_lookup_push(f, "Conflicts With"@, v, "Architecture"@);
    assert("Conflicts With"@.len() != "URL"@.len());
    lemma_lookup_push(f, "Conflicts With"@, v, "URL"@);
    assert("Conflicts With"@.len() != "Licenses"@.len());
    lemma_lookup_push(f, "Conflicts With"@, v, "Licenses"@);
    assert("Conflicts With"@.len() != "Groups"@.len());
    lemma_lookup_push(f, "Conflicts With"@, v, "Groups"@);
    assert("Conflicts With"@.len() != "Provides"@.len());
    lemma_lookup_push(f, "Conflicts With"@, v, "Provides"@);
    assert("Conflicts With"@.len() != "Depends On"@.len());
    lemma_lookup_push(f, "Conflicts With"@, v, "Depends On"@);
    assert("Conflicts With"@.len() != "Optional Deps"@.len());
    lemma_lookup_push(f, "Conflicts With"@, v, "Optional Deps"@);
    assert("Conflicts With"@.len() != "Required By"@.len());
    lemma_lookup_push(f, "Conflicts With"@, v, "Required By"@);
    assert("Conflicts With"@.len() != "Optional For"@.len());
    lemma_lookup_push(f, "Conflicts With"@, v, "Optional For"@);
    assert("Conflicts With"@.len() != "Replaces"@.len());
    lemma_lookup_push(f, "Conflicts With"@, v, "Replaces"@);
    assert("Conflicts With"@.len() != "Download Size"@.len());
    lemma_lookup_push(f, "Conflicts With"@, v, "Download Size"@);
    assert("Conflicts With"@[0] != "Installed Size"@[0]);
    lemma_lookup_push(f, "Conflicts With"@, v, "Installed Size"@);
    assert("Conflicts With"@.len() != "Packager"@.len());
    lemma_lookup_push(f, "Conflicts With"@, v, "Packager"@);
    assert("Conflicts With"@.len() != "Build Date"@.len());
    lemma_lookup_push(f, "Conflicts With"@, v, "Build Date"@);
    assert("Conflicts With"@.len() != "Description"@.len());
    lemma_lookup_push(f, "Conflicts With"@, v, "Description"@);
    lemma_lookup_push(f, "Conflicts With"@, v, "Conflicts With"@);
}

#[verifier::spinoff_prover]
#[verifier::rlimit(60)]
proof fn lemma_record_sets_replaces(
    f: Seq<(Seq<char>, Seq<char>)>,
    installed: Seq<Seq<char>>,
    updates: Seq<Seq<char>>,
    v: Seq<char>,
)
    requires
        field_lookup(f, "Name"@) is Some,
    ensures
        pkg_from_fields(f.push(("Replaces"@, v)), installed, updates) == Some(PkgInfo { replaces: v, ..pkg_from_fields(f, installed, updates)->Some_0 }),
{
    reveal_strlit("Replaces");
    reveal_strlit("Name");
    reveal_strlit("Version");
    reveal_strlit("Repository");
    reveal_strlit("Architecture");
    reveal_strlit("URL");
    reveal_strlit("Licenses");
    reveal_strlit("Groups");
    reveal_strlit("Provides");
    reveal_strlit("Depends On");
    reveal_strlit("Optional Deps");
    reveal_strlit("Required By");
    reveal_strlit("Optional For");
    reveal_strlit("Conflicts With");
    reveal_strlit("Download Size");
    reveal_strlit("Installed Size");
    reveal_strlit("Packager");
    reveal_strlit("Build Date");
    reveal_strlit("Description");
    assert("Replaces"@.len() != "Name"@.len());
    lemma_lookup_push(f, "Replaces"@, v, "Name"@);
    assert("Replaces"@.len() != "Version"@.len());
    lemma_lookup_push(f, "Replaces"@, v, "Version"@);
    assert("Replaces"@.len() != "Repository"@.len());
    lemma_lookup_push(f, "Replaces"@, v, "Repository"@);
    assert("Replaces"@.len() != "Architecture"@.len());
    lemma_lookup_push(f, "Replaces"@, v, "Architecture"@);
    assert("Replaces"@.len() != "URL"@.len());
    lemma_lookup_push(f, "Replaces"@, v, "URL"@);
    assert("Replaces"@[0] != "Licenses"@[0]);
    lemma_lookup_push(f, "Replaces"@, v, "Licenses"@);
    assert("Replaces"@.len() != "Groups"@.len());
    lemma_lookup_push(f, "Replaces"@, v, "Groups"@);
    assert("Replaces"@[0] != "Provides"@[0]);
    lemma_lookup_push(f, "Replaces"@, v, "Provides"@);
    assert("Replaces"@.len() != "Depends On"@.len());
    lemma_lookup_push(f, "Replaces"@, v, "Depends On"@);
    assert("Replaces"@.len() != "Optional Deps"@.len());
    lemma_lookup_push(f, "Replaces"@, v, "Optional Deps"@);
    assert("Replaces"@.len() != "Required By"@.len());
    lemma_lookup_push(f, "Replaces"@, v, "Required By"@);
    assert("Replaces"@.len() != "Optional For"@.len());
    lemma_lookup_push(f, "Replaces"@, v, "Optional For"@);
    assert("Replaces"@.len() != "Conflicts With"@.len());
    lemma_lookup_push(f, "Replaces"@, v, "Conflicts With"@);
    assert("Replaces"@.len() != "Download Size"@.len());
    lemma_lookup_push(f, "Replaces"@, v, "Download Size"@);
    assert("Replaces"@.len() != "Installed Size"@.len());
    lemma_lookup_push(f, "Replaces"@, v, "Installed Size"@);
    assert("Replaces"@[0] != "Packager"@[0]);
    lemma_lookup_push(f, "Replaces"@, v, "Packager"@);
    assert("Replaces"@.len() != "Build Date"@.len());
    lemma_lookup_push(f, "Replaces"@, v, "Build Date"@);
    assert("Replaces"@.len() != "Description"@.len());
    lemma_lookup_push(f, "Replaces"@, v, "Description"@);
    lemma_lookup_push(f, "Replaces"@, v, "Replaces"@);
}

#[verifier::spinoff_prover]
#[verifier::rlimit(60)]
proof fn lemma_record_sets_dl_size(
    f: Seq<(Seq<char>, Seq<char>)>,
    installed: Seq<Seq<char>>,
    updates: Seq<Seq<char>>,
    v: Seq<char>,
)
    requires
        field_lookup(f, "Name"@) is Some,
    ensures
        pkg_from_fields(f.push(("Download Size"@, v)), installed, updates) == Some(PkgInfo { dl_size: v, ..pkg_from_fields(f, installed, updates)->Some_0 }),
{
    reveal_strlit("Download Size");
    reveal_strlit("Name");
    reveal_strlit("Version");
    reveal_strlit("Repository");
    reveal_strlit("Architecture");
    reveal_strlit("URL");
    reveal_strlit("Licenses");
    reveal_strlit("Groups");
    reveal_strlit("Provides");
    reveal_strlit("Depends On");
    reveal_strlit("Optional Deps");
    reveal_strlit("Required By");
    reveal_strlit("Optional For");
    reveal_strlit("Conflicts With");
    reveal_strlit("Replaces");
    reveal_strlit("Installed Size");
    reveal_strlit("Packager");
    reveal_strlit("Build Date");
    reveal_strlit("Description");
    assert("Download Size"@.len() != "Name"@.len());
    lemma_lookup_push(f, "Download Size"@, v, "Name"@);
    assert("Download Size"@.len() != "Version"@.len());
    lemma_lookup_push(f, "Download Size"@, v, "Version"@);
    assert("Download Size"@.len() != "Repository"@.len());
    lemma_lookup_push(f, "Download Size"@, v, "Repository"@);
    assert("Download Size"@.len() != "Architecture"@.len());
    lemma_lookup_push(f, "Download Size"@, v, "Architecture"@);
    assert("Download Size"@.len() != "URL"@.len());
    lemma_lookup_push(f, "Download Size"@, v, "URL"@);
    assert("Download Size"@.len() != "Licenses"@.len());
    lemma_lookup_push(f, "Download Size"@, v, "Licenses"@);
    assert("Download Size"@.len() != "Groups"@.len());
    lemma_lookup_push(f, "Download Size"@, v, "Groups"@);
    assert("Download Size"@.len() != "Provides"@.len());
    lemma_lookup_push(f, "Download Size"@, v, "Provides"@);
    assert("Download Size"@.len() != "Depends On"@.len());
    lemma_lookup_push(f, "Download Size"@, v, "Depends On"@);
    assert("Download Size"@[0] != "Optional Deps"@[0]);
    lemma_lookup_push(f, "Download Size"@, v, "Optional Deps"@);
    assert("Download Size"@.len() != "Required By"@.len());
    lemma_lookup_push(f, "Download Size"@, v, "Required By"@);
    assert("Download Size"@.len() != "Optional For"@.len());
    lemma_lookup_push(f, "Download Size"@, v, "Optional For"@);
    assert("Download Size"@.len() != "Conflicts With"@.len());
    lemma_lookup_push(f, "Download Size"@, v, "Conflicts With"@);
    assert("Download Size"@.len() != "Replaces"@.len());
    lemma_lookup_push(f, "Download Size"@, v, "Replaces"@);
    assert("Download Size"@.len() != "Installed Size"@.len());
    lemma_lookup_push(f, "Download Size"@, v, "Installed Size"@);
    assert("Download Size"@.len() != "Packager"@.len());
    lemma_lookup_push(f, "Download Size"@, v, "Packager"@);
    assert("Download Size"@.len() != "Build Date"@.len());
    lemma_lookup_push(f, "Download Size"@, v, "Build Date"@);
    assert("Download Size"@.len() != "Description"@.len());
    lemma_lookup_push(f, "Download Size"@, v, "Description"@);
    lemma_lookup_push(f, "Download Size"@, v, "Download Size"@);
}

#[verifier::spinoff_prover]
#[verifier::rlimit(60)]
proof fn lemma_record_sets_inst_size(
    f: Seq<(Seq<char>, Seq<char>)>,
    installed: Seq<Seq<char>>,
    updates: Seq<Seq<char>>,
    v: Seq<char>,
)
    requires
        field_lookup(f, "Name"@) is Some,
    ensures
        pkg_from_fields(f.push(("Installed Size"@, v)), installed, updates) == Some(PkgInfo { inst_size: v, ..pkg_from_fields(f, installed, updates)->Some_0 }),
{
    reveal_strlit("Installed Size");
    reveal_strlit("Name");
    reveal_strlit("Version");
    reveal_strlit("Repository");
    reveal_strlit("Architecture");
    reveal_strlit("URL");
    reveal_strlit("Licenses");
    reveal_strlit("Groups");
    reveal_strlit("Provides");
    reveal_strlit("Depends On");
    reveal_strlit("Optional Deps");
    reveal_strlit("Required By");
    reveal_strlit("Optional For");
    reveal_strlit("Conflicts With");
    reveal_strlit("Replaces");
    reveal_strlit("Download Size");
    reveal_strlit("Packager");
    reveal_strlit("Build Date");
    reveal_strlit("Description");
    assert("Installed Size"@.len() != "Name"@.len());
    lemma_lookup_push(f, "Installed Size"@, v, "Name"@);
    assert("Installed Size"@.len() != "Version"@.len());
    lemma_lookup_push(f, "Installed Size"@, v, "Version"@);
    assert("Installed Size"@.len() != "Repository"@.len());
    lemma_lookup_push(f, "Installed Size"@, v, "Repository"@);
    assert("Installed Size"@.len() != "Architecture"@.len());
    lemma_lookup_push(f, "Installed Size"@, v, "Architecture"@);
    assert("Installed Size"@.len() != "URL"@.len());
    lemma_lookup_push(f, "Installed Size"@, v, "URL"@);
    assert("Installed Size"@.len() != "Licenses"@.len());
    lemma_lookup_push(f, "Installed Size"@, v, "Licenses"@);
    assert("Installed Size"@.len() != "Groups"@.len());
    lemma_lookup_push(f, "Installed Size"@, v, "Groups"@);
    assert("Installed Size"@.len() != "Provides"@.len());
    lemma_lookup_push(f, "Installed Size"@, v, "Provides"@);
    assert("Installed Size"@.len() != "Depends On"@.len());
    lemma_lookup_push(f, "Installed Size"@, v, "Depends On"@);
    assert("Installed Size"@.len() != "Optional Deps"@.len());
    lemma_lookup_push(f, "Installed Size"@, v, "Optional Deps"@);
    assert("Installed Size"@.len() != "Required By"@.len());
    lemma_lookup_push(f, "Installed Size"@, v, "Required By"@);
    assert("Installed Size"@.len() != "Optional For"@.len());
    lemma_lookup_push(f, "Installed Size"@, v, "Optional For"@);
    assert("Installed Size"@[0] != "Conflicts With"@[0]);
    lemma_lookup_push(f, "Installed Size"@, v, "Conflicts With"@);
    assert("Installed Size"@.len() != "Replaces"@.len());
    lemma_lookup_push(f, "Installed Size"@, v, "Replaces"@);
    assert("Installed Size"@.len() != "Download Size"@.len());
    lemma_lookup_push(f, "Installed Size"@, v, "Download Size"@);
    assert("Installed Size"@.len() != "Packager"@.len());
    lemma_lookup_push(f, "Installed Size"@, v, "Packager"@);
    assert("Installed Size"@.len() != "Build Date"@.len());
    lemma_lookup_push(f, "Installed Size"@, v, "Build Date"@);
    assert("Installed Size"@.len() != "Description"@.len());
    lemma_lookup_push(f, "Installed Size"@, v, "Description"@);
    lemma_lookup_push(f, "Installed Size"@, v, "Installed Size"@);
}

#[verifier::spinoff_prover]
#[verifier::rlimit(60)]
proof fn lemma_record_sets_packager(
    f: Seq<(Seq<char>, Seq<char>)>,
    installed: Seq<Seq<char>>,
    updates: Seq<Seq<char>>,
    v: Seq<char>,
)
    requires
        field_lookup(f, "Name"@) is Some,
    ensures
        pkg_from_fields(f.push(("Packager"@, v)), installed, updates) == Some(PkgInfo { packager: v, ..pkg_from_fields(f, installed, updates)->Some_0 }),
{
    reveal_strlit("Packager");
    reveal_strlit("Name");
    reveal_strlit("Version");
    reveal_strlit("Repository");
    reveal_strlit("Architecture");
    reveal_strlit("URL");
    reveal_strlit("Licenses");
    reveal_strlit("Groups");
    reveal_strlit("Provides");
    reveal_strlit("Depends On");
    reveal_strlit("Optional Deps");
    reveal_strlit("Required By");
    reveal_strlit("Optional For");
    reveal_strlit("Conflicts With");
    reveal_strlit("Replaces");
    reveal_strlit("Download Size");
    reveal_strlit("Installed Size");
    reveal_strlit("Build Date");
    reveal_strlit("Description");
    assert("Packager"@.len() != "Name"@.len());
    lemma_lookup_push(f, "Packager"@, v, "Name"@);
    assert("Packager"@.len() != "Version"@.len());
    lemma_lookup_push(f, "Packager"@, v, "Version"@);
    assert("Packager"@.len() != "Repository"@.len());
    lemma_lookup_push(f, "Packager"@, v, "Repository"@);
    assert("Packager"@.len() != "Architecture"@.len());
    lemma_lookup_push(f, "Packager"@, v, "Architecture"@);
    assert("Packager"@.len() != "URL"@.len());
    lemma_lookup_push(f, "Packager"@, v, "URL"@);
    assert("Packager"@[0] != "Licenses"@[0]);
    lemma_lookup_push(f, "Packager"@, v, "Licenses"@);
    assert("Packager"@.len() != "Groups"@.len());
    lemma_lookup_push(f, "Packager"@, v, "Groups"@);
    assert("Packager"@[1] != "Provides"@[1]);
    lemma_lookup_push(f, "Packager"@, v, "Provides"@);
    assert("Packager"@.len() != "Depends On"@.len());
    lemma_lookup_push(f, "Packager"@, v, "Depends On"@);
    assert("Packager"@.len() != "Optional Deps"@.len());
    lemma_lookup_push(f, "Packager"@, v, "Optional Deps"@);
    assert("Packager"@.len() != "Required By"@.len());
    lemma_lookup_push(f, "Packager"@, v, "Required By"@);
    assert("Packager"@.len() != "Optional For"@.len());
    lemma_lookup_push(f, "Packager"@, v, "Optional For"@);
    assert("Packager"@.len() != "Conflicts With"@.len());
    lemma_lookup_push(f, "Packager"@, v, "Conflicts With"@);
    assert("Packager"@[0] != "Replaces"@[0]);
    lemma_lookup_push(f, "Packager"@, v, "Replaces"@);
    assert("Packager"@.len() != "Download Size"@.len());
    lemma_lookup_push(f, "Packager"@, v, "Download Size"@);
    assert("Packager"@.len() != "Installed Size"@.len());
    lemma_lookup_push(f, "Packager"@, v, "Installed Size"@);
    assert("Packager"@.len() != "Build Date"@.len());
    lemma_lookup_push(f, "Packager"@, v, "Build Date"@);
    assert("Packager"@.len() != "Description"@.len());
    lemma_lookup_push(f, "Packager"@, v, "Description"@);
    lemma_lookup_push(f, "Packager"@, v, "Packager"@);
}

#[verifier::spinoff_prover]
#[verifier::rlimit(60)]
proof fn lemma_record_sets_build_date(
    f: Seq<(Seq<char>, Seq<char>)>,
    installed: Seq<Seq<char>>,
    updates: Seq<Seq<char>>,
    v: Seq<char>,
)
    requires
        field_lookup(f, "Name"@) is Some,
    ensures
        pkg_from_fields(f.push(("Build Date"@, v)), installed, updates) == Some(PkgInfo { build_date: v, ..pkg_from_fields(f, installed, updates)->Some_0 }),
{
    reveal_strlit("Build Date");
    reveal_strlit("Name");
    reveal_strlit("Version");
    reveal_strlit("Repository");
    reveal_strlit("Architecture");
    reveal_strlit("URL");
    reveal_strlit("Licenses");
    reveal_strlit("Groups");
    reveal_strlit("Provides");
    reveal_strlit("Depends On");
    reveal_strlit("Optional Deps");
    reveal_strlit("Required By");
    reveal_strlit("Optional For");
    reveal_strlit("Conflicts With");
    reveal_strlit("Replaces");
    reveal_strlit("Download Size");
    reveal_strlit("Installed Size");
    reveal_strlit("Packager");
    reveal_strlit("Description");
    assert("Build Date"@.len() != "Name"@.len());
    lemma_lookup_push(f, "Build Date"@, v, "Name"@);
    assert("Build Date"@.len() != "Version"@.len());
    lemma_lookup_push(f, "Build Date"@, v, "Version"@);
    assert("Build Date"@[0] != "Repository"@[0]);
    lemma_lookup_push(f, "Build Date"@, v, "Repository"@);
    assert("Build Date"@.len() != "Architecture"@.len());
    lemma_lookup_push(f, "Build Date"@, v, "Architecture"@);
    assert("Build Date"@.len() != "URL"@.len());
    lemma_lookup_push(f, "Build Date"@, v, "URL"@);
    assert("Build Date"@.len() != "Licenses"@.len());
    lemma_lookup_push(f, "Build Date"@, v, "Licenses"@);
    assert("Build Date"@.len() != "Groups"@.len());
    lemma_lookup_push(f, "Build Date"@, v, "Groups"@);
    assert("Build Date"@.len() != "Provides"@.len());
    lemma_lookup_push(f, "Build Date"@, v, "Provides"@);
    assert("Build Date"@[0] != "Depends On"@[0]);
    lemma_lookup_push(f, "Build Date"@, v, "Depends On"@);
    assert("Build Date"@.len() != "Optional Deps"@.len());
    lemma_lookup_push(f, "Build Date"@, v, "Optional Deps"@);
    assert("Build Date"@.len() != "Required By"@.len());
    lemma_lookup_push(f, "Build Date"@, v, "Required By"@);
    assert("Build Date"@.len() != "Optional For"@.len());
    lemma_lookup_push(f, "Build Date"@, v, "Optional For"@);
    assert("Build Date"@.len() != "Conflicts With"@.len());
    lemma_lookup_push(f, "Build Date"@, v, "Conflicts With"@);
    assert("Build Date"@.len() != "Replaces"@.len());
    lemma_lookup_push(f, "Build Date"@, v, "Replaces"@);
    assert("Build Date"@.len() != "Download Size"@.len());
    lemma_lookup_push(f, "Build Date"@, v, "Download Size"@);
    assert("Build Date"@.len() != "Installed Size"@.len());
    lemma_lookup_push(f, "Build Date"@, v, "Installed Size"@);
    assert("Build Date"@.len() != "Packager"@.len());
    lemma_lookup_push(f, "Build Date"@, v, "Packager"@);
    assert("Build Date"@.len() != "Description"@.len());
    lemma_lookup_push(f, "Build Date"@, v, "Description"@);
    lemma_lookup_push(f, "Build Date"@, v, "Build Date"@);
}

#[verifier::spinoff_prover]
#[verifier::rlimit(60)]
proof fn lemma_record_sets_desc(
    f: Seq<(Seq<char>, Seq<char>)>,
    installed: Seq<Seq<char>>,
    updates: Seq<Seq<char>>,
    v: Seq<char>,
)
    requires
        field_lookup(f, "Name"@) is Some,
    ensures
        pkg_from_fields(f.push(("Description"@, v)), installed, updates) == Some(PkgInfo { desc: v, search_key: lower(pkg_from_fields(f, installed, updates)->Some_0.name + " "@ + v), ..pkg_from_fields(f, installed, updates)->Some_0 }),
{
    reveal_strlit("Description");
    reveal_strlit("Name");
    reveal_strlit("Version");
    reveal_strlit("Repository");
    reveal_strlit("Architecture");
    reveal_strlit("URL");
    reveal_strlit("Licenses");
    reveal_strlit("Groups");
    reveal_strlit("Provides");
    reveal_strlit("Depends On");
    reveal_strlit("Optional Deps");
    reveal_strlit("Required By");
    reveal_strlit("Optional For");
    reveal_strlit("Conflicts With");
    reveal_strlit("Replaces");
    reveal_strlit("Download Size");
    reveal_strlit("Installed Size");
    reveal_strlit("Packager");
    reveal_strlit("Build Date");
    assert("Description"@.len() != "Name"@.len());
    lemma_lookup_push(f, "Description"@, v, "Name"@);
    assert("Description"@.len() != "Version"@.len());
    lemma_lookup_push(f, "Description"@, v, "Version"@);
    assert("Description"@.len() != "Repository"@.len());
    lemma_lookup_push(f, "Description"@, v, "Repository"@);
    assert("Description"@.len() != "Architecture"@.len());
    lemma_lookup_push(f, "Description"@, v, "Architecture"@);
    assert("Description"@.len() != "URL"@.len());
    lemma_lookup_push(f, "Description"@, v, "URL"@);
    assert("Description"@.len() != "Licenses"@.len());
    lemma_lookup_push(f, "Description"@, v, "Licenses"@);
    assert("Description"@.len() != "Groups"@.len());
    lemma_lookup_push(f, "Description"@, v, "Groups"@);
    assert("Description"@.len() != "Provides"@.len());
    lemma_lookup_push(f, "Description"@, v, "Provides"@);
    assert("Description"@.len() != "Depends On"@.len());
    lemma_lookup_push(f, "Description"@, v, "Depends On"@);
    assert("Description"@.len() != "Optional Deps"@.len());
    lemma_lookup_push(f, "Description"@, v, "Optional Deps"@);
    assert("Description"@[0] != "Required By"@[0]);
    lemma_lookup_push(f, "Description"@, v, "Required By"@);
    assert("Description"@.len() != "Optional For"@.len());
    lemma_lookup_push(f, "Description"@, v, "Optional For"@);
    assert("Description"@.len() != "Conflicts With"@.len());
    lemma_lookup_push(f, "Description"@, v, "Conflicts With"@);
    assert("Description"@.len() != "Replaces"@.len());
    lemma_lookup_push(f, "Description"@, v, "Replaces"@);
    assert("Description"@.len() != "Download Size"@.len());
    lemma_lookup_push(f, "Description"@, v, "Download Size"@);
    assert("Description"@.len() != "Installed Size"@.len());
    lemma_lookup_push(f, "Description"@, v, "Installed Size"@);
    assert("Description"@.len() != "Packager"@.len());
    lemma_lookup_push(f, "Description"@, v, "Packager"@);
    assert("Description"@.len() != "Build Date"@.len());
    lemma_lookup_push(f, "Description"@, v, "Build Date"@);
    lemma_lookup_push(f, "Description"@, v, "Description"@);
}

/// How a package is read from its `pacman -Si` record: each field of the
/// package is the value of the record's field of that name, the last one
/// when it occurs more than once. Adding a `Key : v` line to a record with
/// a name sets that one field to `v` (and the search key after a new
/// description) and leaves every other field as it was.
pub proof fn lemma_record_field_names(
    f: Seq<(Seq<char>, Seq<char>)>,
    installed: Seq<Seq<char>>,
    updates: Seq<Seq<char>>,
    v: Seq<char>,
)
    requires
        field_lookup(f, "Name"@) is Some,
    ensures
        ({
            let q = pkg_from_fields(f, installed, updates)->Some_0;
            &&& pkg_from_fields(f.push(("Version"@, v)), installed, updates) == Some(PkgInfo { version: v, ..q })
            &&& pkg_from_fields(f.push(("Repository"@, v)), installed, updates) == Some(PkgInfo { repo: v, ..q })
            &&& pkg_from_fields(f.push(("Architecture"@, v)), installed, updates) == Some(PkgInfo { arch: v, ..q })
            &&& pkg_from_fields(f.push(("URL"@, v)), installed, updates) == Some(PkgInfo { url: v, ..q })
            &&& pkg_from_fields(f.push(("Licenses"@, v)), installed, updates) == Some(PkgInfo { licenses: v, ..q })
            &&& pkg_from_fields(f.push(("Groups"@, v)), installed, updates) == Some(PkgInfo { groups: v, ..q })
            &&& pkg_from_fields(f.push(("Provides"@, v)), installed, updates) == Some(PkgInfo { provides: v, ..q })
            &&& pkg_from_fields(f.push(("Depends On"@, v)), installed, updates) == Some(PkgInfo { depends: v, ..q })
            &&& pkg_from_fields(f.push(("Optional Deps"@, v)), installed, updates) == Some(PkgInfo { optdeps: v, ..q })
            &&& pkg_from_fields(f.push(("Required By"@, v)), installed, updates) == Some(PkgInfo { req_by: v, ..q })
            &&& pkg_from_fields(f.push(("Optional For"@, v)), installed, updates) == Some(PkgInfo { opt_for: v, ..q })
            &&& pkg_from_fields(f.push(("Conflicts With"@, v)), installed, updates) == Some(PkgInfo { conflicts: v, ..q })
            &&& pkg_from_fields(f.push(("Replaces"@, v)), installed, updates) == Some(PkgInfo { replaces: v, ..q })
            &&& pkg_from_fields(f.push(("Download Size"@, v)), installed, updates) == Some(PkgInfo { dl_size: v, ..q })
            &&& pkg_from_fields(f.push(("Installed Size"@, v)), installed, updates) == Some(PkgInfo { inst_size: v, ..q })
            &&& pkg_from_fields(f.push(("Packager"@, v)), installed, updates) == Some(PkgInfo { packager: v, ..q })
            &&& pkg_from_fields(f.push(("Build Date"@, v)), installed, updates) == Some(PkgInfo { build_date: v, ..q })
            &&& pkg_from_fields(f.push(("Description"@, v)), installed, updates) == Some(PkgInfo { desc: v, search_key: lower(q.name + " "@ + v), ..q })
        }),
{
    lemma_record_sets_version(f, installed, updates, v);
    lemma_record_sets_repo(f, installed, updates, v);
    lemma_record_sets_arch(f, installed, updates, v);
    lemma_record_sets_url(f, installed, updates, v);
    lemma_record_sets_licenses(f, installed, updates, v);
    lemma_record_sets_groups(f, installed, updates, v);
    lemma_record_sets_provides(f, installed, updates, v);
    lemma_record_sets_depends(f, installed, updates, v);
    lemma_record_sets_optdeps(f, installed, updates, v);
    lemma_record_sets_req_by(f, installed, updates, v);
    lemma_record_sets_opt_for(f, installed, updates, v);
    lemma_record_sets_conflicts(f, installed, updates, v);
    lemma_record_sets_replaces(f, installed, updates, v);
    lemma_record_sets_dl_size(f, installed, updates, v);
    lemma_record_sets_inst_size(f, installed, updates, v);
    lemma_record_sets_packager(f, installed, updates, v);
    lemma_record_sets_build_date(f, installed, updates, v);
    lemma_record_sets_desc(f, installed, updates, v);
}

/// The value of `key` among the fields, if present.
pub fn lookup_field(fields: &Vec<(String, String)>, key: &str) -> (r: Option<String>)
    ensures
        match r {
            Some(v) => field_lookup(field_views(fields@), key@) == Some(v@),
            None => field_lookup(field_views(fields@), key@) is None,
        },
{
    let ghost fv = field_views(fields@);
    let mut k = fields.len();
    assert(fv.subrange(0, k as int) =~= fv);
    while k > 0
        invariant
            k <= fields@.len(),
            fv == field_views(fields@),
            field_lookup(fv, key@) == field_lookup(fv.subrange(0, k as int), key@),
        decreases k,
    {
        let ghost pre = fv.subrange(0, k as int);
        assert(pre.drop_last() == fv.subrange(0, k - 1));
        assert(pre.last() == (fields@[k - 1].0@, fields@[k - 1].1@));
        if str_eq(fields[k - 1].0.as_str(), key) {
            return Some(fields[k - 1].1.clone());
        }
        k = k - 1;
    }
    None
}

/// The value of `key`, or an empty string.
pub fn field_or_default(fields: &Vec<(String, String)>, key: &str) -> (r: String)
    ensures
        r@ == field_or_empty(field_views(fields@), key@),
{
    match lookup_field(fields, key) {
        Some(v) => v,
        None => String::new(),
    }
}

/// Whether `name` is one of the names.
pub fn contains_name(names: &Vec<String>, name: &str) -> (r: bool)
    ensures
        r == names_contain(string_views(names@), name@),
{
    let ghost nv = string_views(names@);
    let mut k: usize = 0;
    while k < names.len()
        invariant
            nv == string_views(names@),
            k <= names@.len(),
            forall|m: int| 0 <= m < k ==> nv[m] != name@,
        decreases names.len() - k,
    {
        if str_eq(names[k].as_str(), name) {
            assert(nv[k as int] == name@);
            return true;
        }
        k = k + 1;
    }
    false
}

/// Builds a package from `Key : Value` fields as printed by `pacman -Si`,
/// marking it installed or upgradable by name.
pub fn map_pkg(fields: &Vec<(String, String)>, installed: &Vec<String>, updates: &Vec<String>) -> (r:
    Option<Package>)
    ensures
        match r {
            Some(p) => pkg_from_fields(field_views(fields@), string_views(installed@), string_views(updates@))
                == Some(p@),
            None => pkg_from_fields(field_views(fields@), string_views(installed@), string_views(updates@)) is None,
        },
{
    let name = match lookup_field(fields, "Name") {
        Some(n) => n,
        None => return None,
    };
    let desc = field_or_default(fields, "Description");
    let repo = field_or_default(fields, "Repository");
    let mut key_src = name.clone();
    append_str(&mut key_src, " ");
    append_str(&mut key_src, desc.as_str());
    let search_key = lower_str(key_src.as_str());
    let is_inst = contains_name(installed, name.as_str());
    let is_upg = contains_name(updates, name.as_str());
    let p = Package {
        name,
        version: field_or_default(fields, "Version"),
        repo,
        desc,
        arch: field_or_default(fields, "Architecture"),
        url: field_or_default(fields, "URL"),
        licenses: field_or_default(fields, "Licenses"),
        groups: field_or_default(fields, "Groups"),
        provides: field_or_default(fields, "Provides"),
        depends: field_or_default(fields, "Depends On"),
        optdeps: field_or_default(fields, "Optional Deps"),
        req_by: field_or_default(fields, "Required By"),
        opt_for: field_or_default(fields, "Optional For"),
        conflicts: field_or_default(fields, "Conflicts With"),
        replaces: field_or_default(fields, "Replaces"),
        dl_size: field_or_default(fields, "Download Size"),
        inst_size: field_or_default(fields, "Installed Size"),
        packager: field_or_default(fields, "Packager"),
        build_date: field_or_default(fields, "Build Date"),
        installed: is_inst,
        upgradable: is_upg,
        search_key,
    };
    Some(p)
}

} // verus!
