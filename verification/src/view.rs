//! What the detail and context panels show for a package: their lines, in
//! order, with the tone each is drawn in.
use vstd::prelude::*;
use crate::package::{Package, PkgInfo};
use crate::text::{append_str, owned, push_decimal, decimal, str_eq};
use crate::theme::{color_display_name, color_name, theme_count, themes, themes_spec, Theme, ThemeView};

verus! {

/// How a piece of text is colored: by a theme color, or by the color of
/// the package's repository.
#[derive(Clone, Copy, PartialEq, Eq, Debug, Structural)]
pub enum Tone {
    Foreground,
    Accent,
    Border,
    Selected,
    Success,
    Warning,
    Error,
    Repo,
}

/// The kind of a panel line.
#[derive(Clone, Copy, PartialEq, Eq, Debug, Structural)]
pub enum LineKind {
    /// The package name, then its state (`text`) in its tone.
    Title,
    Blank,
    /// A section heading (`text`).
    Header,
    /// The rule under a heading.
    Rule,
    /// A `label  value` field; the value (`text`) wraps under itself.
    Field,
    /// A line of text.
    Text,
}

/// A line of a panel.
pub struct PanelLine {
    pub kind: LineKind,
    pub label: String,
    pub text: String,
    pub tone: Tone,
}

/// The contents of a [`PanelLine`].
pub ghost struct LineView {
    pub kind: LineKind,
    pub label: Seq<char>,
    pub text: Seq<char>,
    pub tone: Tone,
}

impl View for PanelLine {
    type V = LineView;

    open spec fn view(&self) -> LineView {
        LineView { kind: self.kind, label: self.label@, text: self.text@, tone: self.tone }
    }
}

pub open spec fn line_views(v: Seq<PanelLine>) -> Seq<LineView> {
    v.map_values(|l: PanelLine| l@)
}

pub open spec fn lv(kind: LineKind, label: Seq<char>, text: Seq<char>, tone: Tone) -> LineView {
    LineView { kind, label, text, tone }
}

pub open spec fn blank() -> LineView {
    lv(LineKind::Blank, ""@, ""@, Tone::Foreground)
}

pub open spec fn rule() -> LineView {
    lv(LineKind::Rule, ""@, ""@, Tone::Border)
}

pub open spec fn header(t: Seq<char>) -> LineView {
    lv(LineKind::Header, ""@, t, Tone::Accent)
}

pub open spec fn field(label: Seq<char>, value: Seq<char>, tone: Tone) -> LineView {
    lv(LineKind::Field, label, value, tone)
}

pub open spec fn text(t: Seq<char>, tone: Tone) -> LineView {
    lv(LineKind::Text, ""@, t, tone)
}

/// A field value that is shown: not empty and not `None`.
pub open spec fn present(v: Seq<char>) -> bool {
    v.len() > 0 && v != "None"@
}

/// The field when its value is shown, else nothing.
pub open spec fn opt_field(label: Seq<char>, value: Seq<char>, tone: Tone) -> Seq<LineView> {
    if present(value) {
        seq![field(label, value, tone)]
    } else {
        Seq::empty()
    }
}

/// The state shown after a package's name, and its tone.
pub open spec fn state_line(p: PkgInfo) -> (Seq<char>, Tone) {
    if p.upgradable {
        ("  ↑ UPDATE AVAILABLE"@, Tone::Warning)
    } else if p.installed {
        ("  ✔ INSTALLED"@, Tone::Success)
    } else {
        ("  NOT INSTALLED"@, Tone::Border)
    }
}

pub open spec fn identity_section(p: PkgInfo) -> Seq<LineView> {
    seq![
        header("IDENTITY"@),
        rule(),
        field("Repository"@, p.repo, Tone::Repo),
        field("Name"@, p.name, Tone::Foreground),
        field("Version"@, p.version, Tone::Accent),
        field("Architecture"@, p.arch, Tone::Foreground),
    ] + opt_field("Groups"@, p.groups, Tone::Foreground) + seq![blank()]
}

pub open spec fn description_section(p: PkgInfo) -> Seq<LineView> {
    seq![header("DESCRIPTION"@), rule(), text(p.desc, Tone::Foreground), blank()]
}

/// The size section, shown unless both sizes read `None`.
pub open spec fn size_section(p: PkgInfo) -> Seq<LineView> {
    if p.dl_size != "None"@ || p.inst_size != "None"@ {
        seq![header("SIZE"@), rule()] + opt_field("Download Size"@, p.dl_size, Tone::Selected) + opt_field(
            "Installed Size"@,
            p.inst_size,
            Tone::Selected,
        ) + seq![blank()]
    } else {
        Seq::empty()
    }
}

pub open spec fn deps_section(p: PkgInfo) -> Seq<LineView> {
    seq![header("DEPENDENCIES"@), rule()] + opt_field("Depends On"@, p.depends, Tone::Foreground) + opt_field(
        "Optional Deps"@,
        p.optdeps,
        Tone::Border,
    ) + opt_field("Required By"@, p.req_by, Tone::Foreground) + opt_field("Optional For"@, p.opt_for, Tone::Border)
        + seq![blank()]
}

/// The first fields of the last section.
pub open spec fn more_fields_a(p: PkgInfo) -> Seq<LineView> {
    opt_field("Provides"@, p.provides, Tone::Foreground) + opt_field("Conflicts"@, p.conflicts, Tone::Error)
        + opt_field("Replaces"@, p.replaces, Tone::Foreground)
}

/// The other fields of the last section.
pub open spec fn more_fields_b(p: PkgInfo) -> Seq<LineView> {
    opt_field("Licenses"@, p.licenses, Tone::Border) + opt_field("Build Date"@, p.build_date, Tone::Foreground)
        + opt_field("URL"@, p.url, Tone::Accent)
}

/// The last section, shown when any of its fields is.
pub open spec fn more_section(p: PkgInfo) -> Seq<LineView> {
    if present(p.conflicts) || present(p.replaces) || present(p.provides) || present(p.licenses) || present(
        p.url,
    ) || present(p.build_date) {
        seq![header("MORE"@), rule()] + more_fields_a(p) + more_fields_b(p)
    } else {
        Seq::empty()
    }
}

/// The lines of the detail panel for a package: its name and state, then
/// the identity, description, size, dependency and other sections; empty
/// fields and those reading `None` are left out.
pub open spec fn detail_spec(p: PkgInfo) -> Seq<LineView> {
    seq![lv(LineKind::Title, p.name, state_line(p).0, state_line(p).1), blank()] + identity_section(p)
        + description_section(p) + size_section(p) + deps_section(p) + more_section(p)
}

fn push_line(out: &mut Vec<PanelLine>, kind: LineKind, label: &str, text: &str, tone: Tone)
    ensures
        line_views(final(out)@) == line_views(old(out)@).push(lv(kind, label@, text@, tone)),
{
    let ghost before = line_views(out@);
    out.push(PanelLine { kind, label: owned(label), text: owned(text), tone });
    assert(line_views(out@) =~= before.push(lv(kind, label@, text@, tone)));
}

fn push_header(out: &mut Vec<PanelLine>, t: &str)
    ensures
        line_views(final(out)@) == line_views(old(out)@) + seq![header(t@), rule()],
{
    let ghost before = line_views(out@);
    push_line(out, LineKind::Header, "", t, Tone::Accent);
    push_line(out, LineKind::Rule, "", "", Tone::Border);
    assert(line_views(out@) =~= before + seq![header(t@), rule()]);
}

fn push_blank(out: &mut Vec<PanelLine>)
    ensures
        line_views(final(out)@) == line_views(old(out)@).push(blank()),
{
    push_line(out, LineKind::Blank, "", "", Tone::Foreground);
}

fn is_present(v: &str) -> (r: bool)
    ensures
        r == present(v@),
{
    v.unicode_len() > 0 && !str_eq(v, "None")
}

fn push_opt_field(out: &mut Vec<PanelLine>, label: &str, value: &str, tone: Tone)
    ensures
        line_views(final(out)@) == line_views(old(out)@) + opt_field(label@, value@, tone),
{
    let ghost before = line_views(out@);
    if is_present(value) {
        push_line(out, LineKind::Field, label, value, tone);
    }
    assert(line_views(out@) =~= before + opt_field(label@, value@, tone));
}

fn push_field(out: &mut Vec<PanelLine>, label: &str, value: &str, tone: Tone)
    ensures
        line_views(final(out)@) == line_views(old(out)@).push(field(label@, value@, tone)),
{
    push_line(out, LineKind::Field, label, value, tone);
}

fn push_identity(out: &mut Vec<PanelLine>, p: &Package)
    ensures
        line_views(final(out)@) == line_views(old(out)@) + identity_section(p@),
{
    let ghost before = line_views(out@);
    push_header(out, "IDENTITY");
    push_field(out, "Repository", p.repo.as_str(), Tone::Repo);
    push_field(out, "Name", p.name.as_str(), Tone::Foreground);
    push_field(out, "Version", p.version.as_str(), Tone::Accent);
    push_field(out, "Architecture", p.arch.as_str(), Tone::Foreground);
    push_opt_field(out, "Groups", p.groups.as_str(), Tone::Foreground);
    push_blank(out);
    assert(line_views(out@) =~= before + identity_section(p@));
}

fn push_description(out: &mut Vec<PanelLine>, p: &Package)
    ensures
        line_views(final(out)@) == line_views(old(out)@) + description_section(p@),
{
    let ghost before = line_views(out@);
    push_header(out, "DESCRIPTION");
    push_line(out, LineKind::Text, "", p.desc.as_str(), Tone::Foreground);
    push_blank(out);
    assert(line_views(out@) =~= before + description_section(p@));
}

fn push_sizes(out: &mut Vec<PanelLine>, p: &Package)
    ensures
        line_views(final(out)@) == line_views(old(out)@) + size_section(p@),
{
    let ghost before = line_views(out@);
    if !str_eq(p.dl_size.as_str(), "None") || !str_eq(p.inst_size.as_str(), "None") {
        push_header(out, "SIZE");
        push_opt_field(out, "Download Size", p.dl_size.as_str(), Tone::Selected);
        push_opt_field(out, "Installed Size", p.inst_size.as_str(), Tone::Selected);
        push_blank(out);
    }
    assert(line_views(out@) =~= before + size_section(p@));
}

fn push_deps(out: &mut Vec<PanelLine>, p: &Package)
    ensures
        line_views(final(out)@) == line_views(old(out)@) + deps_section(p@),
{
    let ghost before = line_views(out@);
    push_header(out, "DEPENDENCIES");
    push_opt_field(out, "Depends On", p.depends.as_str(), Tone::Foreground);
    push_opt_field(out, "Optional Deps", p.optdeps.as_str(), Tone::Border);
    push_opt_field(out, "Required By", p.req_by.as_str(), Tone::Foreground);
    push_opt_field(out, "Optional For", p.opt_for.as_str(), Tone::Border);
    push_blank(out);
    assert(line_views(out@) =~= before + deps_section(p@));
}

fn push_more_a(out: &mut Vec<PanelLine>, p: &Package)
    ensures
        line_views(final(out)@) == line_views(old(out)@) + more_fields_a(p@),
{
    let ghost before = line_views(out@);
    push_opt_field(out, "Provides", p.provides.as_str(), Tone::Foreground);
    push_opt_field(out, "Conflicts", p.conflicts.as_str(), Tone::Error);
    push_opt_field(out, "Replaces", p.replaces.as_str(), Tone::Foreground);
    assert(line_views(out@) =~= before + more_fields_a(p@));
}

fn push_more_b(out: &mut Vec<PanelLine>, p: &Package)
    ensures
        line_views(final(out)@) == line_views(old(out)@) + more_fields_b(p@),
{
    let ghost before = line_views(out@);
    push_opt_field(out, "Licenses", p.licenses.as_str(), Tone::Border);
    push_opt_field(out, "Build Date", p.build_date.as_str(), Tone::Foreground);
    push_opt_field(out, "URL", p.url.as_str(), Tone::Accent);
    assert(line_views(out@) =~= before + more_fields_b(p@));
}

fn push_more(out: &mut Vec<PanelLine>, p: &Package)
    ensures
        line_views(final(out)@) == line_views(old(out)@) + more_section(p@),
{
    let ghost before = line_views(out@);
    if is_present(p.conflicts.as_str()) || is_present(p.replaces.as_str()) || is_present(p.provides.as_str())
        || is_present(p.licenses.as_str()) || is_present(p.url.as_str()) || is_present(p.build_date.as_str()) {
        push_header(out, "MORE");
        push_more_a(out, p);
        push_more_b(out, p);
    }
    assert(line_views(out@) =~= before + more_section(p@));
}

/// The lines of the detail panel for a package.
pub fn detail_lines(p: &Package) -> (r: Vec<PanelLine>)
    ensures
        line_views(r@) == detail_spec(p@),
{
    let mut out: Vec<PanelLine> = Vec::new();
    let (state, tone) = if p.upgradable {
        ("  ↑ UPDATE AVAILABLE", Tone::Warning)
    } else if p.installed {
        ("  ✔ INSTALLED", Tone::Success)
    } else {
        ("  NOT INSTALLED", Tone::Border)
    };
    push_line(&mut out, LineKind::Title, p.name.as_str(), state, tone);
    push_blank(&mut out);
    let ghost head = line_views(out@);
    assert(head =~= seq![lv(LineKind::Title, p@.name, state_line(p@).0, state_line(p@).1), blank()]);
    push_identity(&mut out, p);
    push_description(&mut out, p);
    push_sizes(&mut out, p);
    push_deps(&mut out, p);
    push_more(&mut out, p);
    assert(line_views(out@) =~= detail_spec(p@));
    out
}

// ---------------------------------------------------------------------------
// Context panel
// ---------------------------------------------------------------------------

pub open spec fn yes_no(b: bool) -> Seq<char> {
    if b {
        "Yes"@
    } else {
        "No"@
    }
}

/// The lines of the context panel for a package, with `selected` packages
/// selected: quick facts, its homepage, its packager, and the selection.
pub open spec fn context_spec(p: PkgInfo, selected: nat) -> Seq<LineView> {
    seq![
        header("QUICK INFO"@),
        rule(),
        field("Repo"@, p.repo, Tone::Foreground),
        field("Version"@, p.version, Tone::Foreground),
        field("Arch"@, p.arch, Tone::Foreground),
        field("Installed"@, yes_no(p.installed), Tone::Foreground),
        field("Upgradable"@, yes_no(p.upgradable), Tone::Foreground),
        blank(),
        header("LINKS"@),
        rule(),
    ] + (if present(p.url) {
        seq![text(p.url, Tone::Accent), text("→ Available via [d] Curl"@, Tone::Success)]
    } else {
        seq![text("No homepage linked"@, Tone::Border)]
    }) + seq![blank(), header("MAINTAINER"@), rule(), text(p.packager, Tone::Foreground), blank(), header("SELECTION"@), rule()]
        + (if selected > 0 {
        seq![
            text(decimal(selected) + " package(s) selected"@, Tone::Selected),
            text("[i] Install  [u] Update  [r] Remove"@, Tone::Border),
        ]
    } else {
        seq![text("None — use [Space] to select"@, Tone::Border)]
    })
}

fn yes_no_str(b: bool) -> (r: &'static str)
    ensures
        r@ == yes_no(b),
{
    if b {
        "Yes"
    } else {
        "No"
    }
}

/// The lines of the context panel for a package.
pub fn context_lines(p: &Package, selected: usize) -> (r: Vec<PanelLine>)
    ensures
        line_views(r@) == context_spec(p@, selected as nat),
{
    let mut out: Vec<PanelLine> = Vec::new();
    push_header(&mut out, "QUICK INFO");
    push_field(&mut out, "Repo", p.repo.as_str(), Tone::Foreground);
    push_field(&mut out, "Version", p.version.as_str(), Tone::Foreground);
    push_field(&mut out, "Arch", p.arch.as_str(), Tone::Foreground);
    push_field(&mut out, "Installed", yes_no_str(p.installed), Tone::Foreground);
    push_field(&mut out, "Upgradable", yes_no_str(p.upgradable), Tone::Foreground);
    push_blank(&mut out);
    push_header(&mut out, "LINKS");
    let ghost part1 = line_views(out@);
    if is_present(p.url.as_str()) {
        push_line(&mut out, LineKind::Text, "", p.url.as_str(), Tone::Accent);
        push_line(&mut out, LineKind::Text, "", "→ Available via [d] Curl", Tone::Success);
    } else {
        push_line(&mut out, LineKind::Text, "", "No homepage linked", Tone::Border);
    }
    let ghost part2 = line_views(out@);
    push_blank(&mut out);
    push_header(&mut out, "MAINTAINER");
    push_line(&mut out, LineKind::Text, "", p.packager.as_str(), Tone::Foreground);
    push_blank(&mut out);
    push_header(&mut out, "SELECTION");
    let ghost part3 = line_views(out@);
    if selected > 0 {
        let mut m = String::new();
        push_decimal(&mut m, selected);
        append_str(&mut m, " package(s) selected");
        push_line(&mut out, LineKind::Text, "", m.as_str(), Tone::Selected);
        push_line(&mut out, LineKind::Text, "", "[i] Install  [u] Update  [r] Remove", Tone::Border);
    } else {
        push_line(&mut out, LineKind::Text, "", "None — use [Space] to select", Tone::Border);
    }
    assert(line_views(out@) =~= context_spec(p@, selected as nat));
    out
}

// ---------------------------------------------------------------------------
// Header, tabs, list rows
// ---------------------------------------------------------------------------

/// The name of a sort mode.
pub open spec fn sort_name_spec(i: usize) -> Seq<char> {
    if i == 0 {
        "Name"@
    } else if i == 1 {
        "Repo"@
    } else if i == 2 {
        "Size"@
    } else if i == 3 {
        "Installed"@
    } else {
        "?"@
    }
}

/// The name of a sort mode.
pub fn sort_name(i: usize) -> (r: &'static str)
    ensures
        r@ == sort_name_spec(i),
{
    if i == 0 {
        "Name"
    } else if i == 1 {
        "Repo"
    } else if i == 2 {
        "Size"
    } else if i == 3 {
        "Installed"
    } else {
        "?"
    }
}

/// The statistics at the right of the header.
pub open spec fn header_stats_spec(total: nat, disk: Seq<char>, sort_idx: usize) -> Seq<char> {
    "Total: "@ + decimal(total) + " │ Disk: "@ + disk + " │ Sort: "@ + sort_name_spec(sort_idx)
}

/// The statistics at the right of the header.
pub fn header_stats(total: usize, disk: &str, sort_idx: usize) -> (r: String)
    ensures
        r@ == header_stats_spec(total as nat, disk@, sort_idx),
{
    let mut r = owned("Total: ");
    push_decimal(&mut r, total);
    append_str(&mut r, " │ Disk: ");
    append_str(&mut r, disk);
    append_str(&mut r, " │ Sort: ");
    append_str(&mut r, sort_name(sort_idx));
    r
}

/// The number of packages with a property.
pub open spec fn count_where(ps: Seq<PkgInfo>, upgradable: bool) -> nat
    decreases ps.len(),
{
    if ps.len() == 0 {
        0
    } else {
        count_where(ps.drop_last(), upgradable) + if (if upgradable {
            ps.last().upgradable
        } else {
            ps.last().installed
        }) {
            1nat
        } else {
            0nat
        }
    }
}

fn count_pkgs(ps: &Vec<Package>, upgradable: bool) -> (n: usize)
    ensures
        n == count_where(crate::package::pkg_views(ps@), upgradable),
{
    let ghost pv = crate::package::pkg_views(ps@);
    let mut n: usize = 0;
    let mut i: usize = 0;
    while i < ps.len()
        invariant
            pv == crate::package::pkg_views(ps@),
            i <= ps@.len(),
            n == count_where(pv.subrange(0, i as int), upgradable),
            n <= i,
        decreases ps.len() - i,
    {
        assert(pv.subrange(0, i + 1).drop_last() =~= pv.subrange(0, i as int));
        assert(pv[i as int] == ps@[i as int]@);
        let hit = if upgradable {
            ps[i].upgradable
        } else {
            ps[i].installed
        };
        if hit {
            n = n + 1;
        }
        i = i + 1;
    }
    assert(pv.subrange(0, pv.len() as int) =~= pv);
    n
}

/// The uppercase name of filter tab `i`.
pub open spec fn tab_name(i: int) -> Seq<char> {
    if i == 0 {
        "ALL"@
    } else if i == 1 {
        "INSTALLED"@
    } else if i == 2 {
        "UPDATES"@
    } else if i == 3 {
        "CORE"@
    } else if i == 4 {
        "EXTRA"@
    } else if i == 5 {
        "MULTILIB"@
    } else {
        "AUR"@
    }
}

/// The label of filter tab `i`: its uppercase name, with the number of
/// installed packages on the installed tab and the number of updates on the
/// updates tab when there are any.
pub open spec fn tab_label_spec(i: int, installed: nat, updates: nat) -> Seq<char> {
    if i == 1 {
        " "@ + tab_name(i) + " ("@ + decimal(installed) + ") "@
    } else if i == 2 && updates > 0 {
        " "@ + tab_name(i) + " ("@ + decimal(updates) + ") "@
    } else {
        " "@ + tab_name(i) + " "@
    }
}

fn tab_name_str(i: usize) -> (r: &'static str)
    requires
        i < crate::app::FILTER_COUNT,
    ensures
        r@ == tab_name(i as int),
{
    if i == 0 {
        "ALL"
    } else if i == 1 {
        "INSTALLED"
    } else if i == 2 {
        "UPDATES"
    } else if i == 3 {
        "CORE"
    } else if i == 4 {
        "EXTRA"
    } else if i == 5 {
        "MULTILIB"
    } else {
        "AUR"
    }
}

/// The labels of the filter tabs.
pub fn tab_labels(pkgs: &Vec<Package>) -> (r: Vec<String>)
    ensures
        r@.len() == crate::app::FILTER_COUNT,
        forall|i: int| 0 <= i < r@.len() ==> #[trigger] r@[i]@ == tab_label_spec(
            i,
            count_where(crate::package::pkg_views(pkgs@), false),
            count_where(crate::package::pkg_views(pkgs@), true),
        ),
{
    let inst = count_pkgs(pkgs, false);
    let upd = count_pkgs(pkgs, true);
    let mut r: Vec<String> = Vec::new();
    let mut i: usize = 0;
    while i < crate::app::FILTER_COUNT
        invariant
            i <= crate::app::FILTER_COUNT,
            r@.len() == i,
            inst == count_where(crate::package::pkg_views(pkgs@), false),
            upd == count_where(crate::package::pkg_views(pkgs@), true),
            forall|j: int| 0 <= j < i ==> #[trigger] r@[j]@ == tab_label_spec(j, inst as nat, upd as nat),
        decreases crate::app::FILTER_COUNT - i,
    {
        let mut l = owned(" ");
        append_str(&mut l, tab_name_str(i));
        if i == 1 || (i == 2 && upd > 0) {
            append_str(&mut l, " (");
            push_decimal(&mut l, if i == 1 {
                inst
            } else {
                upd
            });
            append_str(&mut l, ") ");
        } else {
            append_str(&mut l, " ");
        }
        r.push(l);
        i = i + 1;
    }
    r
}

/// The name and version badge of a row of the package list `width`
/// columns wide: the version in brackets, and the name cut to the room
/// left (six columns go to the icon and the gaps), both after a space.
pub open spec fn list_row_spec(name: Seq<char>, version: Seq<char>, width: int) -> (Seq<char>, Seq<char>) {
    let ver = "["@ + version + "]"@;
    let room = if width - 6 - crate::display::utf8_len(ver) > 0 {
        width - 6 - crate::display::utf8_len(ver)
    } else {
        0
    };
    let shown = if crate::display::utf8_len(name) > room {
        crate::display::truncate_spec(name, room)
    } else {
        name
    };
    (" "@ + shown, " "@ + ver)
}

/// The name and version badge of a row of the package list.
pub fn list_row(name: &str, version: &str, width: usize) -> (r: (String, String))
    requires
        name@.len() <= usize::MAX / 4,
        version@.len() + 2 <= usize::MAX / 4,
        ({
            let ver = "["@ + version@ + "]"@;
            let room = if width - 6 - crate::display::utf8_len(ver) > 0 {
                width - 6 - crate::display::utf8_len(ver)
            } else {
                0
            };
            crate::display::utf8_len(name@) > room ==> crate::display::is_boundary(name@, if room > 2 {
                room - 1
            } else {
                room
            })
        }),
    ensures
        (r.0@, r.1@) == list_row_spec(name@, version@, width as int),
{
    let mut ver = owned("[");
    append_str(&mut ver, version);
    append_str(&mut ver, "]");
    proof {
        reveal_strlit("[");
        reveal_strlit("]");
    }
    assert(ver@.len() == version@.len() + 2);
    let ver_bytes = crate::display::byte_count(ver.as_str());
    let name_bytes = crate::display::byte_count(name);
    let room = width.saturating_sub(6).saturating_sub(ver_bytes);
    let shown = if name_bytes > room {
        crate::display::truncate_str(name, room)
    } else {
        owned(name)
    };
    let mut a = owned(" ");
    append_str(&mut a, shown.as_str());
    let mut b = owned(" ");
    append_str(&mut b, ver.as_str());
    (a, b)
}

/// The position shown under the package list: the cursor's row and the
/// number of rows, or that there are none.
pub open spec fn visible_info_spec(cursor: usize, len: usize) -> Seq<char> {
    if len > 0 {
        " "@ + decimal((cursor + 1) as nat) + "-"@ + decimal(len as nat) + " / "@ + decimal(len as nat) + " "@
    } else {
        " No packages "@
    }
}

/// The position shown under the package list.
pub fn visible_info(cursor: usize, len: usize) -> (r: String)
    requires
        cursor < usize::MAX,
    ensures
        r@ == visible_info_spec(cursor, len),
{
    if len > 0 {
        let mut r = owned(" ");
        push_decimal(&mut r, cursor + 1);
        append_str(&mut r, "-");
        push_decimal(&mut r, len);
        append_str(&mut r, " / ");
        push_decimal(&mut r, len);
        append_str(&mut r, " ");
        r
    } else {
        owned(" No packages ")
    }
}

/// The search prompt: a hint while there is no query and no search is being
/// typed, else the query and a cursor block.
pub open spec fn search_prompt_spec(query: Seq<char>, searching: bool) -> Seq<char> {
    if query.len() == 0 && !searching {
        " / Search…"@
    } else {
        " / "@ + query + "█"@
    }
}

/// The search prompt.
pub fn search_prompt(query: &str, searching: bool) -> (r: String)
    ensures
        r@ == search_prompt_spec(query@, searching),
{
    if query.unicode_len() == 0 && !searching {
        owned(" / Search…")
    } else {
        let mut r = owned(" / ");
        append_str(&mut r, query);
        append_str(&mut r, "█");
        r
    }
}

// ---------------------------------------------------------------------------
// Overlays
// ---------------------------------------------------------------------------

/// The title and footer of the console, by how the command ended.
pub open spec fn console_frame_spec(finished: Option<bool>) -> (Seq<char>, Seq<char>) {
    match finished {
        None => (" Subprocess Output "@, " Running... Please wait "@),
        Some(true) => (" Execution Successful "@, " Finished. Press [Esc] or [Enter] to return "@),
        Some(false) => (" Execution Failed "@, " Failed. Press [Esc] or [Enter] to return "@),
    }
}

/// The title and footer of the console.
pub fn console_frame(finished: Option<bool>) -> (r: (&'static str, &'static str))
    ensures
        (r.0@, r.1@) == console_frame_spec(finished),
{
    match finished {
        None => (" Subprocess Output ", " Running... Please wait "),
        Some(true) => (" Execution Successful ", " Finished. Press [Esc] or [Enter] to return "),
        Some(false) => (" Execution Failed ", " Failed. Press [Esc] or [Enter] to return "),
    }
}

pub open spec fn sat_minus(a: usize, b: usize) -> usize {
    if a >= b {
        (a - b) as usize
    } else {
        0
    }
}

/// The first console line shown in a window `height` lines high: the last
/// page while the command runs, else the scroll position, kept within the
/// last page.
pub open spec fn console_offset_spec(finished: bool, scroll: usize, lines: usize, height: usize) -> usize {
    if !finished {
        sat_minus(lines, height)
    } else if scroll < sat_minus(lines, height) {
        scroll
    } else {
        sat_minus(lines, height)
    }
}

/// The first console line shown.
pub fn console_offset(finished: bool, scroll: usize, lines: usize, height: usize) -> (r: usize)
    ensures
        r == console_offset_spec(finished, scroll, lines, height),
{
    let last = lines.saturating_sub(height);
    if !finished {
        last
    } else if scroll < last {
        scroll
    } else {
        last
    }
}

/// The name of an action in the confirmation.
pub open spec fn action_title(a: crate::package::ConfirmAction) -> Seq<char> {
    match a {
        crate::package::ConfirmAction::Install => "INSTALL"@,
        crate::package::ConfirmAction::Remove => "REMOVE"@,
        crate::package::ConfirmAction::Update => "SYSTEM UPDATE"@,
    }
}

/// The names joined by `, `.
pub open spec fn joined(ns: Seq<Seq<char>>) -> Seq<char>
    decreases ns.len(),
{
    if ns.len() == 0 {
        Seq::empty()
    } else if ns.len() == 1 {
        ns[0]
    } else {
        joined(ns.drop_last()) + ", "@ + ns.last()
    }
}

/// The text of a confirmation: for an update, what it does; otherwise the
/// action and the number of packages, then the first four names (and `…`
/// when there are more).
pub open spec fn confirm_text_spec(a: crate::package::ConfirmAction, ns: Seq<Seq<char>>) -> Seq<Seq<char>> {
    match a {
        crate::package::ConfirmAction::Update => seq![
            "  Perform a full system upgrade (-Syu)?"@,
            "  This will sync databases and upgrade all packages."@,
        ],
        _ => seq![
            "  "@ + (if a == crate::package::ConfirmAction::Install {
                "install"@
            } else {
                "remove"@
            }) + " "@ + decimal(ns.len()) + " package(s)?"@,
            if ns.len() > 4 {
                "  "@ + joined(ns.subrange(0, 4)) + ", …"@
            } else {
                "  "@ + joined(ns)
            },
        ],
    }
}

fn join_names(ns: &Vec<String>, n: usize) -> (r: String)
    requires
        n <= ns@.len(),
    ensures
        r@ == joined(crate::text::string_views(ns@).subrange(0, n as int)),
{
    let ghost sv = crate::text::string_views(ns@);
    let mut r = String::new();
    let mut i: usize = 0;
    while i < n
        invariant
            n <= ns@.len(),
            sv == crate::text::string_views(ns@),
            i <= n,
            r@ == joined(sv.subrange(0, i as int)),
        decreases n - i,
    {
        assert(sv.subrange(0, i + 1).drop_last() =~= sv.subrange(0, i as int));
        assert(sv.subrange(0, i + 1).last() == ns@[i as int]@);
        if i > 0 {
            append_str(&mut r, ", ");
        }
        append_str(&mut r, ns[i].as_str());
        proof {
            if i == 0 {
                assert(sv.subrange(0, 0) =~= Seq::<Seq<char>>::empty());
                assert(r@ =~= ns@[0]@);
            }
        }
        i = i + 1;
    }
    r
}

/// The text of a confirmation.
pub fn confirm_text(a: crate::package::ConfirmAction, ns: &Vec<String>) -> (r: Vec<String>)
    ensures
        crate::text::string_views(r@) == confirm_text_spec(a, crate::text::string_views(ns@)),
{
    let ghost sv = crate::text::string_views(ns@);
    let mut r: Vec<String> = Vec::new();
    match a {
        crate::package::ConfirmAction::Update => {
            r.push(owned("  Perform a full system upgrade (-Syu)?"));
            r.push(owned("  This will sync databases and upgrade all packages."));
        },
        _ => {
            let mut l1 = owned("  ");
            append_str(&mut l1, if a == crate::package::ConfirmAction::Install {
                "install"
            } else {
                "remove"
            });
            append_str(&mut l1, " ");
            push_decimal(&mut l1, ns.len());
            append_str(&mut l1, " package(s)?");
            r.push(l1);
            let mut l2 = owned("  ");
            if ns.len() > 4 {
                append_str(&mut l2, join_names(ns, 4).as_str());
                append_str(&mut l2, ", …");
            } else {
                append_str(&mut l2, join_names(ns, ns.len()).as_str());
                assert(sv.subrange(0, sv.len() as int) =~= sv);
            }
            r.push(l2);
        },
    }
    assert(crate::text::string_views(r@) =~= confirm_text_spec(a, sv));
    r
}

/// The typed password as stars, one per byte.
pub open spec fn mask_spec(password: Seq<char>) -> Seq<char> {
    Seq::new(crate::display::utf8_len(password) as nat, |i: int| '*')
}

/// The typed password as stars.
pub fn mask(password: &str) -> (r: String)
    requires
        password@.len() <= usize::MAX / 4,
    ensures
        r@ == mask_spec(password@),
{
    let n = crate::display::byte_count(password);
    let mut r = String::new();
    let mut i: usize = 0;
    while i < n
        invariant
            i <= n,
            r@ == Seq::new(i as nat, |k: int| '*'),
        decreases n - i,
    {
        crate::text::push_char(&mut r, '*');
        assert(r@ =~= Seq::new((i + 1) as nat, |k: int| '*'));
        i = i + 1;
    }
    r
}

/// The rows of the theme builder: the chosen preset (or `custom`), then the
/// name of each of the theme's ten colors.
pub open spec fn builder_rows_spec(selected_theme_idx: usize, t: ThemeView) -> Seq<(Seq<char>, Seq<char>)> {
    let ts = themes_spec();
    seq![
        ("Theme Preset"@, if selected_theme_idx < ts.len() {
            ts[selected_theme_idx as int].name
        } else {
            "custom"@
        }),
        ("Background"@, color_display_name(t.background)),
        ("Foreground"@, color_display_name(t.foreground)),
        ("Border"@, color_display_name(t.border)),
        ("Highlight FG"@, color_display_name(t.highlight_fg)),
        ("Highlight BG"@, color_display_name(t.highlight_bg)),
        ("Accent"@, color_display_name(t.accent)),
        ("Selected"@, color_display_name(t.selected)),
        ("Success"@, color_display_name(t.success)),
        ("Warning"@, color_display_name(t.warning)),
        ("Error"@, color_display_name(t.error)),
    ]
}

fn labeled(label: &str, value: String) -> (r: (String, String))
    ensures
        r.0@ == label@,
        r.1@ == value@,
{
    (owned(label), value)
}

/// The rows of the theme builder.
pub fn builder_rows(selected_theme_idx: usize, theme: &Theme) -> (r: Vec<(String, String)>)
    ensures
        crate::package::field_views(r@) == builder_rows_spec(selected_theme_idx, theme@),
{
    let preset = if selected_theme_idx < theme_count() {
        let all = themes();
        assert(all@[selected_theme_idx as int]@ == themes_spec()[selected_theme_idx as int]);
        all[selected_theme_idx].name.clone()
    } else {
        owned("custom")
    };
    let mut r: Vec<(String, String)> = Vec::new();
    r.push(labeled("Theme Preset", preset));
    r.push(labeled("Background", color_name(theme.background)));
    r.push(labeled("Foreground", color_name(theme.foreground)));
    r.push(labeled("Border", color_name(theme.border)));
    r.push(labeled("Highlight FG", color_name(theme.highlight_fg)));
    r.push(labeled("Highlight BG", color_name(theme.highlight_bg)));
    r.push(labeled("Accent", color_name(theme.accent)));
    r.push(labeled("Selected", color_name(theme.selected)));
    r.push(labeled("Success", color_name(theme.success)));
    r.push(labeled("Warning", color_name(theme.warning)));
    r.push(labeled("Error", color_name(theme.error)));
    assert(crate::package::field_views(r@) =~= builder_rows_spec(selected_theme_idx, theme@));
    r
}

} // verus!
