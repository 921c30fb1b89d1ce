use pkgman::package::{ConfirmAction, Package};
use pkgman::theme::theme_default;
use pkgman::view::{
    builder_rows, confirm_text, console_frame, console_offset, context_lines, detail_lines, header_stats,
    list_row, mask, search_prompt, sort_name, tab_labels, visible_info, LineKind, PanelLine, Tone,
};

fn bare(name: &str, installed: bool, upgradable: bool) -> Package {
    Package {
        name: name.to_string(),
        version: "1.0-1".to_string(),
        repo: "extra".to_string(),
        desc: "A tool".to_string(),
        arch: "x86_64".to_string(),
        url: "None".to_string(),
        licenses: "None".to_string(),
        groups: "None".to_string(),
        provides: "None".to_string(),
        depends: "None".to_string(),
        optdeps: "None".to_string(),
        req_by: "None".to_string(),
        opt_for: "None".to_string(),
        conflicts: "None".to_string(),
        replaces: "None".to_string(),
        dl_size: "None".to_string(),
        inst_size: "None".to_string(),
        packager: "Someone <a@b.c>".to_string(),
        build_date: "None".to_string(),
        installed,
        upgradable,
        search_key: name.to_lowercase(),
    }
}

fn kinds(ls: &[PanelLine]) -> Vec<LineKind> {
    ls.iter().map(|l| l.kind).collect()
}

fn texts(ls: &[PanelLine]) -> Vec<String> {
    ls.iter().map(|l| l.text.clone()).collect()
}

#[test]
fn detail_of_a_bare_package_leaves_out_empty_sections() {
    let ls = detail_lines(&bare("htop", false, false));
    assert_eq!(
        kinds(&ls),
        vec![
            LineKind::Title,
            LineKind::Blank,
            LineKind::Header,
            LineKind::Rule,
            LineKind::Field,
            LineKind::Field,
            LineKind::Field,
            LineKind::Field,
            LineKind::Blank,
            LineKind::Header,
            LineKind::Rule,
            LineKind::Text,
            LineKind::Blank,
            LineKind::Header,
            LineKind::Rule,
            LineKind::Blank,
        ]
    );
    assert_eq!(ls[0].label, "htop");
    assert_eq!(ls[0].text, "  NOT INSTALLED");
    assert_eq!(ls[0].tone, Tone::Border);
    assert_eq!(ls[2].text, "IDENTITY");
    assert_eq!(ls[4].label, "Repository");
    assert_eq!(ls[4].text, "extra");
    assert_eq!(ls[4].tone, Tone::Repo);
    assert_eq!(ls[6].tone, Tone::Accent);
    assert_eq!(ls[11].text, "A tool");
    assert_eq!(ls[13].text, "DEPENDENCIES");
}

#[test]
fn detail_shows_present_fields_in_their_sections() {
    let mut p = bare("git", true, true);
    p.dl_size = "5 MiB".to_string();
    p.depends = "curl  expat".to_string();
    p.conflicts = "git-git".to_string();
    p.url = "https://git-scm.com".to_string();
    p.groups = String::new();
    let ls = detail_lines(&p);
    assert_eq!(ls[0].text, "  ↑ UPDATE AVAILABLE");
    assert_eq!(ls[0].tone, Tone::Warning);
    let t = texts(&ls);
    assert!(t.contains(&"SIZE".to_string()));
    assert!(t.contains(&"MORE".to_string()));
    let size = ls.iter().find(|l| l.label == "Download Size").unwrap();
    assert_eq!(size.text, "5 MiB");
    assert_eq!(size.tone, Tone::Selected);
    assert!(ls.iter().all(|l| l.label != "Installed Size"));
    assert!(ls.iter().all(|l| l.label != "Groups"));
    let conflicts = ls.iter().find(|l| l.label == "Conflicts").unwrap();
    assert_eq!(conflicts.tone, Tone::Error);
    let last = ls.last().unwrap();
    assert_eq!(last.label, "URL");
    assert_eq!(last.text, "https://git-scm.com");
}

#[test]
fn detail_state_of_an_installed_package() {
    let ls = detail_lines(&bare("bash", true, false));
    assert_eq!(ls[0].text, "  ✔ INSTALLED");
    assert_eq!(ls[0].tone, Tone::Success);
}

#[test]
fn context_without_homepage_or_selection() {
    let ls = context_lines(&bare("htop", true, false), 0);
    let t = texts(&ls);
    assert_eq!(t[0], "QUICK INFO");
    assert_eq!(ls[2].label, "Repo");
    assert_eq!(ls[5].label, "Installed");
    assert_eq!(ls[5].text, "Yes");
    assert_eq!(ls[6].text, "No");
    assert!(t.contains(&"No homepage linked".to_string()));
    assert!(t.contains(&"Someone <a@b.c>".to_string()));
    assert_eq!(t.last().unwrap(), "None — use [Space] to select");
}

#[test]
fn context_with_homepage_and_selection() {
    let mut p = bare("htop", false, false);
    p.url = "https://htop.dev".to_string();
    let ls = context_lines(&p, 3);
    let t = texts(&ls);
    let i = t.iter().position(|x| x == "https://htop.dev").unwrap();
    assert_eq!(ls[i].tone, Tone::Accent);
    assert_eq!(t[i + 1], "→ Available via [d] Curl");
    assert_eq!(t[t.len() - 2], "3 package(s) selected");
    assert_eq!(t[t.len() - 1], "[i] Install  [u] Update  [r] Remove");
}

#[test]
fn header_stats_names_the_sort_mode() {
    assert_eq!(header_stats(1234, "12G free", 2), "Total: 1234 │ Disk: 12G free │ Sort: Size");
    assert_eq!(sort_name(3), "Installed");
    assert_eq!(sort_name(9), "?");
}

#[test]
fn tab_labels_count_installed_and_updates() {
    let ps = vec![bare("a", true, true), bare("b", true, false), bare("c", false, false)];
    let ls = tab_labels(&ps);
    assert_eq!(
        ls,
        vec![" ALL ", " INSTALLED (2) ", " UPDATES (1) ", " CORE ", " EXTRA ", " MULTILIB ", " AUR "]
    );
    let none = tab_labels(&vec![bare("c", false, false)]);
    assert_eq!(none[1], " INSTALLED (0) ");
    assert_eq!(none[2], " UPDATES ");
}

#[test]
fn list_row_cuts_long_names() {
    assert_eq!(list_row("zsh", "5.9-1", 40), (" zsh".to_string(), " [5.9-1]".to_string()));
    // room = 20 - 6 - 7 = 7; cut at 6 bytes plus the ellipsis
    assert_eq!(list_row("a-very-long-name", "1.0-1", 20).0, " a-very…");
    assert_eq!(list_row("abcdef", "1.0-1", 5).0, " ");
}

#[test]
fn visible_info_and_prompt() {
    assert_eq!(visible_info(4, 10), " 5-10 / 10 ");
    assert_eq!(visible_info(0, 0), " No packages ");
    assert_eq!(search_prompt("", false), " / Search…");
    assert_eq!(search_prompt("", true), " / █");
    assert_eq!(search_prompt("vim", false), " / vim█");
}

#[test]
fn console_frame_and_offset() {
    assert_eq!(console_frame(None), (" Subprocess Output ", " Running... Please wait "));
    assert_eq!(console_frame(Some(false)).0, " Execution Failed ");
    assert_eq!(console_offset(false, 0, 50, 20), 30);
    assert_eq!(console_offset(true, 5, 50, 20), 5);
    assert_eq!(console_offset(true, 45, 50, 20), 30);
    assert_eq!(console_offset(true, 3, 10, 20), 0);
}

#[test]
fn confirm_text_lists_at_most_four_names() {
    let names: Vec<String> = ["a", "b", "c", "d", "e"].iter().map(|s| s.to_string()).collect();
    assert_eq!(confirm_text(ConfirmAction::Install, &names), vec!["  install 5 package(s)?", "  a, b, c, d, …"]);
    let two: Vec<String> = vec!["vim".to_string(), "git".to_string()];
    assert_eq!(confirm_text(ConfirmAction::Remove, &two), vec!["  remove 2 package(s)?", "  vim, git"]);
    assert_eq!(confirm_text(ConfirmAction::Update, &two)[0], "  Perform a full system upgrade (-Syu)?");
}

#[test]
fn mask_counts_bytes() {
    assert_eq!(mask("abc"), "***");
    assert_eq!(mask("é"), "**");
    assert_eq!(mask(""), "");
}

#[test]
fn builder_rows_name_preset_and_colors() {
    let t = theme_default();
    let rows = builder_rows(0, &t);
    assert_eq!(rows.len(), 11);
    assert_eq!(rows[0], ("Theme Preset".to_string(), "default".to_string()));
    assert_eq!(rows[1], ("Background".to_string(), "Default/Reset".to_string()));
    assert_eq!(rows[3], ("Border".to_string(), "Dark Gray".to_string()));
    assert_eq!(builder_rows(99, &t)[0].1, "custom");
}
