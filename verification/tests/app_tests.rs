use pkgman::app::{expiry_after, filters, App, Console};
use pkgman::package::Package;

fn pkg(name: &str, repo: &str, installed: bool, upgradable: bool) -> Package {
    Package {
        name: name.to_string(),
        version: "1".to_string(),
        repo: repo.to_string(),
        desc: format!("{} tool", name),
        arch: "x86_64".to_string(),
        url: "None".to_string(),
        licenses: String::new(),
        groups: String::new(),
        provides: String::new(),
        depends: String::new(),
        optdeps: String::new(),
        req_by: String::new(),
        opt_for: String::new(),
        conflicts: String::new(),
        replaces: String::new(),
        dl_size: String::new(),
        inst_size: String::new(),
        packager: String::new(),
        build_date: String::new(),
        installed,
        upgradable,
        search_key: format!("{} {} tool", name, name).to_lowercase(),
    }
}

fn sample_app() -> App {
    let mut app = App::new("Disk: 1G Free".to_string());
    app.pkgs = vec![
        pkg("zsh", "extra", false, false),
        pkg("Bash", "core", true, false),
        pkg("yay", "aur", true, true),
        pkg("acl", "core", false, false),
        pkg("mypkg", "myrepo", false, false),
    ];
    app.inst_size_keys = vec![10, 50, 30, 20, 40];
    app
}

fn view_names(app: &App) -> Vec<String> {
    app.view.iter().map(|&i| app.pkgs[i].name.clone()).collect()
}

#[test]
fn new_app_is_empty() {
    let app = App::new(String::new());
    assert!(app.pkgs.is_empty());
    assert_eq!(app.cursor, 0);
    assert!(!app.console.mode);
    assert_eq!(app.theme.name, "default");
    assert_eq!(filters(), vec!["all", "installed", "updates", "core", "extra", "multilib", "aur"]);
}

#[test]
fn messages_expire() {
    let mut app = App::new(String::new());
    app.set_msg_at("hi", 3, false, 1000);
    assert_eq!(app.status.text, "hi");
    assert_eq!(app.status.expires, Some(3_000_001_000));
    app.check_msg_expiry_at(3_000_001_000);
    assert_eq!(app.status.text, "hi");
    app.check_msg_expiry_at(3_000_001_001);
    assert_eq!(app.status.text, "");
    assert_eq!(app.status.expires, None);
    app.set_msg_at("kept", 3, true, 0);
    app.check_msg_expiry_at(u64::MAX);
    assert_eq!(app.status.text, "kept");
    assert_eq!(expiry_after(u64::MAX - 5, 1), u64::MAX);
}

#[test]
fn filter_and_name_sort() {
    let mut app = sample_app();
    app.apply_filter();
    assert_eq!(view_names(&app), vec!["acl", "Bash", "zsh", "mypkg", "yay"]);
    app.query = "A".to_string();
    app.apply_filter();
    assert_eq!(view_names(&app), vec!["acl", "Bash", "yay"]);
    app.query = String::new();
    app.filter_idx = 1;
    app.apply_filter();
    assert_eq!(view_names(&app), vec!["Bash", "yay"]);
    app.filter_idx = 2;
    app.apply_filter();
    assert_eq!(view_names(&app), vec!["yay"]);
    app.filter_idx = 3;
    app.apply_filter();
    assert_eq!(view_names(&app), vec!["acl", "Bash"]);
    app.filter_idx = 6;
    app.apply_filter();
    assert_eq!(view_names(&app), vec!["yay"]);
}

#[test]
fn sort_modes_cycle() {
    let mut app = sample_app();
    app.apply_filter();
    app.cursor = 3;
    app.cycle_sort();
    assert_eq!(app.sort_idx, 1);
    assert_eq!(app.cursor, 0);
    assert_eq!(view_names(&app), vec!["acl", "Bash", "zsh", "mypkg", "yay"]);
    app.cycle_sort();
    assert_eq!(app.sort_idx, 2);
    assert_eq!(view_names(&app), vec!["Bash", "mypkg", "yay", "acl", "zsh"]);
    app.cycle_sort();
    assert_eq!(app.sort_idx, 3);
    assert_eq!(view_names(&app), vec!["Bash", "yay", "acl", "mypkg", "zsh"]);
    app.cycle_sort();
    assert_eq!(app.sort_idx, 0);
    app.cursor = 2;
    app.apply_sort(false);
    assert_eq!(app.cursor, 2);
}

#[test]
fn console_output() {
    let mut app = App::new(String::new());
    app.write_console_chunk("\x1b[1mbold\x1b[0m line\npartial");
    assert_eq!(app.console.lines, vec!["bold line"]);
    assert_eq!(app.console.current_line, "partial");
    app.write_console_chunk(" more\r\nredone\rfinal\n");
    assert_eq!(app.console.lines, vec!["bold line", "", "final"]);
    assert_eq!(app.console.scroll, 3);
    let mut c = Console::closed();
    let mut big = String::new();
    for i in 0..1005 {
        big.push_str(&format!("{}\n", i));
    }
    c.write_chunk(&big);
    assert_eq!(c.lines.len(), 1000);
    assert_eq!(c.lines[0], "5");
    assert_eq!(c.lines[999], "1004");
}

#[test]
fn sorting_twice_changes_nothing() {
    let mut app = sample_app();
    app.sort_idx = 2;
    app.apply_filter();
    let once = app.view.clone();
    app.apply_sort(true);
    assert_eq!(app.view, once);
}

#[test]
fn console_chunks_concatenate() {
    let mut a = Console::closed();
    a.write_chunk("one\x1b[3");
    a.write_chunk("1mtwo\nthr");
    a.write_chunk("ee\r\n");
    let mut b = Console::closed();
    b.write_chunk("one\x1b[31mtwo\nthree\r\n");
    assert_eq!(a.lines, b.lines);
    assert_eq!(a.current_line, b.current_line);
    assert_eq!(a.in_escape, b.in_escape);
    assert_eq!(a.lines, vec!["onetwo", ""]);
}
