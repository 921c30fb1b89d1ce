use pkgman::app::App;
use pkgman::config::parse;
use pkgman::handlers::toggle_selected;
use pkgman::package::Package;

fn pkg(name: &str) -> Package {
    Package {
        name: name.to_string(),
        version: "1".to_string(),
        repo: "extra".to_string(),
        desc: String::new(),
        arch: "x86_64".to_string(),
        url: "None".to_string(),
        licenses: String::new(),
        groups: String::new(),
        provides: String::new(),
        depends: String::new(),
        optdeps: String::new(),
        req_by: String::new(),
        opt_for: String::new(),
        conflicts: String::new(),
        replaces: String::new(),
        dl_size: String::new(),
        inst_size: String::new(),
        packager: String::new(),
        build_date: String::new(),
        installed: false,
        upgradable: false,
        search_key: name.to_lowercase(),
    }
}

fn view_for(query: &str) -> Vec<usize> {
    let mut app = App::new(String::new());
    app.pkgs = vec![pkg("vim"), pkg("neovim"), pkg("vifm"), pkg("emacs"), pkg("gvim")];
    app.query = query.to_string();
    app.apply_filter();
    app.view
}

#[test]
fn longer_query_narrows_the_view() {
    let short = view_for("v");
    let longer = view_for("VIM");
    assert_eq!(short.len(), 4);
    assert_eq!(longer.len(), 3);
    assert!(longer.iter().all(|i| short.contains(i)));
}

#[test]
fn message_cleared_by_first_check_after_deadline() {
    let mut app = App::new(String::new());
    app.set_msg_at("Saved.", 2, false, 1000);
    app.check_msg_expiry_at(1_500_000_000);
    app.check_msg_expiry_at(2_000_001_000);
    assert_eq!(app.status.text, "Saved.");
    app.check_msg_expiry_at(2_000_001_001);
    assert_eq!(app.status.text, "");
    assert_eq!(app.status.expires, None);
    app.set_msg_at("Working...", 0, true, 1000);
    app.check_msg_expiry_at(u64::MAX);
    assert_eq!(app.status.text, "Working...");
}

#[test]
fn appended_aur_line_wins_or_is_ignored() {
    let base = "aur = true\ntheme = \"nord\"";
    let c = parse(&format!("{}\naur = off", base));
    assert!(!c.aur);
    assert_eq!(c.theme_name, "nord");
    let c = parse(&format!("{}\naur = maybe", base));
    assert!(c.aur);
    let c = parse(&format!("{}\ncolour = red", base));
    assert!(c.aur);
    assert_eq!(c.theme_name, "nord");
    let c = parse(&format!("{}\njust words", base));
    assert_eq!(c.theme_name, "nord");
}

#[test]
fn toggling_twice_restores_the_selection() {
    let mut sel = vec!["a".to_string(), "b".to_string()];
    toggle_selected(&mut sel, "c".to_string());
    toggle_selected(&mut sel, "c".to_string());
    assert_eq!(sel, vec!["a", "b"]);
    toggle_selected(&mut sel, "a".to_string());
    toggle_selected(&mut sel, "a".to_string());
    let mut sorted = sel.clone();
    sorted.sort();
    assert_eq!(sorted, vec!["a", "b"]);
}
