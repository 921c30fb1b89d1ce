use pkgman::app::App;
use pkgman::package::Package;

fn pkg(name: &str, repo: &str, desc: &str) -> Package {
    Package {
        name: name.to_string(),
        version: "1".to_string(),
        repo: repo.to_string(),
        desc: desc.to_string(),
        arch: String::new(),
        url: String::new(),
        licenses: String::new(),
        groups: String::new(),
        provides: String::new(),
        depends: String::new(),
        optdeps: String::new(),
        req_by: String::new(),
        opt_for: String::new(),
        conflicts: String::new(),
        replaces: String::new(),
        dl_size: String::new(),
        inst_size: String::new(),
        packager: String::new(),
        build_date: String::new(),
        installed: true,
        upgradable: true,
        search_key: name.to_string(),
    }
}

#[test]
fn ticks_turn_spinner_and_fetch_details() {
    let mut app = App::new(String::new());
    app.pkgs = vec![pkg("foo", "aur", "AUR Package")];
    app.apply_filter();
    app.is_loading = true;
    app.tick(10);
    assert_eq!(app.spinner_tick, 1);
    let w = app.tick_fetches(100_000_000, true);
    assert!(w.details.is_none());
    assert!(app.tick_fetches(300_000_000, true).details.is_none());
    let w = app.tick_fetches(300_000_001, false);
    assert!(w.details.is_none());
    let w = app.tick_fetches(300_000_001, true);
    assert_eq!(w.details.as_deref(), Some("foo"));
    assert_eq!(app.pkgs[0].desc, "Fetching details...");
    assert!(app.tick_fetches(1_000_000_000, true).details.is_none());
    app.dep_tree.show = true;
    let w = app.tick_fetches(250_000_001, true);
    assert_eq!(w.dep_tree, Some(("foo".to_string(), true)));
    assert!(app.dep_tree.loading);
    assert!(app.tick_fetches(900_000_000, true).dep_tree.is_none());
}

#[test]
fn loading_events() {
    let mut app = App::new(String::new());
    app.is_loading = true;
    app.on_db_loaded(vec![pkg("a", "core", "x")]);
    assert!(app.needs_filter);
    app.on_aur_loaded(vec![pkg("a", "aur", "y"), pkg("b", "aur", "y"), pkg("b", "aur", "z")], 0);
    assert_eq!(app.pkgs.len(), 3);
    assert_eq!(app.pkgs[0].repo, "core");
    assert!(!app.is_loading);
    assert_eq!(app.status.text, "Loaded 3 packages.");
    assert_eq!(app.status.expires, Some(4_000_000_000));
    let mut details = pkg("b", "extra", "real description");
    details.installed = false;
    details.upgradable = false;
    app.on_aur_details_loaded(details);
    assert_eq!(app.pkgs[1].desc, "real description");
    assert_eq!(app.pkgs[1].repo, "aur");
    assert!(app.pkgs[1].installed);
    assert_eq!(app.pkgs[2].desc, "z");
    assert!(app.on_console_finished(true));
    assert_eq!(app.console.finished, Some(true));
    assert!(!app.on_console_finished(false));
}

#[test]
fn dep_tree_and_wiki_results() {
    let mut app = App::new(String::new());
    app.pkgs = vec![pkg("foo", "core", "x")];
    app.apply_filter();
    app.dep_tree.loading = true;
    app.on_dep_tree_loaded("bar".to_string(), Ok(vec!["bar".to_string()]));
    assert!(app.dep_tree.loading);
    app.on_dep_tree_loaded("foo".to_string(), Err("boom".to_string()));
    assert!(!app.dep_tree.loading);
    assert_eq!(app.dep_tree.content, vec!["Error loading dependency tree:", "boom"]);
    app.wiki.pkg_name = "foo".to_string();
    app.wiki.loading = true;
    app.on_wiki_loaded("other", Ok(vec!["x".to_string()]));
    assert!(app.wiki.loading);
    app.on_wiki_loaded("foo", Err("No wiki page found for 'foo'".to_string()));
    assert!(!app.wiki.loading);
    assert_eq!(app.wiki.err_msg.as_deref(), Some("No wiki page found for 'foo'"));
    app.on_wiki_loaded("foo", Ok(vec!["line".to_string()]));
    assert_eq!(app.wiki.content, vec!["line"]);
    assert!(app.wiki.err_msg.is_none());
}
