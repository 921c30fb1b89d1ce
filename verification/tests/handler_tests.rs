use pkgman::app::App;
use pkgman::handlers::{handle_key_at, toggle_selected, Effect, Key, KeyCode, KeyOutcome};
use pkgman::package::{ConfirmAction, Package};
use pkgman::theme::Color;

fn pkg(name: &str, url: &str, installed: bool) -> Package {
    Package {
        name: name.to_string(),
        version: "1".to_string(),
        repo: "extra".to_string(),
        desc: String::new(),
        arch: String::new(),
        url: url.to_string(),
        licenses: String::new(),
        groups: String::new(),
        provides: String::new(),
        depends: String::new(),
        optdeps: String::new(),
        req_by: String::new(),
        opt_for: String::new(),
        conflicts: String::new(),
        replaces: String::new(),
        dl_size: String::new(),
        inst_size: String::new(),
        packager: String::new(),
        build_date: String::new(),
        installed,
        upgradable: false,
        search_key: name.to_string(),
    }
}

fn app_with(n: usize) -> App {
    let mut app = App::new(String::new());
    for i in 0..n {
        let url = if i == 0 { "https://a.org".to_string() } else { "None".to_string() };
        app.pkgs.push(pkg(&format!("p{:02}", i), &url, i % 2 == 0));
    }
    app.apply_filter();
    app
}

fn ch(c: char) -> Key {
    Key { code: KeyCode::Char(c), ctrl: false }
}

fn code(c: KeyCode) -> Key {
    Key { code: c, ctrl: false }
}

fn ctrl(c: KeyCode) -> Key {
    Key { code: c, ctrl: true }
}

fn press(app: &mut App, k: Key) -> KeyOutcome {
    handle_key_at(k, app, true, false, 1000)
}

#[test]
fn cursor_moves_and_pages() {
    let mut app = app_with(30);
    press(&mut app, code(KeyCode::Up));
    assert_eq!(app.cursor, 0);
    press(&mut app, ch('j'));
    assert_eq!(app.cursor, 1);
    assert_eq!(app.last_cursor_change, 1000);
    press(&mut app, code(KeyCode::PageDown));
    assert_eq!(app.cursor, 21);
    assert_eq!(app.list_top, 2);
    press(&mut app, code(KeyCode::End));
    assert_eq!(app.cursor, 29);
    assert_eq!(app.list_top, 10);
    press(&mut app, code(KeyCode::Down));
    assert_eq!(app.cursor, 29);
    press(&mut app, code(KeyCode::PageUp));
    assert_eq!(app.cursor, 9);
    assert_eq!(app.list_top, 9);
    press(&mut app, code(KeyCode::Home));
    assert_eq!((app.cursor, app.list_top, app.detail_top), (0, 0, 0));
    press(&mut app, ctrl(KeyCode::Down));
    press(&mut app, ch('J'));
    assert_eq!(app.detail_top, 2);
    press(&mut app, ctrl(KeyCode::Char('k')));
    assert_eq!(app.detail_top, 1);
    press(&mut app, ctrl(KeyCode::PageUp));
    assert_eq!(app.detail_top, 0);
    assert_eq!(app.cursor, 0);
}

#[test]
fn selection_and_confirmation() {
    let mut app = app_with(3);
    press(&mut app, ch(' '));
    press(&mut app, ch('j'));
    press(&mut app, ch(' '));
    assert_eq!(app.selected, vec!["p00", "p01"]);
    press(&mut app, ch('k'));
    press(&mut app, ch(' '));
    assert_eq!(app.selected, vec!["p01"]);
    press(&mut app, ch('r'));
    assert_eq!(app.confirm.as_ref().map(|c| (c.0, c.1.clone())), Some((ConfirmAction::Remove, vec!["p01".to_string()])));
    let out = press(&mut app, ch('x'));
    assert!(out.effect.is_none());
    assert!(app.confirm.is_some());
    let out = press(&mut app, ch('y'));
    assert!(app.confirm.is_none());
    match out.effect {
        Some(Effect::ConfirmAccepted(a, ns)) => {
            assert_eq!(a, ConfirmAction::Remove);
            assert_eq!(ns, vec!["p01"]);
            let eff = app.begin_confirmed_action(a, ns, false);
            assert!(eff.is_none());
            assert!(app.sudo.mode);
        },
        _ => panic!("expected an accepted confirmation"),
    }
    press(&mut app, ch('s'));
    press(&mut app, ch('e'));
    press(&mut app, ctrl(KeyCode::Char('x')));
    assert_eq!(app.sudo.password, "sex");
    press(&mut app, code(KeyCode::Backspace));
    assert_eq!(app.sudo.password, "se");
    let out = press(&mut app, code(KeyCode::Enter));
    assert!(!app.sudo.mode);
    assert!(app.console.mode);
    assert!(app.is_loading);
    assert_eq!(app.sudo.password, "");
    match out.effect {
        Some(Effect::RunAction(Some(pw), a, ns)) => {
            assert_eq!(pw, "se");
            assert_eq!(a, ConfirmAction::Remove);
            assert_eq!(ns, vec!["p01"]);
        },
        _ => panic!("expected the action to run"),
    }
    press(&mut app, code(KeyCode::Esc));
    assert!(app.console.mode);
    app.on_console_finished(true);
    press(&mut app, code(KeyCode::Esc));
    assert!(!app.console.mode);
    assert!(app.console.finished.is_none());
}

#[test]
fn confirm_when_sudo_cached_and_update() {
    let mut app = app_with(2);
    press(&mut app, ch('u'));
    match app.confirm.as_ref() {
        Some((ConfirmAction::Update, ns)) => assert!(ns.is_empty()),
        _ => panic!("expected an update confirmation"),
    }
    press(&mut app, ch('n'));
    assert!(app.confirm.is_none());
    press(&mut app, ch('i'));
    let out = press(&mut app, code(KeyCode::Enter));
    match out.effect {
        Some(Effect::ConfirmAccepted(a, ns)) => {
            assert_eq!(ns, vec!["p00"]);
            match app.begin_confirmed_action(a, ns, true) {
                Some(Effect::RunAction(None, ConfirmAction::Install, ns)) => assert_eq!(ns, vec!["p00"]),
                _ => panic!("expected the install to run"),
            }
            assert!(app.console.mode);
        },
        _ => panic!("expected an accepted confirmation"),
    }
}

#[test]
fn search_typing() {
    let mut app = app_with(2);
    press(&mut app, ch('/'));
    assert!(app.search_mode);
    for c in "  vim ".chars() {
        press(&mut app, ch(c));
    }
    assert_eq!(app.query, "  vim ");
    assert!(app.needs_filter);
    press(&mut app, ctrl(KeyCode::Char('w')));
    assert_eq!(app.query, "  ");
    press(&mut app, ch('x'));
    press(&mut app, ctrl(KeyCode::Char('x')));
    assert_eq!(app.query, "");
    press(&mut app, ch('f'));
    let out = handle_key_at(code(KeyCode::Enter), &mut app, true, false, 5);
    assert!(!app.search_mode);
    assert!(app.is_loading);
    match out.effect {
        Some(Effect::AurSearch(q)) => assert_eq!(q, "f"),
        _ => panic!("expected an AUR search"),
    }
    app.is_loading = false;
    press(&mut app, ch('/'));
    let out = handle_key_at(code(KeyCode::Enter), &mut app, false, false, 5);
    assert!(out.effect.is_none());
    assert!(!app.is_loading);
    assert!(!app.search_mode);
    assert_eq!(app.status.text, "AUR features disabled in config.");
    assert!(!app.status.keep);
    assert_eq!(app.status.expires, Some(3_000_000_005));
}

#[test]
fn list_commands() {
    let mut app = app_with(3);
    match press(&mut app, ch('d')).effect {
        Some(Effect::OpenUrl(u)) => assert_eq!(u, "https://a.org"),
        _ => panic!("expected the homepage"),
    }
    press(&mut app, ch('j'));
    assert!(press(&mut app, ch('d')).effect.is_none());
    assert_eq!(app.status.text, "Error: No website URL available.");
    assert_eq!(app.status.expires, Some(3_000_001_000));
    match press(&mut app, ch('w')).effect {
        Some(Effect::OpenUrl(u)) => assert_eq!(u, "https://wiki.archlinux.org/index.php?search=p01"),
        _ => panic!("expected the wiki search"),
    }
    match press(&mut app, ch('R')).effect {
        Some(Effect::ReloadDb) => {},
        _ => panic!("expected a reload"),
    }
    press(&mut app, ch('3'));
    assert_eq!(app.filter_idx, 2);
    press(&mut app, ch('0'));
    assert_eq!(app.filter_idx, 0);
    press(&mut app, ch('9'));
    assert_eq!(app.filter_idx, 0);
    press(&mut app, ch('?'));
    assert!(app.show_help);
    press(&mut app, code(KeyCode::Down));
    assert_eq!(app.help_scroll, 1);
    press(&mut app, ch('q'));
    assert!(!app.show_help);
    assert!(press(&mut app, ch('Q')).quit);
}

#[test]
fn wiki_and_dep_tree() {
    let mut app = app_with(2);
    match press(&mut app, ch('W')).effect {
        Some(Effect::FetchWiki(n)) => assert_eq!(n, "p00"),
        _ => panic!("expected a wiki fetch"),
    }
    assert!(app.wiki.show && app.wiki.loading);
    press(&mut app, code(KeyCode::PageDown));
    assert_eq!(app.wiki.scroll, 20);
    match press(&mut app, ch('w')).effect {
        Some(Effect::OpenUrl(u)) => assert_eq!(u, "https://wiki.archlinux.org/index.php?search=p00"),
        _ => panic!("expected the wiki search"),
    }
    press(&mut app, code(KeyCode::Esc));
    assert!(!app.wiki.show);
    match press(&mut app, ch('v')).effect {
        Some(Effect::FetchDepTree(n, inst)) => {
            assert_eq!(n, "p00");
            assert!(inst);
        },
        _ => panic!("expected a dependency tree fetch"),
    }
    assert!(app.dep_tree.show && app.dep_tree.loading);
    app.on_dep_tree_loaded("p00".to_string(), Ok(vec!["p00".to_string()]));
    assert_eq!(app.dep_tree.pkg_name.as_deref(), Some("p00"));
    press(&mut app, ch('v'));
    assert!(!app.dep_tree.show);
    assert!(press(&mut app, ch('v')).effect.is_none());
}

#[test]
fn theme_builder_keys() {
    let mut app = app_with(1);
    press(&mut app, ch('t'));
    assert!(app.theme_builder.open);
    press(&mut app, code(KeyCode::Right));
    assert_eq!(app.theme_builder.selected_theme_idx, 1);
    assert_eq!(app.theme.name, "dracula");
    press(&mut app, code(KeyCode::Left));
    press(&mut app, code(KeyCode::Left));
    assert_eq!(app.theme_builder.selected_theme_idx, 12);
    assert_eq!(app.theme.name, "custom");
    press(&mut app, code(KeyCode::Up));
    assert_eq!(app.theme_builder.cursor, 10);
    press(&mut app, code(KeyCode::Down));
    press(&mut app, code(KeyCode::Down));
    assert_eq!(app.theme_builder.cursor, 1);
    press(&mut app, code(KeyCode::Right));
    assert_eq!(app.theme.background, Color::Black);
    press(&mut app, ch('h'));
    press(&mut app, ch('h'));
    assert_eq!(app.theme.background, Color::White);
    match press(&mut app, code(KeyCode::Enter)).effect {
        Some(Effect::SaveConfig) => {},
        _ => panic!("expected the configuration to be saved"),
    }
    assert!(!app.theme_builder.open);
    app.theme_builder.open = true;
    let out = handle_key_at(code(KeyCode::Esc), &mut app, true, true, 1000);
    assert!(out.effect.is_none());
    assert!(!app.theme_builder.open);
}

#[test]
fn toggling_selection() {
    let mut sel = vec!["a".to_string(), "b".to_string()];
    toggle_selected(&mut sel, "c".to_string());
    assert_eq!(sel, vec!["a", "b", "c"]);
    toggle_selected(&mut sel, "a".to_string());
    assert_eq!(sel, vec!["b", "c"]);
}
