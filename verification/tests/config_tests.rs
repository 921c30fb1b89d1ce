use pkgman::config::{aur_helper, installed_helper, load, parse, parse_bool, render_config, Config};
use pkgman::theme::{color_to_string, resolve_theme, string_to_color, theme_default, Color, Theme};

fn custom_theme() -> Theme {
    Theme {
        name: "custom".to_string(),
        background: Color::Rgb(1, 2, 3),
        foreground: Color::White,
        border: Color::DarkGray,
        highlight_fg: Color::Black,
        highlight_bg: Color::Rgb(255, 0, 170),
        accent: Color::LightCyan,
        selected: Color::Yellow,
        success: Color::Green,
        warning: Color::Rgb(16, 32, 48),
        error: Color::Red,
    }
}

#[test]
fn default_config_values() {
    let c = Config::default();
    assert!(c.aur);
    assert_eq!(c.theme_name, "default");
    assert_eq!(c.theme_bg, "reset");
    assert_eq!(c.theme_fg, "white");
    assert_eq!(c.theme_border, "darkgray");
    assert_eq!(c.theme_highlight_fg, "black");
    assert_eq!(c.theme_highlight_bg, "cyan");
    assert_eq!(c.theme_accent, "cyan");
    assert_eq!(c.theme_selected, "yellow");
    assert_eq!(c.theme_success, "green");
    assert_eq!(c.theme_warning, "yellow");
    assert_eq!(c.theme_error, "red");
}

#[test]
fn parse_bool_words() {
    for w in ["true", "1", "yes", "on"] {
        assert_eq!(parse_bool(w), Some(true));
    }
    for w in ["false", "0", "no", "off"] {
        assert_eq!(parse_bool(w), Some(false));
    }
    assert_eq!(parse_bool("TRUE"), None);
    assert_eq!(parse_bool(""), None);
    assert_eq!(parse_bool(" true"), None);
}

#[test]
fn parse_reads_keys_and_ignores_the_rest() {
    let text = "# comment\n\n  aur = false  \ntheme = \"nord\"\nunknown = 3\nno equals sign here\ntheme_bg=\"#112233\"\r\n";
    let c = parse(text);
    assert!(!c.aur);
    assert_eq!(c.theme_name, "nord");
    assert_eq!(c.theme_bg, "#112233");
    assert_eq!(c.theme_fg, "white");
}

#[test]
fn parse_keeps_setting_on_unreadable_bool() {
    let c = parse("aur = maybe\n");
    assert!(c.aur);
    let c = parse("aur = off\naur = maybe\n");
    assert!(!c.aur);
}

#[test]
fn parse_later_line_wins_and_quotes_stripped() {
    let c = parse("theme = \"a\"\ntheme = \"\"\"b=c\"\"\"\n");
    assert_eq!(c.theme_name, "b=c");
}

#[test]
fn parse_splits_at_first_equals() {
    let c = parse("theme = x = y\n");
    assert_eq!(c.theme_name, "x = y");
}

#[test]
fn load_without_file_seeds_aur_from_helper() {
    assert!(load(None, true).aur);
    assert!(!load(None, false).aur);
    assert_eq!(load(None, false).theme_name, "default");
    assert!(!load(Some("aur = no"), true).aur);
}

#[test]
fn helper_choice() {
    assert_eq!(installed_helper(true, true), Some("paru"));
    assert_eq!(installed_helper(false, true), Some("yay"));
    assert_eq!(installed_helper(false, false), None);
    assert_eq!(aur_helper(false, true, true), None);
    assert_eq!(aur_helper(true, false, true), Some("yay"));
    assert_eq!(aur_helper(true, false, false), None);
}

#[test]
fn render_config_exact_text() {
    let text = render_config(true, &theme_default());
    let expected = "# pkgman configuration\n\
# aur: enable AUR helper (yay/paru) features. Set false for pacman-only.\n\
aur = true\n\n\
# Theme Settings\n\
theme = \"default\"\n\
theme_bg = \"reset\"\n\
theme_fg = \"white\"\n\
theme_border = \"darkgray\"\n\
theme_highlight_fg = \"black\"\n\
theme_highlight_bg = \"cyan\"\n\
theme_accent = \"cyan\"\n\
theme_selected = \"yellow\"\n\
theme_success = \"green\"\n\
theme_warning = \"yellow\"\n\
theme_error = \"red\"\n";
    assert_eq!(text, expected);
}

#[test]
fn config_round_trip_gives_back_theme() {
    let t = custom_theme();
    let c = parse(&render_config(false, &t));
    assert!(!c.aur);
    assert_eq!(c.theme_name, "custom");
    assert_eq!(c.theme_bg, "#010203");
    assert_eq!(c.theme_highlight_bg, "#FF00AA");
    assert_eq!(c.theme_warning, color_to_string(Color::Rgb(16, 32, 48)));
    let back = resolve_theme(
        &c.theme_name,
        &c.theme_bg,
        &c.theme_fg,
        &c.theme_border,
        &c.theme_highlight_fg,
        &c.theme_highlight_bg,
        &c.theme_accent,
        &c.theme_selected,
        &c.theme_success,
        &c.theme_warning,
        &c.theme_error,
    );
    assert_eq!(back.name, "custom");
    assert_eq!(back.background, t.background);
    assert_eq!(back.highlight_bg, t.highlight_bg);
    assert_eq!(back.accent, t.accent);
    assert_eq!(back.warning, t.warning);
    assert_eq!(string_to_color(&c.theme_error), Color::Red);
}
