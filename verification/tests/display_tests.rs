use pkgman::display::{label_prefix, repo_color, status_icon, truncate_str, wrap_rows};
use pkgman::theme::{theme_default, Color};

#[test]
fn truncation() {
    assert_eq!(truncate_str("hello", 10), "hello");
    assert_eq!(truncate_str("hello", 5), "hello");
    assert_eq!(truncate_str("hello world", 5), "hell…");
    assert_eq!(truncate_str("hello", 2), "he");
    assert_eq!(truncate_str("hello", 0), "");
    assert_eq!(truncate_str("héllo", 4), "hé…");
}

#[test]
fn wrapping_fields() {
    assert_eq!(wrap_rows("aa bb cc dd", 13, 4), vec!["aa bb", "cc dd"]);
    assert_eq!(wrap_rows("", 40, 4), vec![""]);
    assert_eq!(wrap_rows("averyveryverylongword x", 10, 4), vec!["averyveryverylongword", "x"]);
    assert_eq!(wrap_rows("a b", 0, 4), vec!["a", "b"]);
    assert_eq!(label_prefix("Name", 8), "  Name      ");
    assert_eq!(label_prefix("Description", 4), "  Description  ");
}

#[test]
fn colors_and_icons() {
    let t = theme_default();
    assert_eq!(repo_color("core", &t), t.accent);
    assert_eq!(repo_color("extra", &t), t.selected);
    assert_eq!(repo_color("community", &t), t.success);
    assert_eq!(repo_color("aur", &t), t.accent);
    assert_eq!(repo_color("Core", &t), t.border);
    assert_eq!(status_icon(true, true, &t), (" ↑", t.warning, true));
    assert_eq!(status_icon(true, false, &t), (" ✔", Color::Green, false));
    assert_eq!(status_icon(false, false, &t), (" ○", t.border, false));
}
