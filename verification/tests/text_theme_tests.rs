use pkgman::text::{delete_last_word, lower_str, pop_char, split_lines, split_words_str, trim_str};
use pkgman::theme::{
    color_name, color_to_string, named_colors, string_to_color, theme_by_name, theme_count, themes, Color,
};

fn deleted(s: &str) -> String {
    let mut x = s.to_string();
    delete_last_word(&mut x);
    x
}

#[test]
fn delete_last_word_cases() {
    assert_eq!(deleted("hello world"), "hello ");
    assert_eq!(deleted("hello world   "), "hello ");
    assert_eq!(deleted("python-"), "python");
    assert_eq!(deleted("foo/bar"), "foo/");
    assert_eq!(deleted("   "), "");
    assert_eq!(deleted(""), "");
    assert_eq!(deleted("abc!"), "abc!");
    assert_eq!(deleted("héllo"), "");
}

#[test]
fn pop_char_cases() {
    let mut s = "ab".to_string();
    pop_char(&mut s);
    assert_eq!(s, "a");
    let mut e = String::new();
    pop_char(&mut e);
    assert_eq!(e, "");
}

#[test]
fn lines_words_trim() {
    assert_eq!(split_lines("a\r\nb\n\nc"), vec!["a", "b", "", "c"]);
    assert_eq!(split_lines("x\n"), vec!["x"]);
    assert!(split_lines("").is_empty());
    assert_eq!(split_words_str("  a  b\tc "), vec!["a", "b", "c"]);
    assert_eq!(trim_str("\t x y \n"), "x y");
    assert_eq!(lower_str("PyThOn"), "python");
}

#[test]
fn lowercasing_beyond_ascii() {
    assert_eq!(lower_str("ÄPFEL-Öl"), "äpfel-öl");
    assert_eq!(lower_str("ÉCOLE"), "école");
}

#[test]
fn color_names_round_trip() {
    for c in named_colors() {
        assert_eq!(string_to_color(&color_to_string(c)), c);
    }
    assert_eq!(color_to_string(Color::Rgb(0, 171, 255)), "#00ABFF");
    assert_eq!(string_to_color("#00abff"), Color::Rgb(0, 171, 255));
    assert_eq!(string_to_color("  LightBlue "), Color::LightBlue);
    assert_eq!(string_to_color("nonsense"), Color::Reset);
    assert_eq!(color_to_string(Color::Indexed(3)), "reset");
    assert_eq!(color_name(Color::DarkGray), "Dark Gray");
    assert_eq!(color_name(Color::Rgb(1, 2, 255)), "#0102FF");
}

#[test]
fn built_in_themes() {
    assert_eq!(themes().len(), theme_count());
    assert_eq!(theme_count(), 12);
    assert_eq!(theme_by_name("NORD").name, "nord");
    assert_eq!(theme_by_name("no such theme").name, "default");
}
