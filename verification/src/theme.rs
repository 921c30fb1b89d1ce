//! Colors, their names in configuration files, and the built-in themes.
use vstd::prelude::*;
use crate::text::{
    all_ascii, ascii_lower_char, ascii_lower_seq, chars_of, is_ws, lower, lower_str, owned, push_char, str_eq, trim,
    trim_end, trim_range, trim_start,
};

verus! {

/// A terminal color: a named color, an RGB triple, or a palette index.
#[derive(Clone, Copy, PartialEq, Eq, Debug, Structural)]
pub enum Color {
    Reset,
    Black,
    Red,
    Green,
    Yellow,
    Blue,
    Magenta,
    Cyan,
    Gray,
    DarkGray,
    LightRed,
    LightGreen,
    LightYellow,
    LightBlue,
    LightMagenta,
    LightCyan,
    White,
    Rgb(u8, u8, u8),
    Indexed(u8),
}

/// The named colors in the order the theme builder cycles through them.
pub open spec fn named_colors_spec() -> Seq<Color> {
    seq![
        Color::Reset,
        Color::Black,
        Color::Red,
        Color::Green,
        Color::Yellow,
        Color::Blue,
        Color::Magenta,
        Color::Cyan,
        Color::Gray,
        Color::DarkGray,
        Color::LightRed,
        Color::LightGreen,
        Color::LightYellow,
        Color::LightBlue,
        Color::LightMagenta,
        Color::LightCyan,
        Color::White,
    ]
}

/// The named colors in the order the theme builder cycles through them.
pub fn named_colors() -> (r: Vec<Color>)
    ensures
        r@ == named_colors_spec(),
{
    let r = vec![
        Color::Reset,
        Color::Black,
        Color::Red,
        Color::Green,
        Color::Yellow,
        Color::Blue,
        Color::Magenta,
        Color::Cyan,
        Color::Gray,
        Color::DarkGray,
        Color::LightRed,
        Color::LightGreen,
        Color::LightYellow,
        Color::LightBlue,
        Color::LightMagenta,
        Color::LightCyan,
        Color::White,
    ];
    assert(r@ =~= named_colors_spec());
    r
}

// ---------------------------------------------------------------------------
// Hexadecimal digits
// ---------------------------------------------------------------------------

pub open spec fn is_hex_digit(c: char) -> bool {
    ('0' <= c && c <= '9') || ('a' <= c && c <= 'f') || ('A' <= c && c <= 'F')
}

pub open spec fn hex_value(c: char) -> int {
    if '0' <= c && c <= '9' {
        c as int - '0' as int
    } else if 'a' <= c && c <= 'f' {
        c as int - 'a' as int + 10
    } else {
        c as int - 'A' as int + 10
    }
}

/// The uppercase hexadecimal digit of a value below sixteen.
pub open spec fn hex_digit_upper(v: int) -> char {
    if v < 10 {
        ((v + '0' as int) as u32) as char
    } else {
        ((v - 10 + 'A' as int) as u32) as char
    }
}

/// Two uppercase hexadecimal digits of a byte.
pub open spec fn hex_byte(b: u8) -> Seq<char> {
    seq![hex_digit_upper(b as int / 16), hex_digit_upper(b as int % 16)]
}

pub fn char_is_hex_digit(c: char) -> (b: bool)
    ensures
        b == is_hex_digit(c),
{
    ('0' <= c && c <= '9') || ('a' <= c && c <= 'f') || ('A' <= c && c <= 'F')
}

fn hex_digit_value(c: char) -> (v: u8)
    requires
        is_hex_digit(c),
    ensures
        v as int == hex_value(c),
        v < 16,
{
    if '0' <= c && c <= '9' {
        ((c as u32) - ('0' as u32)) as u8
    } else if 'a' <= c && c <= 'f' {
        ((c as u32) - ('a' as u32) + 10) as u8
    } else {
        ((c as u32) - ('A' as u32) + 10) as u8
    }
}

pub fn hex_digit_char(v: u32) -> (c: char)
    requires
        v < 16,
    ensures
        c == hex_digit_upper(v as int),
{
    if v < 10 {
        char_from_u32((v + 48) as u32)
    } else {
        char_from_u32((v - 10 + 65) as u32)
    }
}

/// `char::from_u32` on an ASCII code.
fn char_from_u32(u: u32) -> (c: char)
    requires
        u < 128,
    ensures
        c == (u as char),
{
    // every ASCII code is a valid char; the conversion is the identity
    u as u8 as char
}

// ---------------------------------------------------------------------------
// Color names in configuration files
// ---------------------------------------------------------------------------

/// The string a color is written as in configuration files; RGB values as
/// `#RRGGBB`, palette indices as `reset`.
pub open spec fn color_str(c: Color) -> Seq<char> {
    match c {
        Color::Reset => "reset"@,
        Color::Black => "black"@,
        Color::Red => "red"@,
        Color::Green => "green"@,
        Color::Yellow => "yellow"@,
        Color::Blue => "blue"@,
        Color::Magenta => "magenta"@,
        Color::Cyan => "cyan"@,
        Color::Gray => "gray"@,
        Color::DarkGray => "darkgray"@,
        Color::LightRed => "lightred"@,
        Color::LightGreen => "lightgreen"@,
        Color::LightYellow => "lightyellow"@,
        Color::LightBlue => "lightblue"@,
        Color::LightMagenta => "lightmagenta"@,
        Color::LightCyan => "lightcyan"@,
        Color::White => "white"@,
        Color::Rgb(r, g, b) => seq!['#'] + hex_byte(r) + hex_byte(g) + hex_byte(b),
        Color::Indexed(_) => "reset"@,
    }
}

/// The color a lowercase name stands for; unknown names give `Reset`.
pub open spec fn color_of_name(l: Seq<char>) -> Color {
    if l == "reset"@ {
        Color::Reset
    } else if l == "black"@ {
        Color::Black
    } else if l == "red"@ {
        Color::Red
    } else if l == "green"@ {
        Color::Green
    } else if l == "yellow"@ {
        Color::Yellow
    } else if l == "blue"@ {
        Color::Blue
    } else if l == "magenta"@ {
        Color::Magenta
    } else if l == "cyan"@ {
        Color::Cyan
    } else if l == "gray"@ {
        Color::Gray
    } else if l == "darkgray"@ {
        Color::DarkGray
    } else if l == "lightred"@ {
        Color::LightRed
    } else if l == "lightgreen"@ {
        Color::LightGreen
    } else if l == "lightyellow"@ {
        Color::LightYellow
    } else if l == "lightblue"@ {
        Color::LightBlue
    } else if l == "lightmagenta"@ {
        Color::LightMagenta
    } else if l == "lightcyan"@ {
        Color::LightCyan
    } else if l == "white"@ {
        Color::White
    } else {
        Color::Reset
    }
}

/// Six hexadecimal digits.
pub open spec fn is_hex6(h: Seq<char>) -> bool {
    h.len() == 6 && forall|i: int| 0 <= i < 6 ==> #[trigger] is_hex_digit(h[i])
}

pub open spec fn hex_pair(a: char, b: char) -> u8 {
    (hex_value(a) * 16 + hex_value(b)) as u8
}

/// The color a configuration value stands for: `#RRGGBB` or `RRGGBB` hex,
/// or a named color compared without regard to case; anything else is
/// `Reset`. Surrounding whitespace is ignored.
pub open spec fn parse_color(s: Seq<char>) -> Color {
    let t = trim(s);
    let h = if t.len() > 0 && t[0] == '#' {
        t.drop_first()
    } else {
        t
    };
    if is_hex6(h) {
        Color::Rgb(hex_pair(h[0], h[1]), hex_pair(h[2], h[3]), hex_pair(h[4], h[5]))
    } else {
        color_of_name(lower(t))
    }
}

fn push_hex_byte(s: &mut String, b: u8)
    ensures
        final(s)@ == old(s)@ + hex_byte(b),
{
    push_char(s, hex_digit_char((b / 16) as u32));
    push_char(s, hex_digit_char((b % 16) as u32));
    assert(final(s)@ =~= old(s)@ + hex_byte(b));
}

/// Serializes a color to the string form used in configuration files.
pub fn color_to_string(c: Color) -> (r: String)
    ensures
        r@ == color_str(c),
{
    let lit = match c {
        Color::Reset => "reset",
        Color::Black => "black",
        Color::Red => "red",
        Color::Green => "green",
        Color::Yellow => "yellow",
        Color::Blue => "blue",
        Color::Magenta => "magenta",
        Color::Cyan => "cyan",
        Color::Gray => "gray",
        Color::DarkGray => "darkgray",
        Color::LightRed => "lightred",
        Color::LightGreen => "lightgreen",
        Color::LightYellow => "lightyellow",
        Color::LightBlue => "lightblue",
        Color::LightMagenta => "lightmagenta",
        Color::LightCyan => "lightcyan",
        Color::White => "white",
        Color::Rgb(r, g, b) => {
            let mut s = String::new();
            push_char(&mut s, '#');
            push_hex_byte(&mut s, r);
            push_hex_byte(&mut s, g);
            push_hex_byte(&mut s, b);
            assert(s@ =~= color_str(c));
            return s;
        },
        Color::Indexed(_) => "reset",
    };
    owned(lit)
}

/// Parses a color from a configuration-file string. Accepts named colors
/// and `#RRGGBB` / `RRGGBB` hex strings.
pub fn string_to_color(s: &str) -> (r: Color)
    ensures
        r == parse_color(s@),
{
    let cs = chars_of(s);
    let (a, b) = trim_range(&cs, 0, cs.len());
    assert(cs@.subrange(0, cs@.len() as int) == cs@);
    let ghost t = cs@.subrange(a as int, b as int);
    let start = if a < b && cs[a] == '#' {
        a + 1
    } else {
        a
    };
    let ghost h = cs@.subrange(start as int, b as int);
    assert(h == (if t.len() > 0 && t[0] == '#' {
        t.drop_first()
    } else {
        t
    }));
    if b - start == 6 {
        let mut all = true;
        let mut i = start;
        while i < b
            invariant
                start <= i <= b <= cs@.len(),
                b - start == 6,
                h == cs@.subrange(start as int, b as int),
                all == (forall|k: int| start <= k < i ==> is_hex_digit(cs@[k])),
            decreases b - i,
        {
            all = all && char_is_hex_digit(cs[i]);
            i = i + 1;
        }
        if all {
            assert(is_hex6(h));
            let r = hex_digit_value(cs[start]) * 16 + hex_digit_value(cs[start + 1]);
            let g = hex_digit_value(cs[start + 2]) * 16 + hex_digit_value(cs[start + 3]);
            let bl = hex_digit_value(cs[start + 4]) * 16 + hex_digit_value(cs[start + 5]);
            return Color::Rgb(r, g, bl);
        } else {
            assert(!is_hex6(h)) by {
                let k = choose|k: int| start <= k < b && !is_hex_digit(cs@[k]);
                assert(h[k - start] == cs@[k]);
            }
        }
    }
    let mut tl = String::new();
    let mut i = a;
    while i < b
        invariant
            a <= i <= b <= cs@.len(),
            tl@ == cs@.subrange(a as int, i as int),
        decreases b - i,
    {
        push_char(&mut tl, cs[i]);
        assert(cs@.subrange(a as int, i + 1) == cs@.subrange(a as int, i as int).push(cs@[i as int]));
        i = i + 1;
    }
    let l = lower_str(tl.as_str());
    let l = l.as_str();
    if str_eq(l, "reset") {
        Color::Reset
    } else if str_eq(l, "black") {
        Color::Black
    } else if str_eq(l, "red") {
        Color::Red
    } else if str_eq(l, "green") {
        Color::Green
    } else if str_eq(l, "yellow") {
        Color::Yellow
    } else if str_eq(l, "blue") {
        Color::Blue
    } else if str_eq(l, "magenta") {
        Color::Magenta
    } else if str_eq(l, "cyan") {
        Color::Cyan
    } else if str_eq(l, "gray") {
        Color::Gray
    } else if str_eq(l, "darkgray") {
        Color::DarkGray
    } else if str_eq(l, "lightred") {
        Color::LightRed
    } else if str_eq(l, "lightgreen") {
        Color::LightGreen
    } else if str_eq(l, "lightyellow") {
        Color::LightYellow
    } else if str_eq(l, "lightblue") {
        Color::LightBlue
    } else if str_eq(l, "lightmagenta") {
        Color::LightMagenta
    } else if str_eq(l, "lightcyan") {
        Color::LightCyan
    } else if str_eq(l, "white") {
        Color::White
    } else {
        Color::Reset
    }
}

// ---------------------------------------------------------------------------
// Round trip of configuration strings
// ---------------------------------------------------------------------------

proof fn lemma_trim_noop(x: Seq<char>)
    requires
        x.len() > 0,
        !is_ws(x[0]),
        !is_ws(x.last()),
    ensures
        trim(x) == x,
{
}

proof fn lemma_hex_digit_round_trip(v: int)
    requires
        0 <= v < 16,
    ensures
        is_hex_digit(hex_digit_upper(v)),
        hex_value(hex_digit_upper(v)) == v,
        !is_ws(hex_digit_upper(v)),
        (hex_digit_upper(v) as u32) < 128,
{
}

pub proof fn lemma_hex_byte_round_trip(b: u8)
    ensures
        is_hex_digit(hex_byte(b)[0]),
        is_hex_digit(hex_byte(b)[1]),
        hex_pair(hex_byte(b)[0], hex_byte(b)[1]) == b,
        !is_ws(hex_byte(b)[1]),
{
    lemma_hex_digit_round_trip(b as int / 16);
    lemma_hex_digit_round_trip(b as int % 16);
}

proof fn lemma_named_round_trip(x: Seq<char>, c: Color)
    requires
        x == color_str(c),
        x.len() > 0,
        x.len() != 6 || !is_hex_digit(x[0]),
        x[0] != '#',
        forall|i: int| 0 <= i < x.len() ==> #[trigger] is_ascii_lowercase_letter(x[i]),
        color_of_name(x) == c,
    ensures
        parse_color(x) == c,
{
    assert(is_ascii_lowercase_letter(x[0]));
    assert(is_ascii_lowercase_letter(x[x.len() - 1]));
    lemma_trim_noop(x);
    assert forall|i: int| 0 <= i < x.len() implies (#[trigger] x[i] as u32) < 128 by {
        assert(is_ascii_lowercase_letter(x[i]));
    }
    assert forall|i: int| 0 <= i < x.len() implies #[trigger] ascii_lower_seq(x)[i] == x[i] by {
        assert(is_ascii_lowercase_letter(x[i]));
    }
    assert(ascii_lower_seq(x) =~= x);
}

pub open spec fn is_ascii_lowercase_letter(c: char) -> bool {
    'a' <= c && c <= 'z'
}

/// Writing a color to a configuration file and reading it back gives the
/// same color, for every named color and every RGB color.
pub proof fn lemma_color_round_trip(c: Color)
    requires
        !(c is Indexed),
    ensures
        parse_color(color_str(c)) == c,
{
    let x = color_str(c);
    match c {
        Color::Rgb(r, g, b) => {
            lemma_hex_byte_round_trip(r);
            lemma_hex_byte_round_trip(g);
            lemma_hex_byte_round_trip(b);
            assert(x.len() == 7);
            assert(x.last() == hex_byte(b)[1]);
            lemma_trim_noop(x);
            let h = x.drop_first();
            assert(h =~= hex_byte(r) + hex_byte(g) + hex_byte(b));
            assert(is_hex6(h));
        },
        Color::Reset => {
            reveal_strlit("reset");
            lemma_named_round_trip(x, c);
        },
        Color::Black => {
            reveal_strlit("reset");
            reveal_strlit("black");
            lemma_named_round_trip(x, c);
        },
        Color::Red => {
            reveal_strlit("reset");
            reveal_strlit("black");
            reveal_strlit("red");
            lemma_named_round_trip(x, c);
        },
        Color::Green => {
            reveal_strlit("reset");
            reveal_strlit("black");
            reveal_strlit("red");
            reveal_strlit("green");
            lemma_named_round_trip(x, c);
        },
        Color::Yellow => {
            reveal_strlit("reset");
            reveal_strlit("black");
            reveal_strlit("red");
            reveal_strlit("green");
            reveal_strlit("yellow");
            lemma_named_round_trip(x, c);
        },
        Color::Blue => {
            reveal_strlit("reset");
            reveal_strlit("black");
            reveal_strlit("red");
            reveal_strlit("green");
            reveal_strlit("yellow");
            reveal_strlit("blue");
            lemma_named_round_trip(x, c);
        },
        Color::Magenta => {
            reveal_strlit("reset");
            reveal_strlit("black");
            reveal_strlit("red");
            reveal_strlit("green");
            reveal_strlit("yellow");
            reveal_strlit("blue");
            reveal_strlit("magenta");
            lemma_named_round_trip(x, c);
        },
        Color::Cyan => {
            reveal_strlit("reset");
            reveal_strlit("black");
            reveal_strlit("red");
            reveal_strlit("green");
            reveal_strlit("yellow");
            reveal_strlit("blue");
            reveal_strlit("magenta");
            reveal_strlit("cyan");
            lemma_named_round_trip(x, c);
        },
        Color::Gray => {
            reveal_strlit("reset");
            reveal_strlit("black");
            reveal_strlit("red");
            reveal_strlit("green");
            reveal_strlit("yellow");
            reveal_strlit("blue");
            reveal_strlit("magenta");
            reveal_strlit("cyan");
            reveal_strlit("gray");
            lemma_named_round_trip(x, c);
        },
        Color::DarkGray => {
            reveal_strlit("reset");
            reveal_strlit("black");
            reveal_strlit("red");
            reveal_strlit("green");
            reveal_strlit("yellow");
            reveal_strlit("blue");
            reveal_strlit("magenta");
            reveal_strlit("cyan");
            reveal_strlit("gray");
            reveal_strlit("darkgray");
            lemma_named_round_trip(x, c);
        },
        Color::LightRed => {
            reveal_strlit("reset");
            reveal_strlit("black");
            reveal_strlit("red");
            reveal_strlit("green");
            reveal_strlit("yellow");
            reveal_strlit("blue");
            reveal_strlit("magenta");
            reveal_strlit("cyan");
            reveal_strlit("gray");
            reveal_strlit("darkgray");
            reveal_strlit("lightred");
            lemma_named_round_trip(x, c);
        },
        Color::LightGreen => {
            reveal_strlit("reset");
            reveal_strlit("black");
            reveal_strlit("red");
            reveal_strlit("green");
            reveal_strlit("yellow");
            reveal_strlit("blue");
            reveal_strlit("magenta");
            reveal_strlit("cyan");
            reveal_strlit("gray");
            reveal_strlit("darkgray");
            reveal_strlit("lightred");
            reveal_strlit("lightgreen");
            lemma_named_round_trip(x, c);
        },
        Color::LightYellow => {
            reveal_strlit("reset");
            reveal_strlit("black");
            reveal_strlit("red");
            reveal_strlit("green");
            reveal_strlit("yellow");
            reveal_strlit("blue");
            reveal_strlit("magenta");
            reveal_strlit("cyan");
            reveal_strlit("gray");
            reveal_strlit("darkgray");
            reveal_strlit("lightred");
            reveal_strlit("lightgreen");
            reveal_strlit("lightyellow");
            lemma_named_round_trip(x, c);
        },
        Color::LightBlue => {
            reveal_strlit("reset");
            reveal_strlit("black");
            reveal_strlit("red");
            reveal_strlit("green");
            reveal_strlit("yellow");
            reveal_strlit("blue");
            reveal_strlit("magenta");
            reveal_strlit("cyan");
            reveal_strlit("gray");
            reveal_strlit("darkgray");
            reveal_strlit("lightred");
            reveal_strlit("lightgreen");
            reveal_strlit("lightyellow");
            reveal_strlit("lightblue");
            lemma_named_round_trip(x, c);
        },
        Color::LightMagenta => {
            reveal_strlit("reset");
            reveal_strlit("black");
            reveal_strlit("red");
            reveal_strlit("green");
            reveal_strlit("yellow");
            reveal_strlit("blue");
            reveal_strlit("magenta");
            reveal_strlit("cyan");
            reveal_strlit("gray");
            reveal_strlit("darkgray");
            reveal_strlit("lightred");
            reveal_strlit("lightgreen");
            reveal_strlit("lightyellow");
            reveal_strlit("lightblue");
            reveal_strlit("lightmagenta");
            lemma_named_round_trip(x, c);
        },
        Color::LightCyan => {
            reveal_strlit("reset");
            reveal_strlit("black");
            reveal_strlit("red");
            reveal_strlit("green");
            reveal_strlit("yellow");
            reveal_strlit("blue");
            reveal_strlit("magenta");
            reveal_strlit("cyan");
            reveal_strlit("gray");
            reveal_strlit("darkgray");
            reveal_strlit("lightred");
            reveal_strlit("lightgreen");
            reveal_strlit("lightyellow");
            reveal_strlit("lightblue");
            reveal_strlit("lightmagenta");
            reveal_strlit("lightcyan");
            lemma_named_round_trip(x, c);
        },
        Color::White => {
            reveal_strlit("reset");
            reveal_strlit("black");
            reveal_strlit("red");
            reveal_strlit("green");
            reveal_strlit("yellow");
            reveal_strlit("blue");
            reveal_strlit("magenta");
            reveal_strlit("cyan");
            reveal_strlit("gray");
            reveal_strlit("darkgray");
            reveal_strlit("lightred");
            reveal_strlit("lightgreen");
            reveal_strlit("lightyellow");
            reveal_strlit("lightblue");
            reveal_strlit("lightmagenta");
            reveal_strlit("lightcyan");
            reveal_strlit("white");
            lemma_named_round_trip(x, c);
        },
        Color::Indexed(_) => {},
    }
}


// ---------------------------------------------------------------------------
// Themes
// ---------------------------------------------------------------------------

/// A named set of interface colors.
#[derive(Clone, Debug)]
pub struct Theme {
    pub name: String,
    pub background: Color,
    pub foreground: Color,
    pub border: Color,
    pub highlight_fg: Color,
    pub highlight_bg: Color,
    pub accent: Color,
    pub selected: Color,
    pub success: Color,
    pub warning: Color,
    pub error: Color,
}

/// The contents of a [`Theme`].
pub ghost struct ThemeView {
    pub name: Seq<char>,
    pub background: Color,
    pub foreground: Color,
    pub border: Color,
    pub highlight_fg: Color,
    pub highlight_bg: Color,
    pub accent: Color,
    pub selected: Color,
    pub success: Color,
    pub warning: Color,
    pub error: Color,
}

impl View for Theme {
    type V = ThemeView;

    open spec fn view(&self) -> ThemeView {
        ThemeView {
            name: self.name@,
            background: self.background,
            foreground: self.foreground,
            border: self.border,
            highlight_fg: self.highlight_fg,
            highlight_bg: self.highlight_bg,
            accent: self.accent,
            selected: self.selected,
            success: self.success,
            warning: self.warning,
            error: self.error,
        }
    }
}

pub open spec fn theme_default_spec() -> ThemeView {
    ThemeView {
        name: "default"@,
        background: Color::Reset,
        foreground: Color::White,
        border: Color::DarkGray,
        highlight_fg: Color::Black,
        highlight_bg: Color::Cyan,
        accent: Color::Cyan,
        selected: Color::Yellow,
        success: Color::Green,
        warning: Color::Yellow,
        error: Color::Red,
    }
}

pub fn theme_default() -> (t: Theme)
    ensures
        t@ == theme_default_spec(),
{
    Theme {
        name: owned("default"),
        background: Color::Reset,
        foreground: Color::White,
        border: Color::DarkGray,
        highlight_fg: Color::Black,
        highlight_bg: Color::Cyan,
        accent: Color::Cyan,
        selected: Color::Yellow,
        success: Color::Green,
        warning: Color::Yellow,
        error: Color::Red,
    }
}

pub open spec fn theme_dracula_spec() -> ThemeView {
    ThemeView {
        name: "dracula"@,
        background: Color::Rgb(40, 42, 54),
        foreground: Color::Rgb(248, 248, 242),
        border: Color::Rgb(189, 147, 249),
        highlight_fg: Color::Rgb(40, 42, 54),
        highlight_bg: Color::Rgb(189, 147, 249),
        accent: Color::Rgb(255, 121, 198),
        selected: Color::Rgb(241, 250, 140),
        success: Color::Rgb(80, 250, 123),
        warning: Color::Rgb(255, 184, 108),
        error: Color::Rgb(255, 85, 85),
    }
}

pub fn theme_dracula() -> (t: Theme)
    ensures
        t@ == theme_dracula_spec(),
{
    Theme {
        name: owned("dracula"),
        background: Color::Rgb(40, 42, 54),
        foreground: Color::Rgb(248, 248, 242),
        border: Color::Rgb(189, 147, 249),
        highlight_fg: Color::Rgb(40, 42, 54),
        highlight_bg: Color::Rgb(189, 147, 249),
        accent: Color::Rgb(255, 121, 198),
        selected: Color::Rgb(241, 250, 140),
        success: Color::Rgb(80, 250, 123),
        warning: Color::Rgb(255, 184, 108),
        error: Color::Rgb(255, 85, 85),
    }
}

pub open spec fn theme_nord_spec() -> ThemeView {
    ThemeView {
        name: "nord"@,
        background: Color::Rgb(46, 52, 64),
        foreground: Color::Rgb(236, 239, 244),
        border: Color::Rgb(136, 192, 208),
        highlight_fg: Color::Rgb(46, 52, 64),
        highlight_bg: Color::Rgb(136, 192, 208),
        accent: Color::Rgb(129, 161, 193),
        selected: Color::Rgb(235, 203, 139),
        success: Color::Rgb(163, 190, 140),
        warning: Color::Rgb(235, 203, 139),
        error: Color::Rgb(191, 97, 106),
    }
}

pub fn theme_nord() -> (t: Theme)
    ensures
        t@ == theme_nord_spec(),
{
    Theme {
        name: owned("nord"),
        background: Color::Rgb(46, 52, 64),
        foreground: Color::Rgb(236, 239, 244),
        border: Color::Rgb(136, 192, 208),
        highlight_fg: Color::Rgb(46, 52, 64),
        highlight_bg: Color::Rgb(136, 192, 208),
        accent: Color::Rgb(129, 161, 193),
        selected: Color::Rgb(235, 203, 139),
        success: Color::Rgb(163, 190, 140),
        warning: Color::Rgb(235, 203, 139),
        error: Color::Rgb(191, 97, 106),
    }
}

pub open spec fn theme_gruvbox_spec() -> ThemeView {
    ThemeView {
        name: "gruvbox"@,
        background: Color::Rgb(40, 40, 40),
        foreground: Color::Rgb(235, 219, 178),
        border: Color::Rgb(168, 153, 132),
        highlight_fg: Color::Rgb(40, 40, 40),
        highlight_bg: Color::Rgb(215, 153, 33),
        accent: Color::Rgb(250, 189, 47),
        selected: Color::Rgb(184, 187, 38),
        success: Color::Rgb(184, 187, 38),
        warning: Color::Rgb(250, 189, 47),
        error: Color::Rgb(251, 73, 52),
    }
}

pub fn theme_gruvbox() -> (t: Theme)
    ensures
        t@ == theme_gruvbox_spec(),
{
    Theme {
        name: owned("gruvbox"),
        background: Color::Rgb(40, 40, 40),
        foreground: Color::Rgb(235, 219, 178),
        border: Color::Rgb(168, 153, 132),
        highlight_fg: Color::Rgb(40, 40, 40),
        highlight_bg: Color::Rgb(215, 153, 33),
        accent: Color::Rgb(250, 189, 47),
        selected: Color::Rgb(184, 187, 38),
        success: Color::Rgb(184, 187, 38),
        warning: Color::Rgb(250, 189, 47),
        error: Color::Rgb(251, 73, 52),
    }
}

pub open spec fn theme_solarized_spec() -> ThemeView {
    ThemeView {
        name: "solarized"@,
        background: Color::Rgb(0, 43, 54),
        foreground: Color::Rgb(131, 148, 150),
        border: Color::Rgb(42, 161, 152),
        highlight_fg: Color::Rgb(0, 43, 54),
        highlight_bg: Color::Rgb(42, 161, 152),
        accent: Color::Rgb(38, 139, 210),
        selected: Color::Rgb(181, 137, 0),
        success: Color::Rgb(133, 153, 0),
        warning: Color::Rgb(181, 137, 0),
        error: Color::Rgb(220, 50, 47),
    }
}

pub fn theme_solarized() -> (t: Theme)
    ensures
        t@ == theme_solarized_spec(),
{
    Theme {
        name: owned("solarized"),
        background: Color::Rgb(0, 43, 54),
        foreground: Color::Rgb(131, 148, 150),
        border: Color::Rgb(42, 161, 152),
        highlight_fg: Color::Rgb(0, 43, 54),
        highlight_bg: Color::Rgb(42, 161, 152),
        accent: Color::Rgb(38, 139, 210),
        selected: Color::Rgb(181, 137, 0),
        success: Color::Rgb(133, 153, 0),
        warning: Color::Rgb(181, 137, 0),
        error: Color::Rgb(220, 50, 47),
    }
}

pub open spec fn theme_monokai_spec() -> ThemeView {
    ThemeView {
        name: "monokai"@,
        background: Color::Rgb(39, 40, 34),
        foreground: Color::Rgb(248, 248, 242),
        border: Color::Rgb(174, 129, 255),
        highlight_fg: Color::Rgb(39, 40, 34),
        highlight_bg: Color::Rgb(166, 226, 46),
        accent: Color::Rgb(174, 129, 255),
        selected: Color::Rgb(230, 219, 116),
        success: Color::Rgb(166, 226, 46),
        warning: Color::Rgb(253, 151, 31),
        error: Color::Rgb(249, 38, 114),
    }
}

pub fn theme_monokai() -> (t: Theme)
    ensures
        t@ == theme_monokai_spec(),
{
    Theme {
        name: owned("monokai"),
        background: Color::Rgb(39, 40, 34),
        foreground: Color::Rgb(248, 248, 242),
        border: Color::Rgb(174, 129, 255),
        highlight_fg: Color::Rgb(39, 40, 34),
        highlight_bg: Color::Rgb(166, 226, 46),
        accent: Color::Rgb(174, 129, 255),
        selected: Color::Rgb(230, 219, 116),
        success: Color::Rgb(166, 226, 46),
        warning: Color::Rgb(253, 151, 31),
        error: Color::Rgb(249, 38, 114),
    }
}

pub open spec fn theme_matrix_spec() -> ThemeView {
    ThemeView {
        name: "matrix"@,
        background: Color::Rgb(0, 0, 0),
        foreground: Color::Rgb(0, 255, 65),
        border: Color::Rgb(0, 187, 48),
        highlight_fg: Color::Rgb(0, 0, 0),
        highlight_bg: Color::Rgb(0, 255, 65),
        accent: Color::Rgb(0, 187, 48),
        selected: Color::Rgb(255, 255, 255),
        success: Color::Rgb(0, 255, 65),
        warning: Color::Rgb(255, 204, 0),
        error: Color::Rgb(255, 50, 50),
    }
}

pub fn theme_matrix() -> (t: Theme)
    ensures
        t@ == theme_matrix_spec(),
{
    Theme {
        name: owned("matrix"),
        background: Color::Rgb(0, 0, 0),
        foreground: Color::Rgb(0, 255, 65),
        border: Color::Rgb(0, 187, 48),
        highlight_fg: Color::Rgb(0, 0, 0),
        highlight_bg: Color::Rgb(0, 255, 65),
        accent: Color::Rgb(0, 187, 48),
        selected: Color::Rgb(255, 255, 255),
        success: Color::Rgb(0, 255, 65),
        warning: Color::Rgb(255, 204, 0),
        error: Color::Rgb(255, 50, 50),
    }
}

pub open spec fn theme_catppuccin_spec() -> ThemeView {
    ThemeView {
        name: "catppuccin"@,
        background: Color::Rgb(30, 30, 46),
        foreground: Color::Rgb(205, 214, 244),
        border: Color::Rgb(137, 180, 250),
        highlight_fg: Color::Rgb(30, 30, 46),
        highlight_bg: Color::Rgb(137, 180, 250),
        accent: Color::Rgb(203, 166, 247),
        selected: Color::Rgb(249, 226, 175),
        success: Color::Rgb(166, 227, 161),
        warning: Color::Rgb(249, 226, 175),
        error: Color::Rgb(243, 139, 168),
    }
}

pub fn theme_catppuccin() -> (t: Theme)
    ensures
        t@ == theme_catppuccin_spec(),
{
    Theme {
        name: owned("catppuccin"),
        background: Color::Rgb(30, 30, 46),
        foreground: Color::Rgb(205, 214, 244),
        border: Color::Rgb(137, 180, 250),
        highlight_fg: Color::Rgb(30, 30, 46),
        highlight_bg: Color::Rgb(137, 180, 250),
        accent: Color::Rgb(203, 166, 247),
        selected: Color::Rgb(249, 226, 175),
        success: Color::Rgb(166, 227, 161),
        warning: Color::Rgb(249, 226, 175),
        error: Color::Rgb(243, 139, 168),
    }
}

pub open spec fn theme_tokyo_night_spec() -> ThemeView {
    ThemeView {
        name: "tokyo-night"@,
        background: Color::Rgb(26, 27, 38),
        foreground: Color::Rgb(169, 177, 214),
        border: Color::Rgb(122, 162, 247),
        highlight_fg: Color::Rgb(26, 27, 38),
        highlight_bg: Color::Rgb(122, 162, 247),
        accent: Color::Rgb(187, 154, 247),
        selected: Color::Rgb(224, 175, 104),
        success: Color::Rgb(158, 206, 106),
        warning: Color::Rgb(224, 175, 104),
        error: Color::Rgb(247, 118, 142),
    }
}

pub fn theme_tokyo_night() -> (t: Theme)
    ensures
        t@ == theme_tokyo_night_spec(),
{
    Theme {
        name: owned("tokyo-night"),
        background: Color::Rgb(26, 27, 38),
        foreground: Color::Rgb(169, 177, 214),
        border: Color::Rgb(122, 162, 247),
        highlight_fg: Color::Rgb(26, 27, 38),
        highlight_bg: Color::Rgb(122, 162, 247),
        accent: Color::Rgb(187, 154, 247),
        selected: Color::Rgb(224, 175, 104),
        success: Color::Rgb(158, 206, 106),
        warning: Color::Rgb(224, 175, 104),
        error: Color::Rgb(247, 118, 142),
    }
}

pub open spec fn theme_rose_pine_spec() -> ThemeView {
    ThemeView {
        name: "rose-pine"@,
        background: Color::Rgb(25, 23, 36),
        foreground: Color::Rgb(224, 222, 244),
        border: Color::Rgb(196, 167, 231),
        highlight_fg: Color::Rgb(25, 23, 36),
        highlight_bg: Color::Rgb(196, 167, 231),
        accent: Color::Rgb(235, 188, 186),
        selected: Color::Rgb(246, 193, 119),
        success: Color::Rgb(156, 207, 216),
        warning: Color::Rgb(246, 193, 119),
        error: Color::Rgb(235, 111, 146),
    }
}

pub fn theme_rose_pine() -> (t: Theme)
    ensures
        t@ == theme_rose_pine_spec(),
{
    Theme {
        name: owned("rose-pine"),
        background: Color::Rgb(25, 23, 36),
        foreground: Color::Rgb(224, 222, 244),
        border: Color::Rgb(196, 167, 231),
        highlight_fg: Color::Rgb(25, 23, 36),
        highlight_bg: Color::Rgb(196, 167, 231),
        accent: Color::Rgb(235, 188, 186),
        selected: Color::Rgb(246, 193, 119),
        success: Color::Rgb(156, 207, 216),
        warning: Color::Rgb(246, 193, 119),
        error: Color::Rgb(235, 111, 146),
    }
}

pub open spec fn theme_everforest_spec() -> ThemeView {
    ThemeView {
        name: "everforest"@,
        background: Color::Rgb(45, 53, 59),
        foreground: Color::Rgb(211, 198, 170),
        border: Color::Rgb(131, 165, 152),
        highlight_fg: Color::Rgb(45, 53, 59),
        highlight_bg: Color::Rgb(131, 165, 152),
        accent: Color::Rgb(127, 187, 179),
        selected: Color::Rgb(219, 188, 127),
        success: Color::Rgb(167, 192, 128),
        warning: Color::Rgb(219, 188, 127),
        error: Color::Rgb(230, 126, 128),
    }
}

pub fn theme_everforest() -> (t: Theme)
    ensures
        t@ == theme_everforest_spec(),
{
    Theme {
        name: owned("everforest"),
        background: Color::Rgb(45, 53, 59),
        foreground: Color::Rgb(211, 198, 170),
        border: Color::Rgb(131, 165, 152),
        highlight_fg: Color::Rgb(45, 53, 59),
        highlight_bg: Color::Rgb(131, 165, 152),
        accent: Color::Rgb(127, 187, 179),
        selected: Color::Rgb(219, 188, 127),
        success: Color::Rgb(167, 192, 128),
        warning: Color::Rgb(219, 188, 127),
        error: Color::Rgb(230, 126, 128),
    }
}

pub open spec fn theme_one_dark_spec() -> ThemeView {
    ThemeView {
        name: "one-dark"@,
        background: Color::Rgb(40, 44, 52),
        foreground: Color::Rgb(171, 178, 191),
        border: Color::Rgb(97, 175, 239),
        highlight_fg: Color::Rgb(40, 44, 52),
        highlight_bg: Color::Rgb(97, 175, 239),
        accent: Color::Rgb(198, 120, 221),
        selected: Color::Rgb(229, 192, 123),
        success: Color::Rgb(152, 195, 121),
        warning: Color::Rgb(229, 192, 123),
        error: Color::Rgb(224, 108, 117),
    }
}

pub fn theme_one_dark() -> (t: Theme)
    ensures
        t@ == theme_one_dark_spec(),
{
    Theme {
        name: owned("one-dark"),
        background: Color::Rgb(40, 44, 52),
        foreground: Color::Rgb(171, 178, 191),
        border: Color::Rgb(97, 175, 239),
        highlight_fg: Color::Rgb(40, 44, 52),
        highlight_bg: Color::Rgb(97, 175, 239),
        accent: Color::Rgb(198, 120, 221),
        selected: Color::Rgb(229, 192, 123),
        success: Color::Rgb(152, 195, 121),
        warning: Color::Rgb(229, 192, 123),
        error: Color::Rgb(224, 108, 117),
    }
}

/// The built-in themes, the default first.
pub open spec fn themes_spec() -> Seq<ThemeView> {
    seq![
        theme_default_spec(),
        theme_dracula_spec(),
        theme_nord_spec(),
        theme_gruvbox_spec(),
        theme_solarized_spec(),
        theme_monokai_spec(),
        theme_matrix_spec(),
        theme_catppuccin_spec(),
        theme_tokyo_night_spec(),
        theme_rose_pine_spec(),
        theme_everforest_spec(),
        theme_one_dark_spec(),
    ]
}

/// The built-in themes, the default first.
pub fn themes() -> (r: Vec<Theme>)
    ensures
        theme_views(r@) == themes_spec(),
{
    let mut r: Vec<Theme> = Vec::new();
    r.push(theme_default());
    r.push(theme_dracula());
    r.push(theme_nord());
    r.push(theme_gruvbox());
    r.push(theme_solarized());
    r.push(theme_monokai());
    r.push(theme_matrix());
    r.push(theme_catppuccin());
    r.push(theme_tokyo_night());
    r.push(theme_rose_pine());
    r.push(theme_everforest());
    r.push(theme_one_dark());
    assert(theme_views(r@) =~= themes_spec());
    r
}

/// The number of built-in themes.
pub fn theme_count() -> (n: usize)
    ensures
        n == themes_spec().len(),
{
    12
}

pub open spec fn theme_views(v: Seq<Theme>) -> Seq<ThemeView> {
    v.map_values(|t: Theme| t@)
}


// ---------------------------------------------------------------------------
// Display names and lookup
// ---------------------------------------------------------------------------

/// The name shown for a color in the theme builder.
pub open spec fn color_display_name(c: Color) -> Seq<char> {
    match c {
        Color::Reset => "Default/Reset"@,
        Color::Black => "Black"@,
        Color::Red => "Red"@,
        Color::Green => "Green"@,
        Color::Yellow => "Yellow"@,
        Color::Blue => "Blue"@,
        Color::Magenta => "Magenta"@,
        Color::Cyan => "Cyan"@,
        Color::Gray => "Gray"@,
        Color::DarkGray => "Dark Gray"@,
        Color::LightRed => "Light Red"@,
        Color::LightGreen => "Light Green"@,
        Color::LightYellow => "Light Yellow"@,
        Color::LightBlue => "Light Blue"@,
        Color::LightMagenta => "Light Magenta"@,
        Color::LightCyan => "Light Cyan"@,
        Color::White => "White"@,
        Color::Rgb(r, g, b) => seq!['#'] + hex_byte(r) + hex_byte(g) + hex_byte(b),
        Color::Indexed(_) => "Unknown"@,
    }
}

/// The name shown for a color in the theme builder.
pub fn color_name(c: Color) -> (r: String)
    ensures
        r@ == color_display_name(c),
{
    let lit = match c {
        Color::Reset => "Default/Reset",
        Color::Black => "Black",
        Color::Red => "Red",
        Color::Green => "Green",
        Color::Yellow => "Yellow",
        Color::Blue => "Blue",
        Color::Magenta => "Magenta",
        Color::Cyan => "Cyan",
        Color::Gray => "Gray",
        Color::DarkGray => "Dark Gray",
        Color::LightRed => "Light Red",
        Color::LightGreen => "Light Green",
        Color::LightYellow => "Light Yellow",
        Color::LightBlue => "Light Blue",
        Color::LightMagenta => "Light Magenta",
        Color::LightCyan => "Light Cyan",
        Color::White => "White",
        Color::Rgb(_, _, _) => {
            let s = color_to_string(c);
            return s;
        },
        Color::Indexed(_) => "Unknown",
    };
    owned(lit)
}

/// `str::eq_ignore_ascii_case`.
pub open spec fn eq_ignore_ascii_case(a: Seq<char>, b: Seq<char>) -> bool {
    ascii_lower_seq(a) == ascii_lower_seq(b)
}

pub fn str_eq_ignore_ascii_case(a: &str, b: &str) -> (r: bool)
    ensures
        r == eq_ignore_ascii_case(a@, b@),
{
    let x = chars_of(a);
    let y = chars_of(b);
    if x.len() != y.len() {
        assert(ascii_lower_seq(a@).len() != ascii_lower_seq(b@).len());
        return false;
    }
    let mut i: usize = 0;
    while i < x.len()
        invariant
            x@ == a@,
            y@ == b@,
            x@.len() == y@.len(),
            i <= x@.len(),
            forall|k: int| 0 <= k < i ==> ascii_lower_char(x@[k]) == ascii_lower_char(y@[k]),
        decreases x.len() - i,
    {
        let c = x[i];
        let d = y[i];
        let lc = if 'A' <= c && c <= 'Z' {
            ((c as u8) + 32) as char
        } else {
            c
        };
        let ld = if 'A' <= d && d <= 'Z' {
            ((d as u8) + 32) as char
        } else {
            d
        };
        assert(lc == ascii_lower_char(c));
        assert(ld == ascii_lower_char(d));
        if lc != ld {
            assert(ascii_lower_seq(a@)[i as int] != ascii_lower_seq(b@)[i as int]);
            return false;
        }
        i = i + 1;
    }
    assert(ascii_lower_seq(a@) =~= ascii_lower_seq(b@));
    true
}

/// The first theme from index `i` on whose name matches `name` without
/// regard to ASCII case.
pub open spec fn find_theme_from(ts: Seq<ThemeView>, name: Seq<char>, i: int) -> Option<ThemeView>
    decreases ts.len() - i,
{
    if i < 0 || i >= ts.len() {
        None
    } else if eq_ignore_ascii_case(ts[i].name, name) {
        Some(ts[i])
    } else {
        find_theme_from(ts, name, i + 1)
    }
}

/// A name without ASCII capitals is its own lowercase form.
proof fn lemma_lower_name(s: Seq<char>)
    requires
        forall|k: int| 0 <= k < s.len() ==> !('A' <= #[trigger] s[k] && s[k] <= 'Z'),
    ensures
        crate::text::ascii_lower_seq(s) == s,
{
    assert(crate::text::ascii_lower_seq(s) =~= s);
}

/// The search finds the theme at `i` when none before it (from `j` on)
/// matches.
proof fn lemma_find_theme_at(ts: Seq<ThemeView>, name: Seq<char>, j: int, i: int)
    requires
        0 <= j <= i < ts.len(),
        eq_ignore_ascii_case(ts[i].name, name),
        forall|m: int| j <= m < i ==> !eq_ignore_ascii_case(#[trigger] ts[m].name, name),
    ensures
        find_theme_from(ts, name, j) == Some(ts[i]),
    decreases i - j,
{
    if j < i {
        lemma_find_theme_at(ts, name, j + 1, i);
    }
}

proof fn lemma_find_theme_none(ts: Seq<ThemeView>, name: Seq<char>, j: int)
    requires
        0 <= j,
        forall|m: int| j <= m < ts.len() ==> !eq_ignore_ascii_case(#[trigger] ts[m].name, name),
    ensures
        find_theme_from(ts, name, j) is None,
    decreases ts.len() - j,
{
    if j < ts.len() {
        lemma_find_theme_none(ts, name, j + 1);
    }
}

/// A name that is none of the built-in themes' names, in any ASCII case,
/// gives the default theme, the first built-in one.
pub proof fn lemma_unknown_theme_is_default(name: Seq<char>)
    requires
        forall|i: int| 0 <= i < themes_spec().len() ==> crate::text::ascii_lower_seq(name)
            != crate::text::ascii_lower_seq(#[trigger] themes_spec()[i].name),
    ensures
        theme_by_name_spec(name) == themes_spec()[0],
        theme_by_name_spec(name).name == "default"@,
{
    lemma_find_theme_none(themes_spec(), name, 0);
}

/// Every built-in theme is found by its own name, in any ASCII case of it.
pub proof fn lemma_builtin_theme_by_name(i: int, name: Seq<char>)
    requires
        0 <= i < themes_spec().len(),
        crate::text::ascii_lower_seq(name) == crate::text::ascii_lower_seq(themes_spec()[i].name),
    ensures
        theme_by_name_spec(name) == themes_spec()[i],
{
    reveal_strlit("default");
    reveal_strlit("dracula");
    reveal_strlit("nord");
    reveal_strlit("gruvbox");
    reveal_strlit("solarized");
    reveal_strlit("monokai");
    reveal_strlit("matrix");
    reveal_strlit("catppuccin");
    reveal_strlit("tokyo-night");
    reveal_strlit("rose-pine");
    reveal_strlit("everforest");
    reveal_strlit("one-dark");
    let ts = themes_spec();
    assert(ts[0].name == "default"@);
    assert(ts[1].name == "dracula"@);
    assert(ts[2].name == "nord"@);
    assert(ts[3].name == "gruvbox"@);
    assert(ts[4].name == "solarized"@);
    assert(ts[5].name == "monokai"@);
    assert(ts[6].name == "matrix"@);
    assert(ts[7].name == "catppuccin"@);
    assert(ts[8].name == "tokyo-night"@);
    assert(ts[9].name == "rose-pine"@);
    assert(ts[10].name == "everforest"@);
    assert(ts[11].name == "one-dark"@);
    if i == 0 {
        assert(true);
    } else if i == 1 {
        assert(ts[0].name[1] != ts[1].name[1]);
    } else if i == 2 {
        assert(ts[0].name.len() != ts[2].name.len());
        assert(ts[1].name.len() != ts[2].name.len());
    } else if i == 3 {
        assert(ts[0].name[0] != ts[3].name[0]);
        assert(ts[1].name[0] != ts[3].name[0]);
        assert(ts[2].name.len() != ts[3].name.len());
    } else if i == 4 {
        assert(ts[0].name.len() != ts[4].name.len());
        assert(ts[1].name.len() != ts[4].name.len());
        assert(ts[2].name.len() != ts[4].name.len());
        assert(ts[3].name.len() != ts[4].name.len());
    } else if i == 5 {
        assert(ts[0].name[0] != ts[5].name[0]);
        assert(ts[1].name[0] != ts[5].name[0]);
        assert(ts[2].name.len() != ts[5].name.len());
        assert(ts[3].name[0] != ts[5].name[0]);
        assert(ts[4].name.len() != ts[5].name.len());
    } else if i == 6 {
        assert(ts[0].name.len() != ts[6].name.len());
        assert(ts[1].name.len() != ts[6].name.len());
        assert(ts[2].name.len() != ts[6].name.len());
        assert(ts[3].name.len() != ts[6].name.len());
        assert(ts[4].name.len() != ts[6].name.len());
        assert(ts[5].name.len() != ts[6].name.len());
    } else if i == 7 {
        assert(ts[0].name.len() != ts[7].name.len());
        assert(ts[1].name.len() != ts[7].name.len());
        assert(ts[2].name.len() != ts[7].name.len());
        assert(ts[3].name.len() != ts[7].name.len());
        assert(ts[4].name.len() != ts[7].name.len());
        assert(ts[5].name.len() != ts[7].name.len());
        assert(ts[6].name.len() != ts[7].name.len());
    } else if i == 8 {
        assert(ts[0].name.len() != ts[8].name.len());
        assert(ts[1].name.len() != ts[8].name.len());
        assert(ts[2].name.len() != ts[8].name.len());
        assert(ts[3].name.len() != ts[8].name.len());
        assert(ts[4].name.len() != ts[8].name.len());
        assert(ts[5].name.len() != ts[8].name.len());
        assert(ts[6].name.len() != ts[8].name.len());
        assert(ts[7].name.len() != ts[8].name.len());
    } else if i == 9 {
        assert(ts[0].name.len() != ts[9].name.len());
        assert(ts[1].name.len() != ts[9].name.len());
        assert(ts[2].name.len() != ts[9].name.len());
        assert(ts[3].name.len() != ts[9].name.len());
        assert(ts[4].name[0] != ts[9].name[0]);
        assert(ts[5].name.len() != ts[9].name.len());
        assert(ts[6].name.len() != ts[9].name.len());
        assert(ts[7].name.len() != ts[9].name.len());
        assert(ts[8].name.len() != ts[9].name.len());
    } else if i == 10 {
        assert(ts[0].name.len() != ts[10].name.len());
        assert(ts[1].name.len() != ts[10].name.len());
        assert(ts[2].name.len() != ts[10].name.len());
        assert(ts[3].name.len() != ts[10].name.len());
        assert(ts[4].name.len() != ts[10].name.len());
        assert(ts[5].name.len() != ts[10].name.len());
        assert(ts[6].name.len() != ts[10].name.len());
        assert(ts[7].name[0] != ts[10].name[0]);
        assert(ts[8].name.len() != ts[10].name.len());
        assert(ts[9].name.len() != ts[10].name.len());
    } else if i == 11 {
        assert(ts[0].name.len() != ts[11].name.len());
        assert(ts[1].name.len() != ts[11].name.len());
        assert(ts[2].name.len() != ts[11].name.len());
        assert(ts[3].name.len() != ts[11].name.len());
        assert(ts[4].name.len() != ts[11].name.len());
        assert(ts[5].name.len() != ts[11].name.len());
        assert(ts[6].name.len() != ts[11].name.len());
        assert(ts[7].name.len() != ts[11].name.len());
        assert(ts[8].name.len() != ts[11].name.len());
        assert(ts[9].name.len() != ts[11].name.len());
        assert(ts[10].name.len() != ts[11].name.len());
    }
    assert forall|m: int| 0 <= m < ts.len() implies crate::text::ascii_lower_seq(#[trigger] ts[m].name)
        == ts[m].name by {
        lemma_lower_name(ts[m].name);
    }
    assert forall|m: int| 0 <= m < i implies !eq_ignore_ascii_case(#[trigger] ts[m].name, name) by {
        assert(crate::text::ascii_lower_seq(ts[m].name) == ts[m].name);
        assert(crate::text::ascii_lower_seq(ts[i].name) == ts[i].name);
        assert(ts[m].name != ts[i].name);
    }
    lemma_find_theme_at(ts, name, 0, i);
}

/// The built-in theme of that name, or the default theme.
pub open spec fn theme_by_name_spec(name: Seq<char>) -> ThemeView {
    match find_theme_from(themes_spec(), name, 0) {
        Some(t) => t,
        None => theme_default_spec(),
    }
}

/// Looks up a built-in theme by name, ignoring ASCII case; unknown names
/// give the default theme.
pub fn theme_by_name(name: &str) -> (t: Theme)
    ensures
        t@ == theme_by_name_spec(name@),
{
    let ts = themes();
    let mut i: usize = 0;
    while i < ts.len()
        invariant
            theme_views(ts@) == themes_spec(),
            i <= ts@.len(),
            find_theme_from(themes_spec(), name@, 0) == find_theme_from(themes_spec(), name@, i as int),
        decreases ts.len() - i,
    {
        assert(themes_spec()[i as int] == ts@[i as int]@);
        if str_eq_ignore_ascii_case(ts[i].name.as_str(), name) {
            return ts[i].clone_theme();
        }
        i = i + 1;
    }
    theme_default()
}

impl Theme {
    /// A copy of the theme.
    pub fn clone_theme(&self) -> (t: Theme)
        ensures
            t@ == self@,
    {
        Theme {
            name: self.name.clone(),
            background: self.background,
            foreground: self.foreground,
            border: self.border,
            highlight_fg: self.highlight_fg,
            highlight_bg: self.highlight_bg,
            accent: self.accent,
            selected: self.selected,
            success: self.success,
            warning: self.warning,
            error: self.error,
        }
    }
}

/// A theme by name, or a fully custom one built from individual color
/// strings when the name is `custom` (in any ASCII case).
pub open spec fn resolve_theme_spec(
    theme_name: Seq<char>,
    background: Seq<char>,
    foreground: Seq<char>,
    border: Seq<char>,
    highlight_fg: Seq<char>,
    highlight_bg: Seq<char>,
    accent: Seq<char>,
    selected: Seq<char>,
    success: Seq<char>,
    warning: Seq<char>,
    error: Seq<char>,
) -> ThemeView {
    if eq_ignore_ascii_case(theme_name, "custom"@) {
        ThemeView {
            name: "custom"@,
            background: parse_color(background),
            foreground: parse_color(foreground),
            border: parse_color(border),
            highlight_fg: parse_color(highlight_fg),
            highlight_bg: parse_color(highlight_bg),
            accent: parse_color(accent),
            selected: parse_color(selected),
            success: parse_color(success),
            warning: parse_color(warning),
            error: parse_color(error),
        }
    } else {
        theme_by_name_spec(theme_name)
    }
}

/// Returns a theme by name, or builds a fully custom one from individual
/// color strings (named or `#RRGGBB` hex).
pub fn resolve_theme(
    theme_name: &str,
    background: &str,
    foreground: &str,
    border: &str,
    highlight_fg: &str,
    highlight_bg: &str,
    accent: &str,
    selected: &str,
    success: &str,
    warning: &str,
    error: &str,
) -> (t: Theme)
    ensures
        t@ == resolve_theme_spec(theme_name@, background@, foreground@, border@, highlight_fg@, highlight_bg@, accent@, selected@, success@, warning@, error@),
{
    if str_eq_ignore_ascii_case(theme_name, "custom") {
        Theme {
            name: owned("custom"),
            background: string_to_color(background),
            foreground: string_to_color(foreground),
            border: string_to_color(border),
            highlight_fg: string_to_color(highlight_fg),
            highlight_bg: string_to_color(highlight_bg),
            accent: string_to_color(accent),
            selected: string_to_color(selected),
            success: string_to_color(success),
            warning: string_to_color(warning),
            error: string_to_color(error),
        }
    } else {
        theme_by_name(theme_name)
    }
}

} // verus!
