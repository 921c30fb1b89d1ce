//! The configuration: its defaults, the `key = value` file format it is
//! read from and written to, and the choice of AUR helper.
use vstd::prelude::*;
use crate::text::{
    append_str, is_plain_line, is_ws, join_lines, join_lines_exec, last_line_start, lemma_last_line_start,
    lemma_lines_append, lemma_lines_ended, lemma_lines_join, lemma_lines_single, lines, owned, split_lines, str_eq,
    string_views, trim, trim_end, trim_start, trim_str,
};
use crate::theme::{color_str, color_to_string, resolve_theme_spec, Color, Theme, ThemeView};

verus! {

/// The settings read from the configuration file.
pub struct Config {
    /// Enable AUR features: helper search/install, AUR database load,
    /// detail fetches of foreign packages.
    pub aur: bool,
    pub theme_name: String,
    pub theme_bg: String,
    pub theme_fg: String,
    pub theme_border: String,
    pub theme_highlight_fg: String,
    pub theme_highlight_bg: String,
    pub theme_accent: String,
    pub theme_selected: String,
    pub theme_success: String,
    pub theme_warning: String,
    pub theme_error: String,
}

/// The contents of a [`Config`].
pub ghost struct ConfigView {
    pub aur: bool,
    pub theme_name: Seq<char>,
    pub theme_bg: Seq<char>,
    pub theme_fg: Seq<char>,
    pub theme_border: Seq<char>,
    pub theme_highlight_fg: Seq<char>,
    pub theme_highlight_bg: Seq<char>,
    pub theme_accent: Seq<char>,
    pub theme_selected: Seq<char>,
    pub theme_success: Seq<char>,
    pub theme_warning: Seq<char>,
    pub theme_error: Seq<char>,
}

impl View for Config {
    type V = ConfigView;

    open spec fn view(&self) -> ConfigView {
        ConfigView {
            aur: self.aur,
            theme_name: self.theme_name@,
            theme_bg: self.theme_bg@,
            theme_fg: self.theme_fg@,
            theme_border: self.theme_border@,
            theme_highlight_fg: self.theme_highlight_fg@,
            theme_highlight_bg: self.theme_highlight_bg@,
            theme_accent: self.theme_accent@,
            theme_selected: self.theme_selected@,
            theme_success: self.theme_success@,
            theme_warning: self.theme_warning@,
            theme_error: self.theme_error@,
        }
    }
}

/// The defaults: AUR features on and the default theme.
pub open spec fn default_config() -> ConfigView {
    ConfigView {
        aur: true,
        theme_name: "default"@,
        theme_bg: "reset"@,
        theme_fg: "white"@,
        theme_border: "darkgray"@,
        theme_highlight_fg: "black"@,
        theme_highlight_bg: "cyan"@,
        theme_accent: "cyan"@,
        theme_selected: "yellow"@,
        theme_success: "green"@,
        theme_warning: "yellow"@,
        theme_error: "red"@,
    }
}

impl Default for Config {
    fn default() -> (c: Config)
        ensures
            c@ == default_config(),
    {
        Config {
            aur: true,
            theme_name: owned("default"),
            theme_bg: owned("reset"),
            theme_fg: owned("white"),
            theme_border: owned("darkgray"),
            theme_highlight_fg: owned("black"),
            theme_highlight_bg: owned("cyan"),
            theme_accent: owned("cyan"),
            theme_selected: owned("yellow"),
            theme_success: owned("green"),
            theme_warning: owned("yellow"),
            theme_error: owned("red"),
        }
    }
}

// ---------------------------------------------------------------------------
// Reading
// ---------------------------------------------------------------------------

/// A boolean setting: `true`, `1`, `yes`, `on` or `false`, `0`, `no`, `off`.
pub open spec fn parse_bool_spec(v: Seq<char>) -> Option<bool> {
    if v == "true"@ || v == "1"@ || v == "yes"@ || v == "on"@ {
        Some(true)
    } else if v == "false"@ || v == "0"@ || v == "no"@ || v == "off"@ {
        Some(false)
    } else {
        None
    }
}

/// Reads a boolean setting.
pub fn parse_bool(v: &str) -> (r: Option<bool>)
    ensures
        r == parse_bool_spec(v@),
{
    if str_eq(v, "true") || str_eq(v, "1") || str_eq(v, "yes") || str_eq(v, "on") {
        Some(true)
    } else if str_eq(v, "false") || str_eq(v, "0") || str_eq(v, "no") || str_eq(v, "off") {
        Some(false)
    } else {
        None
    }
}

/// The first position of `c` in `s` at or after `i`, or the length.
pub open spec fn index_from(s: Seq<char>, c: char, i: int) -> int
    decreases s.len() - i,
{
    if i < 0 || i >= s.len() {
        s.len() as int
    } else if s[i] == c {
        i
    } else {
        index_from(s, c, i + 1)
    }
}

/// `s` without leading copies of `c`.
pub open spec fn strip_start(s: Seq<char>, c: char) -> Seq<char>
    decreases s.len(),
{
    if s.len() > 0 && s[0] == c {
        strip_start(s.drop_first(), c)
    } else {
        s
    }
}

/// `s` without trailing copies of `c`.
pub open spec fn strip_end(s: Seq<char>, c: char) -> Seq<char>
    decreases s.len(),
{
    if s.len() > 0 && s.last() == c {
        strip_end(s.drop_last(), c)
    } else {
        s
    }
}

/// `str::trim_matches('"')`.
pub open spec fn trim_quotes(s: Seq<char>) -> Seq<char> {
    strip_end(strip_start(s, '"'), '"')
}

/// The effect of one line of the configuration file. Blank lines, lines
/// starting with `#` and lines without `=` are ignored; otherwise the key
/// before the first `=` and the value after it are trimmed, and the value
/// loses its surrounding quotes. `aur` takes a boolean (an unreadable one is
/// ignored); the theme keys take the value; other keys are ignored.
pub open spec fn apply_line(c: ConfigView, line: Seq<char>) -> ConfigView {
    let t = trim(line);
    let p = index_from(t, '=', 0);
    let key = trim(t.subrange(0, p));
    let val = trim_quotes(trim(t.subrange(p + 1, t.len() as int)));
    if t.len() == 0 || t[0] == '#' || p >= t.len() {
        c
    } else if key == "aur"@ {
        match parse_bool_spec(val) {
            Some(b) => ConfigView { aur: b, ..c },
            None => c,
        }
    } else if key == "theme"@ {
        ConfigView { theme_name: val, ..c }
    } else if key == "theme_bg"@ {
        ConfigView { theme_bg: val, ..c }
    } else if key == "theme_fg"@ {
        ConfigView { theme_fg: val, ..c }
    } else if key == "theme_border"@ {
        ConfigView { theme_border: val, ..c }
    } else if key == "theme_highlight_fg"@ {
        ConfigView { theme_highlight_fg: val, ..c }
    } else if key == "theme_highlight_bg"@ {
        ConfigView { theme_highlight_bg: val, ..c }
    } else if key == "theme_accent"@ {
        ConfigView { theme_accent: val, ..c }
    } else if key == "theme_selected"@ {
        ConfigView { theme_selected: val, ..c }
    } else if key == "theme_success"@ {
        ConfigView { theme_success: val, ..c }
    } else if key == "theme_warning"@ {
        ConfigView { theme_warning: val, ..c }
    } else if key == "theme_error"@ {
        ConfigView { theme_error: val, ..c }
    } else {
        c
    }
}

/// The defaults after the given lines, in order.
pub open spec fn apply_lines(ls: Seq<Seq<char>>) -> ConfigView
    decreases ls.len(),
{
    if ls.len() == 0 {
        default_config()
    } else {
        apply_line(apply_lines(ls.drop_last()), ls.last())
    }
}

/// The configuration a file's text describes.
pub open spec fn parse_spec(text: Seq<char>) -> ConfigView {
    apply_lines(lines(text))
}

fn index_of_char(cs: &Vec<char>, c: char) -> (r: usize)
    ensures
        r == index_from(cs@, c, 0),
{
    let mut i: usize = 0;
    while i < cs.len() && cs[i] != c
        invariant
            i <= cs@.len(),
            index_from(cs@, c, 0) == index_from(cs@, c, i as int),
        decreases cs.len() - i,
    {
        i = i + 1;
    }
    i
}

fn strip_quotes(cs: &Vec<char>) -> (r: String)
    ensures
        r@ == trim_quotes(cs@),
{
    let mut a: usize = 0;
    assert(cs@.subrange(0, cs@.len() as int) =~= cs@);
    while a < cs.len() && cs[a] == '"'
        invariant
            a <= cs@.len(),
            strip_start(cs@, '"') == strip_start(cs@.subrange(a as int, cs@.len() as int), '"'),
        decreases cs.len() - a,
    {
        assert(cs@.subrange(a as int, cs@.len() as int).drop_first() =~= cs@.subrange(a + 1, cs@.len() as int));
        a = a + 1;
    }
    let mut b: usize = cs.len();
    while b > a && cs[b - 1] == '"'
        invariant
            a <= b <= cs@.len(),
            strip_end(strip_start(cs@, '"'), '"') == strip_end(cs@.subrange(a as int, b as int), '"'),
        decreases b - a,
    {
        assert(cs@.subrange(a as int, b as int).drop_last() =~= cs@.subrange(a as int, b - 1));
        b = b - 1;
    }
    crate::text::string_of(cs, a, b)
}

/// Applies one line of the configuration file.
fn apply_config_line(c: &mut Config, line: &str)
    ensures
        final(c)@ == apply_line(old(c)@, line@),
{
    let t = trim_str(line);
    let cs = crate::text::chars_of(t.as_str());
    if cs.len() == 0 || cs[0] == '#' {
        return;
    }
    let p = index_of_char(&cs, '=');
    if p >= cs.len() {
        return;
    }
    let key = trim_str(crate::text::string_of(&cs, 0, p).as_str());
    let raw = trim_str(crate::text::string_of(&cs, p + 1, cs.len()).as_str());
    let rc = crate::text::chars_of(raw.as_str());
    let val = strip_quotes(&rc);
    let k = key.as_str();
    if str_eq(k, "aur") {
        match parse_bool(val.as_str()) {
            Some(b) => {
                c.aur = b;
            },
            None => {},
        }
    } else if str_eq(k, "theme") {
        c.theme_name = val;
    } else if str_eq(k, "theme_bg") {
        c.theme_bg = val;
    } else if str_eq(k, "theme_fg") {
        c.theme_fg = val;
    } else if str_eq(k, "theme_border") {
        c.theme_border = val;
    } else if str_eq(k, "theme_highlight_fg") {
        c.theme_highlight_fg = val;
    } else if str_eq(k, "theme_highlight_bg") {
        c.theme_highlight_bg = val;
    } else if str_eq(k, "theme_accent") {
        c.theme_accent = val;
    } else if str_eq(k, "theme_selected") {
        c.theme_selected = val;
    } else if str_eq(k, "theme_success") {
        c.theme_success = val;
    } else if str_eq(k, "theme_warning") {
        c.theme_warning = val;
    } else if str_eq(k, "theme_error") {
        c.theme_error = val;
    }
}

/// Reads the configuration file's text: the defaults, changed line by line.
pub fn parse(text: &str) -> (c: Config)
    ensures
        c@ == parse_spec(text@),
{
    let ls = split_lines(text);
    let ghost lv = string_views(ls@);
    let mut c = Config::default();
    let mut i: usize = 0;
    while i < ls.len()
        invariant
            lv == string_views(ls@),
            lv == lines(text@),
            i <= ls@.len(),
            c@ == apply_lines(lv.subrange(0, i as int)),
        decreases ls.len() - i,
    {
        apply_config_line(&mut c, ls[i].as_str());
        assert(lv.subrange(0, i + 1).drop_last() =~= lv.subrange(0, i as int));
        i = i + 1;
    }
    assert(lv.subrange(0, lv.len() as int) =~= lv);
    c
}

/// The configuration at startup: read from the file's text when there is
/// one; else the defaults, with AUR features on only when an AUR helper is
/// installed.
pub fn load(file_text: Option<&str>, helper_installed: bool) -> (c: Config)
    ensures
        match file_text {
            Some(t) => c@ == parse_spec(t@),
            None => c@ == (ConfigView { aur: helper_installed, ..default_config() }),
        },
{
    match file_text {
        Some(t) => parse(t),
        None => {
            let mut c = Config::default();
            c.aur = helper_installed;
            c
        },
    }
}

// ---------------------------------------------------------------------------
// AUR helper
// ---------------------------------------------------------------------------

/// The AUR helper that is installed, paru preferred over yay.
pub open spec fn installed_helper_spec(paru_found: bool, yay_found: bool) -> Option<Seq<char>> {
    if paru_found {
        Some("paru"@)
    } else if yay_found {
        Some("yay"@)
    } else {
        None
    }
}

/// The AUR helper that is installed, given whether `paru` and `yay` were
/// found.
pub fn installed_helper(paru_found: bool, yay_found: bool) -> (r: Option<&'static str>)
    ensures
        match r {
            Some(h) => installed_helper_spec(paru_found, yay_found) == Some(h@),
            None => installed_helper_spec(paru_found, yay_found) is None,
        },
{
    proof {
        reveal_strlit("paru");
        reveal_strlit("yay");
    }
    if paru_found {
        Some("paru")
    } else if yay_found {
        Some("yay")
    } else {
        None
    }
}

/// The AUR helper to use: none when AUR features are off or no helper is
/// installed.
pub fn aur_helper(aur_enabled: bool, paru_found: bool, yay_found: bool) -> (r: Option<&'static str>)
    ensures
        match r {
            Some(h) => aur_enabled && installed_helper_spec(paru_found, yay_found) == Some(h@),
            None => !aur_enabled || installed_helper_spec(paru_found, yay_found) is None,
        },
{
    if !aur_enabled {
        return None;
    }
    installed_helper(paru_found, yay_found)
}

// ---------------------------------------------------------------------------
// Writing
// ---------------------------------------------------------------------------

/// `true` or `false`.
pub open spec fn bool_text(b: bool) -> Seq<char> {
    if b {
        "true"@
    } else {
        "false"@
    }
}

/// The line `key = "value"`.
pub open spec fn kv_line(key: Seq<char>, value: Seq<char>) -> Seq<char> {
    key + " = \""@ + value + "\""@
}

/// The lines of the configuration file for an AUR setting and a theme.
pub open spec fn config_lines(aur: bool, t: ThemeView) -> Seq<Seq<char>> {
    seq![
        "# pkgman configuration"@,
        "# aur: enable AUR helper (yay/paru) features. Set false for pacman-only."@,
        "aur = "@ + bool_text(aur),
        Seq::empty(),
        "# Theme Settings"@,
        kv_line("theme"@, t.name),
        kv_line("theme_bg"@, color_str(t.background)),
        kv_line("theme_fg"@, color_str(t.foreground)),
        kv_line("theme_border"@, color_str(t.border)),
        kv_line("theme_highlight_fg"@, color_str(t.highlight_fg)),
        kv_line("theme_highlight_bg"@, color_str(t.highlight_bg)),
        kv_line("theme_accent"@, color_str(t.accent)),
        kv_line("theme_selected"@, color_str(t.selected)),
        kv_line("theme_success"@, color_str(t.success)),
        kv_line("theme_warning"@, color_str(t.warning)),
        kv_line("theme_error"@, color_str(t.error)),
    ]
}

/// The text of the configuration file for an AUR setting and a theme: its
/// lines, each ended by a newline.
pub open spec fn render_config_spec(aur: bool, t: ThemeView) -> Seq<char> {
    join_lines(config_lines(aur, t))
}

fn kv_string(key: &str, value: &str) -> (r: String)
    ensures
        r@ == kv_line(key@, value@),
{
    let mut out = owned(key);
    append_str(&mut out, " = \"");
    append_str(&mut out, value);
    append_str(&mut out, "\"");
    assert(out@ =~= kv_line(key@, value@));
    out
}

/// The text of the configuration file for an AUR setting and a theme.
pub fn render_config(aur: bool, theme: &Theme) -> (r: String)
    ensures
        r@ == render_config_spec(aur, theme@),
{
    let mut ls: Vec<String> = Vec::new();
    ls.push(owned("# pkgman configuration"));
    ls.push(owned("# aur: enable AUR helper (yay/paru) features. Set false for pacman-only."));
    let mut aur_line = owned("aur = ");
    append_str(&mut aur_line, if aur {
        "true"
    } else {
        "false"
    });
    ls.push(aur_line);
    ls.push(String::new());
    ls.push(owned("# Theme Settings"));
    ls.push(kv_string("theme", theme.name.as_str()));
    ls.push(kv_string("theme_bg", color_to_string(theme.background).as_str()));
    ls.push(kv_string("theme_fg", color_to_string(theme.foreground).as_str()));
    ls.push(kv_string("theme_border", color_to_string(theme.border).as_str()));
    ls.push(kv_string("theme_highlight_fg", color_to_string(theme.highlight_fg).as_str()));
    ls.push(kv_string("theme_highlight_bg", color_to_string(theme.highlight_bg).as_str()));
    ls.push(kv_string("theme_accent", color_to_string(theme.accent).as_str()));
    ls.push(kv_string("theme_selected", color_to_string(theme.selected).as_str()));
    ls.push(kv_string("theme_success", color_to_string(theme.success).as_str()));
    ls.push(kv_string("theme_warning", color_to_string(theme.warning).as_str()));
    ls.push(kv_string("theme_error", color_to_string(theme.error).as_str()));
    proof {
        reveal_strlit("true");
        reveal_strlit("false");
    }
    assert(string_views(ls@) =~= config_lines(aur, theme@));
    join_lines_exec(&ls)
}

// ---------------------------------------------------------------------------
// Reading back what was written
// ---------------------------------------------------------------------------

/// A value that survives being written between quotes and read back: no
/// newline in it, and no quote at either end.
pub open spec fn survives_quoting(v: Seq<char>) -> bool {
    &&& forall|k: int| 0 <= k < v.len() ==> #[trigger] v[k] != '\n'
    &&& (v.len() == 0 || (v[0] != '"' && v.last() != '"'))
}

proof fn lemma_trim_unchanged(l: Seq<char>)
    requires
        l.len() > 0,
        !is_ws(l[0]),
        !is_ws(l.last()),
    ensures
        trim(l) == l,
{
}

/// The first `c` from `i` on is at `j` when `j` holds `c` and nothing
/// between does.
pub proof fn lemma_index_from_at(s: Seq<char>, c: char, i: int, j: int)
    requires
        0 <= i <= j < s.len(),
        s[j] == c,
        forall|k: int| i <= k < j ==> s[k] != c,
    ensures
        index_from(s, c, i) == j,
    decreases j - i,
{
    if i < j {
        lemma_index_from_at(s, c, i + 1, j);
    }
}

proof fn lemma_trim_end_space(k: Seq<char>)
    requires
        k.len() > 0,
        !is_ws(k.last()),
    ensures
        trim_end(k.push(' ')) == k,
{
    assert(k.push(' ').drop_last() =~= k);
    assert(is_ws(' '));
    assert(trim_end(k.push(' ')) == trim_end(k));
    assert(trim_end(k) == k);
}

/// How a `key = "value"` line is read: the key and the value come back.
proof fn lemma_kv_parts(key: Seq<char>, v: Seq<char>)
    requires
        key.len() > 0,
        key[0] != '#',
        !is_ws(key[0]),
        !is_ws(key.last()),
        forall|k: int| 0 <= k < key.len() ==> #[trigger] key[k] != '=',
        survives_quoting(v),
    ensures
        ({
            let t = kv_line(key, v);
            let p = index_from(t, '=', 0);
            &&& trim(t) == t
            &&& p == key.len() + 1
            &&& p < t.len()
            &&& t.len() > 0
            &&& t[0] != '#'
            &&& trim(t.subrange(0, p)) == key
            &&& trim_quotes(trim(t.subrange(p + 1, t.len() as int))) == v
        }),
{
    reveal_strlit(" = \"");
    reveal_strlit("\"");
    let t = kv_line(key, v);
    let n = key.len() as int;
    assert(t[0] == key[0]);
    assert(t.last() == '"');
    lemma_trim_unchanged(t);
    assert(t[n + 1] == '=');
    assert forall|k: int| 0 <= k < n + 1 implies t[k] != '=' by {
        if k < n {
            assert(t[k] == key[k]);
        } else {
            assert(t[k] == ' ');
        }
    }
    lemma_index_from_at(t, '=', 0, n + 1);
    assert(t.subrange(0, n + 1) =~= key.push(' '));
    lemma_trim_end_space(key);
    assert(trim_start(key.push(' ')) == key.push(' ')) by {
        assert(key.push(' ')[0] == key[0]);
    }
    assert(trim(t.subrange(0, n + 1)) == key);
    let raw = t.subrange(n + 2, t.len() as int);
    let q = seq!['"'] + v + seq!['"'];
    assert(raw =~= seq![' '] + q);
    assert(raw.drop_first() =~= q);
    assert(trim_start(raw) == trim_start(q));
    assert(q[0] == '"');
    assert(trim_start(q) == q);
    assert(q.last() == '"');
    assert(trim_end(q) == q);
    assert(trim(raw) == q);
    assert(q.drop_first() =~= v + seq!['"']);
    assert(strip_start(q, '"') == strip_start(v + seq!['"'], '"'));
    if v.len() == 0 {
        let one = seq!['"'];
        assert(v + seq!['"'] =~= one);
        assert(one.drop_first() =~= Seq::<char>::empty());
        assert(strip_start(one, '"') == strip_start(Seq::<char>::empty(), '"'));
        assert(strip_start(Seq::<char>::empty(), '"') == Seq::<char>::empty());
        assert(strip_end(Seq::<char>::empty(), '"') == Seq::<char>::empty());
        assert(trim_quotes(q) == v);
        assert(trim_quotes(trim(raw)) == v);
    } else {
        assert((v + seq!['"'])[0] == v[0]);
        assert(strip_start(v + seq!['"'], '"') == v + seq!['"']);
        assert((v + seq!['"']).drop_last() =~= v);
        assert(strip_end(v + seq!['"'], '"') == strip_end(v, '"'));
        assert(strip_end(v, '"') == v);
        assert(trim_quotes(q) == v);
        assert(trim_quotes(trim(raw)) == v);
    }
    assert(t[0] != '#');
}

/// A comment line changes nothing.
proof fn lemma_apply_comment(c: ConfigView, l: Seq<char>)
    requires
        l.len() > 0,
        l[0] == '#',
        !is_ws(l.last()),
    ensures
        apply_line(c, l) == c,
{
    lemma_trim_unchanged(l);
}

/// A blank line changes nothing.
proof fn lemma_apply_blank(c: ConfigView)
    ensures
        apply_line(c, Seq::empty()) == c,
{
    assert(trim_start(Seq::<char>::empty()) == Seq::<char>::empty());
    assert(trim_end(Seq::<char>::empty()) == Seq::<char>::empty());
}

/// The `aur` line sets the AUR setting.
proof fn lemma_apply_aur(c: ConfigView, b: bool)
    ensures
        apply_line(c, "aur = "@ + bool_text(b)) == (ConfigView { aur: b, ..c }),
{
    reveal_strlit("aur = ");
    reveal_strlit("aur");
    reveal_strlit("true");
    reveal_strlit("false");
    let l = "aur = "@ + bool_text(b);
    let v = bool_text(b);
    assert(l[0] == 'a');
    assert(l.last() == 'e');
    lemma_trim_unchanged(l);
    assert(l[3] == ' ' && l[4] == '=');
    assert forall|k: int| 0 <= k < 4 implies l[k] != '=' by {}
    lemma_index_from_at(l, '=', 0, 4);
    assert(l.subrange(0, 4) =~= "aur"@.push(' '));
    lemma_trim_end_space("aur"@);
    assert(trim_start("aur"@.push(' ')) == "aur"@.push(' ')) by {
        assert("aur"@.push(' ')[0] == 'a');
    }
    let raw = l.subrange(5, l.len() as int);
    assert(raw =~= seq![' '] + v);
    assert(raw.drop_first() =~= v);
    assert(trim_start(raw) == trim_start(v));
    assert(v[0] != ' ' && v.last() == 'e');
    lemma_trim_unchanged(v);
    assert(trim(raw) == v);
    assert(strip_start(v, '"') == v);
    assert(strip_end(v, '"') == v);
    reveal_strlit("1");
    reveal_strlit("yes");
    reveal_strlit("on");
    reveal_strlit("0");
    reveal_strlit("no");
    reveal_strlit("off");
    assert(parse_bool_spec(v) == Some(b));
}

/// A `key = "value"` line for one of the keys sets that key.
proof fn lemma_apply_kv(c: ConfigView, key: Seq<char>, v: Seq<char>)
    requires
        key.len() > 0,
        key[0] != '#',
        !is_ws(key[0]),
        !is_ws(key.last()),
        forall|k: int| 0 <= k < key.len() ==> #[trigger] key[k] != '=',
        survives_quoting(v),
    ensures
        ({
            let t = kv_line(key, v);
            let p = index_from(t, '=', 0);
            apply_line(c, t) == apply_key(c, key, v)
        }),
{
    lemma_kv_parts(key, v);
}

/// The configuration with `key` set to `value`, for a key other than
/// `aur`.
pub open spec fn apply_key(c: ConfigView, key: Seq<char>, val: Seq<char>) -> ConfigView {
    if key == "aur"@ {
        match parse_bool_spec(val) {
            Some(b) => ConfigView { aur: b, ..c },
            None => c,
        }
    } else if key == "theme"@ {
        ConfigView { theme_name: val, ..c }
    } else if key == "theme_bg"@ {
        ConfigView { theme_bg: val, ..c }
    } else if key == "theme_fg"@ {
        ConfigView { theme_fg: val, ..c }
    } else if key == "theme_border"@ {
        ConfigView { theme_border: val, ..c }
    } else if key == "theme_highlight_fg"@ {
        ConfigView { theme_highlight_fg: val, ..c }
    } else if key == "theme_highlight_bg"@ {
        ConfigView { theme_highlight_bg: val, ..c }
    } else if key == "theme_accent"@ {
        ConfigView { theme_accent: val, ..c }
    } else if key == "theme_selected"@ {
        ConfigView { theme_selected: val, ..c }
    } else if key == "theme_success"@ {
        ConfigView { theme_success: val, ..c }
    } else if key == "theme_warning"@ {
        ConfigView { theme_warning: val, ..c }
    } else if key == "theme_error"@ {
        ConfigView { theme_error: val, ..c }
    } else {
        c
    }
}

/// Color strings survive being written between quotes.
proof fn lemma_color_str_survives(c: Color)
    ensures
        survives_quoting(color_str(c)),
        color_str(c).len() > 0,
{
    reveal_strlit("reset");
    reveal_strlit("black");
    reveal_strlit("red");
    reveal_strlit("green");
    reveal_strlit("yellow");
    reveal_strlit("blue");
    reveal_strlit("magenta");
    reveal_strlit("cyan");
    reveal_strlit("gray");
    reveal_strlit("darkgray");
    reveal_strlit("lightred");
    reveal_strlit("lightgreen");
    reveal_strlit("lightyellow");
    reveal_strlit("lightblue");
    reveal_strlit("lightmagenta");
    reveal_strlit("lightcyan");
    reveal_strlit("white");
    match c {
        Color::Rgb(r, g, b) => {
            let s = color_str(c);
            crate::theme::lemma_hex_byte_round_trip(r);
            crate::theme::lemma_hex_byte_round_trip(g);
            crate::theme::lemma_hex_byte_round_trip(b);
            assert forall|k: int| 0 <= k < s.len() implies #[trigger] s[k] != '\n' by {
                if k > 0 {
                    assert(crate::theme::is_hex_digit(s[k]));
                }
            }
        },
        _ => {},
    }
}

/// The defaults after the first `i + 1` lines: the defaults after `i` lines,
/// then line `i`.
proof fn lemma_apply_prefix(ls: Seq<Seq<char>>, i: int)
    requires
        0 <= i < ls.len(),
    ensures
        apply_lines(ls.subrange(0, i + 1)) == apply_line(apply_lines(ls.subrange(0, i)), ls[i]),
{
    assert(ls.subrange(0, i + 1).drop_last() =~= ls.subrange(0, i));
}

/// A custom theme saved to the configuration file and read back is the
/// same theme (palette-index colors, which are written as `reset`, aside).
pub proof fn lemma_custom_theme_round_trip(aur: bool, t: ThemeView)
    requires
        t.name == "custom"@,
        !(t.background is Indexed),
        !(t.foreground is Indexed),
        !(t.border is Indexed),
        !(t.highlight_fg is Indexed),
        !(t.highlight_bg is Indexed),
        !(t.accent is Indexed),
        !(t.selected is Indexed),
        !(t.success is Indexed),
        !(t.warning is Indexed),
        !(t.error is Indexed),
    ensures
        ({
            let c = parse_spec(render_config_spec(aur, t));
            &&& c.aur == aur
            &&& resolve_theme_spec(
                c.theme_name,
                c.theme_bg,
                c.theme_fg,
                c.theme_border,
                c.theme_highlight_fg,
                c.theme_highlight_bg,
                c.theme_accent,
                c.theme_selected,
                c.theme_success,
                c.theme_warning,
                c.theme_error,
            ) == t
        }),
{
    reveal_strlit("custom");
    assert(survives_quoting(t.name));
    lemma_config_round_trip(aur, t);
    crate::theme::lemma_color_round_trip(t.background);
    crate::theme::lemma_color_round_trip(t.foreground);
    crate::theme::lemma_color_round_trip(t.border);
    crate::theme::lemma_color_round_trip(t.highlight_fg);
    crate::theme::lemma_color_round_trip(t.highlight_bg);
    crate::theme::lemma_color_round_trip(t.accent);
    crate::theme::lemma_color_round_trip(t.selected);
    crate::theme::lemma_color_round_trip(t.success);
    crate::theme::lemma_color_round_trip(t.warning);
    crate::theme::lemma_color_round_trip(t.error);
    assert(crate::theme::eq_ignore_ascii_case("custom"@, "custom"@));
}

/// A key that `lemma_apply_kv` applies to.
pub open spec fn good_key(key: Seq<char>) -> bool {
    &&& key.len() > 0
    &&& key[0] != '#'
    &&& !is_ws(key[0])
    &&& !is_ws(key.last())
    &&& forall|k: int| 0 <= k < key.len() ==> #[trigger] key[k] != '=' && key[k] != '\n'
}

proof fn lemma_keys_good()
    ensures
        good_key("theme"@),
        good_key("theme_bg"@),
        good_key("theme_fg"@),
        good_key("theme_border"@),
        good_key("theme_highlight_fg"@),
        good_key("theme_highlight_bg"@),
        good_key("theme_accent"@),
        good_key("theme_selected"@),
        good_key("theme_success"@),
        good_key("theme_warning"@),
        good_key("theme_error"@),
{
    reveal_strlit("theme");
    reveal_strlit("theme_bg");
    reveal_strlit("theme_fg");
    reveal_strlit("theme_border");
    reveal_strlit("theme_highlight_fg");
    reveal_strlit("theme_highlight_bg");
    reveal_strlit("theme_accent");
    reveal_strlit("theme_selected");
    reveal_strlit("theme_success");
    reveal_strlit("theme_warning");
    reveal_strlit("theme_error");
}

proof fn lemma_apply_key_values(c: ConfigView, v: Seq<char>)
    ensures
        apply_key(c, "theme"@, v) == (ConfigView { theme_name: v, ..c }),
        apply_key(c, "theme_bg"@, v) == (ConfigView { theme_bg: v, ..c }),
        apply_key(c, "theme_fg"@, v) == (ConfigView { theme_fg: v, ..c }),
        apply_key(c, "theme_border"@, v) == (ConfigView { theme_border: v, ..c }),
        apply_key(c, "theme_highlight_fg"@, v) == (ConfigView { theme_highlight_fg: v, ..c }),
        apply_key(c, "theme_highlight_bg"@, v) == (ConfigView { theme_highlight_bg: v, ..c }),
        apply_key(c, "theme_accent"@, v) == (ConfigView { theme_accent: v, ..c }),
        apply_key(c, "theme_selected"@, v) == (ConfigView { theme_selected: v, ..c }),
        apply_key(c, "theme_success"@, v) == (ConfigView { theme_success: v, ..c }),
        apply_key(c, "theme_warning"@, v) == (ConfigView { theme_warning: v, ..c }),
        apply_key(c, "theme_error"@, v) == (ConfigView { theme_error: v, ..c }),
{
    reveal_strlit("aur");
    reveal_strlit("theme");
    reveal_strlit("theme_bg");
    reveal_strlit("theme_fg");
    reveal_strlit("theme_border");
    reveal_strlit("theme_highlight_fg");
    reveal_strlit("theme_highlight_bg");
    reveal_strlit("theme_accent");
    reveal_strlit("theme_selected");
    reveal_strlit("theme_success");
    reveal_strlit("theme_warning");
    reveal_strlit("theme_error");
    assert("aur"@.len() == 3);
    assert("theme"@.len() == 5);
    assert("theme_bg"@.len() == 8);
    assert("theme_fg"@.len() == 8);
    assert("theme_border"@.len() == 12);
    assert("theme_highlight_fg"@.len() == 18);
    assert("theme_highlight_bg"@.len() == 18);
    assert("theme_accent"@.len() == 12);
    assert("theme_selected"@.len() == 14);
    assert("theme_success"@.len() == 13);
    assert("theme_warning"@.len() == 13);
    assert("theme_error"@.len() == 11);
    assert("theme_bg"@[6] == 'b' && "theme_fg"@[6] == 'f');
    assert("theme_highlight_fg"@[16] == 'f' && "theme_highlight_bg"@[16] == 'b');
    assert("theme_border"@[6] == 'b' && "theme_accent"@[6] == 'a');
    assert("theme_success"@[7] == 'u' && "theme_warning"@[7] == 'a');
}

/// Reading one more line of a list whose prefix was read into `c`.
proof fn lemma_step_kv(ls: Seq<Seq<char>>, i: int, c: ConfigView, key: Seq<char>, v: Seq<char>)
    requires
        0 <= i < ls.len(),
        apply_lines(ls.subrange(0, i)) == c,
        ls[i] == kv_line(key, v),
        good_key(key),
        survives_quoting(v),
    ensures
        apply_lines(ls.subrange(0, i + 1)) == apply_key(c, key, v),
{
    lemma_apply_prefix(ls, i);
    lemma_apply_kv(c, key, v);
}

/// Reading a comment line of a list whose prefix was read into `c`.
proof fn lemma_step_comment(ls: Seq<Seq<char>>, i: int, c: ConfigView)
    requires
        0 <= i < ls.len(),
        apply_lines(ls.subrange(0, i)) == c,
        ls[i].len() > 0,
        ls[i][0] == '#',
        !is_ws(ls[i].last()),
    ensures
        apply_lines(ls.subrange(0, i + 1)) == c,
{
    lemma_apply_prefix(ls, i);
    lemma_apply_comment(c, ls[i]);
}

/// The first five lines of the written file: comments, the `aur` line and a
/// blank line.
proof fn lemma_read_head(aur: bool, t: ThemeView)
    ensures
        apply_lines(config_lines(aur, t).subrange(0, 5)) == (ConfigView { aur, ..default_config() }),
{
    reveal_strlit("# pkgman configuration");
    reveal_strlit("# aur: enable AUR helper (yay/paru) features. Set false for pacman-only.");
    reveal_strlit("# Theme Settings");
    let ls = config_lines(aur, t);
    let c0 = default_config();
    assert(ls.subrange(0, 0) =~= Seq::<Seq<char>>::empty());
    lemma_step_comment(ls, 0, c0);
    lemma_step_comment(ls, 1, c0);
    lemma_apply_prefix(ls, 2);
    lemma_apply_aur(c0, aur);
    let c3 = ConfigView { aur, ..c0 };
    lemma_apply_prefix(ls, 3);
    lemma_apply_blank(c3);
    lemma_step_comment(ls, 4, c3);
}

proof fn lemma_trim_start_push_ws(y: Seq<char>, w: char)
    requires
        is_ws(w),
    ensures
        trim_start(y.push(w)) == (if trim_start(y).len() > 0 {
            trim_start(y).push(w)
        } else {
            Seq::<char>::empty()
        }),
    decreases y.len(),
{
    if y.len() == 0 {
        assert(y.push(w).drop_first() =~= Seq::<char>::empty());
        assert(trim_start(Seq::<char>::empty()) =~= Seq::<char>::empty());
        assert(y.push(w)[0] == w);
    } else if is_ws(y[0]) {
        assert(y.push(w).drop_first() =~= y.drop_first().push(w));
        lemma_trim_start_push_ws(y.drop_first(), w);
    } else {
        assert(y.push(w)[0] == y[0]);
    }
}

/// Whitespace at the end of a line does not change what the line does.
proof fn lemma_apply_trailing_ws(c: ConfigView, y: Seq<char>, w: char)
    requires
        is_ws(w),
    ensures
        apply_line(c, y.push(w)) == apply_line(c, y),
{
    lemma_trim_start_push_ws(y, w);
    let ts = trim_start(y);
    if ts.len() > 0 {
        assert(ts.push(w).drop_last() =~= ts);
    }
    assert(trim(y.push(w)) == trim(y));
}

/// The configuration read from a text is the one read from the text with
/// a newline added.
proof fn lemma_parse_newline(t: Seq<char>)
    ensures
        parse_spec(t.push('\n')) == parse_spec(t),
{
    lemma_last_line_start(t);
    let k = last_line_start(t);
    let p = t.subrange(0, k);
    let x = t.subrange(k, t.len() as int);
    assert(t =~= p + x);
    assert(p.len() == 0 || p.last() == '\n');
    assert forall|i: int| 0 <= i < x.len() implies x[i] != '\n' by {
        assert(x[i] == t[k + i]);
    }
    lemma_lines_append(p, x);
    lemma_lines_append(p, x.push('\n'));
    assert(t.push('\n') =~= p + x.push('\n'));
    lemma_lines_single(x);
    lemma_lines_ended(x);
    let lp = lines(p);
    if x.len() == 0 {
        assert(x =~= Seq::<char>::empty());
        assert(lines(t) =~= lp);
        assert(lines(t.push('\n')) =~= lp.push(Seq::<char>::empty()));
        assert(lp.push(Seq::<char>::empty()).drop_last() =~= lp);
        lemma_apply_blank(apply_lines(lp));
    } else {
        let x2 = if x.last() == '\r' {
            x.drop_last()
        } else {
            x
        };
        assert(lines(t) =~= lp.push(x));
        assert(lines(t.push('\n')) =~= lp.push(x2));
        assert(lp.push(x).drop_last() =~= lp);
        assert(lp.push(x2).drop_last() =~= lp);
        if x.last() == '\r' {
            assert(x2.push('\r') =~= x);
            assert(is_ws('\r'));
            lemma_apply_trailing_ws(apply_lines(lp), x2, '\r');
        }
    }
}

/// Reading a text with one more line appended: the configuration read so
/// far, changed by that line (see [`apply_line`]).
pub proof fn lemma_append_line(t: Seq<char>, l: Seq<char>)
    requires
        forall|k: int| 0 <= k < l.len() ==> l[k] != '\n',
    ensures
        parse_spec(t + seq!['\n'] + l) == apply_line(parse_spec(t), l),
{
    let q = t.push('\n');
    assert(t + seq!['\n'] + l =~= q + l);
    lemma_parse_newline(t);
    lemma_lines_append(q, l);
    lemma_lines_single(l);
    if l.len() == 0 {
        assert(lines(q + l) =~= lines(q));
        lemma_apply_blank(parse_spec(t));
        assert(l =~= Seq::<char>::empty());
    } else {
        assert(lines(q + l) =~= lines(q).push(l));
        assert(lines(q).push(l).drop_last() =~= lines(q));
    }
}

/// Nothing read: the defaults.
pub proof fn lemma_parse_empty()
    ensures
        parse_spec(Seq::empty()) == default_config(),
{
    assert(lines(Seq::<char>::empty()) =~= Seq::<Seq<char>>::empty());
}

/// The keys the configuration file sets.
pub open spec fn config_key(k: Seq<char>) -> bool {
    ||| k == "aur"@
    ||| k == "theme"@
    ||| k == "theme_bg"@
    ||| k == "theme_fg"@
    ||| k == "theme_border"@
    ||| k == "theme_highlight_fg"@
    ||| k == "theme_highlight_bg"@
    ||| k == "theme_accent"@
    ||| k == "theme_selected"@
    ||| k == "theme_success"@
    ||| k == "theme_warning"@
    ||| k == "theme_error"@
}

/// An appended line without `=`, or with a key the configuration does not
/// have, leaves the configuration as it was.
pub proof fn lemma_append_ignored_line(t: Seq<char>, l: Seq<char>)
    requires
        forall|k: int| 0 <= k < l.len() ==> l[k] != '\n',
        ({
            let tl = trim(l);
            let p = index_from(tl, '=', 0);
            p >= tl.len() || !config_key(trim(tl.subrange(0, p)))
        }),
    ensures
        parse_spec(t + seq!['\n'] + l) == parse_spec(t),
{
    lemma_append_line(t, l);
}

/// An appended `aur = v` line (a value without whitespace or quotes) sets
/// the AUR setting when the value is a boolean, and otherwise keeps the
/// earlier one; nothing else changes. The last such line wins.
pub proof fn lemma_appended_aur_line(t: Seq<char>, v: Seq<char>)
    requires
        v.len() > 0,
        forall|k: int| 0 <= k < v.len() ==> !is_ws(#[trigger] v[k]) && v[k] != '"',
    ensures
        parse_spec(t + seq!['\n'] + "aur = "@ + v) == (ConfigView {
            aur: match parse_bool_spec(v) {
                Some(b) => b,
                None => parse_spec(t).aur,
            },
            ..parse_spec(t)
        }),
{
    reveal_strlit("aur = ");
    reveal_strlit("aur");
    let l = "aur = "@ + v;
    assert(t + seq!['\n'] + "aur = "@ + v =~= t + seq!['\n'] + l);
    assert forall|k: int| 0 <= k < l.len() implies l[k] != '\n' by {
        if k >= 6 {
            assert(l[k] == v[k - 6]);
            assert(!is_ws(v[k - 6]));
        }
    }
    lemma_append_line(t, l);
    assert(l[0] == 'a');
    assert(l.last() == v.last());
    assert(!is_ws(v[v.len() - 1]));
    lemma_trim_unchanged(l);
    assert(l[3] == ' ' && l[4] == '=');
    assert forall|k: int| 0 <= k < 4 implies l[k] != '=' by {}
    lemma_index_from_at(l, '=', 0, 4);
    assert(l.subrange(0, 4) =~= "aur"@.push(' '));
    lemma_trim_end_space("aur"@);
    assert(trim_start("aur"@.push(' ')) == "aur"@.push(' ')) by {
        assert("aur"@.push(' ')[0] == 'a');
    }
    let raw = l.subrange(5, l.len() as int);
    assert(raw =~= seq![' '] + v);
    assert(raw.drop_first() =~= v);
    assert(trim_start(raw) == trim_start(v));
    assert(!is_ws(v[0]));
    lemma_trim_unchanged(v);
    assert(trim(raw) == v);
    assert(v[0] != '"');
    assert(strip_start(v, '"') == v);
    assert(v[v.len() - 1] != '"');
    assert(strip_end(v, '"') == v);
}

/// Reading back the configuration file written for an AUR setting and a
/// theme gives that setting, the theme's name and the strings of its
/// colors, provided the name survives being written between quotes.
pub proof fn lemma_config_round_trip(aur: bool, t: ThemeView)
    requires
        survives_quoting(t.name),
    ensures
        parse_spec(render_config_spec(aur, t)) == (ConfigView {
            aur,
            theme_name: t.name,
            theme_bg: color_str(t.background),
            theme_fg: color_str(t.foreground),
            theme_border: color_str(t.border),
            theme_highlight_fg: color_str(t.highlight_fg),
            theme_highlight_bg: color_str(t.highlight_bg),
            theme_accent: color_str(t.accent),
            theme_selected: color_str(t.selected),
            theme_success: color_str(t.success),
            theme_warning: color_str(t.warning),
            theme_error: color_str(t.error),
        }),
{
    let ls = config_lines(aur, t);
    lemma_color_str_survives(t.background);
    lemma_color_str_survives(t.foreground);
    lemma_color_str_survives(t.border);
    lemma_color_str_survives(t.highlight_fg);
    lemma_color_str_survives(t.highlight_bg);
    lemma_color_str_survives(t.accent);
    lemma_color_str_survives(t.selected);
    lemma_color_str_survives(t.success);
    lemma_color_str_survives(t.warning);
    lemma_color_str_survives(t.error);
    lemma_config_lines_plain(aur, t);
    lemma_lines_join(ls);
    lemma_keys_good();
    lemma_read_head(aur, t);
    let c5 = ConfigView { aur, ..default_config() };
    lemma_step_kv(ls, 5, c5, "theme"@, t.name);
    lemma_apply_key_values(c5, t.name);
    let c6 = ConfigView { theme_name: t.name, ..c5 };
    lemma_step_kv(ls, 6, c6, "theme_bg"@, color_str(t.background));
    lemma_apply_key_values(c6, color_str(t.background));
    let c7 = ConfigView { theme_bg: color_str(t.background), ..c6 };
    lemma_step_kv(ls, 7, c7, "theme_fg"@, color_str(t.foreground));
    lemma_apply_key_values(c7, color_str(t.foreground));
    let c8 = ConfigView { theme_fg: color_str(t.foreground), ..c7 };
    lemma_step_kv(ls, 8, c8, "theme_border"@, color_str(t.border));
    lemma_apply_key_values(c8, color_str(t.border));
    let c9 = ConfigView { theme_border: color_str(t.border), ..c8 };
    lemma_step_kv(ls, 9, c9, "theme_highlight_fg"@, color_str(t.highlight_fg));
    lemma_apply_key_values(c9, color_str(t.highlight_fg));
    let c10 = ConfigView { theme_highlight_fg: color_str(t.highlight_fg), ..c9 };
    lemma_step_kv(ls, 10, c10, "theme_highlight_bg"@, color_str(t.highlight_bg));
    lemma_apply_key_values(c10, color_str(t.highlight_bg));
    let c11 = ConfigView { theme_highlight_bg: color_str(t.highlight_bg), ..c10 };
    lemma_step_kv(ls, 11, c11, "theme_accent"@, color_str(t.accent));
    lemma_apply_key_values(c11, color_str(t.accent));
    let c12 = ConfigView { theme_accent: color_str(t.accent), ..c11 };
    lemma_step_kv(ls, 12, c12, "theme_selected"@, color_str(t.selected));
    lemma_apply_key_values(c12, color_str(t.selected));
    let c13 = ConfigView { theme_selected: color_str(t.selected), ..c12 };
    lemma_step_kv(ls, 13, c13, "theme_success"@, color_str(t.success));
    lemma_apply_key_values(c13, color_str(t.success));
    let c14 = ConfigView { theme_success: color_str(t.success), ..c13 };
    lemma_step_kv(ls, 14, c14, "theme_warning"@, color_str(t.warning));
    lemma_apply_key_values(c14, color_str(t.warning));
    let c15 = ConfigView { theme_warning: color_str(t.warning), ..c14 };
    lemma_step_kv(ls, 15, c15, "theme_error"@, color_str(t.error));
    lemma_apply_key_values(c15, color_str(t.error));
    assert(ls.subrange(0, 16) =~= ls);
}

/// A `key = "value"` line is a plain line.
proof fn lemma_kv_plain(key: Seq<char>, v: Seq<char>)
    requires
        forall|k: int| 0 <= k < key.len() ==> #[trigger] key[k] != '\n',
        survives_quoting(v),
    ensures
        is_plain_line(kv_line(key, v)),
{
    reveal_strlit(" = \"");
    reveal_strlit("\"");
    let t = kv_line(key, v);
    let n = key.len() as int;
    assert forall|k: int| 0 <= k < t.len() implies #[trigger] t[k] != '\n' by {
        if k < n {
            assert(t[k] == key[k]);
        } else if k < n + 4 {
        } else if k < n + 4 + v.len() {
            assert(t[k] == v[k - n - 4]);
        }
    }
}

/// A line made of letters, spaces and a few marks is a plain line.
proof fn lemma_text_plain(l: Seq<char>)
    requires
        forall|k: int| 0 <= k < l.len() ==> #[trigger] l[k] != '\n' && l[k] != '\r',
    ensures
        is_plain_line(l),
{
}

/// Each line of the written file is a plain line.
proof fn lemma_config_lines_plain(aur: bool, t: ThemeView)
    requires
        survives_quoting(t.name),
        survives_quoting(color_str(t.background)),
        survives_quoting(color_str(t.foreground)),
        survives_quoting(color_str(t.border)),
        survives_quoting(color_str(t.highlight_fg)),
        survives_quoting(color_str(t.highlight_bg)),
        survives_quoting(color_str(t.accent)),
        survives_quoting(color_str(t.selected)),
        survives_quoting(color_str(t.success)),
        survives_quoting(color_str(t.warning)),
        survives_quoting(color_str(t.error)),
    ensures
        forall|i: int| 0 <= i < config_lines(aur, t).len() ==> is_plain_line(#[trigger] config_lines(aur, t)[i]),
{
    let ls = config_lines(aur, t);
    reveal_strlit("# pkgman configuration");
    reveal_strlit("# aur: enable AUR helper (yay/paru) features. Set false for pacman-only.");
    reveal_strlit("aur = ");
    reveal_strlit("true");
    reveal_strlit("false");
    reveal_strlit("# Theme Settings");
    reveal_strlit("theme");
    reveal_strlit("theme_bg");
    reveal_strlit("theme_fg");
    reveal_strlit("theme_border");
    reveal_strlit("theme_highlight_fg");
    reveal_strlit("theme_highlight_bg");
    reveal_strlit("theme_accent");
    reveal_strlit("theme_selected");
    reveal_strlit("theme_success");
    reveal_strlit("theme_warning");
    reveal_strlit("theme_error");
    lemma_text_plain(ls[0]);
    lemma_text_plain(ls[1]);
    lemma_text_plain(ls[2]);
    lemma_text_plain(ls[3]);
    lemma_text_plain(ls[4]);
    lemma_keys_good();
    lemma_kv_plain("theme"@, t.name);
    lemma_kv_plain("theme_bg"@, color_str(t.background));
    lemma_kv_plain("theme_fg"@, color_str(t.foreground));
    lemma_kv_plain("theme_border"@, color_str(t.border));
    lemma_kv_plain("theme_highlight_fg"@, color_str(t.highlight_fg));
    lemma_kv_plain("theme_highlight_bg"@, color_str(t.highlight_bg));
    lemma_kv_plain("theme_accent"@, color_str(t.accent));
    lemma_kv_plain("theme_selected"@, color_str(t.selected));
    lemma_kv_plain("theme_success"@, color_str(t.success));
    lemma_kv_plain("theme_warning"@, color_str(t.warning));
    lemma_kv_plain("theme_error"@, color_str(t.error));
}

} // verus!
