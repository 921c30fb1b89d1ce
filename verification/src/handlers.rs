//! Keyboard handling: how each key changes the application state, and the
//! outside work (opening a page, running a command, fetching data) it asks
//! for.
use vstd::prelude::*;
use vstd::arithmetic::div_mod::{lemma_add_mod_noop, lemma_small_mod};
use crate::app::{App, Console, SudoPrompt, ThemeBuilder, WikiView, FILTER_COUNT, SORT_MODES};
use crate::package::ConfirmAction;
use crate::text::{
    append_str, delete_last_word, delete_last_word_spec, owned, pop_char, pop_spec, push_char,
    str_eq, string_views, trim, trim_str,
};
use crate::theme::{named_colors, named_colors_spec, theme_count, themes, themes_spec, Color, Theme, ThemeView};

verus! {

/// A key, as far as the interface tells keys apart.
#[derive(Clone, Copy, PartialEq, Eq, Debug, Structural)]
pub enum KeyCode {
    Char(char),
    Up,
    Down,
    Left,
    Right,
    PageUp,
    PageDown,
    Home,
    End,
    Enter,
    Esc,
    Backspace,
    Other,
}

/// A key press: the key and whether Control was held.
#[derive(Clone, Copy, PartialEq, Eq, Debug, Structural)]
pub struct Key {
    pub code: KeyCode,
    pub ctrl: bool,
}

/// Outside work a key press asks for.
#[derive(Debug)]
pub enum Effect {
    /// Open a URL in the browser.
    OpenUrl(String),
    /// Save the configuration with the current theme.
    SaveConfig,
    /// Run an action in the console, with a sudo password when one was
    /// typed.
    RunAction(Option<String>, ConfirmAction, Vec<String>),
    /// The user confirmed an action; whether sudo still holds credentials
    /// decides the next step (see [`App::begin_confirmed_action`]).
    ConfirmAccepted(ConfirmAction, Vec<String>),
    /// Search the AUR for a query.
    AurSearch(String),
    /// Reload the package databases.
    ReloadDb,
    /// Fetch the wiki page of a package.
    FetchWiki(String),
    /// Fetch the dependency tree of a package, which is installed or not.
    FetchDepTree(String, bool),
}

/// What a key press leaves to the caller.
#[derive(Debug)]
pub struct KeyOutcome {
    /// The application should exit.
    pub quit: bool,
    pub effect: Option<Effect>,
}

/// How many rows of the package list one page moves.
pub const LIST_HEIGHT: usize = 20;

/// The prefix of wiki search URLs.
pub open spec fn wiki_search_prefix() -> Seq<char> {
    "https://wiki.archlinux.org/index.php?search="@
}

pub open spec fn sat_sub(x: usize, y: usize) -> usize {
    if x >= y {
        (x - y) as usize
    } else {
        0
    }
}

pub open spec fn sat_add(x: usize, y: usize) -> usize {
    if x + y <= usize::MAX {
        (x + y) as usize
    } else {
        usize::MAX
    }
}

pub open spec fn is_char(k: Key, c: char) -> bool {
    k.code == KeyCode::Char(c)
}

/// The wiki search URL for a page name.
fn wiki_search_url(name: &str) -> (r: String)
    ensures
        r@ == wiki_search_prefix() + name@,
{
    let mut u = owned("https://wiki.archlinux.org/index.php?search=");
    append_str(&mut u, name);
    u
}

/// A scroll offset after an arrow key (by one) or a page key (by twenty)
/// when `pages`; other keys leave it.
pub open spec fn scrolled(pos: usize, k: Key, pages: bool) -> usize {
    if k.code == KeyCode::Up || is_char(k, 'k') {
        sat_sub(pos, 1)
    } else if k.code == KeyCode::Down || is_char(k, 'j') {
        sat_add(pos, 1)
    } else if pages && k.code == KeyCode::PageUp {
        sat_sub(pos, 20)
    } else if pages && k.code == KeyCode::PageDown {
        sat_add(pos, 20)
    } else {
        pos
    }
}

fn scroll_by_key(pos: usize, k: Key, pages: bool) -> (r: usize)
    ensures
        r == scrolled(pos, k, pages),
{
    match k.code {
        KeyCode::Up | KeyCode::Char('k') => pos.saturating_sub(1),
        KeyCode::Down | KeyCode::Char('j') => pos.saturating_add(1),
        KeyCode::PageUp => if pages {
            pos.saturating_sub(20)
        } else {
            pos
        },
        KeyCode::PageDown => if pages {
            pos.saturating_add(20)
        } else {
            pos
        },
        _ => pos,
    }
}

// ---------------------------------------------------------------------------
// Wiki viewer
// ---------------------------------------------------------------------------

/// Esc, Enter, `q` or `Q` close the wiki viewer.
pub open spec fn closes_wiki(k: Key) -> bool {
    k.code == KeyCode::Esc || k.code == KeyCode::Enter || is_char(k, 'q') || is_char(k, 'Q')
}

/// A key in the wiki viewer: close it (dropping the page), scroll it, or
/// with `w` open the wiki search for the package in the browser.
pub open spec fn wiki_key_post(a: WikiView, b: WikiView, k: Key, eff: Option<Effect>) -> bool {
    if closes_wiki(k) {
        &&& b == (WikiView { show: false, content: b.content, err_msg: None, ..a })
        &&& b.content@.len() == 0
        &&& eff is None
    } else {
        &&& b == (WikiView { scroll: scrolled(a.scroll, k, true), ..a })
        &&& if is_char(k, 'w') {
            eff matches Some(Effect::OpenUrl(u)) && u@ == wiki_search_prefix() + a.pkg_name@
        } else {
            eff is None
        }
    }
}

impl WikiView {
    /// Handles a key while the wiki viewer is shown.
    pub fn handle_key(&mut self, k: Key) -> (eff: Option<Effect>)
        ensures
            wiki_key_post(*old(self), *final(self), k, eff),
    {
        match k.code {
            KeyCode::Esc | KeyCode::Enter | KeyCode::Char('q') | KeyCode::Char('Q') => {
                self.show = false;
                self.content = Vec::new();
                self.err_msg = None;
                None
            },
            KeyCode::Char('w') => Some(Effect::OpenUrl(wiki_search_url(self.pkg_name.as_str()))),
            _ => {
                self.scroll = scroll_by_key(self.scroll, k, true);
                None
            },
        }
    }
}

// ---------------------------------------------------------------------------
// Console
// ---------------------------------------------------------------------------

/// A key in the console: once the command has finished, Esc or Enter
/// closes it and clears the log; the arrows and page keys scroll it.
pub open spec fn console_key_post(a: Console, b: Console, k: Key) -> bool {
    if (k.code == KeyCode::Esc || k.code == KeyCode::Enter) && a.finished is Some {
        &&& b == (Console {
            mode: false,
            finished: None,
            lines: b.lines,
            current_line: b.current_line,
            ..a
        })
        &&& b.lines@.len() == 0
        &&& b.current_line@.len() == 0
    } else {
        b == (Console { scroll: scrolled(a.scroll, k, true), ..a })
    }
}

impl Console {
    /// Handles a key while the console is shown.
    pub fn handle_key(&mut self, k: Key)
        ensures
            console_key_post(*old(self), *final(self), k),
    {
        let closing = match k.code {
            KeyCode::Esc | KeyCode::Enter => self.finished.is_some(),
            _ => false,
        };
        if closing {
            self.mode = false;
            self.finished = None;
            self.lines = Vec::new();
            self.current_line = String::new();
        } else {
            self.scroll = scroll_by_key(self.scroll, k, true);
        }
    }
}

// ---------------------------------------------------------------------------
// Theme builder
// ---------------------------------------------------------------------------

/// Esc, Enter, `t` or `T` close the theme builder.
pub open spec fn closes_builder(k: Key) -> bool {
    k.code == KeyCode::Esc || k.code == KeyCode::Enter || is_char(k, 't') || is_char(k, 'T')
}

pub open spec fn is_left_key(k: Key) -> bool {
    k.code == KeyCode::Left || is_char(k, 'h')
}

pub open spec fn is_right_key(k: Key) -> bool {
    k.code == KeyCode::Right || is_char(k, 'l')
}

/// The color on row `row` (1 to 10) of the theme builder.
pub open spec fn theme_color(t: ThemeView, row: int) -> Color {
    if row == 1 {
        t.background
    } else if row == 2 {
        t.foreground
    } else if row == 3 {
        t.border
    } else if row == 4 {
        t.highlight_fg
    } else if row == 5 {
        t.highlight_bg
    } else if row == 6 {
        t.accent
    } else if row == 7 {
        t.selected
    } else if row == 8 {
        t.success
    } else if row == 9 {
        t.warning
    } else {
        t.error
    }
}

/// The theme with the color on row `row` (1 to 10) replaced.
pub open spec fn with_theme_color(t: ThemeView, row: int, c: Color) -> ThemeView {
    if row == 1 {
        ThemeView { background: c, ..t }
    } else if row == 2 {
        ThemeView { foreground: c, ..t }
    } else if row == 3 {
        ThemeView { border: c, ..t }
    } else if row == 4 {
        ThemeView { highlight_fg: c, ..t }
    } else if row == 5 {
        ThemeView { highlight_bg: c, ..t }
    } else if row == 6 {
        ThemeView { accent: c, ..t }
    } else if row == 7 {
        ThemeView { selected: c, ..t }
    } else if row == 8 {
        ThemeView { success: c, ..t }
    } else if row == 9 {
        ThemeView { warning: c, ..t }
    } else if row == 10 {
        ThemeView { error: c, ..t }
    } else {
        t
    }
}

/// The position of a color among the named colors, or 0 when it is not
/// one of them.
pub open spec fn named_color_pos(c: Color) -> int {
    if named_colors_spec().contains(c) {
        named_colors_spec().index_of(c)
    } else {
        0
    }
}

/// The position after one step left or right in a cycle of `n` entries.
pub open spec fn cycle_step(pos: int, n: int, left: bool) -> int {
    if left {
        if pos == 0 {
            n - 1
        } else {
            pos - 1
        }
    } else {
        (pos + 1) % n
    }
}

/// A key in the theme builder. Up and down move over the eleven rows
/// (wrapping); left and right on the first row step through the built-in
/// themes and the custom one, and on a color row step that color through
/// the named colors, which makes the theme custom. `closed` tells whether
/// the key closed the builder.
pub open spec fn builder_key_post(
    a: ThemeBuilder,
    ta: ThemeView,
    b: ThemeBuilder,
    tb: ThemeView,
    k: Key,
    closed: bool,
) -> bool {
    let n_themes = themes_spec().len() as int;
    if closes_builder(k) {
        &&& b == (ThemeBuilder { open: false, ..a })
        &&& tb == ta
        &&& closed
    } else if k.code == KeyCode::Up || is_char(k, 'k') {
        &&& b == (ThemeBuilder { cursor: (if a.cursor == 0 { 10 } else { (a.cursor - 1) as usize }), ..a })
        &&& tb == ta
        &&& !closed
    } else if k.code == KeyCode::Down || is_char(k, 'j') {
        &&& b == (ThemeBuilder { cursor: ((a.cursor + 1) % 11) as usize, ..a })
        &&& tb == ta
        &&& !closed
    } else if is_left_key(k) || is_right_key(k) {
        &&& !closed
        &&& if a.cursor == 0 {
            let idx = cycle_step(a.selected_theme_idx as int, n_themes + 1, is_left_key(k));
            &&& b == (ThemeBuilder { selected_theme_idx: idx as usize, ..a })
            &&& tb == (if idx < n_themes {
                themes_spec()[idx]
            } else {
                ThemeView { name: "custom"@, ..ta }
            })
        } else {
            let colors = named_colors_spec();
            let pos = cycle_step(named_color_pos(theme_color(ta, a.cursor as int)), colors.len() as int, is_left_key(k));
            &&& b == (ThemeBuilder { selected_theme_idx: n_themes as usize, ..a })
            &&& tb == with_theme_color(ThemeView { name: "custom"@, ..ta }, a.cursor as int, colors[pos])
        }
    } else {
        &&& b == a
        &&& tb == ta
        &&& !closed
    }
}

/// The index of a color among the named colors, or 0.
fn named_color_index(c: Color) -> (r: usize)
    ensures
        r == named_color_pos(c),
        r < named_colors_spec().len(),
{
    let colors = named_colors();
    let mut i: usize = 0;
    while i < colors.len()
        invariant
            colors@ == named_colors_spec(),
            i <= colors@.len(),
            forall|j: int| 0 <= j < i ==> colors@[j] != c,
        decreases colors.len() - i,
    {
        if colors[i] == c {
            proof {
                assert(named_colors_spec().contains(c));
                let p = named_colors_spec().index_of(c);
                assert(named_colors_spec()[p] == c);
                assert(p == i as int) by {
                    if p < i {
                        assert(colors@[p] != c);
                    }
                    if p > i {
                        assert(named_colors_spec()[i as int] == c);
                    }
                }
            }
            return i;
        }
        i = i + 1;
    }
    assert(!named_colors_spec().contains(c));
    0
}

/// The color on row `row` of a theme.
fn color_at(t: &Theme, row: usize) -> (c: Color)
    ensures
        c == theme_color(t@, row as int),
{
    if row == 1 {
        t.background
    } else if row == 2 {
        t.foreground
    } else if row == 3 {
        t.border
    } else if row == 4 {
        t.highlight_fg
    } else if row == 5 {
        t.highlight_bg
    } else if row == 6 {
        t.accent
    } else if row == 7 {
        t.selected
    } else if row == 8 {
        t.success
    } else if row == 9 {
        t.warning
    } else {
        t.error
    }
}

/// Replaces the color on row `row` of a theme.
fn set_color_at(t: &mut Theme, row: usize, c: Color)
    ensures
        final(t)@ == with_theme_color(old(t)@, row as int, c),
{
    if row == 1 {
        t.background = c;
    } else if row == 2 {
        t.foreground = c;
    } else if row == 3 {
        t.border = c;
    } else if row == 4 {
        t.highlight_fg = c;
    } else if row == 5 {
        t.highlight_bg = c;
    } else if row == 6 {
        t.accent = c;
    } else if row == 7 {
        t.selected = c;
    } else if row == 8 {
        t.success = c;
    } else if row == 9 {
        t.warning = c;
    } else if row == 10 {
        t.error = c;
    }
}

/// One step left or right in a cycle of `n` entries.
fn step_in_cycle(pos: usize, n: usize, left: bool) -> (r: usize)
    requires
        0 < n,
    ensures
        r == cycle_step(pos as int, n as int, left),
{
    if left {
        if pos == 0 {
            n - 1
        } else {
            pos - 1
        }
    } else {
        proof {
            lemma_add_mod_noop(pos as int, 1, n as int);
            if n > 1 {
                lemma_small_mod(1, n as nat);
            }
        }
        (pos % n + 1) % n
    }
}

impl ThemeBuilder {
    /// Handles a key while the theme builder is open; returns whether the
    /// key closed it.
    pub fn handle_key(&mut self, theme: &mut Theme, k: Key) -> (closed: bool)
        requires
            is_left_key(k) || is_right_key(k) ==> old(self).cursor <= 10,
        ensures
            builder_key_post(*old(self), old(theme)@, *final(self), final(theme)@, k, closed),
    {
        let left = match k.code {
            KeyCode::Left | KeyCode::Char('h') => true,
            _ => false,
        };
        match k.code {
            KeyCode::Esc | KeyCode::Char('t') | KeyCode::Char('T') | KeyCode::Enter => {
                self.open = false;
                true
            },
            KeyCode::Up | KeyCode::Char('k') => {
                self.cursor = if self.cursor == 0 {
                    10
                } else {
                    self.cursor - 1
                };
                false
            },
            KeyCode::Down | KeyCode::Char('j') => {
                proof {
                    lemma_add_mod_noop(self.cursor as int, 1, 11);
                }
                self.cursor = (self.cursor % 11 + 1) % 11;
                false
            },
            KeyCode::Left | KeyCode::Char('h') | KeyCode::Right | KeyCode::Char('l') => {
                let n_themes = theme_count();
                if self.cursor == 0 {
                    let idx = step_in_cycle(self.selected_theme_idx, n_themes + 1, left);
                    self.selected_theme_idx = idx;
                    if idx < n_themes {
                        let all = themes();
                        assert(all@[idx as int]@ == themes_spec()[idx as int]);
                        *theme = all[idx].clone_theme();
                    } else {
                        theme.name = owned("custom");
                    }
                } else {
                    let colors = named_colors();
                    let pos = named_color_index(color_at(theme, self.cursor));
                    let np = step_in_cycle(pos, colors.len(), left);
                    theme.name = owned("custom");
                    self.selected_theme_idx = n_themes;
                    set_color_at(theme, self.cursor, colors[np]);
                }
                false
            },
            _ => false,
        }
    }
}

// ---------------------------------------------------------------------------
// Text entry
// ---------------------------------------------------------------------------

/// A line of text after an editing key: Backspace removes the last
/// character, Ctrl+Backspace and Ctrl+W the last word, Ctrl+X (where
/// `ctrl_x_clears`) everything; any other character is appended.
pub open spec fn line_edited(s: Seq<char>, k: Key, ctrl_x_clears: bool) -> Seq<char> {
    match k.code {
        KeyCode::Backspace => if k.ctrl {
            delete_last_word_spec(s)
        } else {
            pop_spec(s)
        },
        KeyCode::Char(c) => if k.ctrl && c == 'w' {
            delete_last_word_spec(s)
        } else if k.ctrl && c == 'x' && ctrl_x_clears {
            Seq::empty()
        } else {
            s.push(c)
        },
        _ => s,
    }
}

/// Keys that edit a line of text.
pub open spec fn is_edit_key(k: Key) -> bool {
    k.code == KeyCode::Backspace || k.code is Char
}

/// Applies an editing key to a line of text.
fn edit_line(s: &mut String, k: Key, ctrl_x_clears: bool)
    ensures
        final(s)@ == line_edited(old(s)@, k, ctrl_x_clears),
{
    match k.code {
        KeyCode::Backspace => {
            if k.ctrl {
                delete_last_word(s);
            } else {
                pop_char(s);
            }
        },
        KeyCode::Char(c) => {
            if k.ctrl && c == 'w' {
                delete_last_word(s);
            } else if k.ctrl && c == 'x' && ctrl_x_clears {
                *s = String::new();
            } else {
                push_char(s, c);
            }
        },
        _ => {},
    }
}

// ---------------------------------------------------------------------------
// Running actions
// ---------------------------------------------------------------------------

/// The console opened for a new command: shown, empty, at the top, not
/// finished.
pub open spec fn console_started(a: Console, b: Console) -> bool {
    &&& b == (Console {
        mode: true,
        lines: b.lines,
        current_line: b.current_line,
        scroll: 0,
        finished: None,
        ..a
    })
    &&& b.lines@.len() == 0
    &&& b.current_line@.len() == 0
}

impl Console {
    /// Opens the console, empty, for a new command.
    pub fn start(&mut self)
        ensures
            console_started(*old(self), *final(self)),
    {
        self.mode = true;
        self.lines = Vec::new();
        self.current_line = String::new();
        self.scroll = 0;
        self.finished = None;
    }
}

/// A key at the sudo password prompt: Enter runs the pending action with
/// the typed password in a fresh console; Esc cancels it; other keys edit
/// the password.
pub open spec fn sudo_key_post(a: App, b: App, k: Key, eff: Option<Effect>) -> bool {
    if k.code == KeyCode::Enter {
        &&& b == (App {
            sudo: SudoPrompt { mode: false, password: b.sudo.password, pending_action: None },
            console: b.console,
            is_loading: true,
            ..a
        })
        &&& b.sudo.password@.len() == 0
        &&& console_started(a.console, b.console)
        &&& match a.sudo.pending_action {
            Some(p) => eff matches Some(Effect::RunAction(Some(pw), act, names)) && pw@
                == a.sudo.password@ && act == p.0 && names == p.1,
            None => eff is None,
        }
    } else if k.code == KeyCode::Esc {
        &&& b == (App {
            sudo: SudoPrompt { mode: false, password: b.sudo.password, pending_action: None },
            ..a
        })
        &&& b.sudo.password@.len() == 0
        &&& eff is None
    } else {
        &&& b == (App { sudo: SudoPrompt { password: b.sudo.password, ..a.sudo }, ..a })
        &&& b.sudo.password@ == line_edited(a.sudo.password@, k, false)
        &&& eff is None
    }
}

/// A key while a confirmation is pending: `y`, `Y` or Enter accepts it,
/// `n`, `N` or Esc cancels it, any other key leaves it pending.
pub open spec fn confirm_key_post(a: App, b: App, k: Key, eff: Option<Effect>) -> bool {
    a.confirm matches Some(c) && if is_char(k, 'y') || is_char(k, 'Y') || k.code == KeyCode::Enter {
        &&& b == (App { confirm: None, ..a })
        &&& eff matches Some(Effect::ConfirmAccepted(act, names)) && act == c.0 && names == c.1
    } else if is_char(k, 'n') || is_char(k, 'N') || k.code == KeyCode::Esc {
        &&& b == (App { confirm: None, ..a })
        &&& eff is None
    } else {
        &&& b == a
        &&& eff is None
    }
}

/// Starting a confirmed action: when sudo still holds credentials it runs
/// at once in a fresh console; otherwise the password prompt opens with the
/// action pending.
pub open spec fn begin_action_post(
    a: App,
    b: App,
    action: ConfirmAction,
    names: Vec<String>,
    sudo_cached: bool,
    eff: Option<Effect>,
) -> bool {
    if sudo_cached {
        &&& b == (App { console: b.console, is_loading: true, ..a })
        &&& console_started(a.console, b.console)
        &&& eff matches Some(Effect::RunAction(pw, act, ns)) && pw is None && act == action && ns == names
    } else {
        &&& b == (App {
            sudo: SudoPrompt { mode: true, password: b.sudo.password, pending_action: Some((action, names)) },
            ..a
        })
        &&& b.sudo.password@.len() == 0
        &&& eff is None
    }
}

// ---------------------------------------------------------------------------
// Help overlay and search
// ---------------------------------------------------------------------------

/// `?`, `q` or Esc close the help overlay.
pub open spec fn closes_help(k: Key) -> bool {
    is_char(k, '?') || is_char(k, 'q') || k.code == KeyCode::Esc
}

/// A key in the help overlay: the arrows scroll it, the closing keys close
/// it.
pub open spec fn help_key_post(a: App, b: App, k: Key) -> bool {
    b == (App {
        show_help: if closes_help(k) {
            false
        } else {
            a.show_help
        },
        help_scroll: scrolled(a.help_scroll, k, false),
        ..a
    })
}

/// The notice shown for a search while AUR features are off.
pub open spec fn aur_disabled_notice() -> Seq<char> {
    "AUR features disabled in config."@
}

/// A key while typing a search at time `now`: Enter ends the search and,
/// for a query that is not blank, starts an AUR search for the trimmed query
/// when the AUR is enabled, or else shows for three seconds that AUR
/// features are disabled; Esc ends the search; editing keys change the query
/// and ask for the view to be filtered again.
pub open spec fn search_key_post(a: App, b: App, k: Key, aur_enabled: bool, now: u64, eff: Option<Effect>) -> bool {
    let q = trim(a.query@);
    if k.code == KeyCode::Enter {
        if q.len() > 0 && aur_enabled {
            &&& b == (App { search_mode: false, is_loading: true, ..a })
            &&& eff matches Some(Effect::AurSearch(s)) && s@ == q
        } else if q.len() > 0 {
            &&& b == (App { search_mode: false, status: b.status, ..a })
            &&& b.status.text@ == aur_disabled_notice()
            &&& !b.status.keep
            &&& b.status.expires == Some(crate::app::expiry_spec(now, 3))
            &&& eff is None
        } else {
            &&& b == (App { search_mode: false, ..a })
            &&& eff is None
        }
    } else if k.code == KeyCode::Esc {
        &&& b == (App { search_mode: false, ..a })
        &&& eff is None
    } else if is_edit_key(k) {
        &&& b == (App { query: b.query, needs_filter: true, ..a })
        &&& b.query@ == line_edited(a.query@, k, true)
        &&& eff is None
    } else {
        &&& b == a
        &&& eff is None
    }
}

impl App {
    /// Handles a key at the sudo password prompt.
    pub fn sudo_key(&mut self, k: Key) -> (eff: Option<Effect>)
        ensures
            sudo_key_post(*old(self), *final(self), k, eff),
    {
        match k.code {
            KeyCode::Enter => {
                self.sudo.mode = false;
                self.console.start();
                self.is_loading = true;
                let mut pwd = String::new();
                std::mem::swap(&mut pwd, &mut self.sudo.password);
                let pending = self.sudo.pending_action.take();
                match pending {
                    Some((action, names)) => Some(Effect::RunAction(Some(pwd), action, names)),
                    None => None,
                }
            },
            KeyCode::Esc => {
                self.sudo.mode = false;
                self.sudo.password = String::new();
                self.sudo.pending_action = None;
                None
            },
            _ => {
                edit_line(&mut self.sudo.password, k, false);
                None
            },
        }
    }

    /// Handles a key while a confirmation is pending.
    pub fn confirm_key(&mut self, k: Key) -> (eff: Option<Effect>)
        requires
            old(self).confirm is Some,
        ensures
            confirm_key_post(*old(self), *final(self), k, eff),
    {
        let accept = match k.code {
            KeyCode::Char('y') | KeyCode::Char('Y') | KeyCode::Enter => true,
            _ => false,
        };
        let cancel = match k.code {
            KeyCode::Char('n') | KeyCode::Char('N') | KeyCode::Esc => true,
            _ => false,
        };
        if accept {
            match self.confirm.take() {
                Some((action, names)) => Some(Effect::ConfirmAccepted(action, names)),
                None => None,
            }
        } else if cancel {
            self.confirm = None;
            None
        } else {
            None
        }
    }

    /// Starts a confirmed action once it is known whether sudo still holds
    /// credentials.
    pub fn begin_confirmed_action(&mut self, action: ConfirmAction, names: Vec<String>, sudo_cached: bool) -> (eff: Option<Effect>)
        ensures
            begin_action_post(*old(self), *final(self), action, names, sudo_cached, eff),
    {
        if sudo_cached {
            self.console.start();
            self.is_loading = true;
            Some(Effect::RunAction(None, action, names))
        } else {
            self.sudo = SudoPrompt { mode: true, password: String::new(), pending_action: Some((action, names)) };
            None
        }
    }

    /// Handles a key in the help overlay.
    pub fn help_key(&mut self, k: Key)
        ensures
            help_key_post(*old(self), *final(self), k),
    {
        let close = match k.code {
            KeyCode::Char('?') | KeyCode::Char('q') | KeyCode::Esc => true,
            _ => false,
        };
        if close {
            self.show_help = false;
        }
        self.help_scroll = scroll_by_key(self.help_scroll, k, false);
    }

    /// Handles a key at time `now` while a search is being typed.
    pub fn search_key(&mut self, k: Key, aur_enabled: bool, now: u64) -> (eff: Option<Effect>)
        ensures
            search_key_post(*old(self), *final(self), k, aur_enabled, now, eff),
    {
        match k.code {
            KeyCode::Enter => {
                self.search_mode = false;
                let q = trim_str(self.query.as_str());
                if q.as_str().unicode_len() > 0 && aur_enabled {
                    self.is_loading = true;
                    Some(Effect::AurSearch(q))
                } else if q.as_str().unicode_len() > 0 {
                    let notice = crate::actions::no_helper_message(false);
                    self.set_msg_at(notice, 3, false, now);
                    None
                } else {
                    None
                }
            },
            KeyCode::Esc => {
                self.search_mode = false;
                None
            },
            KeyCode::Backspace | KeyCode::Char(_) => {
                edit_line(&mut self.query, k, true);
                self.needs_filter = true;
                None
            },
            _ => None,
        }
    }
}

// ---------------------------------------------------------------------------
// Package list
// ---------------------------------------------------------------------------

/// Keys that move the cursor or scroll the detail panel.
pub open spec fn is_nav_key(k: Key) -> bool {
    ||| k.code == KeyCode::Up
    ||| k.code == KeyCode::Down
    ||| k.code == KeyCode::PageUp
    ||| k.code == KeyCode::PageDown
    ||| k.code == KeyCode::Home
    ||| k.code == KeyCode::End
    ||| is_char(k, 'k')
    ||| is_char(k, 'j')
    ||| is_char(k, 'K')
    ||| is_char(k, 'J')
}

/// The list top after the cursor moved up to `c`: the cursor stays in view.
pub open spec fn top_after_up(c: usize, top: usize) -> usize {
    if c < top {
        c
    } else {
        top
    }
}

/// The list top after the cursor moved down to `c`: the cursor stays within
/// one page of rows.
pub open spec fn top_after_down(c: usize, top: usize) -> usize {
    if c >= top + LIST_HEIGHT {
        (c - LIST_HEIGHT + 1) as usize
    } else {
        top
    }
}

/// (cursor, list top, detail scroll) after a movement key, for a view of
/// `len` rows. With Control the arrows, `k`, `j` and the page keys scroll
/// the detail panel; otherwise they move the cursor by a row or a page,
/// resetting the detail scroll; Home and End jump to the ends; `K` and `J`
/// scroll the detail panel. A move past either end does nothing.
pub open spec fn nav(c: usize, top: usize, d: usize, len: int, k: Key) -> (usize, usize, usize) {
    let up = k.code == KeyCode::Up || is_char(k, 'k');
    let down = k.code == KeyCode::Down || is_char(k, 'j');
    if k.ctrl && up {
        (c, top, sat_sub(d, 1))
    } else if k.ctrl && down {
        (c, top, sat_add(d, 1))
    } else if k.ctrl && k.code == KeyCode::PageUp {
        (c, top, sat_sub(d, 20))
    } else if k.ctrl && k.code == KeyCode::PageDown {
        (c, top, sat_add(d, 20))
    } else if up && c > 0 {
        ((c - 1) as usize, top_after_up((c - 1) as usize, top), 0)
    } else if down && len > 0 && c < len - 1 {
        ((c + 1) as usize, top_after_down((c + 1) as usize, top), 0)
    } else if k.code == KeyCode::PageUp {
        (sat_sub(c, LIST_HEIGHT), top_after_up(sat_sub(c, LIST_HEIGHT), top), 0)
    } else if k.code == KeyCode::PageDown && len > 0 {
        let n = if c + LIST_HEIGHT <= len - 1 {
            (c + LIST_HEIGHT) as usize
        } else {
            (len - 1) as usize
        };
        (n, top_after_down(n, top), 0)
    } else if k.code == KeyCode::Home {
        (0, 0, 0)
    } else if k.code == KeyCode::End && len > 0 {
        let n = (len - 1) as usize;
        (n, if n >= LIST_HEIGHT {
            (n - LIST_HEIGHT + 1) as usize
        } else {
            top
        }, 0)
    } else if is_char(k, 'K') {
        (c, top, sat_sub(d, 1))
    } else if is_char(k, 'J') {
        (c, top, sat_add(d, 1))
    } else {
        (c, top, d)
    }
}

fn up_top(c: usize, top: usize) -> (r: usize)
    ensures
        r == top_after_up(c, top),
{
    if c < top {
        c
    } else {
        top
    }
}

fn down_top(c: usize, top: usize) -> (r: usize)
    ensures
        r == top_after_down(c, top),
{
    if c >= LIST_HEIGHT && c - LIST_HEIGHT >= top {
        c - LIST_HEIGHT + 1
    } else {
        top
    }
}

fn nav_step(c: usize, top: usize, d: usize, len: usize, k: Key) -> (r: (usize, usize, usize))
    ensures
        r == nav(c, top, d, len as int, k),
{
    let up = match k.code {
        KeyCode::Up | KeyCode::Char('k') => true,
        _ => false,
    };
    let down = match k.code {
        KeyCode::Down | KeyCode::Char('j') => true,
        _ => false,
    };
    if k.ctrl && up {
        (c, top, d.saturating_sub(1))
    } else if k.ctrl && down {
        (c, top, d.saturating_add(1))
    } else if k.ctrl && k.code == KeyCode::PageUp {
        (c, top, d.saturating_sub(20))
    } else if k.ctrl && k.code == KeyCode::PageDown {
        (c, top, d.saturating_add(20))
    } else if up && c > 0 {
        (c - 1, up_top(c - 1, top), 0)
    } else if down && len > 0 && c < len - 1 {
        (c + 1, down_top(c + 1, top), 0)
    } else if k.code == KeyCode::PageUp {
        let n = c.saturating_sub(LIST_HEIGHT);
        (n, up_top(n, top), 0)
    } else if k.code == KeyCode::PageDown && len > 0 {
        let n = if c <= len - 1 && len - 1 - c >= LIST_HEIGHT {
            c + LIST_HEIGHT
        } else {
            len - 1
        };
        (n, down_top(n, top), 0)
    } else if k.code == KeyCode::Home {
        (0, 0, 0)
    } else if k.code == KeyCode::End && len > 0 {
        let n = len - 1;
        (n, if n >= LIST_HEIGHT {
            n - LIST_HEIGHT + 1
        } else {
            top
        }, 0)
    } else if k.code == KeyCode::Char('K') {
        (c, top, d.saturating_sub(1))
    } else if k.code == KeyCode::Char('J') {
        (c, top, d.saturating_add(1))
    } else {
        (c, top, d)
    }
}

fn nav_key(k: Key) -> (r: bool)
    ensures
        r == is_nav_key(k),
{
    match k.code {
        KeyCode::Up | KeyCode::Down | KeyCode::PageUp | KeyCode::PageDown | KeyCode::Home | KeyCode::End => true,
        KeyCode::Char('k') | KeyCode::Char('j') | KeyCode::Char('K') | KeyCode::Char('J') => true,
        _ => false,
    }
}

/// Whether a name differs from `x`.
pub open spec fn differs_from(x: Seq<char>) -> spec_fn(Seq<char>) -> bool {
    |y: Seq<char>| y != x
}

/// The selection without `x`.
pub open spec fn without(s: Seq<Seq<char>>, x: Seq<char>) -> Seq<Seq<char>> {
    s.filter(differs_from(x))
}

/// The selection after toggling `x`: removed when present, else added at
/// the end.
pub open spec fn toggled(s: Seq<Seq<char>>, x: Seq<char>) -> Seq<Seq<char>> {
    if s.contains(x) {
        without(s, x)
    } else {
        s.push(x)
    }
}

/// Toggles `name` in the selection.
pub fn toggle_selected(sel: &mut Vec<String>, name: String)
    ensures
        string_views(final(sel)@) == toggled(string_views(old(sel)@), name@),
{
    let ghost sv = string_views(sel@);
    let mut found = false;
    let mut kept: Vec<String> = Vec::new();
    let mut i: usize = 0;
    while i < sel.len()
        invariant
            sv == string_views(sel@),
            i <= sel@.len(),
            found <==> sv.subrange(0, i as int).contains(name@),
            string_views(kept@) == without(sv.subrange(0, i as int), name@),
        decreases sel.len() - i,
    {
        let ghost before = string_views(kept@);
        proof {
            assert(sv.subrange(0, i + 1) =~= sv.subrange(0, i as int).push(sv[i as int]));
            sv.subrange(0, i as int).lemma_filter_push(sv[i as int], differs_from(name@));
        }
        if str_eq(sel[i].as_str(), name.as_str()) {
            found = true;
            assert(sv.subrange(0, i + 1)[i as int] == name@);
        } else {
            kept.push(sel[i].clone());
            assert(string_views(kept@) =~= before.push(sv[i as int]));
            assert(!sv.subrange(0, i + 1).contains(name@) ==> !sv.subrange(0, i as int).contains(name@)) by {
                if sv.subrange(0, i as int).contains(name@) {
                    let j = choose|j: int| 0 <= j < i && sv.subrange(0, i as int)[j] == name@;
                    assert(sv.subrange(0, i + 1)[j] == name@);
                }
            }
            assert(sv.subrange(0, i as int).contains(name@) ==> sv.subrange(0, i + 1).contains(name@)) by {
                if sv.subrange(0, i as int).contains(name@) {
                    let j = choose|j: int| 0 <= j < i && sv.subrange(0, i as int)[j] == name@;
                    assert(sv.subrange(0, i + 1)[j] == name@);
                }
            }
        }
        i = i + 1;
    }
    assert(sv.subrange(0, sv.len() as int) =~= sv);
    if found {
        *sel = kept;
    } else {
        sel.push(name);
        assert(string_views(sel@) =~= sv.push(name@));
    }
}

/// A copy of a list of strings.
fn copy_strings(v: &Vec<String>) -> (r: Vec<String>)
    ensures
        r@ == v@,
{
    let mut r: Vec<String> = Vec::new();
    let mut i: usize = 0;
    while i < v.len()
        invariant
            i <= v@.len(),
            r@ == v@.subrange(0, i as int),
        decreases v.len() - i,
    {
        r.push(v[i].clone());
        assert(r@ =~= v@.subrange(0, i + 1));
        i = i + 1;
    }
    assert(v@.subrange(0, v@.len() as int) =~= v@);
    r
}

/// There is a package under the cursor.
pub open spec fn has_current(a: App) -> bool {
    a.cursor < a.view@.len()
}

/// The package under the cursor.
pub open spec fn current_pkg(a: App) -> crate::package::PkgInfo {
    a.pkgs@[a.view@[a.cursor as int] as int]@
}

/// The names an install or remove acts on: the selection, or the package
/// under the cursor when nothing is selected.
pub open spec fn action_names(a: App) -> Seq<Seq<char>> {
    if a.selected@.len() == 0 {
        seq![current_pkg(a).name]
    } else {
        string_views(a.selected@)
    }
}

/// The message shown when the package under the cursor has no website.
pub open spec fn no_url_msg() -> Seq<char> {
    "Error: No website URL available."@
}

/// The value of a decimal digit.
pub open spec fn digit_value(c: char) -> int {
    (c as int) - ('0' as int)
}

pub open spec fn is_digit(c: char) -> bool {
    '0' <= c && c <= '9'
}

/// The key is a decimal digit.
pub open spec fn is_digit_key(k: Key) -> bool {
    k.code matches KeyCode::Char(c) && is_digit(c)
}

/// The value of a digit key.
pub open spec fn key_digit(k: Key) -> int {
    match k.code {
        KeyCode::Char(c) => digit_value(c),
        _ => 0,
    }
}

/// No outside work and no exit.
pub open spec fn quiet(out: KeyOutcome) -> bool {
    !out.quit && out.effect is None
}

/// The cursor-change time after a key that moved the cursor from
/// `a.cursor` to `c`.
pub open spec fn touched(a: App, c: usize, now: u64) -> u64 {
    if c != a.cursor {
        now
    } else {
        a.last_cursor_change
    }
}

/// A movement key in the package list.
pub open spec fn nav_key_post(a: App, b: App, k: Key, now: u64, out: KeyOutcome) -> bool {
    let t = nav(a.cursor, a.list_top, a.detail_top, a.view@.len() as int, k);
    &&& b == (App {
        cursor: t.0,
        list_top: t.1,
        detail_top: t.2,
        last_cursor_change: touched(a, t.0, now),
        ..a
    })
    &&& quiet(out)
}

/// Keys that act on the package under the cursor.
pub open spec fn is_item_key(k: Key) -> bool {
    is_char(k, ' ') || is_char(k, 'd') || is_char(k, 'w') || is_char(k, 'W') || is_char(k, 'i')
        || is_char(k, 'r')
}

/// A key acting on the package under the cursor: space toggles its
/// selection; `d` opens its website; `w` opens its wiki search; `W` shows
/// its wiki page; `i` and `r` ask to install or remove the selection (or
/// the package when nothing is selected).
pub open spec fn item_key_post(a: App, b: App, k: Key, now: u64, out: KeyOutcome) -> bool {
    let name = current_pkg(a).name;
    if is_char(k, ' ') {
        &&& b == (App { selected: b.selected, ..a })
        &&& string_views(b.selected@) == toggled(string_views(a.selected@), name)
        &&& quiet(out)
    } else if is_char(k, 'd') {
        let url = current_pkg(a).url;
        &&& !out.quit
        &&& if url.len() > 0 && url != "None"@ {
            &&& b == a
            &&& out.effect matches Some(Effect::OpenUrl(u)) && u@ == url
        } else {
            &&& b == (App { status: b.status, ..a })
            &&& b.status.text@ == no_url_msg()
            &&& !b.status.keep
            &&& b.status.expires == Some(crate::app::expiry_spec(now, 3))
            &&& out.effect is None
        }
    } else if is_char(k, 'w') {
        &&& b == a
        &&& !out.quit
        &&& out.effect matches Some(Effect::OpenUrl(u)) && u@ == wiki_search_prefix() + name
    } else if is_char(k, 'W') {
        &&& b == (App {
            wiki: WikiView {
                show: true,
                loading: true,
                pkg_name: b.wiki.pkg_name,
                content: b.wiki.content,
                err_msg: None,
                scroll: 0,
            },
            ..a
        })
        &&& b.wiki.pkg_name@ == name
        &&& b.wiki.content@.len() == 0
        &&& !out.quit
        &&& out.effect matches Some(Effect::FetchWiki(n)) && n@ == name
    } else {
        &&& b == (App { confirm: b.confirm, ..a })
        &&& b.confirm matches Some(c) && c.0 == (if is_char(k, 'i') {
            ConfirmAction::Install
        } else {
            ConfirmAction::Remove
        }) && string_views(c.1@) == action_names(a)
        &&& quiet(out)
    }
}

/// The `v` key: the dependency tree is toggled and the detail scroll reset;
/// when the tree becomes shown for a package other than the one last
/// fetched, its tree is fetched.
pub open spec fn dep_key_post(a: App, b: App, out: KeyOutcome) -> bool {
    let name = current_pkg(a).name;
    let show = !a.dep_tree.show;
    let fetch = show && has_current(a) && match a.dep_tree.pkg_name {
        Some(n) => n@ != name,
        None => true,
    };
    &&& !out.quit
    &&& if fetch {
        &&& b == (App {
            dep_tree: crate::app::DepTree { show, loading: true, content: b.dep_tree.content, ..a.dep_tree },
            detail_top: 0,
            ..a
        })
        &&& b.dep_tree.content@.len() == 0
        &&& out.effect matches Some(Effect::FetchDepTree(n, inst)) && n@ == name && inst
            == current_pkg(a).installed
    } else {
        &&& b == (App { dep_tree: crate::app::DepTree { show, ..a.dep_tree }, detail_top: 0, ..a })
        &&& out.effect is None
    }
}

/// The other keys of the package list: `u` asks to update the system, `R`
/// reloads the databases, `/` starts a search, a digit picks a filter tab,
/// `s` cycles the sort mode, `t` opens the theme builder, `v` toggles the
/// dependency tree, `?` opens the help, `q` quits.
pub open spec fn command_key_post(a: App, b: App, k: Key, now: u64, out: KeyOutcome) -> bool {
    if is_char(k, 'u') {
        &&& b == (App { confirm: b.confirm, ..a })
        &&& b.confirm matches Some(c) && c.0 == ConfirmAction::Update && c.1@.len() == 0
        &&& quiet(out)
    } else if is_char(k, 'R') {
        &&& b == a
        &&& !out.quit
        &&& out.effect matches Some(Effect::ReloadDb)
    } else if is_char(k, '/') {
        &&& b == (App { search_mode: true, ..a })
        &&& quiet(out)
    } else if is_digit_key(k) {
        let idx = if key_digit(k) >= 1 {
            key_digit(k) - 1
        } else {
            0
        };
        &&& if idx < FILTER_COUNT {
            b == (App { filter_idx: idx as usize, needs_filter: true, ..a })
        } else {
            b == a
        }
        &&& quiet(out)
    } else if is_char(k, 's') {
        &&& b == (App {
            view: b.view,
            sort_idx: ((a.sort_idx + 1) % (SORT_MODES as int)) as usize,
            cursor: 0,
            list_top: 0,
            detail_top: 0,
            last_cursor_change: touched(a, 0, now),
            ..a
        })
        &&& crate::app::sorted_arrangement(
            crate::package::pkg_views(a.pkgs@),
            a.inst_size_keys@,
            b.sort_idx as int,
            a.view@,
            b.view@,
        )
        &&& quiet(out)
    } else if is_char(k, 't') || is_char(k, 'T') {
        &&& b == (App { theme_builder: ThemeBuilder { open: true, cursor: 0, ..a.theme_builder }, ..a })
        &&& quiet(out)
    } else if is_char(k, 'v') || is_char(k, 'V') {
        dep_key_post(a, b, out)
    } else if is_char(k, '?') {
        &&& b == (App { show_help: true, help_scroll: 0, ..a })
        &&& quiet(out)
    } else if is_char(k, 'q') || is_char(k, 'Q') {
        &&& b == a
        &&& out.quit
        &&& out.effect is None
    } else {
        &&& b == a
        &&& quiet(out)
    }
}

/// A key in the package list (no overlay, no search being typed). A key
/// that acts on the package under the cursor does nothing when there is
/// none.
pub open spec fn list_key_post(a: App, b: App, k: Key, now: u64, out: KeyOutcome) -> bool {
    if is_nav_key(k) {
        nav_key_post(a, b, k, now, out)
    } else if is_item_key(k) {
        if has_current(a) {
            item_key_post(a, b, k, now, out)
        } else {
            b == a && quiet(out)
        }
    } else {
        command_key_post(a, b, k, now, out)
    }
}

fn item_key(k: Key) -> (r: bool)
    ensures
        r == is_item_key(k),
{
    match k.code {
        KeyCode::Char(' ') | KeyCode::Char('d') | KeyCode::Char('w') | KeyCode::Char('W') | KeyCode::Char('i') | KeyCode::Char('r') => true,
        _ => false,
    }
}

fn is_ascii_digit_char(c: char) -> (r: bool)
    ensures
        r == is_digit(c),
{
    '0' <= c && c <= '9'
}

impl App {
    /// The index into `pkgs` of the package under the cursor.
    fn current_index(&self) -> (i: usize)
        requires
            self.view_in_bounds(),
            has_current(*self),
        ensures
            i == self.view@[self.cursor as int],
            i < self.pkgs@.len(),
    {
        self.view[self.cursor]
    }

    /// Handles a key in the package list.
    pub fn list_key(&mut self, k: Key, now: u64) -> (out: KeyOutcome)
        requires
            old(self).view_in_bounds(),
        ensures
            list_key_post(*old(self), *final(self), k, now, out),
            final(self).view_in_bounds(),
    {
        if nav_key(k) {
            let (c, t, d) = nav_step(self.cursor, self.list_top, self.detail_top, self.view.len(), k);
            if c != self.cursor {
                self.last_cursor_change = now;
            }
            self.cursor = c;
            self.list_top = t;
            self.detail_top = d;
            KeyOutcome { quit: false, effect: None }
        } else if item_key(k) {
            if self.cursor < self.view.len() {
                self.item_key(k, now)
            } else {
                KeyOutcome { quit: false, effect: None }
            }
        } else {
            self.command_key(k, now)
        }
    }

    /// Handles a key that acts on the package under the cursor.
    fn item_key(&mut self, k: Key, now: u64) -> (out: KeyOutcome)
        requires
            old(self).view_in_bounds(),
            has_current(*old(self)),
            is_item_key(k),
        ensures
            item_key_post(*old(self), *final(self), k, now, out),
            final(self).view_in_bounds(),
    {
        let i = self.current_index();
        match k.code {
            KeyCode::Char(' ') => {
                let name = self.pkgs[i].name.clone();
                toggle_selected(&mut self.selected, name);
                KeyOutcome { quit: false, effect: None }
            },
            KeyCode::Char('d') => self.open_homepage_key(now),
            KeyCode::Char('w') => {
                let url = wiki_search_url(self.pkgs[i].name.as_str());
                KeyOutcome { quit: false, effect: Some(Effect::OpenUrl(url)) }
            },
            KeyCode::Char('W') => {
                let name = self.pkgs[i].name.clone();
                self.wiki = WikiView {
                    show: true,
                    loading: true,
                    pkg_name: name.clone(),
                    content: Vec::new(),
                    err_msg: None,
                    scroll: 0,
                };
                KeyOutcome { quit: false, effect: Some(Effect::FetchWiki(name)) }
            },
            _ => {
                let names = self.action_targets();
                let action = if k.code == KeyCode::Char('i') {
                    ConfirmAction::Install
                } else {
                    ConfirmAction::Remove
                };
                self.confirm = Some((action, names));
                KeyOutcome { quit: false, effect: None }
            },
        }
    }

    /// Handles the other keys of the package list.
    fn command_key(&mut self, k: Key, now: u64) -> (out: KeyOutcome)
        requires
            old(self).view_in_bounds(),
            !is_nav_key(k),
            !is_item_key(k),
        ensures
            command_key_post(*old(self), *final(self), k, now, out),
            final(self).view_in_bounds(),
    {
        match k.code {
            KeyCode::Char('u') => {
                self.confirm = Some((ConfirmAction::Update, Vec::new()));
                KeyOutcome { quit: false, effect: None }
            },
            KeyCode::Char('R') => KeyOutcome { quit: false, effect: Some(Effect::ReloadDb) },
            KeyCode::Char('/') => {
                self.search_mode = true;
                KeyOutcome { quit: false, effect: None }
            },
            KeyCode::Char(c) if is_ascii_digit_char(c) => {
                let v = (c as u32) - ('0' as u32);
                let idx: usize = if v >= 1 {
                    (v - 1) as usize
                } else {
                    0
                };
                if idx < FILTER_COUNT {
                    self.filter_idx = idx;
                    self.needs_filter = true;
                }
                KeyOutcome { quit: false, effect: None }
            },
            KeyCode::Char('s') => {
                if self.cursor != 0 {
                    self.last_cursor_change = now;
                }
                self.cycle_sort();
                KeyOutcome { quit: false, effect: None }
            },
            KeyCode::Char('t') | KeyCode::Char('T') => {
                self.theme_builder.open = true;
                self.theme_builder.cursor = 0;
                KeyOutcome { quit: false, effect: None }
            },
            KeyCode::Char('v') | KeyCode::Char('V') => self.dep_tree_key(),
            KeyCode::Char('?') => {
                self.show_help = true;
                self.help_scroll = 0;
                KeyOutcome { quit: false, effect: None }
            },
            KeyCode::Char('q') | KeyCode::Char('Q') => KeyOutcome { quit: true, effect: None },
            _ => KeyOutcome { quit: false, effect: None },
        }
    }

    /// The names an install or remove acts on.
    fn action_targets(&self) -> (names: Vec<String>)
        requires
            self.view_in_bounds(),
            has_current(*self),
        ensures
            string_views(names@) == action_names(*self),
    {
        if self.selected.len() == 0 {
            let i = self.current_index();
            let mut v: Vec<String> = Vec::new();
            v.push(self.pkgs[i].name.clone());
            assert(string_views(v@) =~= seq![current_pkg(*self).name]);
            v
        } else {
            copy_strings(&self.selected)
        }
    }

    /// `d`: open the website of the package under the cursor, or say that
    /// it has none.
    fn open_homepage_key(&mut self, now: u64) -> (out: KeyOutcome)
        requires
            old(self).view_in_bounds(),
            has_current(*old(self)),
        ensures
            !out.quit,
            ({
                let url = current_pkg(*old(self)).url;
                if url.len() > 0 && url != "None"@ {
                    &&& *final(self) == *old(self)
                    &&& out.effect matches Some(Effect::OpenUrl(u)) && u@ == url
                } else {
                    &&& *final(self) == (App { status: final(self).status, ..*old(self) })
                    &&& final(self).status.text@ == no_url_msg()
                    &&& !final(self).status.keep
                    &&& final(self).status.expires == Some(crate::app::expiry_spec(now, 3))
                    &&& out.effect is None
                }
            }),
    {
        let i = self.current_index();
        let url = self.pkgs[i].url.clone();
        if url.as_str().unicode_len() > 0 && !str_eq(url.as_str(), "None") {
            KeyOutcome { quit: false, effect: Some(Effect::OpenUrl(url)) }
        } else {
            self.set_msg_at("Error: No website URL available.", 3, false, now);
            proof {
                reveal_strlit("Error: No website URL available.");
            }
            KeyOutcome { quit: false, effect: None }
        }
    }

    /// `v`: toggle the dependency tree, fetching the tree of the package
    /// under the cursor when it is shown and not the one last fetched.
    fn dep_tree_key(&mut self) -> (out: KeyOutcome)
        requires
            old(self).view_in_bounds(),
        ensures
            dep_key_post(*old(self), *final(self), out),
    {
        self.dep_tree.show = !self.dep_tree.show;
        self.detail_top = 0;
        if self.dep_tree.show && self.cursor < self.view.len() {
            let i = self.current_index();
            let differs = match &self.dep_tree.pkg_name {
                Some(n) => !str_eq(n.as_str(), self.pkgs[i].name.as_str()),
                None => true,
            };
            if differs {
                self.dep_tree.loading = true;
                self.dep_tree.content = Vec::new();
                return KeyOutcome {
                    quit: false,
                    effect: Some(Effect::FetchDepTree(self.pkgs[i].name.clone(), self.pkgs[i].installed)),
                };
            }
        }
        KeyOutcome { quit: false, effect: None }
    }
}

// ---------------------------------------------------------------------------
// Laws
// ---------------------------------------------------------------------------

/// The cursor is on the list and on the page shown: below the view's length
/// (or at 0 for an empty view), and within `LIST_HEIGHT` rows from the top.
pub open spec fn cursor_in_view(c: usize, top: usize, len: int) -> bool {
    &&& (c < len || (len == 0 && c == 0))
    &&& top <= c
    &&& c < top + LIST_HEIGHT
}

/// Movement keys keep the cursor on the list and on the page shown.
pub proof fn lemma_nav_keeps_cursor_in_view(c: usize, top: usize, d: usize, len: int, k: Key)
    requires
        cursor_in_view(c, top, len),
        len <= usize::MAX,
    ensures
        ({
            let t = nav(c, top, d, len, k);
            cursor_in_view(t.0, t.1, len)
        }),
{
}

/// Every key keeps the cursor on the list and on the page shown.
pub proof fn lemma_key_keeps_cursor_in_view(
    a: App,
    b: App,
    k: Key,
    aur_enabled: bool,
    config_exists: bool,
    now: u64,
    out: KeyOutcome,
)
    requires
        a.view@.len() <= usize::MAX,
        cursor_in_view(a.cursor, a.list_top, a.view@.len() as int),
        key_post(a, b, k, aur_enabled, config_exists, now, out),
    ensures
        cursor_in_view(b.cursor, b.list_top, b.view@.len() as int),
{
    if !a.wiki.show && !a.theme_builder.open && !a.sudo.mode && !a.console.mode && a.confirm is None
        && !a.show_help && !a.search_mode {
        if is_nav_key(k) {
            lemma_nav_keeps_cursor_in_view(a.cursor, a.list_top, a.detail_top, a.view@.len() as int, k);
        } else if !is_item_key(k) && is_char(k, 's') {
            reveal(crate::app::sorted_arrangement);
        }
    }
}

/// Toggling a name keeps the selection free of repeated names, and changes
/// the membership of that name only.
pub proof fn lemma_toggle_selection(s: Seq<Seq<char>>, x: Seq<char>, y: Seq<char>)
    requires
        s.no_duplicates(),
    ensures
        toggled(s, x).no_duplicates(),
        toggled(s, x).contains(y) == (if y == x {
            !s.contains(x)
        } else {
            s.contains(y)
        }),
{
    if s.contains(x) {
        lemma_without(s, x);
    } else {
        let p = s.push(x);
        assert forall|i: int, j: int| 0 <= i < p.len() && 0 <= j < p.len() && i != j implies p[i] != p[j] by {
            if i < s.len() && j == s.len() {
                assert(p[i] == s[i]);
            }
            if j < s.len() && i == s.len() {
                assert(p[j] == s[j]);
            }
            if i < s.len() && j < s.len() {
                assert(p[i] == s[i] && p[j] == s[j]);
            }
        }
        if p.contains(y) && y != x {
            let i = choose|i: int| 0 <= i < p.len() && p[i] == y;
            assert(i < s.len());
            assert(s[i] == y);
        }
        if s.contains(y) {
            let i = choose|i: int| 0 <= i < s.len() && s[i] == y;
            assert(p[i] == y);
        }
        assert(p[s.len() as int] == x);
    }
}

/// In the package list, the digit keys 1 to 7 choose filter tabs 0 to 6,
/// every tab by its own digit, and ask for the view to be rebuilt; nothing
/// else changes and no outside work is asked for. The key 0 chooses the
/// first tab, and 8 and 9 change nothing.
pub proof fn lemma_digit_chooses_tab(
    a: App,
    b: App,
    k: Key,
    aur_enabled: bool,
    config_exists: bool,
    now: u64,
    out: KeyOutcome,
    c: char,
)
    requires
        !a.wiki.show,
        !a.theme_builder.open,
        !a.sudo.mode,
        !a.console.mode,
        a.confirm is None,
        !a.show_help,
        !a.search_mode,
        k.code == KeyCode::Char(c),
        '0' <= c <= '9',
        key_post(a, b, k, aur_enabled, config_exists, now, out),
    ensures
        '1' <= c <= '7' ==> b == (App { filter_idx: ((c as u32) - ('1' as u32)) as usize, needs_filter: true, ..a }),
        c == '0' ==> b == (App { filter_idx: 0, needs_filter: true, ..a }),
        c == '8' || c == '9' ==> b == a,
        b.filter_idx < FILTER_COUNT || b == a,
        !out.quit,
        out.effect is None,
{
}

/// Toggling the same name twice gives back the same selection, as a set
/// of names; when the name was not selected, the very same sequence.
pub proof fn lemma_toggle_twice(s: Seq<Seq<char>>, x: Seq<char>)
    requires
        s.no_duplicates(),
    ensures
        toggled(toggled(s, x), x).no_duplicates(),
        toggled(toggled(s, x), x).to_set() == s.to_set(),
        !s.contains(x) ==> toggled(toggled(s, x), x) == s,
{
    let t = toggled(s, x);
    let u = toggled(t, x);
    lemma_toggle_selection(s, x, x);
    assert forall|y: Seq<char>| #[trigger] u.contains(y) == s.contains(y) by {
        lemma_toggle_selection(s, x, y);
        lemma_toggle_selection(t, x, y);
    }
    lemma_toggle_selection(t, x, x);
    assert(u.to_set() =~= s.to_set());
    if !s.contains(x) {
        lemma_without_absent(s, x);
        assert(s.push(x).drop_last() =~= s);
        s.lemma_filter_push(x, differs_from(x));
    }
}

/// Filtering out a value that does not occur changes nothing.
proof fn lemma_without_absent(s: Seq<Seq<char>>, x: Seq<char>)
    requires
        !s.contains(x),
    ensures
        without(s, x) == s,
    decreases s.len(),
{
    if s.len() == 0 {
        reveal(Seq::filter);
        assert(without(s, x) =~= s);
    } else {
        let t = s.drop_last();
        assert(s =~= t.push(s.last()));
        assert(!t.contains(x)) by {
            if t.contains(x) {
                let i = choose|i: int| 0 <= i < t.len() && t[i] == x;
                assert(s[i] == x);
            }
        }
        assert(s[s.len() - 1] == s.last());
        lemma_without_absent(t, x);
        t.lemma_filter_push(s.last(), differs_from(x));
    }
}

/// Every key keeps the selection free of repeated names.
pub proof fn lemma_key_keeps_selection_unique(
    a: App,
    b: App,
    k: Key,
    aur_enabled: bool,
    config_exists: bool,
    now: u64,
    out: KeyOutcome,
)
    requires
        a.selection_unique(),
        key_post(a, b, k, aur_enabled, config_exists, now, out),
    ensures
        b.selection_unique(),
{
    if !a.wiki.show && !a.theme_builder.open && !a.sudo.mode && !a.console.mode && a.confirm is None
        && !a.show_help && !a.search_mode && !is_nav_key(k) && is_item_key(k) && is_char(k, ' ') {
        lemma_toggle_selection(string_views(a.selected@), current_pkg(a).name, current_pkg(a).name);
    }
}

/// What is left after filtering out `x`: the other values, each as often
/// as before.
proof fn lemma_without(s: Seq<Seq<char>>, x: Seq<char>)
    ensures
        forall|v: Seq<char>| #[trigger] without(s, x).contains(v) <==> (s.contains(v) && v != x),
        s.no_duplicates() ==> without(s, x).no_duplicates(),
    decreases s.len(),
{
    let pred = differs_from(x);
    if s.len() == 0 {
        reveal(Seq::filter);
        assert(without(s, x) =~= Seq::<Seq<char>>::empty());
    } else {
        let t = s.drop_last();
        let last = s.last();
        lemma_without(t, x);
        assert(s =~= t.push(last));
        t.lemma_filter_push(last, pred);
        let w = without(t, x);
        assert(without(s, x) == (if pred(last) {
            w.push(last)
        } else {
            w
        }));
        assert forall|v: Seq<char>| #[trigger] without(s, x).contains(v) <==> (s.contains(v) && v != x) by {
            if s.contains(v) && v != x {
                let i = choose|i: int| 0 <= i < s.len() && s[i] == v;
                if i < t.len() {
                    assert(t[i] == v);
                    assert(w.contains(v));
                    let j = choose|j: int| 0 <= j < w.len() && w[j] == v;
                    if pred(last) {
                        assert(w.push(last)[j] == v);
                    }
                } else {
                    assert(w.push(last)[w.len() as int] == v);
                }
            }
            if without(s, x).contains(v) {
                let j = choose|j: int| 0 <= j < without(s, x).len() && without(s, x)[j] == v;
                if pred(last) && j == w.len() {
                    assert(v == last);
                    assert(s[s.len() - 1] == v);
                } else {
                    assert(w[j] == v);
                    assert(w.contains(v));
                    let i = choose|i: int| 0 <= i < t.len() && t[i] == v;
                    assert(s[i] == v);
                }
            }
        }
        if s.no_duplicates() {
            assert(t.no_duplicates()) by {
                assert forall|i: int, j: int| 0 <= i < t.len() && 0 <= j < t.len() && i != j implies t[i] != t[j] by {
                    assert(s[i] == t[i] && s[j] == t[j]);
                }
            }
            if pred(last) {
                assert(!w.contains(last)) by {
                    if w.contains(last) {
                        assert(t.contains(last));
                        let i = choose|i: int| 0 <= i < t.len() && t[i] == last;
                        assert(s[i] == s[s.len() - 1]);
                    }
                }
                let p = w.push(last);
                assert forall|i: int, j: int| 0 <= i < p.len() && 0 <= j < p.len() && i != j implies p[i] != p[j] by {
                    if i < w.len() && j == w.len() {
                        assert(p[i] == w[i]);
                        assert(w.contains(w[i]));
                    }
                    if j < w.len() && i == w.len() {
                        assert(p[j] == w[j]);
                        assert(w.contains(w[j]));
                    }
                    if i < w.len() && j < w.len() {
                        assert(p[i] == w[i] && p[j] == w[j]);
                    }
                }
            }
        }
    }
}

/// The theme builder's cursor stays on its eleven rows, and its theme index
/// among the built-in themes and the custom one.
pub proof fn lemma_builder_bounds(a: ThemeBuilder, ta: ThemeView, b: ThemeBuilder, tb: ThemeView, k: Key, closed: bool)
    requires
        a.cursor <= 10,
        a.selected_theme_idx <= themes_spec().len(),
        builder_key_post(a, ta, b, tb, k, closed),
    ensures
        b.cursor <= 10,
        b.selected_theme_idx <= themes_spec().len(),
{
}

// ---------------------------------------------------------------------------
// Dispatch
// ---------------------------------------------------------------------------

/// What a key press does. The first of these that is open takes the key:
/// the wiki viewer, the theme builder, the sudo prompt, the console, a
/// pending confirmation, the help overlay, the search being typed; else the
/// package list. `now` is the time of the key press, recorded when the
/// cursor moves. Closing the theme builder asks for the configuration to be
/// saved only while no configuration file exists (`config_exists` false):
/// an existing file is never overwritten.
pub open spec fn key_post(
    a: App,
    b: App,
    k: Key,
    aur_enabled: bool,
    config_exists: bool,
    now: u64,
    out: KeyOutcome,
) -> bool {
    if a.wiki.show {
        &&& b == (App { wiki: b.wiki, ..a })
        &&& wiki_key_post(a.wiki, b.wiki, k, out.effect)
        &&& !out.quit
    } else if a.theme_builder.open {
        &&& b == (App { theme_builder: b.theme_builder, theme: b.theme, ..a })
        &&& builder_key_post(a.theme_builder, a.theme@, b.theme_builder, b.theme@, k, closes_builder(k))
        &&& out.effect == (if closes_builder(k) && !config_exists {
            Some(Effect::SaveConfig)
        } else {
            None
        })
        &&& !out.quit
    } else if a.sudo.mode {
        &&& sudo_key_post(a, b, k, out.effect)
        &&& !out.quit
    } else if a.console.mode {
        &&& b == (App { console: b.console, ..a })
        &&& console_key_post(a.console, b.console, k)
        &&& quiet(out)
    } else if a.confirm is Some {
        &&& confirm_key_post(a, b, k, out.effect)
        &&& !out.quit
    } else if a.show_help {
        &&& help_key_post(a, b, k)
        &&& quiet(out)
    } else if a.search_mode {
        &&& search_key_post(a, b, k, aur_enabled, now, out.effect)
        &&& !out.quit
    } else {
        list_key_post(a, b, k, now, out)
    }
}

/// Handles a key press at time `now` (nanoseconds on the application
/// clock). `aur_enabled` is whether searches also query the AUR;
/// `config_exists` is whether the configuration file exists.
pub fn handle_key_at(key: Key, app: &mut App, aur_enabled: bool, config_exists: bool, now: u64) -> (out: KeyOutcome)
    requires
        old(app).view_in_bounds(),
        old(app).theme_builder.open && !old(app).wiki.show && (is_left_key(key) || is_right_key(key))
            ==> old(app).theme_builder.cursor <= 10,
    ensures
        key_post(*old(app), *final(app), key, aur_enabled, config_exists, now, out),
        final(app).view_in_bounds(),
        old(app).selection_unique() ==> final(app).selection_unique(),
{
    let ghost a = *app;
    let out = handle_key_dispatch(key, app, aur_enabled, config_exists, now);
    proof {
        if a.selection_unique() {
            lemma_key_keeps_selection_unique(a, *app, key, aur_enabled, config_exists, now, out);
        }
    }
    out
}

fn handle_key_dispatch(key: Key, app: &mut App, aur_enabled: bool, config_exists: bool, now: u64) -> (out: KeyOutcome)
    requires
        old(app).view_in_bounds(),
        old(app).theme_builder.open && !old(app).wiki.show && (is_left_key(key) || is_right_key(key))
            ==> old(app).theme_builder.cursor <= 10,
    ensures
        key_post(*old(app), *final(app), key, aur_enabled, config_exists, now, out),
        final(app).view_in_bounds(),
{
    if app.wiki.show {
        let effect = app.wiki.handle_key(key);
        KeyOutcome { quit: false, effect }
    } else if app.theme_builder.open {
        let closed = app.theme_builder.handle_key(&mut app.theme, key);
        KeyOutcome {
            quit: false,
            effect: if closed && !config_exists {
                Some(Effect::SaveConfig)
            } else {
                None
            },
        }
    } else if app.sudo.mode {
        let effect = app.sudo_key(key);
        KeyOutcome { quit: false, effect }
    } else if app.console.mode {
        app.console.handle_key(key);
        KeyOutcome { quit: false, effect: None }
    } else if app.confirm.is_some() {
        let effect = app.confirm_key(key);
        KeyOutcome { quit: false, effect }
    } else if app.show_help {
        app.help_key(key);
        KeyOutcome { quit: false, effect: None }
    } else if app.search_mode {
        let effect = app.search_key(key, aur_enabled, now);
        KeyOutcome { quit: false, effect }
    } else {
        app.list_key(key, now)
    }
}

/// Handles a key press now.
pub fn handle_key(key: Key, app: &mut App, aur_enabled: bool, config_exists: bool) -> (out: KeyOutcome)
    requires
        old(app).view_in_bounds(),
        old(app).theme_builder.open && !old(app).wiki.show && (is_left_key(key) || is_right_key(key))
            ==> old(app).theme_builder.cursor <= 10,
    ensures
        exists|now: u64| key_post(*old(app), *final(app), key, aur_enabled, config_exists, now, out),
        final(app).view_in_bounds(),
        old(app).selection_unique() ==> final(app).selection_unique(),
{
    let now = app.now_ns();
    handle_key_at(key, app, aur_enabled, config_exists, now)
}

} // verus!
