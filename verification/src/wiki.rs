//! The ArchWiki viewer's logic: which pages to ask for in which order,
//! the API URLs, reading the API's answer, and turning wiki markup into
//! plain text.
use vstd::prelude::*;
use crate::config::index_from;
use crate::text::{
    append_chars, append_str, char_is_ascii_alnum, chars_of, contains, contains_seq, ends_with, ends_with_seq,
    has_char, is_ascii_alnum, is_ascii_lower, lines, owned, push_char, split_lines, starts_with, starts_with_seq,
    str_eq, string_of, string_views, trim, trim_str,
};
use crate::theme::{hex_digit_char, hex_digit_upper};

verus! {

// ---------------------------------------------------------------------------
// Page names
// ---------------------------------------------------------------------------

/// `s` without the prefix `p`.
pub open spec fn drop_prefix(s: Seq<char>, p: Seq<char>) -> Seq<char> {
    s.subrange(p.len() as int, s.len() as int)
}

/// The name a package's wiki page may have: the name without the first of
/// the prefixes `python-`, `rust-`, `ruby-`, `perl-`, `php-`, `go-`,
/// `nodejs-`, `lib` that it starts with.
pub open spec fn base_name_spec(n: Seq<char>) -> Seq<char> {
    if starts_with(n, "python-"@) {
        drop_prefix(n, "python-"@)
    } else if starts_with(n, "rust-"@) {
        drop_prefix(n, "rust-"@)
    } else if starts_with(n, "ruby-"@) {
        drop_prefix(n, "ruby-"@)
    } else if starts_with(n, "perl-"@) {
        drop_prefix(n, "perl-"@)
    } else if starts_with(n, "php-"@) {
        drop_prefix(n, "php-"@)
    } else if starts_with(n, "go-"@) {
        drop_prefix(n, "go-"@)
    } else if starts_with(n, "nodejs-"@) {
        drop_prefix(n, "nodejs-"@)
    } else if starts_with(n, "lib"@) {
        drop_prefix(n, "lib"@)
    } else {
        n
    }
}

fn strip_if(cs: &Vec<char>, prefix: &str) -> (r: Option<String>)
    ensures
        match r {
            Some(s) => starts_with(cs@, prefix@) && s@ == drop_prefix(cs@, prefix@),
            None => !starts_with(cs@, prefix@),
        },
{
    let p = chars_of(prefix);
    if starts_with_seq(cs, &p) {
        Some(string_of(cs, p.len(), cs.len()))
    } else {
        None
    }
}

/// The name of a package without its language or `lib` prefix.
pub fn base_package_name(name: &str) -> (r: String)
    ensures
        r@ == base_name_spec(name@),
{
    let cs = chars_of(name);
    if let Some(s) = strip_if(&cs, "python-") {
        return s;
    }
    if let Some(s) = strip_if(&cs, "rust-") {
        return s;
    }
    if let Some(s) = strip_if(&cs, "ruby-") {
        return s;
    }
    if let Some(s) = strip_if(&cs, "perl-") {
        return s;
    }
    if let Some(s) = strip_if(&cs, "php-") {
        return s;
    }
    if let Some(s) = strip_if(&cs, "go-") {
        return s;
    }
    if let Some(s) = strip_if(&cs, "nodejs-") {
        return s;
    }
    if let Some(s) = strip_if(&cs, "lib") {
        return s;
    }
    owned(name)
}

// ---------------------------------------------------------------------------
// URLs
// ---------------------------------------------------------------------------

/// The uppercase hexadecimal digits of `n`, without leading zeros.
pub open spec fn hex_upper(n: nat) -> Seq<char>
    decreases n,
{
    if n < 16 {
        seq![hex_digit_upper(n as int)]
    } else {
        hex_upper(n / 16).push(hex_digit_upper((n % 16) as int))
    }
}

/// `format!("{:02X}", n)`: at least two uppercase hexadecimal digits.
pub open spec fn hex2(n: nat) -> Seq<char> {
    if n < 16 {
        seq!['0', hex_digit_upper(n as int)]
    } else {
        hex_upper(n)
    }
}

/// Characters kept as they are in a URL.
pub open spec fn url_safe(c: char) -> bool {
    is_ascii_alnum(c) || c == '.' || c == '_' || c == '+' || c == '-' || c == '@'
}

/// A character in a URL: kept when safe, `%20` for a space, else `%` and
/// the hexadecimal code point (`c as u32`).
pub open spec fn encode_char(c: char) -> Seq<char> {
    if url_safe(c) {
        seq![c]
    } else if c == ' ' {
        "%20"@
    } else {
        seq!['%'] + hex2((c as u32) as nat)
    }
}

/// A text encoded for a URL, character by character.
pub open spec fn url_encode_spec(s: Seq<char>) -> Seq<char>
    decreases s.len(),
{
    if s.len() == 0 {
        Seq::empty()
    } else {
        url_encode_spec(s.drop_last()) + encode_char(s.last())
    }
}

fn push_hex(out: &mut String, n: u32)
    ensures
        final(out)@ == old(out)@ + hex_upper(n as nat),
    decreases n,
{
    if n >= 16 {
        push_hex(out, n / 16);
    }
    push_char(out, hex_digit_char(n % 16));
    assert(final(out)@ =~= old(out)@ + hex_upper(n as nat));
}

/// Encodes a text for use in a URL.
pub fn url_encode(s: &str) -> (r: String)
    ensures
        r@ == url_encode_spec(s@),
{
    let cs = chars_of(s);
    let mut out = String::new();
    let mut i: usize = 0;
    while i < cs.len()
        invariant
            cs@ == s@,
            i <= cs@.len(),
            out@ == url_encode_spec(cs@.subrange(0, i as int)),
        decreases cs.len() - i,
    {
        let c = cs[i];
        let ghost before = out@;
        if char_is_ascii_alnum(c) || c == '.' || c == '_' || c == '+' || c == '-' || c == '@' {
            push_char(&mut out, c);
        } else if c == ' ' {
            append_str(&mut out, "%20");
            proof {
                reveal_strlit("%20");
            }
        } else {
            push_char(&mut out, '%');
            let v = c as u32;
            if v < 16 {
                push_char(&mut out, '0');
            }
            push_hex(&mut out, v);
        }
        assert(out@ =~= before + encode_char(c));
        assert(cs@.subrange(0, i + 1).drop_last() =~= cs@.subrange(0, i as int));
        i = i + 1;
    }
    assert(cs@.subrange(0, cs@.len() as int) =~= cs@);
    out
}

/// The API URL that gives the current text of a page.
pub open spec fn revisions_url_spec(title: Seq<char>) -> Seq<char> {
    "https://wiki.archlinux.org/api.php?action=query&prop=revisions&titles="@ + url_encode_spec(title)
        + "&rvslots=main&rvprop=content&format=json&redirects=1"@
}

/// The API URL that gives the current text of a page.
pub fn revisions_url(title: &str) -> (r: String)
    ensures
        r@ == revisions_url_spec(title@),
{
    let mut u = owned("https://wiki.archlinux.org/api.php?action=query&prop=revisions&titles=");
    append_str(&mut u, url_encode(title).as_str());
    append_str(&mut u, "&rvslots=main&rvprop=content&format=json&redirects=1");
    u
}

/// The API URL of a full-text search.
pub open spec fn search_url_spec(query: Seq<char>) -> Seq<char> {
    "https://wiki.archlinux.org/api.php?action=query&list=search&srsearch="@ + url_encode_spec(query)
        + "&format=json"@
}

/// The API URL of a full-text search.
pub fn search_url(query: &str) -> (r: String)
    ensures
        r@ == search_url_spec(query@),
{
    let mut u = owned("https://wiki.archlinux.org/api.php?action=query&list=search&srsearch=");
    append_str(&mut u, url_encode(query).as_str());
    append_str(&mut u, "&format=json");
    u
}

// ---------------------------------------------------------------------------
// API answers
// ---------------------------------------------------------------------------

/// A page of the API's answer: whether it is missing, and the text of its
/// first revision when there is one.
pub struct WikiPage {
    pub missing: bool,
    pub content: Option<String>,
}

/// What the answer to a revisions query gives, from its pages in order:
/// the first missing page makes the page `Missing`; the first page with a
/// text gives that text; without either the answer is invalid.
pub open spec fn revisions_outcome_spec(pages: Seq<WikiPage>) -> Result<Seq<char>, Seq<char>>
    decreases pages.len(),
{
    if pages.len() == 0 {
        Err("Invalid API response structure"@)
    } else if pages[0].missing {
        Err("Missing"@)
    } else {
        match pages[0].content {
            Some(c) => Ok(c@),
            None => revisions_outcome_spec(pages.drop_first()),
        }
    }
}

/// The page text that the answer to a revisions query gives; `pages` is
/// none when the answer holds no pages at all.
pub fn revisions_outcome(pages: Option<Vec<WikiPage>>) -> (r: Result<String, String>)
    ensures
        match pages {
            None => r matches Err(e) && e@ == "Invalid API response structure"@,
            Some(ps) => match (r, revisions_outcome_spec(ps@)) {
                (Ok(a), Ok(b)) => a@ == b,
                (Err(a), Err(b)) => a@ == b,
                _ => false,
            },
        },
{
    match pages {
        Some(ps) => pages_outcome(&ps),
        None => Err(owned("Invalid API response structure")),
    }
}

fn pages_outcome(ps: &Vec<WikiPage>) -> (r: Result<String, String>)
    ensures
        match (r, revisions_outcome_spec(ps@)) {
            (Ok(a), Ok(b)) => a@ == b,
            (Err(a), Err(b)) => a@ == b,
            _ => false,
        },
{
    let mut i: usize = 0;
    assert(ps@.subrange(0, ps@.len() as int) =~= ps@);
    while i < ps.len()
        invariant
            i <= ps@.len(),
            revisions_outcome_spec(ps@) == revisions_outcome_spec(ps@.subrange(i as int, ps@.len() as int)),
        decreases ps.len() - i,
    {
        let ghost rest = ps@.subrange(i as int, ps@.len() as int);
        assert(rest[0] == ps@[i as int]);
        assert(rest.drop_first() =~= ps@.subrange(i + 1, ps@.len() as int));
        if ps[i].missing {
            return Err(owned("Missing"));
        }
        match &ps[i].content {
            Some(c) => {
                return Ok(c.clone());
            },
            None => {},
        }
        i = i + 1;
    }
    Err(owned("Invalid API response structure"))
}

// ---------------------------------------------------------------------------
// The API's JSON answers
// ---------------------------------------------------------------------------

/// What `serde_json` reads from a revisions answer: serde's error text when
/// the text is no JSON; else, when `query.pages` is an object, its pages in
/// the map's order, each as whether it has a `missing` string and the text
/// at `revisions[0].slots.main.*` if that is a string; else nothing.
pub uninterp spec fn revisions_json(text: Seq<char>) -> Result<Option<Seq<(bool, Option<Seq<char>>)>>, Seq<char>>;

/// What `serde_json` reads from a search answer: serde's error text when the
/// text is no JSON, else the string at `query.search[0].title` if there is
/// one.
pub uninterp spec fn search_title_json(text: Seq<char>) -> Result<Option<Seq<char>>, Seq<char>>;

/// A page as plain values: whether it is missing, and its text.
pub open spec fn page_view(p: WikiPage) -> (bool, Option<Seq<char>>) {
    (p.missing, match p.content {
        Some(c) => Some(c@),
        None => None,
    })
}

pub open spec fn page_views(ps: Seq<WikiPage>) -> Seq<(bool, Option<Seq<char>>)> {
    ps.map_values(|p: WikiPage| page_view(p))
}

/// `serde_json::from_str` into a `serde_json::Value`, then the fields of a
/// revisions answer read with `Value`'s indexing (which gives `null` for
/// what is absent), `as_object`, `is_string` and `as_str`. The contract
/// claims only that the result is the named reading of the text.
#[verifier::external_body]
pub fn parse_revisions_json(text: &str) -> (r: Result<Option<Vec<WikiPage>>, String>)
    ensures
        match r {
            Err(e) => revisions_json(text@) == Err::<Option<Seq<(bool, Option<Seq<char>>)>>, Seq<char>>(e@),
            Ok(None) => revisions_json(text@) == Ok::<Option<Seq<(bool, Option<Seq<char>>)>>, Seq<char>>(None),
            Ok(Some(ps)) => revisions_json(text@) == Ok::<Option<Seq<(bool, Option<Seq<char>>)>>, Seq<char>>(
                Some(page_views(ps@)),
            ),
        },
{
    let v: serde_json::Value = serde_json::from_str(text).map_err(|e| e.to_string())?;
    Ok(v["query"]["pages"].as_object().map(|ps| {
        ps.values().map(|p| WikiPage {
            missing: p["missing"].is_string(),
            content: p["revisions"][0]["slots"]["main"]["*"].as_str().map(|s| s.to_string()),
        }).collect()
    }))
}

/// `serde_json::from_str` into a `serde_json::Value`, then the string at
/// `query.search[0].title` read with `Value`'s indexing and `as_str`. The
/// contract claims only that the result is the named reading of the text.
#[verifier::external_body]
pub fn parse_search_title(text: &str) -> (r: Result<Option<String>, String>)
    ensures
        match r {
            Err(e) => search_title_json(text@) == Err::<Option<Seq<char>>, Seq<char>>(e@),
            Ok(None) => search_title_json(text@) == Ok::<Option<Seq<char>>, Seq<char>>(None),
            Ok(Some(t)) => search_title_json(text@) == Ok::<Option<Seq<char>>, Seq<char>>(Some(t@)),
        },
{
    let v: serde_json::Value = serde_json::from_str(text).map_err(|e| e.to_string())?;
    Ok(v["query"]["search"][0]["title"].as_str().map(|t| t.to_string()))
}

/// The outcome of a revisions answer's pages, as plain values.
pub open spec fn pages_outcome_spec(pages: Seq<(bool, Option<Seq<char>>)>) -> Result<Seq<char>, Seq<char>>
    decreases pages.len(),
{
    if pages.len() == 0 {
        Err("Invalid API response structure"@)
    } else if pages[0].0 {
        Err("Missing"@)
    } else {
        match pages[0].1 {
            Some(c) => Ok(c),
            None => pages_outcome_spec(pages.drop_first()),
        }
    }
}

proof fn lemma_pages_outcome_views(ps: Seq<WikiPage>)
    ensures
        pages_outcome_spec(page_views(ps)) == revisions_outcome_spec(ps),
    decreases ps.len(),
{
    if ps.len() > 0 {
        assert(page_views(ps).drop_first() =~= page_views(ps.drop_first()));
        lemma_pages_outcome_views(ps.drop_first());
    }
}

pub open spec fn json_error(e: Seq<char>) -> Seq<char> {
    "JSON parse error: "@ + e
}

/// The page text a revisions answer gives: a JSON error, an answer without
/// pages, or the outcome of its pages (see [`revisions_outcome`]).
pub open spec fn revisions_answer_spec(text: Seq<char>) -> Result<Seq<char>, Seq<char>> {
    match revisions_json(text) {
        Err(e) => Err(json_error(e)),
        Ok(None) => Err("Invalid API response structure"@),
        Ok(Some(ps)) => pages_outcome_spec(ps),
    }
}

/// The title a search answer gives, or its JSON error.
pub open spec fn search_answer_spec(text: Seq<char>) -> Result<Option<Seq<char>>, Seq<char>> {
    match search_title_json(text) {
        Err(e) => Err(json_error(e)),
        Ok(t) => Ok(t),
    }
}

/// The page text that a revisions answer gives.
pub fn revisions_answer(text: &str) -> (r: Result<String, String>)
    ensures
        match (r, revisions_answer_spec(text@)) {
            (Ok(a), Ok(b)) => a@ == b,
            (Err(a), Err(b)) => a@ == b,
            _ => false,
        },
{
    match parse_revisions_json(text) {
        Err(e) => {
            let mut m = owned("JSON parse error: ");
            append_str(&mut m, e.as_str());
            Err(m)
        },
        Ok(pages) => {
            proof {
                if pages is Some {
                    lemma_pages_outcome_views(pages->0@);
                }
            }
            revisions_outcome(pages)
        },
    }
}

/// The title that a search answer gives.
pub fn search_answer(text: &str) -> (r: Result<Option<String>, String>)
    ensures
        match (r, search_answer_spec(text@)) {
            (Ok(Some(a)), Ok(Some(b))) => a@ == b,
            (Ok(None), Ok(None)) => true,
            (Err(a), Err(b)) => a@ == b,
            _ => false,
        },
{
    match parse_search_title(text) {
        Err(e) => {
            let mut m = owned("JSON parse error: ");
            append_str(&mut m, e.as_str());
            Err(m)
        },
        Ok(t) => Ok(t),
    }
}

// ---------------------------------------------------------------------------
// Finding a package's page
// ---------------------------------------------------------------------------

/// How far the search for a package's page has come.
#[derive(Clone, Copy, PartialEq, Eq, Debug, Structural)]
pub enum WikiStage {
    /// The page named like the package was asked for.
    Exact,
    /// The page named like the package's base name was asked for.
    Base,
    /// A search for the package name was asked for.
    SearchExact,
    /// The page found by searching the package name was asked for.
    FoundExact,
    /// A search for the base name was asked for.
    SearchBase,
    /// The page found by searching the base name was asked for.
    FoundBase,
}

/// A request to the wiki's API.
#[derive(Debug)]
pub enum WikiRequest {
    /// The current text of the page with this title.
    Page(String),
    /// The title of the first search result for this text.
    Search(String),
}

/// The answer to a request: a page text (or `Missing`, or another error),
/// or the first search result's title (none when nothing was found).
#[derive(Debug)]
pub enum WikiReply {
    Page(Result<String, String>),
    Search(Result<Option<String>, String>),
}

/// What to do next.
#[derive(Debug)]
pub enum WikiNext {
    /// Send a request, and come back with its answer in this stage.
    Ask(WikiStage, WikiRequest),
    /// The search is over: the page text, or why there is none.
    Done(Result<String, String>),
}

/// The message when no page was found.
pub open spec fn no_page_msg(pkg: Seq<char>) -> Seq<char> {
    "No wiki page found for '"@ + pkg + "'"@
}

/// A page request in a stage.
pub open spec fn asks_page(n: WikiNext, stage: WikiStage, title: Seq<char>) -> bool {
    n matches WikiNext::Ask(s, WikiRequest::Page(t)) && s == stage && t@ == title
}

/// A search request in a stage.
pub open spec fn asks_search(n: WikiNext, stage: WikiStage, q: Seq<char>) -> bool {
    n matches WikiNext::Ask(s, WikiRequest::Search(t)) && s == stage && t@ == q
}

pub open spec fn done_ok(n: WikiNext, c: Seq<char>) -> bool {
    n matches WikiNext::Done(Ok(t)) && t@ == c
}

pub open spec fn done_err(n: WikiNext, e: Seq<char>) -> bool {
    n matches WikiNext::Done(Err(t)) && t@ == e
}

/// After the search for the package name found nothing usable: search the
/// base name when it differs, else give up.
pub open spec fn after_search_exact(n: WikiNext, pkg: Seq<char>) -> bool {
    let base = base_name_spec(pkg);
    if base != pkg {
        asks_search(n, WikiStage::SearchBase, base)
    } else {
        done_err(n, no_page_msg(pkg))
    }
}

/// The first request for a package's page: the page named like the
/// package.
pub fn wiki_start(pkg: &str) -> (n: WikiNext)
    ensures
        asks_page(n, WikiStage::Exact, pkg@),
{
    WikiNext::Ask(WikiStage::Exact, WikiRequest::Page(owned(pkg)))
}

/// The step after an answer, looking for a package's page in turn as the
/// page named like the package, the page named like its base name, the
/// first search result for the name, and the first search result for the
/// base name. A text ends the search; `Missing` goes on; another error ends
/// it, except that any failure at the last step just means no page.
pub open spec fn wiki_step_spec(pkg: Seq<char>, stage: WikiStage, reply: WikiReply, n: WikiNext) -> bool {
    let base = base_name_spec(pkg);
    match stage {
        WikiStage::Exact => match reply {
            WikiReply::Page(Ok(c)) => done_ok(n, c@),
            WikiReply::Page(Err(e)) => if e@ == "Missing"@ {
                if base != pkg {
                    asks_page(n, WikiStage::Base, base)
                } else {
                    asks_search(n, WikiStage::SearchExact, pkg)
                }
            } else {
                done_err(n, e@)
            },
            WikiReply::Search(_) => done_err(n, no_page_msg(pkg)),
        },
        WikiStage::Base => match reply {
            WikiReply::Page(Ok(c)) => done_ok(n, c@),
            WikiReply::Page(Err(e)) => if e@ == "Missing"@ {
                asks_search(n, WikiStage::SearchExact, pkg)
            } else {
                done_err(n, e@)
            },
            WikiReply::Search(_) => done_err(n, no_page_msg(pkg)),
        },
        WikiStage::SearchExact => match reply {
            WikiReply::Search(Err(e)) => done_err(n, e@),
            WikiReply::Search(Ok(Some(t))) => asks_page(n, WikiStage::FoundExact, t@),
            WikiReply::Search(Ok(None)) => after_search_exact(n, pkg),
            WikiReply::Page(_) => done_err(n, no_page_msg(pkg)),
        },
        WikiStage::FoundExact => match reply {
            WikiReply::Page(Ok(c)) => done_ok(n, c@),
            WikiReply::Page(Err(e)) => if e@ == "Missing"@ {
                after_search_exact(n, pkg)
            } else {
                done_err(n, e@)
            },
            WikiReply::Search(_) => done_err(n, no_page_msg(pkg)),
        },
        WikiStage::SearchBase => match reply {
            WikiReply::Search(Err(e)) => done_err(n, e@),
            WikiReply::Search(Ok(Some(t))) => asks_page(n, WikiStage::FoundBase, t@),
            WikiReply::Search(Ok(None)) => done_err(n, no_page_msg(pkg)),
            WikiReply::Page(_) => done_err(n, no_page_msg(pkg)),
        },
        WikiStage::FoundBase => match reply {
            WikiReply::Page(Ok(c)) => done_ok(n, c@),
            _ => done_err(n, no_page_msg(pkg)),
        },
    }
}

fn no_page(pkg: &str) -> (r: WikiNext)
    ensures
        done_err(r, no_page_msg(pkg@)),
{
    let mut m = owned("No wiki page found for '");
    append_str(&mut m, pkg);
    append_str(&mut m, "'");
    WikiNext::Done(Err(m))
}

fn search_base_or_give_up(pkg: &str) -> (n: WikiNext)
    ensures
        after_search_exact(n, pkg@),
{
    let base = base_package_name(pkg);
    if !str_eq(base.as_str(), pkg) {
        WikiNext::Ask(WikiStage::SearchBase, WikiRequest::Search(base))
    } else {
        no_page(pkg)
    }
}

fn is_missing(e: &String) -> (r: bool)
    ensures
        r == (e@ == "Missing"@),
{
    str_eq(e.as_str(), "Missing")
}

/// The step after an answer in the search for a package's page.
pub fn wiki_step(pkg: &str, stage: WikiStage, reply: WikiReply) -> (n: WikiNext)
    ensures
        wiki_step_spec(pkg@, stage, reply, n),
{
    match stage {
        WikiStage::Exact => match reply {
            WikiReply::Page(Ok(c)) => WikiNext::Done(Ok(c)),
            WikiReply::Page(Err(e)) => if is_missing(&e) {
                let base = base_package_name(pkg);
                if !str_eq(base.as_str(), pkg) {
                    WikiNext::Ask(WikiStage::Base, WikiRequest::Page(base))
                } else {
                    WikiNext::Ask(WikiStage::SearchExact, WikiRequest::Search(owned(pkg)))
                }
            } else {
                WikiNext::Done(Err(e))
            },
            WikiReply::Search(_) => no_page(pkg),
        },
        WikiStage::Base => match reply {
            WikiReply::Page(Ok(c)) => WikiNext::Done(Ok(c)),
            WikiReply::Page(Err(e)) => if is_missing(&e) {
                WikiNext::Ask(WikiStage::SearchExact, WikiRequest::Search(owned(pkg)))
            } else {
                WikiNext::Done(Err(e))
            },
            WikiReply::Search(_) => no_page(pkg),
        },
        WikiStage::SearchExact => match reply {
            WikiReply::Search(Err(e)) => WikiNext::Done(Err(e)),
            WikiReply::Search(Ok(Some(t))) => WikiNext::Ask(WikiStage::FoundExact, WikiRequest::Page(t)),
            WikiReply::Search(Ok(None)) => search_base_or_give_up(pkg),
            WikiReply::Page(_) => no_page(pkg),
        },
        WikiStage::FoundExact => match reply {
            WikiReply::Page(Ok(c)) => WikiNext::Done(Ok(c)),
            WikiReply::Page(Err(e)) => if is_missing(&e) {
                search_base_or_give_up(pkg)
            } else {
                WikiNext::Done(Err(e))
            },
            WikiReply::Search(_) => no_page(pkg),
        },
        WikiStage::SearchBase => match reply {
            WikiReply::Search(Err(e)) => WikiNext::Done(Err(e)),
            WikiReply::Search(Ok(Some(t))) => WikiNext::Ask(WikiStage::FoundBase, WikiRequest::Page(t)),
            WikiReply::Search(Ok(None)) => no_page(pkg),
            WikiReply::Page(_) => no_page(pkg),
        },
        WikiStage::FoundBase => match reply {
            WikiReply::Page(Ok(c)) => WikiNext::Done(Ok(c)),
            _ => no_page(pkg),
        },
    }
}

/// The order in which the stages come.
pub open spec fn stage_rank(s: WikiStage) -> int {
    match s {
        WikiStage::Exact => 0,
        WikiStage::Base => 1,
        WikiStage::SearchExact => 2,
        WikiStage::FoundExact => 3,
        WikiStage::SearchBase => 4,
        WikiStage::FoundBase => 5,
    }
}

/// Each step of the search for a package's page either ends it or moves to
/// a later stage, so the search ends after at most six requests.
pub proof fn lemma_wiki_step_progress(pkg: Seq<char>, stage: WikiStage, reply: WikiReply, n: WikiNext)
    requires
        wiki_step_spec(pkg, stage, reply, n),
    ensures
        match n {
            WikiNext::Ask(s, _) => stage_rank(s) > stage_rank(stage),
            WikiNext::Done(_) => true,
        },
{
}

// ---------------------------------------------------------------------------
// Wiki markup to plain text
// ---------------------------------------------------------------------------

/// The first `j` from `from` on with `]]` at `j`, or -1.
pub open spec fn close_from(cs: Seq<char>, from: int) -> int
    decreases cs.len() - from,
{
    if from < 0 || from + 1 >= cs.len() {
        -1
    } else if cs[from] == ']' && cs[from + 1] == ']' {
        from
    } else {
        close_from(cs, from + 1)
    }
}

/// The first `k` from `from` on with `]` at `k`, or -1.
pub open spec fn bracket_from(cs: Seq<char>, from: int) -> int
    decreases cs.len() - from,
{
    if from < 0 || from >= cs.len() {
        -1
    } else if cs[from] == ']' {
        from
    } else {
        bracket_from(cs, from + 1)
    }
}

/// The end of the run of `'` that starts at `i`.
pub open spec fn quote_run_end(cs: Seq<char>, i: int) -> int
    decreases cs.len() - i,
{
    if i < 0 || i >= cs.len() || cs[i] != '\'' {
        i
    } else {
        quote_run_end(cs, i + 1)
    }
}

pub proof fn lemma_close_from(cs: Seq<char>, from: int)
    ensures
        close_from(cs, from) >= 0 ==> from <= close_from(cs, from) && close_from(cs, from) + 1 < cs.len()
            && cs[close_from(cs, from)] == ']' && cs[close_from(cs, from) + 1] == ']',
    decreases cs.len() - from,
{
    if from >= 0 && from + 1 < cs.len() && !(cs[from] == ']' && cs[from + 1] == ']') {
        lemma_close_from(cs, from + 1);
    }
}

pub proof fn lemma_bracket_from(cs: Seq<char>, from: int)
    ensures
        bracket_from(cs, from) >= 0 ==> from <= bracket_from(cs, from) < cs.len() && cs[bracket_from(cs, from)]
            == ']',
    decreases cs.len() - from,
{
    if from >= 0 && from < cs.len() && cs[from] != ']' {
        lemma_bracket_from(cs, from + 1);
    }
}

pub proof fn lemma_quote_run_end(cs: Seq<char>, i: int)
    requires
        0 <= i <= cs.len(),
    ensures
        i <= quote_run_end(cs, i) <= cs.len(),
        i < cs.len() && cs[i] == '\'' ==> i < quote_run_end(cs, i),
    decreases cs.len() - i,
{
    if i < cs.len() && cs[i] == '\'' {
        lemma_quote_run_end(cs, i + 1);
    }
}

/// The text shown for an internal link `[[Page|Display]]` or `[[Page]]`.
pub open spec fn link_text(inner: Seq<char>) -> Seq<char> {
    let p = index_from(inner, '|', 0);
    if p < inner.len() {
        inner.subrange(p + 1, inner.len() as int)
    } else {
        inner
    }
}

/// The text shown for an external link: `[url Display]` reads
/// `Display (url)`, `[url]` reads `url`.
pub open spec fn ext_link_text(inner: Seq<char>) -> Seq<char> {
    let p = index_from(inner, ' ', 0);
    if p < inner.len() {
        inner.subrange(p + 1, inner.len() as int) + " ("@ + inner.subrange(0, p) + ")"@
    } else {
        inner
    }
}

/// The plain text of a line from position `i` on: links become their
/// shown text, runs of `'` (bold and italics) disappear.
pub open spec fn clean_from(cs: Seq<char>, i: int) -> Seq<char>
    decreases cs.len() - i,
{
    if i < 0 || i >= cs.len() {
        Seq::empty()
    } else if i + 1 < cs.len() && cs[i] == '[' && cs[i + 1] == '[' && close_from(cs, i + 2) >= 0 {
        let j = close_from(cs, i + 2);
        proof {
            lemma_close_from(cs, i + 2);
        }
        link_text(cs.subrange(i + 2, j)) + clean_from(cs, j + 2)
    } else if cs[i] == '[' && bracket_from(cs, i + 1) >= 0 {
        let k = bracket_from(cs, i + 1);
        proof {
            lemma_bracket_from(cs, i + 1);
        }
        ext_link_text(cs.subrange(i + 1, k)) + clean_from(cs, k + 1)
    } else if cs[i] == '\'' {
        proof {
            lemma_quote_run_end(cs, i);
        }
        clean_from(cs, quote_run_end(cs, i))
    } else {
        seq![cs[i]] + clean_from(cs, i + 1)
    }
}

/// A language link's prefix: a colon within the first eleven characters,
/// with only lowercase ASCII letters and `-` before it.
pub open spec fn language_prefix(inner: Seq<char>) -> bool {
    let c = index_from(inner, ':', 0);
    &&& c < inner.len()
    &&& c <= 10
    &&& forall|k: int| 0 <= k < c ==> is_ascii_lower(#[trigger] inner[k]) || inner[k] == '-'
}

/// Lines left out of the plain text: categories, language links, and the
/// lines of templates.
pub open spec fn skipped_line(line: Seq<char>) -> bool {
    let t = trim(line);
    ||| starts_with(t, "[[Category:"@)
    ||| (starts_with(t, "[["@) && ends_with(t, "]]"@) && has_char(t, ':') && !contains(t, "Wikipedia:"@)
        && language_prefix(t.subrange(2, t.len() - 2)))
    ||| starts_with(t, "{{"@)
    ||| starts_with(t, "}}"@)
    ||| starts_with(t, "|"@)
}

/// The plain text of wiki markup: each line that is not left out, cleaned,
/// and ended by a newline.
pub open spec fn clean_lines(ls: Seq<Seq<char>>) -> Seq<char>
    decreases ls.len(),
{
    if ls.len() == 0 {
        Seq::empty()
    } else if skipped_line(ls.last()) {
        clean_lines(ls.drop_last())
    } else {
        clean_lines(ls.drop_last()) + clean_from(ls.last(), 0) + "\n"@
    }
}

/// Each line contributes to the plain text on its own: the text of two runs
/// of lines is the text of the first, then that of the second.
pub proof fn lemma_clean_lines_append(a: Seq<Seq<char>>, b: Seq<Seq<char>>)
    ensures
        clean_lines(a + b) == clean_lines(a) + clean_lines(b),
    decreases b.len(),
{
    if b.len() == 0 {
        assert(a + b =~= a);
        assert(clean_lines(a) + clean_lines(b) =~= clean_lines(a));
    } else {
        assert((a + b).drop_last() =~= a + b.drop_last());
        assert((a + b).last() == b.last());
        lemma_clean_lines_append(a, b.drop_last());
        if !skipped_line(b.last()) {
            assert(clean_lines(a) + clean_lines(b.drop_last()) + clean_from(b.last(), 0) + "\n"@ =~= clean_lines(a) + (
            clean_lines(b.drop_last()) + clean_from(b.last(), 0) + "\n"@));
        }
    }
}

/// A language link `[[p:x]]` whose prefix `p` is at most ten lowercase
/// ASCII letters and dashes (such as `de` or `zh-hans`) is left out of the
/// plain text, wherever the line stands.
pub proof fn lemma_language_link_left_out(
    before: Seq<Seq<char>>,
    after: Seq<Seq<char>>,
    p: Seq<char>,
    x: Seq<char>,
)
    requires
        p.len() <= 10,
        forall|k: int| 0 <= k < p.len() ==> ('a' <= #[trigger] p[k] && p[k] <= 'z') || p[k] == '-',
        !contains(seq!['[', '['] + p + seq![':'] + x + seq![']', ']'], "Wikipedia:"@),
    ensures
        clean_lines(before.push(seq!['[', '['] + p + seq![':'] + x + seq![']', ']']) + after) == clean_lines(
            before + after,
        ),
{
    reveal_strlit("[[");
    reveal_strlit("]]");
    reveal_strlit("[[Category:");
    reveal_strlit("{{");
    reveal_strlit("}}");
    reveal_strlit("|");
    let l = seq!['[', '['] + p + seq![':'] + x + seq![']', ']'];
    let n = l.len() as int;
    assert(l[0] == '[');
    assert(l[n - 1] == ']');
    assert(trim(l) == l);
    assert(l.subrange(0, 2) =~= "[["@);
    assert(l.subrange(n - 2, n) =~= "]]"@);
    let c = p.len() as int;
    assert(l[2 + c] == ':');
    assert(has_char(l, ':'));
    let inner = l.subrange(2, n - 2);
    assert(inner =~= p + seq![':'] + x);
    assert forall|k: int| 0 <= k < c implies inner[k] != ':' by {
        assert(inner[k] == p[k]);
    }
    crate::config::lemma_index_from_at(inner, ':', 0, c);
    assert forall|k: int| 0 <= k < c implies is_ascii_lower(#[trigger] inner[k]) || inner[k] == '-' by {
        assert(inner[k] == p[k]);
    }
    assert(language_prefix(inner));
    assert(skipped_line(l));
    lemma_clean_lines_append(before.push(l), after);
    lemma_clean_lines_append(before, after);
    assert(before.push(l).drop_last() =~= before);
}

proof fn lemma_clean_from_plain(cs: Seq<char>, i: int)
    requires
        0 <= i <= cs.len(),
        forall|k: int| 0 <= k < cs.len() ==> #[trigger] cs[k] != '[' && cs[k] != '\'',
    ensures
        clean_from(cs, i) == cs.subrange(i, cs.len() as int),
    decreases cs.len() - i,
{
    if i < cs.len() {
        lemma_clean_from_plain(cs, i + 1);
        assert(seq![cs[i]] + cs.subrange(i + 1, cs.len() as int) =~= cs.subrange(i, cs.len() as int));
    } else {
        assert(cs.subrange(i, cs.len() as int) =~= Seq::<char>::empty());
    }
}

/// A line of plain prose (no link brackets, no quote marks for emphasis,
/// no template or table markup, no surrounding whitespace) is kept as it
/// is, on a line of its own.
pub proof fn lemma_plain_line_kept(before: Seq<Seq<char>>, l: Seq<char>)
    requires
        l.len() > 0,
        !crate::text::is_ws(l[0]),
        !crate::text::is_ws(l.last()),
        forall|k: int| 0 <= k < l.len() ==> #[trigger] l[k] != '[' && l[k] != '\'' && l[k] != '{' && l[k] != '}'
            && l[k] != '|',
    ensures
        clean_lines(before.push(l)) == clean_lines(before) + l + "\n"@,
{
    reveal_strlit("[[Category:");
    reveal_strlit("[[");
    reveal_strlit("{{");
    reveal_strlit("}}");
    reveal_strlit("|");
    assert(trim(l) == l);
    assert(l[0] != '[' && l[0] != '{' && l[0] != '}' && l[0] != '|');
    assert(!starts_with(l, "[["@)) by {
        if starts_with(l, "[["@) {
            assert(l.subrange(0, 2)[0] == l[0]);
        }
    }
    assert(!starts_with(l, "[[Category:"@)) by {
        if starts_with(l, "[[Category:"@) {
            assert(l.subrange(0, 11)[0] == l[0]);
        }
    }
    assert(!starts_with(l, "{{"@)) by {
        if starts_with(l, "{{"@) {
            assert(l.subrange(0, 2)[0] == l[0]);
        }
    }
    assert(!starts_with(l, "}}"@)) by {
        if starts_with(l, "}}"@) {
            assert(l.subrange(0, 2)[0] == l[0]);
        }
    }
    assert(!starts_with(l, "|"@)) by {
        if starts_with(l, "|"@) {
            assert(l.subrange(0, 1)[0] == l[0]);
        }
    }
    assert(!skipped_line(l));
    lemma_clean_from_plain(l, 0);
    assert(l.subrange(0, l.len() as int) =~= l);
    assert(before.push(l).drop_last() =~= before);
}

/// A category line `[[Category:x]]` is left out of the plain text.
pub proof fn lemma_category_left_out(before: Seq<Seq<char>>, x: Seq<char>)
    ensures
        clean_lines(before.push("[[Category:"@ + x + "]]"@)) == clean_lines(before),
{
    reveal_strlit("[[Category:");
    reveal_strlit("]]");
    let l = "[[Category:"@ + x + "]]"@;
    assert(l[0] == '[');
    assert(l[l.len() - 1] == ']');
    assert(trim(l) == l);
    assert(l.subrange(0, 11) =~= "[[Category:"@);
    assert(skipped_line(l));
    assert(before.push(l).drop_last() =~= before);
}

fn find_close(cs: &Vec<char>, from: usize) -> (r: Option<usize>)
    ensures
        match r {
            Some(j) => close_from(cs@, from as int) == j as int,
            None => close_from(cs@, from as int) == -1,
        },
{
    let mut j = from;
    while j < cs.len() && cs.len() - j > 1
        invariant
            from <= j,
            close_from(cs@, from as int) == close_from(cs@, j as int),
        decreases cs.len() - j,
    {
        if cs[j] == ']' && cs[j + 1] == ']' {
            return Some(j);
        }
        j = j + 1;
    }
    None
}

fn find_bracket(cs: &Vec<char>, from: usize) -> (r: Option<usize>)
    ensures
        match r {
            Some(k) => bracket_from(cs@, from as int) == k as int,
            None => bracket_from(cs@, from as int) == -1,
        },
{
    let mut k = from;
    while k < cs.len()
        invariant
            from <= k,
            bracket_from(cs@, from as int) == bracket_from(cs@, k as int),
        decreases cs.len() - k,
    {
        if cs[k] == ']' {
            return Some(k);
        }
        k = k + 1;
    }
    None
}

fn index_in(cs: &Vec<char>, lo: usize, hi: usize, c: char) -> (r: usize)
    requires
        lo <= hi <= cs@.len(),
    ensures
        lo <= r <= hi,
        r - lo == index_from(cs@.subrange(lo as int, hi as int), c, 0),
{
    let ghost s = cs@.subrange(lo as int, hi as int);
    let mut p = lo;
    while p < hi && cs[p] != c
        invariant
            lo <= p <= hi <= cs@.len(),
            s == cs@.subrange(lo as int, hi as int),
            index_from(s, c, 0) == index_from(s, c, p - lo),
        decreases hi - p,
    {
        p = p + 1;
    }
    p
}

/// Appends the shown text of the internal link `cs[lo..hi]`.
fn push_link_text(out: &mut String, cs: &Vec<char>, lo: usize, hi: usize)
    requires
        lo <= hi <= cs@.len(),
    ensures
        final(out)@ == old(out)@ + link_text(cs@.subrange(lo as int, hi as int)),
{
    let p = index_in(cs, lo, hi, '|');
    if p < hi {
        append_chars(out, cs, p + 1, hi);
        assert(cs@.subrange(p + 1, hi as int) =~= cs@.subrange(lo as int, hi as int).subrange(
            p + 1 - lo,
            hi - lo,
        ));
    } else {
        append_chars(out, cs, lo, hi);
    }
}

/// Appends the shown text of the external link `cs[lo..hi]`.
fn push_ext_link_text(out: &mut String, cs: &Vec<char>, lo: usize, hi: usize)
    requires
        lo <= hi <= cs@.len(),
    ensures
        final(out)@ == old(out)@ + ext_link_text(cs@.subrange(lo as int, hi as int)),
{
    let ghost inner = cs@.subrange(lo as int, hi as int);
    let p = index_in(cs, lo, hi, ' ');
    if p < hi {
        let ghost start = out@;
        append_chars(out, cs, p + 1, hi);
        append_str(out, " (");
        append_chars(out, cs, lo, p);
        append_str(out, ")");
        proof {
            reveal_strlit(" (");
            reveal_strlit(")");
            assert(cs@.subrange(p + 1, hi as int) =~= inner.subrange(p + 1 - lo, hi - lo));
            assert(cs@.subrange(lo as int, p as int) =~= inner.subrange(0, p - lo));
        }
        assert(out@ =~= start + ext_link_text(inner));
    } else {
        append_chars(out, cs, lo, hi);
    }
}

fn skip_quotes(cs: &Vec<char>, i: usize) -> (r: usize)
    requires
        i <= cs@.len(),
    ensures
        r == quote_run_end(cs@, i as int),
{
    let mut k = i;
    while k < cs.len() && cs[k] == '\''
        invariant
            i <= k <= cs@.len(),
            quote_run_end(cs@, i as int) == quote_run_end(cs@, k as int),
        decreases cs.len() - k,
    {
        k = k + 1;
    }
    k
}

/// The plain text of one line.
fn clean_line(cs: &Vec<char>) -> (r: String)
    ensures
        r@ == clean_from(cs@, 0),
{
    let mut out = String::new();
    let mut i: usize = 0;
    while i < cs.len()
        invariant
            i <= cs@.len(),
            out@ + clean_from(cs@, i as int) == clean_from(cs@, 0),
        decreases cs.len() - i,
    {
        let ghost before = out@;
        if i + 1 < cs.len() && cs[i] == '[' && cs[i + 1] == '[' {
            match find_close(cs, i + 2) {
                Some(j) => {
                    proof {
                        lemma_close_from(cs@, i + 2);
                    }
                    push_link_text(&mut out, cs, i + 2, j);
                    assert(out@ + clean_from(cs@, j + 2) =~= before + clean_from(cs@, i as int));
                    i = j + 2;
                    continue;
                },
                None => {},
            }
        }
        if cs[i] == '[' {
            match find_bracket(cs, i + 1) {
                Some(k) => {
                    proof {
                        lemma_bracket_from(cs@, i + 1);
                    }
                    push_ext_link_text(&mut out, cs, i + 1, k);
                    assert(out@ + clean_from(cs@, k + 1) =~= before + clean_from(cs@, i as int));
                    i = k + 1;
                    continue;
                },
                None => {},
            }
        }
        if cs[i] == '\'' {
            proof {
                lemma_quote_run_end(cs@, i as int);
            }
            i = skip_quotes(cs, i);
            continue;
        }
        push_char(&mut out, cs[i]);
        assert(out@ + clean_from(cs@, i + 1) =~= before + clean_from(cs@, i as int));
        i = i + 1;
    }
    assert(out@ + clean_from(cs@, i as int) =~= out@);
    out
}

fn is_language_prefix(cs: &Vec<char>, lo: usize, hi: usize) -> (r: bool)
    requires
        lo <= hi <= cs@.len(),
    ensures
        r == language_prefix(cs@.subrange(lo as int, hi as int)),
{
    let ghost inner = cs@.subrange(lo as int, hi as int);
    let c = index_in(cs, lo, hi, ':');
    if c >= hi || c - lo > 10 {
        return false;
    }
    let mut k = lo;
    while k < c
        invariant
            lo <= k <= c < hi <= cs@.len(),
            inner == cs@.subrange(lo as int, hi as int),
            c - lo == index_from(inner, ':', 0),
            forall|m: int| 0 <= m < k - lo ==> is_ascii_lower(#[trigger] inner[m]) || inner[m] == '-',
        decreases c - k,
    {
        let ch = cs[k];
        assert(inner[k - lo] == ch);
        if !(('a' <= ch && ch <= 'z') || ch == '-') {
            assert(0 <= k - lo < index_from(inner, ':', 0));
            assert(!(is_ascii_lower(inner[k - lo]) || inner[k - lo] == '-'));
            return false;
        }
        k = k + 1;
    }
    true
}

fn is_skipped_line(line: &str) -> (r: bool)
    ensures
        r == skipped_line(line@),
{
    let t = trim_str(line);
    let cs = chars_of(t.as_str());
    if starts_with_seq(&cs, &chars_of("[[Category:")) {
        return true;
    }
    if starts_with_seq(&cs, &chars_of("[[")) && ends_with_seq(&cs, &chars_of("]]")) && crate::text::find_char(
        &cs,
        ':',
        0,
    ).is_some() && !contains_seq(&cs, &chars_of("Wikipedia:")) {
        proof {
            reveal_strlit("[[");
            reveal_strlit("]]");
        }
        assert(cs@.len() >= 4) by {
            let n = cs@.len() as int;
            assert(cs@.subrange(0, 2) == "[["@);
            assert(cs@.subrange(n - 2, n) == "]]"@);
            assert(cs@[0] == cs@.subrange(0, 2)[0]);
            assert(cs@[1] == cs@.subrange(0, 2)[1]);
            assert(cs@[n - 2] == cs@.subrange(n - 2, n)[0]);
            assert(cs@[n - 1] == cs@.subrange(n - 2, n)[1]);
        }
        if is_language_prefix(&cs, 2, cs.len() - 2) {
            return true;
        }
    }
    starts_with_seq(&cs, &chars_of("{{")) || starts_with_seq(&cs, &chars_of("}}")) || starts_with_seq(
        &cs,
        &chars_of("|"),
    )
}

/// The plain text of wiki markup.
pub fn clean_wikitext(text: &str) -> (r: String)
    ensures
        r@ == clean_lines(lines(text@)),
{
    let ls = split_lines(text);
    let ghost lv = string_views(ls@);
    let mut out = String::new();
    let mut i: usize = 0;
    while i < ls.len()
        invariant
            lv == string_views(ls@),
            lv == lines(text@),
            i <= ls@.len(),
            out@ == clean_lines(lv.subrange(0, i as int)),
        decreases ls.len() - i,
    {
        assert(lv.subrange(0, i + 1).drop_last() =~= lv.subrange(0, i as int));
        if !is_skipped_line(ls[i].as_str()) {
            let cs = chars_of(ls[i].as_str());
            let cleaned = clean_line(&cs);
            append_str(&mut out, cleaned.as_str());
            append_str(&mut out, "\n");
        }
        i = i + 1;
    }
    assert(lv.subrange(0, lv.len() as int) =~= lv);
    out
}

/// The lines of a wiki page as plain text.
pub fn wiki_page_lines(text: &str) -> (r: Vec<String>)
    ensures
        string_views(r@) == lines(clean_lines(lines(text@))),
{
    let cleaned = clean_wikitext(text);
    split_lines(cleaned.as_str())
}

} // verus!
