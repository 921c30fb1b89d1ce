use pkgman::actions::{
    action_command, action_result_message, dep_tree_args, dep_tree_result, no_helper_message, open_result_message,
    searching_message,
};
use pkgman::package::ConfirmAction;
use pkgman::wiki::{
    base_package_name, clean_wikitext, parse_revisions_json, parse_search_title, revisions_answer, revisions_outcome,
    search_answer, revisions_url, search_url, url_encode, wiki_page_lines,
    wiki_start, wiki_step, WikiNext, WikiPage, WikiReply, WikiRequest, WikiStage,
};

fn names(v: &[&str]) -> Vec<String> {
    v.iter().map(|s| s.to_string()).collect()
}

#[test]
fn action_commands() {
    let ns = names(&["a", "b"]);
    assert_eq!(action_command(ConfirmAction::Install, None, &ns), ("sudo".to_string(), names(&["pacman", "--noconfirm", "-S", "a", "b"])));
    assert_eq!(action_command(ConfirmAction::Install, Some("paru"), &ns), ("paru".to_string(), names(&["--noconfirm", "-S", "a", "b"])));
    assert_eq!(action_command(ConfirmAction::Remove, Some("yay"), &ns), ("sudo".to_string(), names(&["pacman", "--noconfirm", "-Rns", "a", "b"])));
    assert_eq!(action_command(ConfirmAction::Update, None, &ns), ("sudo".to_string(), names(&["pacman", "--noconfirm", "-Syu"])));
    assert_eq!(action_command(ConfirmAction::Update, Some("yay"), &Vec::new()), ("yay".to_string(), names(&["--noconfirm", "-Syu"])));
}

#[test]
fn action_messages() {
    assert_eq!(action_result_message(ConfirmAction::Install, &names(&["vim"]), true), "Successfully installed vim");
    assert_eq!(action_result_message(ConfirmAction::Install, &names(&["a", "b", "c"]), true), "Successfully installed 3 packages");
    assert_eq!(action_result_message(ConfirmAction::Remove, &names(&["vim"]), true), "Successfully removed vim");
    assert_eq!(action_result_message(ConfirmAction::Remove, &names(&[]), true), "Successfully removed 0 packages");
    assert_eq!(action_result_message(ConfirmAction::Update, &names(&[]), true), "System successfully updated");
    assert_eq!(action_result_message(ConfirmAction::Install, &names(&["x"]), false), "Installation failed");
    assert_eq!(action_result_message(ConfirmAction::Remove, &names(&["x"]), false), "Removal failed");
    assert_eq!(action_result_message(ConfirmAction::Update, &names(&[]), false), "System update failed");
    assert_eq!(open_result_message("https://x", true), "Opened https://x");
    assert_eq!(open_result_message("https://x", false), "xdg-open failed for https://x");
    assert_eq!(searching_message("fzf"), "Searching AUR for 'fzf'...");
    assert_eq!(no_helper_message(true), "No AUR helper (yay/paru) found.");
    assert_eq!(no_helper_message(false), "AUR features disabled in config.");
}

#[test]
fn dep_tree_commands() {
    assert_eq!(dep_tree_args("vim", true), names(&["-a", "vim"]));
    assert_eq!(dep_tree_args("vim", false), names(&["-a", "-s", "vim"]));
    assert_eq!(dep_tree_result(true, "vim\n└─glibc\n", ""), Ok(names(&["vim", "└─glibc"])));
    assert_eq!(dep_tree_result(false, "", "  error: not found \n"), Err("error: not found".to_string()));
}

#[test]
fn base_names() {
    assert_eq!(base_package_name("python-pip"), "pip");
    assert_eq!(base_package_name("rust-analyzer"), "analyzer");
    assert_eq!(base_package_name("nodejs-lts"), "lts");
    assert_eq!(base_package_name("libpng"), "png");
    assert_eq!(base_package_name("go-tools"), "tools");
    assert_eq!(base_package_name("vim"), "vim");
    assert_eq!(base_package_name("python-libfoo"), "libfoo");
}

#[test]
fn url_encoding() {
    assert_eq!(url_encode("a b"), "a%20b");
    assert_eq!(url_encode("A.z_+-@9"), "A.z_+-@9");
    assert_eq!(url_encode("a/b"), "a%2Fb");
    assert_eq!(url_encode("\n"), "%0A");
    assert_eq!(url_encode("é"), "%E9");
    assert_eq!(url_encode("中"), "%4E2D");
    assert_eq!(
        revisions_url("Vim editor"),
        "https://wiki.archlinux.org/api.php?action=query&prop=revisions&titles=Vim%20editor&rvslots=main&rvprop=content&format=json&redirects=1"
    );
    assert_eq!(search_url("x"), "https://wiki.archlinux.org/api.php?action=query&list=search&srsearch=x&format=json");
}

#[test]
fn wikitext_cleaning() {
    let text = "[[Category:Editors]]\n[[de:Vim]]\n{{Note|x}}\n| cell\n'''Vim''' is an [[editor|text editor]] see [[Vim]].\nVisit [https://vim.org the site] or [https://x.org].\n[[Wikipedia:Vim]]\n";
    let out = clean_wikitext(text);
    assert_eq!(
        out,
        "Vim is an text editor see Vim.\nVisit the site (https://vim.org) or https://x.org.\nWikipedia:Vim\n"
    );
    assert_eq!(wiki_page_lines("a\n{{x}}\nb"), vec!["a", "b"]);
    assert_eq!(clean_wikitext("[[unclosed"), "[[unclosed\n");
    assert_eq!(clean_wikitext("[[a]"), "[a\n");
}

#[test]
fn revisions_answers() {
    assert_eq!(revisions_outcome(None), Err("Invalid API response structure".to_string()));
    assert_eq!(revisions_outcome(Some(vec![])), Err("Invalid API response structure".to_string()));
    assert_eq!(
        revisions_outcome(Some(vec![WikiPage { missing: false, content: None }, WikiPage { missing: false, content: Some("t".to_string()) }])),
        Ok("t".to_string())
    );
    assert_eq!(
        revisions_outcome(Some(vec![WikiPage { missing: true, content: Some("t".to_string()) }])),
        Err("Missing".to_string())
    );
}

fn page_request(n: &WikiNext) -> Option<(WikiStage, String)> {
    match n {
        WikiNext::Ask(s, WikiRequest::Page(t)) => Some((*s, t.clone())),
        _ => None,
    }
}

fn search_request(n: &WikiNext) -> Option<(WikiStage, String)> {
    match n {
        WikiNext::Ask(s, WikiRequest::Search(t)) => Some((*s, t.clone())),
        _ => None,
    }
}

#[test]
fn wiki_search_order() {
    let pkg = "python-pip";
    let n = wiki_start(pkg);
    assert_eq!(page_request(&n), Some((WikiStage::Exact, pkg.to_string())));
    let n = wiki_step(pkg, WikiStage::Exact, WikiReply::Page(Err("Missing".to_string())));
    assert_eq!(page_request(&n), Some((WikiStage::Base, "pip".to_string())));
    let n = wiki_step(pkg, WikiStage::Base, WikiReply::Page(Err("Missing".to_string())));
    assert_eq!(search_request(&n), Some((WikiStage::SearchExact, pkg.to_string())));
    let n = wiki_step(pkg, WikiStage::SearchExact, WikiReply::Search(Ok(None)));
    assert_eq!(search_request(&n), Some((WikiStage::SearchBase, "pip".to_string())));
    let n = wiki_step(pkg, WikiStage::SearchBase, WikiReply::Search(Ok(Some("Pip".to_string()))));
    assert_eq!(page_request(&n), Some((WikiStage::FoundBase, "Pip".to_string())));
    match wiki_step(pkg, WikiStage::FoundBase, WikiReply::Page(Err("Curl request failed".to_string()))) {
        WikiNext::Done(Err(e)) => assert_eq!(e, "No wiki page found for 'python-pip'"),
        _ => panic!("expected the end of the search"),
    }
    match wiki_step("vim", WikiStage::Exact, WikiReply::Page(Ok("text".to_string()))) {
        WikiNext::Done(Ok(t)) => assert_eq!(t, "text"),
        _ => panic!("expected the page text"),
    }
    match wiki_step("vim", WikiStage::Exact, WikiReply::Page(Err("JSON parse error".to_string()))) {
        WikiNext::Done(Err(e)) => assert_eq!(e, "JSON parse error"),
        _ => panic!("expected the error"),
    }
    let n = wiki_step("vim", WikiStage::Exact, WikiReply::Page(Err("Missing".to_string())));
    assert_eq!(search_request(&n), Some((WikiStage::SearchExact, "vim".to_string())));
    match wiki_step("vim", WikiStage::SearchExact, WikiReply::Search(Ok(None))) {
        WikiNext::Done(Err(e)) => assert_eq!(e, "No wiki page found for 'vim'"),
        _ => panic!("expected no page"),
    }
}

#[test]
fn revisions_json_answers() {
    let page = r#"{"batchcomplete":"","query":{"pages":{"123":{"pageid":123,"title":"Vim","revisions":[{"slots":{"main":{"contentmodel":"wikitext","*":"Vim is an editor."}}}]}}}}"#;
    assert_eq!(revisions_answer(page), Ok("Vim is an editor.".to_string()));
    let missing = r#"{"query":{"pages":{"-1":{"title":"Nope","missing":""}}}}"#;
    assert_eq!(revisions_answer(missing), Err("Missing".to_string()));
    assert_eq!(revisions_answer("{}"), Err("Invalid API response structure".to_string()));
    let no_text = r#"{"query":{"pages":{"5":{"title":"X"}}}}"#;
    assert_eq!(revisions_answer(no_text), Err("Invalid API response structure".to_string()));
    let bad = revisions_answer("not json").unwrap_err();
    assert!(bad.starts_with("JSON parse error: "));
    assert!(bad.len() > "JSON parse error: ".len());
    match parse_revisions_json(missing) {
        Ok(Some(ps)) => {
            assert_eq!(ps.len(), 1);
            assert!(ps[0].missing);
            assert!(ps[0].content.is_none());
        }
        _ => panic!("expected one page"),
    }
    match parse_revisions_json("[") {
        Err(e) => assert!(!e.is_empty() && !e.starts_with("JSON parse error")),
        Ok(_) => panic!("expected serde's error"),
    }
}

#[test]
fn search_json_answers() {
    let found = r#"{"query":{"searchinfo":{"totalhits":2},"search":[{"ns":0,"title":"Vim"},{"ns":0,"title":"Neovim"}]}}"#;
    assert_eq!(search_answer(found), Ok(Some("Vim".to_string())));
    assert_eq!(search_answer(r#"{"query":{"search":[]}}"#), Ok(None));
    assert_eq!(parse_search_title(found), Ok(Some("Vim".to_string())));
    assert!(search_answer("<html>").unwrap_err().starts_with("JSON parse error: "));
}
