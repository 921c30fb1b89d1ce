//! The commands that carry out confirmed actions and fetch dependency
//! trees, and the messages that report their outcome.
use vstd::prelude::*;
use crate::package::ConfirmAction;
use crate::text::{append_str, decimal, lines, owned, push_decimal, split_lines, string_views, trim, trim_str};

verus! {

/// `s` as a sequence of string views.
pub open spec fn strs(s: Seq<&str>) -> Seq<Seq<char>> {
    s.map_values(|x: &str| x@)
}

/// The program and arguments that carry out an action on the named
/// packages. Installs and updates go through the AUR helper when there is
/// one, else through `sudo pacman`; removals always through `sudo pacman`;
/// nothing asks for confirmation.
pub open spec fn action_command_spec(
    action: ConfirmAction,
    helper: Option<Seq<char>>,
    names: Seq<Seq<char>>,
) -> (Seq<char>, Seq<Seq<char>>) {
    match action {
        ConfirmAction::Install => match helper {
            None => ("sudo"@, seq!["pacman"@, "--noconfirm"@, "-S"@] + names),
            Some(h) => (h, seq!["--noconfirm"@, "-S"@] + names),
        },
        ConfirmAction::Remove => ("sudo"@, seq!["pacman"@, "--noconfirm"@, "-Rns"@] + names),
        ConfirmAction::Update => match helper {
            None => ("sudo"@, seq!["pacman"@, "--noconfirm"@, "-Syu"@]),
            Some(h) => (h, seq!["--noconfirm"@, "-Syu"@]),
        },
    }
}

/// With AUR features off there is no helper, and every action runs through
/// `sudo pacman`.
pub proof fn lemma_pacman_only(action: ConfirmAction, names: Seq<Seq<char>>)
    ensures
        action_command_spec(action, None, names).0 == "sudo"@,
        action_command_spec(action, None, names).1[0] == "pacman"@,
{
}

fn push_all(args: &mut Vec<String>, names: &Vec<String>)
    ensures
        string_views(final(args)@) == string_views(old(args)@) + string_views(names@),
{
    let ghost start = string_views(args@);
    let mut i: usize = 0;
    while i < names.len()
        invariant
            i <= names@.len(),
            string_views(args@) == start + string_views(names@).subrange(0, i as int),
        decreases names.len() - i,
    {
        let ghost before = string_views(args@);
        args.push(names[i].clone());
        assert(string_views(args@) =~= before.push(names@[i as int]@));
        assert(string_views(names@).subrange(0, i + 1) =~= string_views(names@).subrange(0, i as int).push(
            names@[i as int]@,
        ));
        i = i + 1;
    }
    assert(string_views(names@).subrange(0, names@.len() as int) =~= string_views(names@));
}

fn strings_of(parts: &[&str]) -> (r: Vec<String>)
    ensures
        string_views(r@) == strs(parts@),
{
    let mut r: Vec<String> = Vec::new();
    let mut i: usize = 0;
    while i < parts.len()
        invariant
            i <= parts@.len(),
            string_views(r@) == strs(parts@).subrange(0, i as int),
        decreases parts.len() - i,
    {
        let ghost before = string_views(r@);
        r.push(owned(parts[i]));
        assert(string_views(r@) =~= before.push(parts@[i as int]@));
        assert(strs(parts@).subrange(0, i + 1) =~= strs(parts@).subrange(0, i as int).push(parts@[i as int]@));
        i = i + 1;
    }
    assert(strs(parts@).subrange(0, parts@.len() as int) =~= strs(parts@));
    r
}

/// The program and arguments that carry out an action.
pub fn action_command(action: ConfirmAction, helper: Option<&str>, names: &Vec<String>) -> (r: (String, Vec<String>))
    ensures
        (r.0@, string_views(r.1@)) == action_command_spec(
            action,
            match helper {
                Some(h) => Some(h@),
                None => None,
            },
            string_views(names@),
        ),
{
    let (program, fixed): (String, Vec<String>) = match action {
        ConfirmAction::Install => match helper {
            None => (owned("sudo"), strings_of(&["pacman", "--noconfirm", "-S"])),
            Some(h) => (owned(h), strings_of(&["--noconfirm", "-S"])),
        },
        ConfirmAction::Remove => (owned("sudo"), strings_of(&["pacman", "--noconfirm", "-Rns"])),
        ConfirmAction::Update => match helper {
            None => (owned("sudo"), strings_of(&["pacman", "--noconfirm", "-Syu"])),
            Some(h) => (owned(h), strings_of(&["--noconfirm", "-Syu"])),
        },
    };
    let mut args = fixed;
    match action {
        ConfirmAction::Update => {},
        _ => push_all(&mut args, names),
    }
    (program, args)
}

/// The message that reports how an action ended.
pub open spec fn action_result_message_spec(action: ConfirmAction, names: Seq<Seq<char>>, success: bool) -> Seq<char> {
    if success {
        match action {
            ConfirmAction::Install => if names.len() == 1 {
                "Successfully installed "@ + names[0]
            } else {
                "Successfully installed "@ + decimal(names.len()) + " packages"@
            },
            ConfirmAction::Remove => if names.len() == 1 {
                "Successfully removed "@ + names[0]
            } else {
                "Successfully removed "@ + decimal(names.len()) + " packages"@
            },
            ConfirmAction::Update => "System successfully updated"@,
        }
    } else {
        match action {
            ConfirmAction::Install => "Installation failed"@,
            ConfirmAction::Remove => "Removal failed"@,
            ConfirmAction::Update => "System update failed"@,
        }
    }
}

/// The message that reports how an action ended (shown for six seconds).
pub fn action_result_message(action: ConfirmAction, names: &Vec<String>, success: bool) -> (r: String)
    ensures
        r@ == action_result_message_spec(action, string_views(names@), success),
{
    if success {
        let verb = match action {
            ConfirmAction::Install => "Successfully installed ",
            ConfirmAction::Remove => "Successfully removed ",
            ConfirmAction::Update => return owned("System successfully updated"),
        };
        let mut m = owned(verb);
        if names.len() == 1 {
            append_str(&mut m, names[0].as_str());
        } else {
            push_decimal(&mut m, names.len());
            append_str(&mut m, " packages");
        }
        m
    } else {
        match action {
            ConfirmAction::Install => owned("Installation failed"),
            ConfirmAction::Remove => owned("Removal failed"),
            ConfirmAction::Update => owned("System update failed"),
        }
    }
}

/// The message after trying to open a URL in the browser.
pub open spec fn open_result_message_spec(url: Seq<char>, opened: bool) -> Seq<char> {
    if opened {
        "Opened "@ + url
    } else {
        "xdg-open failed for "@ + url
    }
}

/// The message after trying to open a URL in the browser (shown for five
/// seconds when it opened, four when it failed).
pub fn open_result_message(url: &str, opened: bool) -> (r: String)
    ensures
        r@ == open_result_message_spec(url@, opened),
{
    let mut m = if opened {
        owned("Opened ")
    } else {
        owned("xdg-open failed for ")
    };
    append_str(&mut m, url);
    m
}

/// The arguments of `pactree` for a package: all dependencies, from the
/// sync database when the package is not installed.
pub open spec fn dep_tree_args_spec(name: Seq<char>, installed: bool) -> Seq<Seq<char>> {
    if installed {
        seq!["-a"@, name]
    } else {
        seq!["-a"@, "-s"@, name]
    }
}

/// The arguments of `pactree` for a package.
pub fn dep_tree_args(name: &str, installed: bool) -> (r: Vec<String>)
    ensures
        string_views(r@) == dep_tree_args_spec(name@, installed),
{
    let mut r: Vec<String> = Vec::new();
    r.push(owned("-a"));
    if !installed {
        r.push(owned("-s"));
    }
    r.push(owned(name));
    assert(string_views(r@) =~= dep_tree_args_spec(name@, installed));
    r
}

/// The dependency tree from `pactree`: its output lines when it succeeded,
/// else its trimmed error output.
pub fn dep_tree_result(success: bool, stdout: &str, stderr: &str) -> (r: Result<Vec<String>, String>)
    ensures
        match r {
            Ok(tree) => success && string_views(tree@) == lines(stdout@),
            Err(e) => !success && e@ == trim(stderr@),
        },
{
    if success {
        Ok(split_lines(stdout))
    } else {
        Err(trim_str(stderr))
    }
}

/// The message while an AUR search runs.
pub open spec fn searching_message_spec(query: Seq<char>) -> Seq<char> {
    "Searching AUR for '"@ + query + "'..."@
}

/// The message while an AUR search runs.
pub fn searching_message(query: &str) -> (r: String)
    ensures
        r@ == searching_message_spec(query@),
{
    let mut m = owned("Searching AUR for '");
    append_str(&mut m, query);
    append_str(&mut m, "'...");
    m
}

/// Why an AUR search cannot run: no helper installed, or AUR features off.
pub fn no_helper_message(aur_enabled: bool) -> (r: &'static str)
    ensures
        aur_enabled ==> r@ == "No AUR helper (yay/paru) found."@,
        !aur_enabled ==> r@ == "AUR features disabled in config."@,
{
    if aur_enabled {
        "No AUR helper (yay/paru) found."
    } else {
        "AUR features disabled in config."
    }
}

} // verus!
