use pkgman::loader::{
    aur_search_report, build_package_list, disk_free_label, installed_names, packages_from_caches,
    parse_aur_list, parse_aur_search, parse_completion_cache, parse_details, parse_field_line, parse_foreign,
    parse_sync_db, update_names,
};
use pkgman::package::{map_pkg, repo_priority};

const SI: &str = "Repository      : core\n\
Name            : bash\n\
Version         : 5.2-1\n\
Description     : The GNU Bourne Again shell\n\
URL             : https://www.gnu.org/software/bash/\n\
Installed Size  : 8.00 MiB\n\
\n\
Repository      : extra\n\
Name            : Vim\n\
Version         : 9.1-1\n\
Description     : Vi Improved\n\
\n\
Repository      : extra\n\
Description     : no name here\n";

#[test]
fn field_line_split_at_first_separator() {
    assert_eq!(
        parse_field_line("Depends On      : glibc  readline : x"),
        Some(("Depends On".to_string(), "glibc  readline : x".to_string()))
    );
    assert_eq!(parse_field_line("no separator"), None);
    assert_eq!(parse_field_line("a:b"), None);
}

#[test]
fn sync_db_records() {
    let inst = vec!["bash".to_string()];
    let upd = vec!["vim".to_string(), "Vim".to_string()];
    let ps = parse_sync_db(SI, &inst, &upd);
    assert_eq!(ps.len(), 2);
    assert_eq!(ps[0].name, "bash");
    assert_eq!(ps[0].repo, "core");
    assert_eq!(ps[0].version, "5.2-1");
    assert_eq!(ps[0].inst_size, "8.00 MiB");
    assert!(ps[0].installed);
    assert!(!ps[0].upgradable);
    assert_eq!(ps[0].search_key, "bash the gnu bourne again shell");
    assert_eq!(ps[0].depends, "");
    assert_eq!(ps[1].name, "Vim");
    assert!(ps[1].upgradable);
    assert!(!ps[1].installed);
    assert_eq!(ps[1].search_key, "vim vi improved");
}

#[test]
fn installed_updates_foreign_lists() {
    assert_eq!(installed_names("bash\n  \n vim \n"), vec!["bash", "vim"]);
    assert_eq!(update_names("bash 5.1 -> 5.2\n\n  vim 1 -> 2\n"), vec!["bash", "vim"]);
    let f = parse_foreign("yay 12.0-1\nlonely\nparu 2.0-1\nyay 12.1-1\n");
    assert_eq!(f, vec![("yay".to_string(), "12.1-1".to_string()), ("paru".to_string(), "2.0-1".to_string())]);
}

#[test]
fn package_list_appends_unknown_foreign_packages() {
    let ps = build_package_list(SI, "bash\nyay\n", "yay 1 -> 2\n", "bash 5.2-1\nyay 12.0-1\n");
    assert_eq!(ps.len(), 3);
    assert_eq!(ps[2].name, "yay");
    assert_eq!(ps[2].version, "12.0-1");
    assert_eq!(ps[2].repo, "aur");
    assert_eq!(ps[2].desc, "Installed foreign/AUR package");
    assert_eq!(ps[2].arch, "x86_64");
    assert_eq!(ps[2].packager, "AUR / Foreign");
    assert_eq!(ps[2].url, "None");
    assert!(ps[2].installed);
    assert!(ps[2].upgradable);
    assert_eq!(ps[2].search_key, "yay foreign/aur package");
}

#[test]
fn completion_cache_and_aur_list() {
    let ps = parse_completion_cache("foo AUR\nbar core\nbaz aur\nsolo\n");
    assert_eq!(ps.len(), 2);
    assert_eq!(ps[0].name, "foo");
    assert_eq!(ps[0].version, "unknown");
    assert_eq!(ps[0].desc, "AUR Package");
    assert_eq!(ps[0].arch, "any");
    assert_eq!(ps[0].packager, "AUR");
    assert_eq!(ps[1].name, "baz");
    assert_eq!(ps[1].search_key, "baz aur package");
    let first = packages_from_caches(&vec!["x core\n".to_string(), "a AUR\n".to_string(), "b AUR\n".to_string()]);
    assert_eq!(first.len(), 1);
    assert_eq!(first[0].name, "a");
    assert!(packages_from_caches(&Vec::new()).is_empty());
    let l = parse_aur_list("aur Foo 1.0-1\naur bar\nx\n");
    assert_eq!(l.len(), 2);
    assert_eq!(l[0].name, "Foo");
    assert_eq!(l[0].version, "1.0-1");
    assert_eq!(l[0].search_key, "foo aur package");
    assert_eq!(l[1].version, "unknown");
}

#[test]
fn aur_search_output() {
    let out = "aur/foo 1.2-1 (+5 0.1)\n    A foo tool\nnot a header\n    skipped\naur/bar 2.0\n";
    let ps = parse_aur_search(out);
    assert_eq!(ps.len(), 2);
    assert_eq!(ps[0].name, "foo");
    assert_eq!(ps[0].version, "1.2-1");
    assert_eq!(ps[0].desc, "A foo tool");
    assert_eq!(ps[0].search_key, "foo a foo tool");
    assert_eq!(ps[0].arch, "x86_64");
    assert_eq!(ps[1].name, "bar");
    assert_eq!(ps[1].desc, "");
    let (found, msg) = aur_search_report(Some(out));
    assert_eq!(found.map(|v| v.len()), Some(2));
    assert_eq!(msg, "Found 2 AUR packages.");
    let (none, msg) = aur_search_report(None);
    assert!(none.is_none());
    assert_eq!(msg, "AUR search failed.");
}

#[test]
fn details_and_disk_free() {
    let d = parse_details("Name : foo\nVersion : 1\nDescription : d\n").unwrap();
    assert_eq!(d.name, "foo");
    assert_eq!(d.version, "1");
    assert_eq!(d.search_key, "foo d");
    assert!(!d.installed);
    assert!(parse_details("nothing useful\n").is_none());
    assert!(parse_details("Version : 1\n").is_none());
    let df = "Filesystem 1K-blocks Used Available Use% Mounted\n/dev/sda1 100 50 50G 50% /\n";
    assert_eq!(disk_free_label(df), "Disk: 50G Free");
    assert_eq!(disk_free_label("only one line\n"), "");
    assert_eq!(disk_free_label("h\na b c\n"), "");
}

#[test]
fn map_pkg_and_priorities() {
    let fields = vec![
        ("Name".to_string(), "zsh".to_string()),
        ("Repository".to_string(), "extra".to_string()),
        ("Name".to_string(), "zsh2".to_string()),
    ];
    let p = map_pkg(&fields, &vec!["zsh2".to_string()], &Vec::new()).unwrap();
    assert_eq!(p.name, "zsh2");
    assert!(p.installed);
    assert!(map_pkg(&Vec::new(), &Vec::new(), &Vec::new()).is_none());
    assert_eq!(repo_priority("Core"), 0);
    assert_eq!(repo_priority("extra"), 1);
    assert_eq!(repo_priority("multilib"), 2);
    assert_eq!(repo_priority("community"), 3);
    assert_eq!(repo_priority("custom-repo"), 5);
    assert_eq!(repo_priority("AUR"), 10);
    assert_eq!(repo_priority("local"), 11);
}
