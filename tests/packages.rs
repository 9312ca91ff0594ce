use hello_rs::packages::{check_updates, configured_managers, get_package_count, count_ii_lines, field_two, portage_count, tail_line, Manager, ManagerList, Tally};
use hello_rs::number::{parse_i32, signed_text, unsigned_text};
use hello_rs::report::{count_updates, package_row};

fn names(v: &[&str]) -> ManagerList {
    ManagerList::Names(v.iter().map(|s| s.to_string()).collect())
}

fn outs(v: &[&str]) -> Vec<String> {
    v.iter().map(|s| s.to_string()).collect()
}

#[test]
fn pacman_and_apt_updates_add_up() {
    let setting = names(&["pacman", "apt"]);
    let o = outs(&["a 1 -> 2\nb 1 -> 2\nc 1 -> 2\n", "Listing...\nWARNING: header\nx/stable\ny/stable\nz/stable\n"]);
    assert_eq!(check_updates(&setting, &o), Some(6));
}

#[test]
fn unset_managers_give_minus_one() {
    assert_eq!(check_updates(&ManagerList::Unset, &Vec::new()), Some(-1));
    assert_eq!(get_package_count(&ManagerList::Unset, &Vec::new()), Some(-1));
    assert!(configured_managers(&ManagerList::Unset).is_none());
}

#[test]
fn unknown_managers_are_skipped() {
    let setting = names(&["brew", "xbps", "nix"]);
    assert_eq!(configured_managers(&setting), Some(vec![Manager::Xbps]));
    assert_eq!(check_updates(&setting, &outs(&["p\nq\n"])), Some(2));
    assert_eq!(check_updates(&names(&["brew"]), &Vec::new()), Some(0));
}

#[test]
fn single_manager_counts() {
    assert_eq!(check_updates(&names(&["dnf"]), &outs(&["\nLast check\na\nb\n"])), Some(2));
    assert_eq!(check_updates(&names(&["apk"]), &outs(&[""])), Some(0));
    assert_eq!(check_updates(&names(&["apt"]), &outs(&["Listing...\n"])), Some(0));
}

#[test]
fn portage_tokens() {
    assert_eq!(portage_count("matches"), 0);
    assert_eq!(portage_count("7"), 7);
    assert_eq!(portage_count("garbage"), 1);
    assert_eq!(portage_count(""), 1);
}

#[test]
fn portage_output_is_read_from_its_last_line() {
    assert_eq!(Manager::Portage.updates_in("No matches found\n"), 0);
    assert_eq!(Manager::Portage.updates_in("foo-1.2\nbar-3\nFound 7 matches\n"), 7);
    assert_eq!(Manager::Portage.updates_in("oops\n"), 1);
    assert_eq!(tail_line("a\nb c\n"), "b c");
    assert_eq!(tail_line("a\nb"), "b");
    assert_eq!(tail_line(""), "");
    assert_eq!(field_two("Found 7 matches"), "7");
    assert_eq!(field_two("alone"), "alone");
    assert_eq!(field_two("a  b"), "");
}

#[test]
fn installed_counts() {
    assert_eq!(Manager::Pacman.installed_in("a 1\nb 2\n"), 2);
    assert_eq!(count_ii_lines("Desired\nii  bash\nrc  old\nii  zsh"), 2);
    assert_eq!(count_ii_lines("i i\n"), 0);
    assert_eq!(Manager::Dnf.installed_in("Installed Packages\na\nb\n"), 2);
    let setting = names(&["pacman", "apt"]);
    let o = outs(&["a 1\nb 2\nc 3\n", "||/ Name\nii  bash\nii  zsh\n"]);
    assert_eq!(get_package_count(&setting, &o), Some(5));
}

#[test]
fn commands_per_manager() {
    assert_eq!(Manager::Pacman.update_command(), vec!["checkupdates".to_string()]);
    assert_eq!(Manager::Apt.update_command(), outs(&["apt", "list", "-u"]));
    assert_eq!(Manager::Portage.update_command(), outs(&["eix", "-u", "--format", "<installedversions:nameversion>"]));
    assert_eq!(Manager::Apt.installed_command(), outs(&["dpkg-query", "-l"]));
    assert_eq!(Manager::Dnf.installed_command(), outs(&["dnf", "list", "installed"]));
    assert_eq!(Manager::from_name("portage"), Some(Manager::Portage));
    assert_eq!(Manager::from_name("Pacman"), None);
}

#[test]
fn tally_kinds_differ() {
    assert_eq!(Manager::Dnf.count_in(Tally::Updates, "h1\nh2\na\n"), 1);
    assert_eq!(Manager::Dnf.count_in(Tally::Installed, "h1\nh2\na\n"), 2);
}

#[test]
fn update_texts() {
    assert_eq!(count_updates(-1), "│ none");
    assert_eq!(count_updates(0), "│ ☑️ Up to date");
    assert_eq!(count_updates(1), "│ 1️⃣ 1 update");
    assert_eq!(count_updates(6), "│ 6️⃣ 6 updates");
    assert_eq!(count_updates(10), "│ 🔟 10 updates");
    assert_eq!(count_updates(42), "│ ‼️ 42 updates");
}

#[test]
fn package_texts() {
    assert_eq!(package_row(-1), None);
    assert_eq!(package_row(0), Some("│ 📦 No packages".to_string()));
    assert_eq!(package_row(1), Some("│ 📦 1 package".to_string()));
    assert_eq!(package_row(1234), Some("│ 📦 1234 packages".to_string()));
}

#[test]
fn numbers_parse_and_print() {
    assert_eq!(parse_i32("42"), Some(42));
    assert_eq!(parse_i32("-17"), Some(-17));
    assert_eq!(parse_i32("+5"), Some(5));
    assert_eq!(parse_i32("2147483647"), Some(i32::MAX));
    assert_eq!(parse_i32("-2147483648"), Some(i32::MIN));
    assert_eq!(parse_i32("2147483648"), None);
    assert_eq!(parse_i32("99999999999999999999"), None);
    assert_eq!(parse_i32(""), None);
    assert_eq!(parse_i32("-"), None);
    assert_eq!(parse_i32("7\n"), None);
    assert_eq!(unsigned_text(0), "0");
    assert_eq!(unsigned_text(1907), "1907");
    assert_eq!(signed_text(-305), "-305");
    assert_eq!(signed_text(i64::MIN), i64::MIN.to_string());
}
