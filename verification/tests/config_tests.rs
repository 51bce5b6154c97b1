use confmg::{Config, ConfigEntry, Configuration, Error, OS};

fn entry(source: &str, targets: &[(OS, &str)]) -> ConfigEntry {
    let mut e = ConfigEntry::new(source.to_string());
    for (os, path) in targets {
        e.set_target(*os, path.to_string());
    }
    e
}

fn sample() -> Config {
    let mut config = Config::new(Configuration { diff_command: None });
    config.insert(
        "shellrc".to_string(),
        entry("shell/bashrc", &[(OS::Linux, "~/.bashrc"), (OS::MacOS, "~/.bash_profile")]),
    );
    config.insert("vimrc".to_string(), entry("vim/vimrc", &[(OS::Windows, "~\\_vimrc")]));
    config.insert("notes".to_string(), entry("notes.txt", &[]));
    config
}

#[test]
fn new_store_is_empty() {
    let config = Config::new(Configuration { diff_command: Some("meld".to_string()) });
    assert!(config.get_entries().is_empty());
    assert!(config._get_labels().is_empty());
    assert_eq!(config.get_entry(&"shellrc".to_string()), None);
    assert_eq!(config.config.diff_command, Some("meld".to_string()));
    assert_eq!(config.get_settings().diff_command, Some("meld".to_string()));
}

#[test]
fn get_entry_finds_what_was_inserted() {
    let config = sample();
    let found = config.get_entry(&"shellrc".to_string()).unwrap();
    assert_eq!(found.get_current_target_path(OS::Linux), Some("~/.bashrc".to_string()));
    assert_eq!(found.get_current_target_path(OS::MacOS), Some("~/.bash_profile".to_string()));
    assert_eq!(found.get_current_target_path(OS::Windows), None);
    assert_eq!(found.get_source_path("/cfg", OS::Linux), "/cfg/shell/bashrc");
}

#[test]
fn get_entry_of_unknown_label_is_nothing() {
    let config = sample();
    assert_eq!(config.get_entry(&"nope".to_string()), None);
    assert_eq!(config.get_entry(&"".to_string()), None);
    assert_eq!(config.get_entry(&"Shellrc".to_string()), None);
}

#[test]
fn insert_under_a_known_label_replaces_the_entry() {
    let mut config = sample();
    config.insert("shellrc".to_string(), entry("shell/zshrc", &[(OS::Linux, "~/.zshrc")]));
    assert_eq!(config.get_entries().len(), 3);
    let found = config.get_entry(&"shellrc".to_string()).unwrap();
    assert_eq!(found.get_source_path("", OS::Linux), "shell/zshrc");
    assert_eq!(found.get_current_target_path(OS::Linux), Some("~/.zshrc".to_string()));
    assert_eq!(found.get_current_target_path(OS::MacOS), None);
    let other = config.get_entry(&"vimrc".to_string()).unwrap();
    assert_eq!(other.get_source_path("", OS::Linux), "vim/vimrc");
}

#[test]
fn get_entries_lists_each_label_once() {
    let config = sample();
    let entries = config.get_entries();
    let mut labels: Vec<String> = entries.iter().map(|(label, _)| (*label).clone()).collect();
    labels.sort();
    assert_eq!(labels, vec!["notes".to_string(), "shellrc".to_string(), "vimrc".to_string()]);
    for (label, found) in entries {
        assert_eq!(config.get_entry(label), Some(found));
    }
}

#[test]
fn get_labels_lists_each_label_once() {
    let config = sample();
    let mut labels: Vec<String> = config._get_labels().into_iter().cloned().collect();
    labels.sort();
    assert_eq!(labels, vec!["notes".to_string(), "shellrc".to_string(), "vimrc".to_string()]);
}

#[test]
fn source_path_lies_below_the_base() {
    let e = entry("shell/bashrc", &[]);
    assert_eq!(e.get_source_path("/home/u/.confmg", OS::Linux), "/home/u/.confmg/shell/bashrc");
    assert_eq!(e.get_source_path("~/.confmg", OS::Linux), "~/.confmg/shell/bashrc");
    assert_eq!(e.get_source_path("", OS::Linux), "shell/bashrc");
    assert_eq!(e.get_source_path("C:\\cfg", OS::Windows), "C:\\cfg\\shell/bashrc");
}

#[test]
fn entry_without_target_on_the_platform_has_no_target_path() {
    let e = entry("notes.txt", &[]);
    assert_eq!(e.get_current_target_path(OS::Linux), None);
    assert_eq!(e.get_current_target_path(OS::Windows), None);
    assert_eq!(e.get_current_target_path(OS::MacOS), None);
    let w = entry("vim/vimrc", &[(OS::Windows, "~\\_vimrc")]);
    assert_eq!(w.get_current_target_path(OS::Linux), None);
    assert_eq!(w.get_current_target_path(OS::Windows), Some("~\\_vimrc".to_string()));
}

#[test]
fn set_target_replaces_the_target_of_one_platform() {
    let mut e = entry("a", &[(OS::Linux, "/one"), (OS::MacOS, "/mac")]);
    e.set_target(OS::Linux, "/two".to_string());
    assert_eq!(e.get_current_target_path(OS::Linux), Some("/two".to_string()));
    assert_eq!(e.get_current_target_path(OS::MacOS), Some("/mac".to_string()));
    assert_eq!(e.get_current_target_path(OS::Windows), None);
    assert_eq!(e.get_source_path("", OS::Linux), "a");
}

#[test]
fn select_labels_takes_requested_labels_as_they_are() {
    let config = sample();
    let asked = vec!["vimrc".to_string(), "nope".to_string(), "vimrc".to_string()];
    assert_eq!(config.select_labels(OS::Linux, asked.clone()), asked);
}

#[test]
fn select_labels_without_request_takes_the_installed_ones() {
    let config = sample();
    assert_eq!(config.select_labels(OS::Linux, vec![]), vec!["shellrc".to_string()]);
    assert_eq!(config.select_labels(OS::MacOS, vec![]), vec!["shellrc".to_string()]);
    assert_eq!(config.select_labels(OS::Windows, vec![]), vec!["vimrc".to_string()]);
    let mut both = sample();
    both.insert("gitconfig".to_string(), entry("git/config", &[(OS::Linux, "~/.gitconfig")]));
    let mut labels = both.select_labels(OS::Linux, vec![]);
    labels.sort();
    assert_eq!(labels, vec!["gitconfig".to_string(), "shellrc".to_string()]);
}

#[test]
fn set_named_target_knows_the_three_platform_names() {
    let mut e = ConfigEntry::new("a".to_string());
    assert_eq!(e.set_named_target("linux", "/l".to_string()), Ok(()));
    assert_eq!(e.set_named_target("windows", "C:\\w".to_string()), Ok(()));
    assert_eq!(e.set_named_target("macos", "/m".to_string()), Ok(()));
    assert_eq!(e.get_current_target_path(OS::Linux), Some("/l".to_string()));
    assert_eq!(e.get_current_target_path(OS::Windows), Some("C:\\w".to_string()));
    assert_eq!(e.get_current_target_path(OS::MacOS), Some("/m".to_string()));
    assert_eq!(e.set_named_target("linux", "/other".to_string()), Ok(()));
    assert_eq!(e.get_current_target_path(OS::Linux), Some("/other".to_string()));
}

#[test]
fn set_named_target_refuses_other_names() {
    let mut e = entry("a", &[(OS::Linux, "/l")]);
    assert_eq!(
        e.set_named_target("freebsd", "/f".to_string()),
        Err(Error::UnknownPlatform { name: "freebsd".to_string() })
    );
    assert_eq!(
        e.set_named_target("Linux", "/f".to_string()),
        Err(Error::UnknownPlatform { name: "Linux".to_string() })
    );
    assert_eq!(e, entry("a", &[(OS::Linux, "/l")]));
    assert_eq!(
        Error::UnknownPlatform { name: "freebsd".to_string() }.message(),
        "Unknown platform 'freebsd', expected one of 'linux', 'windows', 'macos'"
    );
}
