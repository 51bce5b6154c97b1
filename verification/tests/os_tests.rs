use confmg::os::same_text;
use confmg::OS;

#[test]
fn from_name_knows_the_three_platforms() {
    assert_eq!(OS::from_name("linux"), Some(OS::Linux));
    assert_eq!(OS::from_name("macos"), Some(OS::MacOS));
    assert_eq!(OS::from_name("windows"), Some(OS::Windows));
}

#[test]
fn from_name_refuses_other_names() {
    assert_eq!(OS::from_name("freebsd"), None);
    assert_eq!(OS::from_name("Linux"), None);
    assert_eq!(OS::from_name(""), None);
    assert_eq!(OS::from_name("linux "), None);
}

#[test]
fn name_is_lower_case() {
    assert_eq!(OS::Linux.name(), "linux");
    assert_eq!(OS::Windows.name(), "windows");
    assert_eq!(OS::MacOS.name(), "macos");
}

#[test]
fn name_leads_back_to_the_platform() {
    for os in [OS::Linux, OS::Windows, OS::MacOS] {
        assert_eq!(OS::from_name(os.name()), Some(os));
    }
}

#[test]
fn to_string_is_the_display_name() {
    assert_eq!(OS::Linux.to_string(), "Linux");
    assert_eq!(OS::Windows.to_string(), "Windows");
    assert_eq!(OS::MacOS.to_string(), "MacOS");
}

#[test]
fn same_text_compares_characters() {
    assert!(same_text("abc", "abc"));
    assert!(same_text("", ""));
    assert!(!same_text("abc", "abd"));
    assert!(!same_text("abc", "ab"));
}
