use givetray::escalation::{base_name, ensure_sudo_stdin_flag, is_sudo_command};

fn args(words: &[&str]) -> Vec<String> {
    words.iter().map(|w| w.to_string()).collect()
}

#[test]
fn base_name_of_plain_word() {
    assert_eq!(base_name("sudo"), "sudo");
}

#[test]
fn base_name_of_absolute_path() {
    assert_eq!(base_name("/usr/bin/sudo"), "sudo");
}

#[test]
fn base_name_ignores_trailing_slashes() {
    assert_eq!(base_name("sudo/"), "sudo");
    assert_eq!(base_name("/a/b/c"), "c");
}

#[test]
fn base_name_of_empty_path() {
    assert_eq!(base_name(""), "");
}

#[test]
fn detects_sudo_by_base_name() {
    assert!(is_sudo_command(&args(&["sudo", "apt", "update"])));
    assert!(is_sudo_command(&args(&["/usr/bin/sudo", "ls"])));
    assert!(!is_sudo_command(&args(&["sudoedit", "file"])));
    assert!(!is_sudo_command(&args(&["echo", "sudo"])));
    assert!(!is_sudo_command(&args(&[])));
}

#[test]
fn inserts_stdin_flag_after_tool_name() {
    let mut v = args(&["sudo", "apt", "update"]);
    ensure_sudo_stdin_flag(&mut v);
    assert_eq!(v, args(&["sudo", "-S", "apt", "update"]));
}

#[test]
fn appends_stdin_flag_to_bare_tool() {
    let mut v = args(&["sudo"]);
    ensure_sudo_stdin_flag(&mut v);
    assert_eq!(v, args(&["sudo", "-S"]));
}

#[test]
fn keeps_vector_with_existing_flag() {
    for flag in ["-S", "--stdin", "--askpass"] {
        let mut v = args(&["sudo", flag, "apt"]);
        ensure_sudo_stdin_flag(&mut v);
        assert_eq!(v, args(&["sudo", flag, "apt"]));
    }
}
