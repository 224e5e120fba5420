use givetray::desktop::{desktop_entry, desktop_escape_arg};

#[test]
fn plain_value_passes_through() {
    assert_eq!(desktop_escape_arg("simple"), "simple");
    assert_eq!(desktop_escape_arg("/usr/bin/tool"), "/usr/bin/tool");
}

#[test]
fn percent_signs_are_doubled() {
    assert_eq!(desktop_escape_arg("100%"), "100%%");
    assert_eq!(desktop_escape_arg("%a%"), "%%a%%");
}

#[test]
fn whitespace_forces_quotes() {
    assert_eq!(desktop_escape_arg("has space"), "\"has space\"");
    assert_eq!(desktop_escape_arg("tab\there"), "\"tab\there\"");
}

#[test]
fn quotes_and_backslashes_are_escaped_inside_quotes() {
    assert_eq!(desktop_escape_arg("a\"b"), "\"a\\\"b\"");
    assert_eq!(desktop_escape_arg("a\\b"), "\"a\\\\b\"");
}

#[test]
fn percent_doubling_combines_with_quoting() {
    assert_eq!(desktop_escape_arg("50% off"), "\"50%% off\"");
}

#[test]
fn entry_lists_all_fields() {
    let entry = desktop_entry("/usr/bin/givetray", "/icons/icon.png", "prof", false);
    let expected = "[Desktop Entry]\n\
                    Type=Application\n\
                    Name=prof (givetray)\n\
                    Exec=/usr/bin/givetray -c prof\n\
                    Icon=/icons/icon.png\n\
                    Terminal=false\n\
                    Categories=Utility;\n";
    assert_eq!(entry, expected);
}

#[test]
fn entry_sanitizes_name_and_escapes_exec() {
    let entry = desktop_entry("/opt/my tool/run", "/icons/icon.png", "My Profile!", false);
    assert!(entry.contains("Name=My_Profile_ (givetray)\n"));
    assert!(entry.contains("Exec=\"/opt/my tool/run\" -c \"My Profile!\"\n"));
}

#[test]
fn autostart_adds_the_marker_line() {
    let without = desktop_entry("/usr/bin/givetray", "/i.png", "p", false);
    let with = desktop_entry("/usr/bin/givetray", "/i.png", "p", true);
    assert!(!without.contains("X-GNOME-Autostart-enabled=true\n"));
    assert!(with.ends_with("X-GNOME-Autostart-enabled=true\n"));
}
