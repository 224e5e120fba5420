use givetray::sanitize::{config_file_name, desktop_file_name, log_file_name, sanitize_profile_name};

#[test]
fn sanitize_replaces_invalid_characters() {
    assert_eq!(sanitize_profile_name("My Profile!"), "My_Profile_");
}

#[test]
fn sanitize_keeps_valid_characters() {
    assert_eq!(sanitize_profile_name("abc-DEF_123"), "abc-DEF_123");
}

#[test]
fn sanitize_empty_name_collapses_to_default() {
    assert_eq!(sanitize_profile_name(""), "default");
}

#[test]
fn sanitize_all_invalid_name_collapses_to_default() {
    assert_eq!(sanitize_profile_name("!?! *"), "default");
}

#[test]
fn file_names_reuse_the_same_identity() {
    assert_eq!(config_file_name("My Profile!"), "My_Profile_.toml");
    assert_eq!(log_file_name("My Profile!"), "My_Profile_.log");
    assert_eq!(desktop_file_name("My Profile!"), "givetray_My_Profile_.desktop");
}

#[test]
fn file_names_for_default_identity() {
    assert_eq!(config_file_name(""), "default.toml");
    assert_eq!(log_file_name(""), "default.log");
    assert_eq!(desktop_file_name(""), "givetray_default.desktop");
}
