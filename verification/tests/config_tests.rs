use givetray::config::{
    config_has_unsaved_changes, resolve_log_file_path, ConfigRecord, ProfileState, SavedSettings,
};

fn settings(command: &str, autostart: bool, log_to_file: bool, apps: bool, sys: bool) -> SavedSettings {
    SavedSettings {
        command: command.to_string(),
        autostart,
        log_to_file,
        applications: apps,
        system_autostart: sys,
    }
}

#[test]
fn default_record_runs_the_placeholder_command() {
    let record = ConfigRecord::default_record();
    assert_eq!(record.command, "echo configure command");
    assert!(!record.autostart);
    assert!(record.icon_path.is_none());
    assert!(!record.log_to_file);
    assert!(record.log_file_path.is_none());
}

#[test]
fn log_path_resolution_prefers_the_configured_path() {
    let mut record = ConfigRecord::default_record();
    record.log_to_file = true;
    record.log_file_path = Some("/var/log/mine.log".to_string());
    let resolved = resolve_log_file_path(&record, Some("/default.log".to_string()));
    assert_eq!(resolved.unwrap(), "/var/log/mine.log");
}

#[test]
fn log_path_resolution_falls_back_to_default() {
    let mut record = ConfigRecord::default_record();
    record.log_to_file = true;
    let resolved = resolve_log_file_path(&record, Some("/default.log".to_string()));
    assert_eq!(resolved.unwrap(), "/default.log");
}

#[test]
fn log_path_is_none_when_mirroring_is_off() {
    let record = ConfigRecord::default_record();
    let resolved = resolve_log_file_path(&record, Some("/default.log".to_string()));
    assert!(resolved.is_none());
}

#[test]
fn cli_log_file_switches_mirroring_on() {
    let mut record = ConfigRecord::default_record();
    let changed = record.apply_cli_overrides(None, Some("/tmp/x.log".to_string()), None);
    assert!(changed);
    assert!(record.log_to_file);
    assert_eq!(record.log_file_path.as_deref(), Some("/tmp/x.log"));
}

#[test]
fn cli_icon_is_recorded() {
    let mut record = ConfigRecord::default_record();
    let changed = record.apply_cli_overrides(Some("/icons/i.png".to_string()), None, None);
    assert!(changed);
    assert_eq!(record.icon_path.as_deref(), Some("/icons/i.png"));
    assert!(!record.log_to_file);
}

#[test]
fn enabled_mirroring_without_a_path_takes_the_default() {
    let mut record = ConfigRecord::default_record();
    record.log_to_file = true;
    let changed = record.apply_cli_overrides(None, None, Some("/d.log".to_string()));
    assert!(changed);
    assert_eq!(record.log_file_path.as_deref(), Some("/d.log"));
}

#[test]
fn untouched_record_needs_no_save() {
    let mut record = ConfigRecord::default_record();
    let changed = record.apply_cli_overrides(None, None, Some("/d.log".to_string()));
    assert!(!changed);
    assert!(record.log_file_path.is_none());
}

#[test]
fn dirty_check_sees_each_field() {
    let saved = settings("echo a", false, false, false, false);
    assert!(!config_has_unsaved_changes(&saved, &settings("echo a", false, false, false, false)));
    assert!(config_has_unsaved_changes(&saved, &settings("echo b", false, false, false, false)));
    assert!(config_has_unsaved_changes(&saved, &settings("echo a", true, false, false, false)));
    assert!(config_has_unsaved_changes(&saved, &settings("echo a", false, true, false, false)));
    assert!(config_has_unsaved_changes(&saved, &settings("echo a", false, false, true, false)));
    assert!(config_has_unsaved_changes(&saved, &settings("echo a", false, false, false, true)));
}

fn fresh_state() -> ProfileState {
    ProfileState {
        saved_command: "echo configure command".to_string(),
        saved_autostart: false,
        saved_icon_path: None,
        saved_log_to_file: false,
        saved_log_file_path: None,
        log_file_path: None,
    }
}

#[test]
fn save_with_mirroring_fills_in_the_default_path() {
    let mut state = fresh_state();
    let (record, messages) = state.apply_save(
        "echo hi".to_string(),
        true,
        true,
        Some("/logs/default.log".to_string()),
    );
    assert_eq!(state.saved_command, "echo hi");
    assert!(state.saved_autostart);
    assert!(state.saved_log_to_file);
    assert_eq!(state.saved_log_file_path.as_deref(), Some("/logs/default.log"));
    assert_eq!(state.log_file_path.as_deref(), Some("/logs/default.log"));
    assert_eq!(record.command, "echo hi");
    assert!(record.log_to_file);
    assert_eq!(record.log_file_path.as_deref(), Some("/logs/default.log"));
    assert_eq!(
        messages,
        vec![
            "Configuration updated".to_string(),
            "Log file enabled: /logs/default.log".to_string(),
        ]
    );
}

#[test]
fn save_without_mirroring_reports_it_disabled() {
    let mut state = fresh_state();
    state.saved_log_file_path = Some("/kept.log".to_string());
    let (record, messages) = state.apply_save("echo hi".to_string(), false, false, None);
    assert!(state.log_file_path.is_none());
    assert_eq!(state.saved_log_file_path.as_deref(), Some("/kept.log"));
    assert_eq!(record.log_file_path.as_deref(), Some("/kept.log"));
    assert_eq!(
        messages,
        vec![
            "Configuration updated".to_string(),
            "Log file output disabled".to_string(),
        ]
    );
}

#[test]
fn save_keeps_an_already_configured_path() {
    let mut state = fresh_state();
    state.saved_log_file_path = Some("/mine.log".to_string());
    let (_, messages) = state.apply_save(
        "echo hi".to_string(),
        false,
        true,
        Some("/default.log".to_string()),
    );
    assert_eq!(state.log_file_path.as_deref(), Some("/mine.log"));
    assert_eq!(
        messages,
        vec![
            "Configuration updated".to_string(),
            "Log file enabled: /mine.log".to_string(),
        ]
    );
}
