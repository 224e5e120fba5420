//! The profile's configuration record and the decisions around saving it.
//! Reading and writing the on-disk form belongs to the unverified rim; this
//! module owns the record's defaults, the resolution of the active log file
//! path, the dirty check for the configuration window, and what one save
//! changes.
use vstd::prelude::*;
use vstd::string::StringExecFns;

verus! {

/// The persisted configuration of one profile.
pub struct ConfigRecord {
    pub command: String,
    pub autostart: bool,
    pub icon_path: Option<String>,
    pub log_to_file: bool,
    pub log_file_path: Option<String>,
}

impl ConfigRecord {
    /// The record a profile gets on first reference.
    pub fn default_record() -> (r: ConfigRecord)
        ensures
            r.command@ == "echo configure command"@,
            !r.autostart,
            r.icon_path is None,
            !r.log_to_file,
            r.log_file_path is None,
    {
        ConfigRecord {
            command: "echo configure command".to_owned(),
            autostart: false,
            icon_path: None,
            log_to_file: false,
            log_file_path: None,
        }
    }
}

/// The log file the profile actually writes: none unless mirroring is
/// enabled, else the configured path, else the given default.
pub open spec fn resolved_log_path_spec(
    log_to_file: bool,
    configured: Option<Seq<char>>,
    default_path: Option<Seq<char>>,
) -> Option<Seq<char>> {
    if !log_to_file {
        None
    } else if configured is Some {
        configured
    } else {
        default_path
    }
}

/// Resolves the active log file path for a profile.
pub fn resolve_log_file_path(config: &ConfigRecord, default_path: Option<String>) -> (r: Option<
    String,
>)
    ensures
        r.deep_view() == resolved_log_path_spec(
            config.log_to_file,
            config.log_file_path.deep_view(),
            default_path.deep_view(),
        ),
{
    if !config.log_to_file {
        return None;
    }
    match &config.log_file_path {
        Some(path) => Some(path.clone()),
        None => default_path,
    }
}

impl ConfigRecord {
    /// Applies what the command line asks of a freshly loaded record: a
    /// newly stored icon path, an explicit log file (which switches
    /// mirroring on), and the default log path filled in when mirroring is
    /// on with no path configured. Reports whether the record changed and so
    /// must be persisted again.
    pub fn apply_cli_overrides(
        &mut self,
        stored_icon: Option<String>,
        log_file: Option<String>,
        default_log_path: Option<String>,
    ) -> (changed: bool)
        ensures
            final(self).command == old(self).command,
            final(self).autostart == old(self).autostart,
            final(self).icon_path.deep_view() == (if stored_icon is Some {
                stored_icon.deep_view()
            } else {
                old(self).icon_path.deep_view()
            }),
            final(self).log_to_file == (old(self).log_to_file || log_file is Some),
            final(self).log_file_path.deep_view() == (if log_file is Some {
                log_file.deep_view()
            } else if old(self).log_to_file && old(self).log_file_path is None {
                default_log_path.deep_view()
            } else {
                old(self).log_file_path.deep_view()
            }),
            changed == (stored_icon is Some || log_file is Some || (old(self).log_to_file && old(
                self,
            ).log_file_path is None && default_log_path is Some)),
    {
        let mut changed = false;
        if let Some(icon) = stored_icon {
            self.icon_path = Some(icon);
            changed = true;
        }
        match log_file {
            Some(path) => {
                self.log_to_file = true;
                self.log_file_path = Some(path);
                changed = true;
            },
            None => {
                if self.log_to_file && self.log_file_path.is_none() {
                    if default_log_path.is_some() {
                        changed = true;
                    }
                    self.log_file_path = default_log_path;
                }
            },
        }
        changed
    }
}

/// The values the configuration window compares against what was last saved.
pub struct SavedSettings {
    pub command: String,
    pub autostart: bool,
    pub log_to_file: bool,
    pub applications: bool,
    pub system_autostart: bool,
}

/// Whether the window's current values differ from the saved ones.
pub open spec fn unsaved_changes_spec(saved: &SavedSettings, current: &SavedSettings) -> bool {
    ||| saved.command@ != current.command@
    ||| saved.autostart != current.autostart
    ||| saved.log_to_file != current.log_to_file
    ||| saved.applications != current.applications
    ||| saved.system_autostart != current.system_autostart
}

/// Decides whether the configuration window holds unsaved changes.
pub fn config_has_unsaved_changes(saved: &SavedSettings, current: &SavedSettings) -> (r: bool)
    ensures
        r == unsaved_changes_spec(saved, current),
{
    let command_differs = !crate::text::str_eq(saved.command.as_str(), current.command.as_str());
    command_differs || saved.autostart != current.autostart || saved.log_to_file
        != current.log_to_file || saved.applications != current.applications
        || saved.system_autostart != current.system_autostart
}

/// The saved state one profile session carries between saves.
pub struct ProfileState {
    pub saved_command: String,
    pub saved_autostart: bool,
    pub saved_icon_path: Option<String>,
    pub saved_log_to_file: bool,
    pub saved_log_file_path: Option<String>,
    /// The log file currently mirrored to, when mirroring is on.
    pub log_file_path: Option<String>,
}

impl ProfileState {
    /// Applies one save: records the new command and flags, fills in the
    /// default log path the first time mirroring is switched on, resolves the
    /// active mirror path, and returns the record to persist together with
    /// the lines the log must show for the save.
    pub fn apply_save(
        &mut self,
        text: String,
        autostart: bool,
        log_to_file: bool,
        default_log_path: Option<String>,
    ) -> (out: (ConfigRecord, Vec<String>))
        ensures
            final(self).saved_command@ == text@,
            final(self).saved_autostart == autostart,
            final(self).saved_log_to_file == log_to_file,
            final(self).saved_icon_path == old(self).saved_icon_path,
            final(self).saved_log_file_path.deep_view() == (if log_to_file && old(
                self,
            ).saved_log_file_path is None {
                default_log_path.deep_view()
            } else {
                old(self).saved_log_file_path.deep_view()
            }),
            final(self).log_file_path.deep_view() == (if log_to_file {
                final(self).saved_log_file_path.deep_view()
            } else {
                None::<Seq<char>>
            }),
            out.0.command@ == text@,
            out.0.autostart == autostart,
            out.0.log_to_file == log_to_file,
            out.0.icon_path == old(self).saved_icon_path,
            out.0.log_file_path.deep_view() == final(self).saved_log_file_path.deep_view(),
            out.1.deep_view() == save_messages_spec(
                log_to_file,
                final(self).saved_log_file_path.deep_view(),
            ),
    {
        self.saved_command = text.clone();
        self.saved_autostart = autostart;
        self.saved_log_to_file = log_to_file;
        if log_to_file && self.saved_log_file_path.is_none() {
            self.saved_log_file_path = default_log_path;
        }
        self.log_file_path = if log_to_file {
            match &self.saved_log_file_path {
                Some(path) => Some(path.clone()),
                None => None,
            }
        } else {
            None
        };
        let record = ConfigRecord {
            command: text,
            autostart,
            icon_path: match &self.saved_icon_path {
                Some(path) => Some(path.clone()),
                None => None,
            },
            log_to_file,
            log_file_path: match &self.saved_log_file_path {
                Some(path) => Some(path.clone()),
                None => None,
            },
        };
        let mut messages: Vec<String> = Vec::new();
        messages.push("Configuration updated".to_owned());
        if log_to_file {
            if let Some(path) = &self.saved_log_file_path {
                let mut line: String = "Log file enabled: ".to_owned();
                line.append(path.as_str());
                messages.push(line);
            }
        } else {
            messages.push("Log file output disabled".to_owned());
        }
        proof {
            assert(messages.deep_view() =~= save_messages_spec(
                log_to_file,
                self.saved_log_file_path.deep_view(),
            ));
            assert(record.icon_path == old(self).saved_icon_path);
        }
        (record, messages)
    }
}

/// The log lines a save produces: the confirmation, then where mirroring now
/// goes — or that it is off.
pub open spec fn save_messages_spec(log_to_file: bool, mirror_path: Option<Seq<char>>) -> Seq<
    Seq<char>,
> {
    if log_to_file {
        match mirror_path {
            Some(path) => seq!["Configuration updated"@, "Log file enabled: "@ + path],
            None => seq!["Configuration updated"@],
        }
    } else {
        seq!["Configuration updated"@, "Log file output disabled"@]
    }
}

} // verus!
