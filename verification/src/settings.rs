//! The settings that outlive a run: the theme.

use vstd::prelude::*;
use vstd::string::*;

use crate::state::AppTheme;

verus! {

/// The record kept in the settings file.
#[derive(Clone, Copy, Debug, PartialEq, Eq, Structural)]
pub struct AppSettings {
    pub theme: AppTheme,
}

impl Default for AppSettings {
    /// The settings of a first run: the dark theme.
    fn default() -> (settings: AppSettings)
        ensures
            settings.theme == AppTheme::Dark,
    {
        AppSettings { theme: AppTheme::Dark }
    }
}

/// What reading the settings file gave.
#[derive(Debug)]
pub enum SettingsRead {
    /// The file held these settings.
    Parsed(AppSettings),
    /// The file could not be parsed, for this reason.
    Malformed(String),
    /// There is no file, or no place for one.
    Missing,
    /// The file is there but could not be read, for this reason.
    Unreadable(String),
}

/// The settings to start with.
pub open spec fn settings_of(read: SettingsRead) -> AppSettings {
    match read {
        SettingsRead::Parsed(settings) => settings,
        _ => AppSettings { theme: AppTheme::Dark },
    }
}

/// What to tell the diagnostics about the read, if anything. A missing
/// file is no fault.
pub open spec fn complaint_of(read: SettingsRead) -> Option<Seq<char>> {
    match read {
        SettingsRead::Malformed(reason) => Some("Error parsing config file: "@ + reason@),
        SettingsRead::Unreadable(reason) => Some("Error reading config file: "@ + reason@),
        _ => None,
    }
}

/// Settles the settings to start with: those of the file if it held any,
/// else the default. A file that is malformed or unreadable is not fatal;
/// it yields the default and a line for the diagnostics.
pub fn load_settings(read: SettingsRead) -> (loaded: (AppSettings, Option<String>))
    ensures
        loaded.0 == settings_of(read),
        match loaded.1 {
            Some(line) => complaint_of(read) == Some(line@),
            None => complaint_of(read) is None,
        },
{
    match read {
        SettingsRead::Parsed(settings) => (settings, None),
        SettingsRead::Malformed(reason) => {
            let mut line = String::from_str("Error parsing config file: ");
            line.append(reason.as_str());
            (AppSettings::default(), Some(line))
        },
        SettingsRead::Missing => (AppSettings::default(), None),
        SettingsRead::Unreadable(reason) => {
            let mut line = String::from_str("Error reading config file: ");
            line.append(reason.as_str());
            (AppSettings::default(), Some(line))
        },
    }
}

} // verus!
