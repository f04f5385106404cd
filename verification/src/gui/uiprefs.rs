//! Look-and-feel preferences for the settings window.
//!
//! Deliberately not part of the device configuration: the resident process
//! reacts to any change of that file by re-sending the device settings to the
//! mouse, so persisting the theme there would push HID++ traffic to the device
//! every time someone toggled dark/light. Reading and writing the file is the
//! program's job.

use super::theme::{Accent, Theme};
use crate::config::{app_dir, app_dir_of, join_path, path_join};
use vstd::prelude::*;

verus! {

#[derive(Debug, Clone, Copy, PartialEq, Eq, Structural)]
pub struct UiPrefs {
    pub theme: Theme,
    pub accent: Accent,
}

impl Default for UiPrefs {
    fn default() -> (r: Self)
        ensures
            r.theme == Theme::Dark,
            r.accent == Accent::Vermilion,
    {
        UiPrefs { theme: Theme::default(), accent: Accent::default() }
    }
}

/// `%APPDATA%\Mushak\ui.toml`, when `APPDATA` is known.
pub fn path(appdata: Option<&str>) -> (r: Option<String>)
    ensures
        match appdata {
            Some(a) => r matches Some(p) && p@ == path_join(app_dir_of(a@), "ui.toml"@),
            None => r is None,
        },
{
    match app_dir(appdata) {
        Ok(dir) => Some(join_path(dir.as_str(), "ui.toml")),
        Err(_) => None,
    }
}

impl UiPrefs {
    /// The preferences to use: the file's when it was read and parsed, else
    /// the defaults.
    pub fn load(parsed: Option<UiPrefs>) -> (r: Self)
        ensures
            r == match parsed {
                Some(p) => p,
                None => UiPrefs { theme: Theme::Dark, accent: Accent::Vermilion },
            },
    {
        match parsed {
            Some(p) => p,
            None => UiPrefs::default(),
        }
    }

    /// The preferences with the theme switched (the accent stays).
    pub fn toggle_theme(&mut self)
        ensures
            final(self).theme == super::theme::toggled_spec(old(self).theme),
            final(self).accent == old(self).accent,
    {
        self.theme = self.theme.toggled();
    }
}

} // verus!
