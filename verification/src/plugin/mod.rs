//! The plugin state and its reactions to game events.

pub mod event;

use crate::data::structs::DefData;
use crate::data::{with_added, DefinitionEntry, Definitions, LoadError};
use crate::reminder::Reminder;
use crate::tracking::settings::TrackerSettings;
use crate::tracking::Tracker;
use vstd::prelude::*;

verus! {

/// State of unofficial extras.
#[derive(Debug, Clone, Copy, PartialEq, Eq, Structural)]
pub enum ExtrasState {
    Missing,
    Incompatible,
    Found,
}

/// Version of the plugin that wrote the settings.
#[derive(Debug, Clone, Copy, PartialEq, Eq, Structural)]
pub struct SettingsVersion {
    pub major: u64,
    pub minor: u64,
    pub patch: u64,
    /// Whether the version is a pre-release.
    pub pre_release: bool,
}

impl SettingsVersion {
    /// Whether this version has at least the precedence of the release `major.minor.patch`.
    ///
    /// A pre-release precedes the release with the same numbers.
    pub open spec fn spec_at_least(self, major: u64, minor: u64, patch: u64) -> bool {
        ||| self.major > major
        ||| self.major == major && self.minor > minor
        ||| self.major == major && self.minor == minor && self.patch > patch
        ||| self.major == major && self.minor == minor && self.patch == patch && !self.pre_release
    }

    /// Checks whether this version has at least the precedence of the release `major.minor.patch`.
    pub fn at_least(&self, major: u64, minor: u64, patch: u64) -> (r: bool)
        ensures
            r == self.spec_at_least(major, minor, patch),
    {
        if self.major != major {
            self.major > major
        } else if self.minor != minor {
            self.minor > minor
        } else if self.patch != patch {
            self.patch > patch
        } else {
            !self.pre_release
        }
    }
}

/// What to do with the custom definitions file on load.
#[derive(Debug, Clone, Copy, PartialEq, Eq, Structural)]
pub enum DefsAction {
    /// Load the custom definitions file.
    Load,
    /// There is no custom definitions file to load.
    Skip,
    /// The file is from a version before the default definitions changed: remove it.
    RemoveOld,
}

/// Decides what to do with the custom definitions file on load.
///
/// Definitions from settings older than 0.4.0 (or of unknown version) are removed,
/// others are loaded if the file exists.
pub fn defs_action(settings_version: Option<SettingsVersion>, defs_exists: bool) -> (r: DefsAction)
    ensures
        r == (match settings_version {
            Some(version) => if version.spec_at_least(0, 4, 0) {
                if defs_exists { DefsAction::Load } else { DefsAction::Skip }
            } else {
                DefsAction::RemoveOld
            },
            None => DefsAction::RemoveOld,
        }),
{
    match settings_version {
        Some(version) => if version.at_least(0, 4, 0) {
            if defs_exists { DefsAction::Load } else { DefsAction::Skip }
        } else {
            DefsAction::RemoveOld
        },
        None => DefsAction::RemoveOld,
    }
}

/// Main plugin state.
#[derive(Debug)]
pub struct Plugin {
    /// State of unofficial extras.
    pub extras: ExtrasState,
    /// Definitions.
    pub defs: Definitions,
    /// State of loading custom definitions.
    pub defs_state: Result<(), LoadError>,
    /// Food reminder.
    pub reminder: Reminder,
    /// Food tracker.
    pub tracker: Tracker,
    /// Whether the tracker window is shown.
    pub tracker_visible: bool,
    /// Confirmation for reset.
    pub reset_confirm: bool,
}

impl Plugin {
    /// Creates a new plugin.
    pub fn new() -> (r: Self)
        ensures
            r.extras == ExtrasState::Missing,
            exists|data: DefData| #[trigger] crate::data::defaults::is_default_data(data)
                && r.defs@ == with_added(Seq::empty(), data.food@, data.utility@, data.ignore@),
            r.defs_state == Err::<(), LoadError>(LoadError::NotFound),
            r.reminder.encounter is None,
            r.tracker.players@.len() == 0,
            r.tracker.settings == TrackerSettings::spec_default(),
            r.tracker_visible,
            !r.reset_confirm,
    {
        Self {
            extras: ExtrasState::Missing,
            defs: Definitions::with_defaults(),
            defs_state: Err(LoadError::NotFound),
            reminder: Reminder::new(),
            tracker: Tracker::new(),
            tracker_visible: true,
            reset_confirm: false,
        }
    }

    /// Handles the outcome of loading the custom definitions file.
    ///
    /// Loaded definitions are added to the current ones.
    pub fn load_definitions(&mut self, loaded: Result<DefData, LoadError>)
        ensures
            match loaded {
                Ok(data) => final(self).defs@ == with_added(old(self).defs@, data.food@, data.utility@, data.ignore@)
                    && final(self).defs_state == Ok::<(), LoadError>(()),
                Err(err) => final(self).defs@ == old(self).defs@ && final(self).defs_state == Err::<(), LoadError>(err),
            },
    {
        match loaded {
            Ok(data) => {
                self.defs.add_data(data);
                self.defs_state = Ok(());
            },
            Err(err) => {
                self.defs_state = Err(err);
            },
        }
    }

    /// Resets the definitions to the defaults.
    pub fn reset_definitions(&mut self)
        ensures
            exists|data: DefData| #[trigger] crate::data::defaults::is_default_data(data)
                && final(self).defs@ == with_added(Seq::empty(), data.food@, data.utility@, data.ignore@),
            final(self).defs_state == Err::<(), LoadError>(LoadError::NotFound),
    {
        self.defs = Definitions::with_defaults();
        self.defs_state = Err(LoadError::NotFound);
    }

    /// Resets tracker & reminder settings to the defaults.
    pub fn reset_settings(&mut self)
        ensures
            final(self).tracker.settings == TrackerSettings::spec_default(),
            final(self).reminder.settings.food && final(self).reminder.settings.util,
            final(self).reminder.settings.duration == crate::reminder::settings::DEFAULT_DURATION,
            final(self).reminder.settings.only_bosses,
            final(self).reminder.settings.encounter_start && final(self).reminder.settings.encounter_end,
            final(self).reminder.settings.during_encounter && final(self).reminder.settings.always_mal_dim,
            final(self).reminder.settings.custom@.len() == 4,
            final(self).tracker.players@ == old(self).tracker.players@,
            !final(self).reset_confirm,
    {
        self.tracker.settings = TrackerSettings::new();
        self.reminder.settings = crate::reminder::settings::ReminderSettings::new();
        self.reset_confirm = false;
    }

    /// Handles initialization from unofficial extras.
    pub fn extras_init(&mut self, compatible: bool)
        ensures
            final(self).extras == (if compatible { ExtrasState::Found } else { ExtrasState::Incompatible }),
    {
        self.extras = if compatible { ExtrasState::Found } else { ExtrasState::Incompatible };
    }

    /// Handles a key event, returning `false` if the key was consumed.
    ///
    /// Pressing the tracker hotkey toggles the tracker window.
    pub fn key_event(&mut self, key: usize, down: bool, prev_down: bool) -> (r: bool)
        ensures
            ({
                let hit = down && !prev_down && (old(self).tracker.settings.hotkey matches Some(hotkey) && hotkey as int == key as int);
                &&& r == !hit
                &&& final(self).tracker_visible == (if hit { !old(self).tracker_visible } else { old(self).tracker_visible })
            }),
            *final(self) == (Plugin { tracker_visible: final(self).tracker_visible, ..*old(self) }),
    {
        if down && !prev_down {
            if let Some(hotkey) = self.tracker.settings.hotkey {
                if hotkey as u64 == key as u64 {
                    self.tracker_visible = !self.tracker_visible;
                    return false;
                }
            }
        }
        true
    }

    /// Returns the reminder duration (ms) shown in the settings input, capped at the input's range.
    pub fn duration_input(&self) -> (r: i32)
        ensures
            r == (if self.reminder.settings.duration <= i32::MAX { self.reminder.settings.duration as int } else { i32::MAX as int }),
    {
        if self.reminder.settings.duration <= 0x7fff_ffff {
            self.reminder.settings.duration as i32
        } else {
            0x7fff_ffff
        }
    }

    /// Sets the reminder duration (ms) from the settings input; a negative value counts as zero.
    pub fn set_duration_input(&mut self, value: i32)
        ensures
            final(self).reminder.settings.duration == (if value < 0 { 0 } else { value as u64 }),
            final(self).reminder.settings == (crate::reminder::settings::ReminderSettings {
                duration: final(self).reminder.settings.duration,
                ..old(self).reminder.settings
            }),
            *final(self) == (Plugin {
                reminder: Reminder { settings: final(self).reminder.settings, ..old(self).reminder },
                ..*old(self)
            }),
    {
        self.reminder.settings.duration = if value < 0 { 0 } else { value as u64 };
    }

    /// Returns the tracker hotkey (virtual key code) shown in the settings input; zero for none.
    pub fn hotkey_input(&self) -> (r: i32)
        ensures
            r == (match self.tracker.settings.hotkey {
                Some(key) => if key <= i32::MAX { key as int } else { i32::MAX as int },
                None => 0,
            }),
    {
        match self.tracker.settings.hotkey {
            Some(key) => if key <= 0x7fff_ffff { key as i32 } else { 0x7fff_ffff },
            None => 0,
        }
    }

    /// Sets the tracker hotkey from the settings input; a key code of zero or less removes it.
    pub fn set_hotkey_input(&mut self, value: i32)
        ensures
            final(self).tracker.settings.hotkey == (if value <= 0 { None } else { Some(value as u32) }),
            *final(self) == (Plugin {
                tracker: Tracker {
                    settings: TrackerSettings { hotkey: final(self).tracker.settings.hotkey, ..old(self).tracker.settings },
                    ..old(self).tracker
                },
                ..*old(self)
            }),
    {
        self.tracker.settings.hotkey = if value <= 0 { None } else { Some(value as u32) };
    }
}

} // verus!
