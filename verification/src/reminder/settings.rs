use super::custom::CustomReminder;
use crate::data::constants::REINFORCED;
use vstd::prelude::*;

verus! {

/// Default duration (ms) of the reminder display.
pub const DEFAULT_DURATION: u64 = 5000;

/// Settings of the reminder.
///
/// The vertical position of the display is a float and kept by the UI.
#[derive(Debug)]
pub struct ReminderSettings {
    /// Whether to remind for food.
    pub food: bool,
    /// Whether to remind for utility.
    pub util: bool,
    /// User-defined custom reminders for buffs.
    pub custom: Vec<CustomReminder>,
    /// Duration (ms) of the reminder display.
    pub duration: u64,
    /// Whether to remind only for boss encounters.
    pub only_bosses: bool,
    /// Whether to remind on encounter start.
    pub encounter_start: bool,
    /// Whether to remind on encounter end.
    pub encounter_end: bool,
    /// Whether to remind during an encounter.
    pub during_encounter: bool,
    /// Whether to always remind when becoming malnourished/diminished.
    pub always_mal_dim: bool,
}

impl ReminderSettings {
    /// Creates new reminder settings with the defaults.
    pub fn new() -> (r: Self)
        ensures
            r.food && r.util,
            r.custom@.len() == 4 && r.custom@[0].id == REINFORCED,
            r.custom@[1].id == 32473 && r.custom@[2].id == 32134 && r.custom@[3].id == 33024,
            r.duration == DEFAULT_DURATION,
            r.only_bosses && r.encounter_start && r.encounter_end,
            r.during_encounter && r.always_mal_dim,
    {
        Self {
            food: true,
            util: true,
            custom: CustomReminder::defaults(),
            duration: DEFAULT_DURATION,
            only_bosses: true,
            encounter_start: true,
            encounter_end: true,
            during_encounter: true,
            always_mal_dim: true,
        }
    }
}

impl Default for ReminderSettings {
    fn default() -> (r: Self)
        ensures
            r.food && r.util,
            r.custom@.len() == 4 && r.custom@[0].id == REINFORCED,
            r.duration == DEFAULT_DURATION,
            r.only_bosses && r.encounter_start && r.encounter_end,
            r.during_encounter && r.always_mal_dim,
    {
        Self::new()
    }
}

} // verus!
