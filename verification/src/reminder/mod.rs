//! Reminder for missing buffs on the local player.

pub mod custom;
pub mod display;
pub mod event;
pub mod settings;

use crate::text::str_eq;
use custom::{CustomReminder, GameMode};
use settings::ReminderSettings;
use std::collections::BTreeMap;
use vstd::prelude::*;

verus! {

broadcast use {vstd::std_specs::btree::group_btree_axioms, vstd::laws_cmp::group_laws_cmp};

/// The first custom reminder for the buff with the given id.
pub open spec fn custom_of(s: Seq<CustomReminder>, id: u32) -> Option<CustomReminder>
    decreases s.len(),
{
    if s.len() == 0 {
        None
    } else if s[0].id == id {
        Some(s[0])
    } else {
        custom_of(s.drop_first(), id)
    }
}

/// Whether a reminder restricted to `mode` applies on the current map.
///
/// Without a known map only reminders for all game modes apply.
pub open spec fn mode_applies(mode: GameMode, map_id: Option<u32>) -> bool {
    match map_id {
        Some(map) => mode.includes(map),
        None => mode == GameMode::All,
    }
}

/// Whether the custom reminder for `id` is triggered by triggering the ids of the first `n` custom reminders.
pub open spec fn triggered_custom(s: Seq<CustomReminder>, n: int, id: u32, map_id: Option<u32>) -> bool {
    &&& exists|k: int| 0 <= k < n && #[trigger] s[k].id == id
    &&& custom_of(s, id) matches Some(r) && mode_applies(r.mode, map_id)
}

/// Whether a trigger at `time` is still displayed at `now`.
pub open spec fn displayed(time: u64, duration: u64, now: u64) -> bool {
    now <= time || now - time <= duration
}

/// Current ongoing encounter.
#[derive(Debug, Clone, Copy, PartialEq, Eq, Structural)]
pub struct Encounter {
    /// Id of the encounter target.
    pub target_id: usize,
    /// Time the encounter started (or target changed).
    pub start_time: u64,
    /// Whether there is a pending check for the encounter.
    pub pending_check: bool,
}

/// Reminders currently displayed.
#[derive(Debug)]
pub struct ActiveReminders {
    /// Whether the food reminder is displayed.
    pub food: bool,
    /// Whether the utility reminder is displayed.
    pub util: bool,
    /// Buff ids of the displayed custom reminders, in ascending order.
    pub custom: Vec<u32>,
}

/// Reminder state.
///
/// Times are milliseconds of a monotonic clock.
#[derive(Debug)]
pub struct Reminder {
    /// Current reminder settings.
    pub settings: ReminderSettings,
    /// Timestamp of food reminder trigger.
    pub food_trigger: Option<u64>,
    /// Timestamp of utility reminder trigger.
    pub util_trigger: Option<u64>,
    /// Timestamps of custom buff reminder triggers.
    pub custom_triggers: BTreeMap<u32, u64>,
    /// Current ongoing encounter.
    pub encounter: Option<Encounter>,
}

impl Reminder {
    /// Default duration (ms) used by the reminder.
    pub const DEFAULT_DURATION: u64 = settings::DEFAULT_DURATION;

    /// Creates a new reminder with the default settings.
    pub fn new() -> (r: Self)
        ensures
            r.food_trigger is None,
            r.util_trigger is None,
            r.custom_triggers@ == Map::<u32, u64>::empty(),
            r.encounter is None,
            r.settings.food && r.settings.util,
            r.settings.duration == settings::DEFAULT_DURATION,
            r.settings.only_bosses && r.settings.encounter_start && r.settings.encounter_end,
            r.settings.during_encounter && r.settings.always_mal_dim,
            r.settings.custom@.len() == 4,
    {
        Self {
            settings: ReminderSettings::new(),
            food_trigger: None,
            util_trigger: None,
            custom_triggers: BTreeMap::new(),
            encounter: None,
        }
    }

    /// Returns the custom reminder for the buff with the given id.
    pub fn custom(&self, buff_id: u32) -> (r: Option<&CustomReminder>)
        ensures
            match r {
                Some(remind) => custom_of(self.settings.custom@, buff_id) == Some(*remind),
                None => custom_of(self.settings.custom@, buff_id) is None,
            },
    {
        let mut i: usize = 0;
        assert(self.settings.custom@.skip(0) == self.settings.custom@);
        while i < self.settings.custom.len()
            invariant
                i <= self.settings.custom.len(),
                custom_of(self.settings.custom@, buff_id) == custom_of(self.settings.custom@.skip(i as int), buff_id),
            decreases self.settings.custom.len() - i,
        {
            if self.settings.custom[i].id == buff_id {
                return Some(&self.settings.custom[i]);
            }
            assert(self.settings.custom@.skip(i as int).drop_first() == self.settings.custom@.skip(i + 1));
            i = i + 1;
        }
        None
    }

    /// Returns all custom reminders.
    pub fn all_custom(&self) -> (r: &[CustomReminder])
        ensures
            r@ == self.settings.custom@,
    {
        self.settings.custom.as_slice()
    }

    /// Triggers the food reminder, if food reminders are enabled.
    pub fn trigger_food(&mut self, now: u64)
        ensures
            final(self).food_trigger == (if old(self).settings.food { Some(now) } else { old(self).food_trigger }),
            final(self).util_trigger == old(self).util_trigger,
            final(self).custom_triggers@ == old(self).custom_triggers@,
            final(self).encounter == old(self).encounter,
            final(self).settings == old(self).settings,
    {
        if self.settings.food {
            self.food_trigger = Some(now);
        }
    }

    /// Triggers the utility reminder, if utility reminders are enabled.
    pub fn trigger_util(&mut self, now: u64)
        ensures
            final(self).util_trigger == (if old(self).settings.util { Some(now) } else { old(self).util_trigger }),
            final(self).food_trigger == old(self).food_trigger,
            final(self).custom_triggers@ == old(self).custom_triggers@,
            final(self).encounter == old(self).encounter,
            final(self).settings == old(self).settings,
    {
        if self.settings.util {
            self.util_trigger = Some(now);
        }
    }

    /// Triggers the custom buff reminder, if there is one for the buff and it applies on the current map.
    ///
    /// `map_id` is the current map, if known.
    pub fn trigger_custom(&mut self, id: u32, now: u64, map_id: Option<u32>)
        ensures
            final(self).custom_triggers@ == (match custom_of(old(self).settings.custom@, id) {
                Some(remind) => if mode_applies(remind.mode, map_id) {
                    old(self).custom_triggers@.insert(remind.id, now)
                } else {
                    old(self).custom_triggers@
                },
                None => old(self).custom_triggers@,
            }),
            final(self).food_trigger == old(self).food_trigger,
            final(self).util_trigger == old(self).util_trigger,
            final(self).encounter == old(self).encounter,
            final(self).settings == old(self).settings,
    {
        let found = match self.custom(id) {
            Some(remind) => {
                let applies = match map_id {
                    Some(map) => remind.mode.is_map(map),
                    None => remind.mode == GameMode::All,
                };
                if applies { Some(remind.id) } else { None }
            },
            None => None,
        };
        if let Some(remind_id) = found {
            self.custom_triggers.insert(remind_id, now);
        }
    }

    /// Triggers all reminders.
    pub fn trigger_all(&mut self, now: u64, map_id: Option<u32>)
        ensures
            final(self).food_trigger == (if old(self).settings.food { Some(now) } else { old(self).food_trigger }),
            final(self).util_trigger == (if old(self).settings.util { Some(now) } else { old(self).util_trigger }),
            final(self).custom_triggers@.dom() == old(self).custom_triggers@.dom() + Set::new(
                |id: u32| triggered_custom(old(self).settings.custom@, old(self).settings.custom@.len() as int, id, map_id)),
            final(self).encounter == old(self).encounter,
            final(self).settings == old(self).settings,
    {
        self.trigger_food(now);
        self.trigger_util(now);
        let mut ids: Vec<u32> = Vec::new();
        let mut i: usize = 0;
        while i < self.settings.custom.len()
            invariant
                i <= self.settings.custom.len(),
                ids@.len() == i,
                forall|k: int| 0 <= k < i ==> ids@[k] == #[trigger] self.settings.custom@[k].id,
            decreases self.settings.custom.len() - i,
        {
            ids.push(self.settings.custom[i].id);
            i = i + 1;
        }
        let ghost start = self.custom_triggers@;
        let ghost all = self.settings.custom@;
        let ghost food = self.food_trigger;
        let ghost settings = self.settings;
        let ghost util = self.util_trigger;
        let ghost encounter = self.encounter;
        let mut j: usize = 0;
        while j < ids.len()
            invariant
                j <= ids.len(),
                ids@.len() == all.len(),
                forall|k: int| 0 <= k < all.len() ==> ids@[k] == #[trigger] all[k].id,
                self.settings.custom@ == all,
                self.custom_triggers@.dom() == start.dom() + Set::new(
                    |id: u32| triggered_custom(all, j as int, id, map_id)),
                self.food_trigger == food,
                self.util_trigger == util,
                self.settings == settings,
                self.encounter == encounter,
            decreases ids.len() - j,
        {
            let ghost before = self.custom_triggers@.dom();
            self.trigger_custom(ids[j], now, map_id);
            proof {
                lemma_custom_of_first(all, ids@[j as int]);
                let target = ids@[j as int];
                assert(all[j as int].id == target);
                assert forall|id: u32| #[trigger] self.custom_triggers@.dom().contains(id) <==>
                    (start.dom().contains(id) || triggered_custom(all, j + 1, id, map_id)) by {
                    if triggered_custom(all, j + 1, id, map_id) && id != target {
                        let k = choose|k: int| 0 <= k < j + 1 && #[trigger] all[k].id == id;
                        assert(k < j);
                        assert(triggered_custom(all, j as int, id, map_id));
                    }
                    if triggered_custom(all, j as int, id, map_id) {
                        let k = choose|k: int| 0 <= k < j && #[trigger] all[k].id == id;
                        assert(0 <= k < j + 1 && all[k].id == id);
                    }
                    if id == target {
                        assert(0 <= j < j + 1 && all[j as int].id == id);
                    }
                }
                assert(self.custom_triggers@.dom() =~= start.dom() + Set::new(
                    |id: u32| triggered_custom(all, j + 1, id, map_id)));
            }
            j = j + 1;
        }
    }
}

/// The first custom reminder for an id belongs to that id and is a reminder of the list.
///
/// It is the reminder at the first position with that id, so for every listed reminder with
/// that id the found reminder has the same mode as the first one.
pub proof fn lemma_custom_of_first(s: Seq<CustomReminder>, id: u32)
    ensures
        custom_of(s, id) is None <==> (forall|i: int| 0 <= i < s.len() ==> #[trigger] s[i].id != id),
        custom_of(s, id) matches Some(r) ==> r.id == id && exists|i: int| 0 <= i < s.len() && s[i] == r
            && forall|k: int| 0 <= k < i ==> #[trigger] s[k].id != id,
    decreases s.len(),
{
    if s.len() > 0 {
        let rest = s.drop_first();
        lemma_custom_of_first(rest, id);
        if s[0].id != id {
            assert forall|i: int| 0 <= i < rest.len() implies rest[i] == s[i + 1] by {}
            if forall|i: int| 0 <= i < rest.len() ==> #[trigger] rest[i].id != id {
                assert forall|i: int| 0 <= i < s.len() implies #[trigger] s[i].id != id by {
                    if i > 0 { assert(rest[i - 1] == s[i]); }
                }
            }
            if let Some(r) = custom_of(rest, id) {
                let i = choose|i: int| 0 <= i < rest.len() && rest[i] == r && forall|k: int| 0 <= k < i ==> #[trigger] rest[k].id != id;
                assert(s[i + 1] == r);
                assert forall|k: int| 0 <= k < i + 1 implies #[trigger] s[k].id != id by {
                    if k > 0 { assert(s[k] == rest[k - 1]); }
                }
            }
        }
    }
}

} // verus!
