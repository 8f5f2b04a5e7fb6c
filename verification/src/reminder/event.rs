//! Reminder event handling.

use super::{custom_of, displayed, mode_applies, Encounter, Reminder, ActiveReminders};
use crate::data::constants::{DIMINISHED, MALNOURISHED, REINFORCED};
use crate::tracking::buff::{custom_or_default, BuffState, Buffs};
use std::collections::BTreeMap;
use vstd::prelude::*;
use vstd::std_specs::iter::IteratorSpec;

verus! {

broadcast use {vstd::std_specs::btree::group_btree_axioms, vstd::laws_cmp::group_laws_cmp};

/// Minimum time (ms) since the encounter start for the pending buff check to trigger.
pub const CHECK_TIME_DIFF: u64 = 250;

/// Whether the food state calls for a reminder: no food or Malnourished.
pub open spec fn food_missing(state: BuffState<u32>) -> bool {
    state is Empty || state == BuffState::Applied(MALNOURISHED)
}

/// Whether the utility state calls for a reminder: no utility or Diminished.
pub open spec fn util_missing(state: BuffState<u32>) -> bool {
    state is Empty || state == BuffState::Applied(DIMINISHED)
}

/// The food trigger after checking the food state `state` of the local player at `now`.
pub open spec fn food_check_result(r: Reminder, state: BuffState<u32>, now: u64) -> Option<u64> {
    if r.can_remind_spec() && food_missing(state) && r.settings.food { Some(now) } else { r.food_trigger }
}

/// The utility trigger after checking the utility state `state` of the local player at `now`.
pub open spec fn util_check_result(r: Reminder, state: BuffState<u32>, now: u64) -> Option<u64> {
    if r.can_remind_spec() && util_missing(state) && r.settings.util { Some(now) } else { r.util_trigger }
}

/// Whether the custom buff reminder for `id` is triggered when triggering all ids in `ids`.
pub open spec fn custom_triggered_by(custom: Seq<super::custom::CustomReminder>, ids: Seq<u32>, id: u32, map_id: Option<u32>) -> bool {
    &&& ids.contains(id)
    &&& custom_of(custom, id) matches Some(r) && mode_applies(r.mode, map_id)
}

/// The ids of custom reminders whose buff is missing.
pub open spec fn missing_custom_ids(custom: Seq<super::custom::CustomReminder>, buffs: Map<u32, crate::tracking::buff::TrackedBuff<()>>) -> Seq<u32> {
    custom.map_values(|r: super::custom::CustomReminder| r.id).filter(|id: u32| custom_or_default(buffs, id).state is Empty)
}

/// Whether the triggers of `after` are those of `before` after checking all reminders
/// on the buffs of the local player, if known.
pub open spec fn all_checked(before: Reminder, after: Reminder, self_buffs: Option<&Buffs>, now: u64, map_id: Option<u32>) -> bool {
    match self_buffs {
        None => {
            &&& after.food_trigger == before.food_trigger
            &&& after.util_trigger == before.util_trigger
            &&& after.custom_triggers@ == before.custom_triggers@
        },
        Some(buffs) => {
            &&& after.food_trigger == (if before.can_remind_spec() && food_missing(buffs.food.state) && before.settings.food {
                Some(now)
            } else {
                before.food_trigger
            })
            &&& after.util_trigger == (if before.can_remind_spec() && util_missing(buffs.util.state) && before.settings.util {
                Some(now)
            } else {
                before.util_trigger
            })
            &&& after.custom_triggers@.dom() == before.custom_triggers@.dom() + Set::new(
                |id: u32| before.can_remind_spec() && custom_triggered_by(before.settings.custom@,
                    missing_custom_ids(before.settings.custom@, buffs.custom@), id, map_id))
            &&& forall|id: u32| #[trigger] after.custom_triggers@.contains_key(id) ==> after.custom_triggers@[id] == (
                if before.can_remind_spec() && custom_triggered_by(before.settings.custom@,
                    missing_custom_ids(before.settings.custom@, buffs.custom@), id, map_id) { now } else { before.custom_triggers@[id] })
        },
    }
}

/// Whether the custom triggers of `after` are those of `before` after checking the custom reminders.
pub open spec fn all_checked_custom(before: Reminder, after: Reminder, buffs: &Buffs, now: u64, map_id: Option<u32>) -> bool {
    &&& after.custom_triggers@.dom() == before.custom_triggers@.dom() + Set::new(
        |id: u32| before.can_remind_spec() && custom_triggered_by(before.settings.custom@,
            missing_custom_ids(before.settings.custom@, buffs.custom@), id, map_id))
    &&& forall|id: u32| #[trigger] after.custom_triggers@.contains_key(id) ==> after.custom_triggers@[id] == (
        if before.can_remind_spec() && custom_triggered_by(before.settings.custom@,
            missing_custom_ids(before.settings.custom@, buffs.custom@), id, map_id) { now } else { before.custom_triggers@[id] })
}

/// Whether `after` is `before` after updating the pending check with an event at `time`.
///
/// The check is due at the first event at least 250 ms after the encounter start; then all
/// reminders are checked once.
pub open spec fn pending_check_updated(
    before: Reminder,
    after: Reminder,
    self_buffs: Option<&Buffs>,
    time: u64,
    now: u64,
    map_id: Option<u32>,
) -> bool {
    let due = before.encounter matches Some(e) && e.pending_check && e.start_time + CHECK_TIME_DIFF <= time;
    &&& due ==> all_checked(before, after, self_buffs, now, map_id)
        && after.encounter == Some(Encounter { pending_check: false, ..before.encounter.unwrap() })
    &&& !due ==> same_triggers(before, after) && after.encounter == before.encounter
    &&& after.settings == before.settings
}

/// Whether the triggers of `after` are the same as those of `before`.
pub open spec fn same_triggers(before: Reminder, after: Reminder) -> bool {
    &&& after.food_trigger == before.food_trigger
    &&& after.util_trigger == before.util_trigger
    &&& after.custom_triggers@ == before.custom_triggers@
}

impl Reminder {
    /// Whether reminders can be triggered: during an encounter, with a boss target if restricted to bosses.
    pub open spec fn can_remind_spec(&self) -> bool {
        match self.encounter {
            Some(encounter) => !self.settings.only_bosses || encounter.target_id > 1,
            None => false,
        }
    }

    /// Returns the current encounter target id.
    pub fn current_encounter(&self) -> (r: Option<usize>)
        ensures
            r == (match self.encounter {
                Some(encounter) => Some(encounter.target_id),
                None => None,
            }),
    {
        match &self.encounter {
            Some(encounter) => Some(encounter.target_id),
            None => None,
        }
    }

    /// Handles encounter start.
    ///
    /// A buff check is pending if reminders on encounter start are enabled.
    pub fn start_encounter(&mut self, target_id: usize, start_time: u64)
        ensures
            final(self).encounter == Some(Encounter { target_id, start_time, pending_check: old(self).settings.encounter_start }),
            final(self).settings == old(self).settings,
            final(self).food_trigger == old(self).food_trigger,
            final(self).util_trigger == old(self).util_trigger,
            final(self).custom_triggers@ == old(self).custom_triggers@,
    {
        self.encounter = Some(Encounter { target_id, start_time, pending_check: self.settings.encounter_start });
    }

    /// Handles encounter target change.
    ///
    /// Only the target changes during an encounter, otherwise a new encounter starts.
    pub fn change_encounter(&mut self, target_id: usize, time: u64)
        ensures
            final(self).encounter == (match old(self).encounter {
                Some(encounter) => Some(Encounter { target_id, ..encounter }),
                None => Some(Encounter { target_id, start_time: time, pending_check: old(self).settings.encounter_start }),
            }),
            final(self).settings == old(self).settings,
            final(self).food_trigger == old(self).food_trigger,
            final(self).util_trigger == old(self).util_trigger,
            final(self).custom_triggers@ == old(self).custom_triggers@,
    {
        match self.encounter {
            Some(encounter) => {
                self.encounter = Some(Encounter { target_id, ..encounter });
            },
            None => self.start_encounter(target_id, time),
        }
    }

    /// Whether reminders can be triggered.
    pub fn can_remind(&self) -> (r: bool)
        ensures
            r == self.can_remind_spec(),
    {
        match &self.encounter {
            Some(encounter) => !self.settings.only_bosses || encounter.target_id > 1,
            None => false,
        }
    }

    /// Checks for missing food buff.
    pub fn check_food(&mut self, buffs: &Buffs, now: u64)
        ensures
            final(self).food_trigger == food_check_result(*old(self), buffs.food.state, now),
            final(self).util_trigger == old(self).util_trigger,
            final(self).custom_triggers@ == old(self).custom_triggers@,
            final(self).encounter == old(self).encounter,
            final(self).settings == old(self).settings,
    {
        if self.can_remind() {
            let missing = match buffs.food.state {
                BuffState::Empty => true,
                BuffState::Applied(id) => id == MALNOURISHED,
                BuffState::Unknown => false,
            };
            if missing {
                self.trigger_food(now);
            }
        }
    }

    /// Checks for missing utility buff.
    pub fn check_util(&mut self, buffs: &Buffs, now: u64)
        ensures
            final(self).util_trigger == util_check_result(*old(self), buffs.util.state, now),
            final(self).food_trigger == old(self).food_trigger,
            final(self).custom_triggers@ == old(self).custom_triggers@,
            final(self).encounter == old(self).encounter,
            final(self).settings == old(self).settings,
    {
        if self.can_remind() {
            let missing = match buffs.util.state {
                BuffState::Empty => true,
                BuffState::Applied(id) => id == DIMINISHED,
                BuffState::Unknown => false,
            };
            if missing {
                self.trigger_util(now);
            }
        }
    }

    /// Triggers the custom reminders for all given buff ids.
    fn trigger_customs(&mut self, ids: &Vec<u32>, now: u64, map_id: Option<u32>)
        ensures
            final(self).custom_triggers@.dom() == old(self).custom_triggers@.dom() + Set::new(
                |id: u32| custom_triggered_by(old(self).settings.custom@, ids@, id, map_id)),
            forall|id: u32| #[trigger] final(self).custom_triggers@.contains_key(id) ==> final(self).custom_triggers@[id] == (
                if custom_triggered_by(old(self).settings.custom@, ids@, id, map_id) { now } else { old(self).custom_triggers@[id] }),
            final(self).food_trigger == old(self).food_trigger,
            final(self).util_trigger == old(self).util_trigger,
            final(self).encounter == old(self).encounter,
            final(self).settings == old(self).settings,
    {
        let ghost start = self.custom_triggers@;
        let ghost settings = self.settings;
        let ghost food = self.food_trigger;
        let ghost util = self.util_trigger;
        let ghost encounter = self.encounter;
        let mut j: usize = 0;
        while j < ids.len()
            invariant
                j <= ids.len(),
                self.settings == settings,
                self.food_trigger == food,
                self.util_trigger == util,
                self.encounter == encounter,
                self.custom_triggers@.dom() == start.dom() + Set::new(
                    |id: u32| custom_triggered_by(settings.custom@, ids@.take(j as int), id, map_id)),
                forall|id: u32| #[trigger] self.custom_triggers@.contains_key(id) ==> self.custom_triggers@[id] == (
                    if custom_triggered_by(settings.custom@, ids@.take(j as int), id, map_id) { now } else { start[id] }),
            decreases ids.len() - j,
        {
            let target = ids[j];
            self.trigger_custom(target, now, map_id);
            proof {
                super::lemma_custom_of_first(settings.custom@, target);
                let prev = ids@.take(j as int);
                let next = ids@.take(j + 1);
                assert(next == prev.push(target));
                assert forall|id: u32| next.contains(id) <==> (prev.contains(id) || id == target) by {
                    if next.contains(id) && id != target {
                        let k = choose|k: int| 0 <= k < next.len() && next[k] == id;
                        assert(prev[k] == id);
                    }
                    if prev.contains(id) {
                        let k = choose|k: int| 0 <= k < prev.len() && prev[k] == id;
                        assert(next[k] == id);
                    }
                    if id == target { assert(next[j as int] == id); }
                }
                assert(self.custom_triggers@.dom() =~= start.dom() + Set::new(
                    |id: u32| custom_triggered_by(settings.custom@, next, id, map_id)));
            }
            j = j + 1;
        }
        proof { assert(ids@.take(ids.len() as int) == ids@); }
    }

    /// Checks for missing custom buffs.
    pub fn check_custom(&mut self, buffs: &Buffs, now: u64, map_id: Option<u32>)
        ensures
            final(self).custom_triggers@.dom() == old(self).custom_triggers@.dom() + Set::new(
                |id: u32| old(self).can_remind_spec() && custom_triggered_by(old(self).settings.custom@,
                    missing_custom_ids(old(self).settings.custom@, buffs.custom@), id, map_id)),
            forall|id: u32| #[trigger] final(self).custom_triggers@.contains_key(id) ==> final(self).custom_triggers@[id] == (
                if old(self).can_remind_spec() && custom_triggered_by(old(self).settings.custom@,
                    missing_custom_ids(old(self).settings.custom@, buffs.custom@), id, map_id) { now } else { old(self).custom_triggers@[id] }),
            final(self).food_trigger == old(self).food_trigger,
            final(self).util_trigger == old(self).util_trigger,
            final(self).encounter == old(self).encounter,
            final(self).settings == old(self).settings,
    {
        if self.can_remind() {
            let mut ids: Vec<u32> = Vec::new();
            let ghost all = self.settings.custom@;
            let ghost custom_ids = all.map_values(|r: super::custom::CustomReminder| r.id);
            let ghost pred = |id: u32| custom_or_default(buffs.custom@, id).state is Empty;
            let mut i: usize = 0;
            while i < self.settings.custom.len()
                invariant
                    i <= self.settings.custom.len(),
                    self.settings.custom@ == all,
                    custom_ids == all.map_values(|r: super::custom::CustomReminder| r.id),
                    pred == (|id: u32| custom_or_default(buffs.custom@, id).state is Empty),
                    ids@ == custom_ids.take(i as int).filter(pred),
                decreases self.settings.custom.len() - i,
            {
                let id = self.settings.custom[i].id;
                proof {
                    reveal_with_fuel(Seq::<_>::filter, 1);
                    assert(custom_ids.take(i + 1).drop_last() == custom_ids.take(i as int));
                    assert(custom_ids.take(i + 1).last() == id);
                }
                if let BuffState::Empty = buffs.custom_state(id) {
                    ids.push(id);
                }
                i = i + 1;
            }
            proof { assert(custom_ids.take(all.len() as int) == custom_ids); }
            self.trigger_customs(&ids, now, map_id);
        } else {
            proof {
                assert(old(self).custom_triggers@.dom() + Set::new(
                    |id: u32| old(self).can_remind_spec() && custom_triggered_by(old(self).settings.custom@,
                        missing_custom_ids(old(self).settings.custom@, buffs.custom@), id, map_id)) =~= self.custom_triggers@.dom());
            }
        }
    }

    /// Performs a check for all reminders on the buffs of the local player.
    pub fn check_self_all(&mut self, self_buffs: Option<&Buffs>, now: u64, map_id: Option<u32>)
        ensures
            all_checked(*old(self), *final(self), self_buffs, now, map_id),
            final(self).encounter == old(self).encounter,
            final(self).settings == old(self).settings,
    {
        if let Some(buffs) = self_buffs {
            self.check_food(buffs, now);
            self.check_util(buffs, now);
            self.check_custom(buffs, now, map_id);
        }
    }

    /// Handles encounter end.
    ///
    /// All reminders are checked first if reminders on encounter end are enabled.
    pub fn end_encounter(&mut self, self_buffs: Option<&Buffs>, now: u64, map_id: Option<u32>)
        ensures
            old(self).settings.encounter_end ==> all_checked(*old(self), *final(self), self_buffs, now, map_id),
            !old(self).settings.encounter_end ==> same_triggers(*old(self), *final(self)),
            final(self).encounter is None,
            final(self).settings == old(self).settings,
    {
        if self.settings.encounter_end {
            self.check_self_all(self_buffs, now, map_id);
        }
        self.encounter = None;
    }

    /// Updates the pending buff check.
    ///
    /// The check happens once, at the first event at least 250 ms after the encounter start.
    pub fn update_pending_check(&mut self, self_buffs: Option<&Buffs>, time: u64, now: u64, map_id: Option<u32>)
        ensures
            pending_check_updated(*old(self), *final(self), self_buffs, time, now, map_id),
    {
        let due = match &self.encounter {
            Some(encounter) => encounter.pending_check && time >= encounter.start_time
                && time - encounter.start_time >= CHECK_TIME_DIFF,
            None => false,
        };
        if due {
            let encounter = self.encounter.unwrap();
            self.check_self_all(self_buffs, now, map_id);
            self.encounter = Some(Encounter { pending_check: false, ..encounter });
        }
    }

    /// Handles a buff apply to the local player.
    ///
    /// Becoming Malnourished or Diminished always reminds if enabled.
    pub fn self_buff_apply(&mut self, buff_id: u32, now: u64)
        ensures
            final(self).food_trigger == (if old(self).settings.always_mal_dim && buff_id == MALNOURISHED && old(self).settings.food {
                Some(now)
            } else {
                old(self).food_trigger
            }),
            final(self).util_trigger == (if old(self).settings.always_mal_dim && buff_id == DIMINISHED && old(self).settings.util {
                Some(now)
            } else {
                old(self).util_trigger
            }),
            final(self).custom_triggers@ == old(self).custom_triggers@,
            final(self).encounter == old(self).encounter,
            final(self).settings == old(self).settings,
    {
        if self.settings.always_mal_dim {
            if buff_id == MALNOURISHED {
                self.trigger_food(now);
            } else if buff_id == DIMINISHED {
                self.trigger_util(now);
            }
        }
    }

    /// Handles a food remove from the local player.
    pub fn self_food_remove(&mut self, buffs: &Buffs, now: u64)
        ensures
            final(self).food_trigger == (if old(self).settings.during_encounter && old(self).can_remind_spec()
                && food_missing(buffs.food.state) && old(self).settings.food {
                Some(now)
            } else {
                old(self).food_trigger
            }),
            final(self).util_trigger == old(self).util_trigger,
            final(self).custom_triggers@ == old(self).custom_triggers@,
            final(self).encounter == old(self).encounter,
            final(self).settings == old(self).settings,
    {
        if self.settings.during_encounter {
            self.check_food(buffs, now);
        }
    }

    /// Handles an utility remove from the local player.
    pub fn self_util_remove(&mut self, buffs: &Buffs, now: u64)
        ensures
            final(self).util_trigger == (if old(self).settings.during_encounter && old(self).can_remind_spec()
                && util_missing(buffs.util.state) && old(self).settings.util {
                Some(now)
            } else {
                old(self).util_trigger
            }),
            final(self).food_trigger == old(self).food_trigger,
            final(self).custom_triggers@ == old(self).custom_triggers@,
            final(self).encounter == old(self).encounter,
            final(self).settings == old(self).settings,
    {
        if self.settings.during_encounter {
            self.check_util(buffs, now);
        }
    }

    /// Handles a custom buff remove from the local player.
    pub fn self_custom_remove(&mut self, buffs: &Buffs, now: u64, map_id: Option<u32>)
        ensures
            old(self).settings.during_encounter ==> all_checked_custom(*old(self), *final(self), buffs, now, map_id),
            !old(self).settings.during_encounter ==> final(self).custom_triggers@ == old(self).custom_triggers@,
            final(self).food_trigger == old(self).food_trigger,
            final(self).util_trigger == old(self).util_trigger,
            final(self).encounter == old(self).encounter,
            final(self).settings == old(self).settings,
    {
        if self.settings.during_encounter {
            self.check_custom(buffs, now, map_id);
        }
    }

    /// Handles a Reinforced Armor remove from the local player.
    pub fn self_reinf_remove(&mut self, buffs: &Buffs, now: u64, map_id: Option<u32>)
        ensures
            final(self).custom_triggers@ == (if old(self).settings.during_encounter && old(self).can_remind_spec()
                && custom_or_default(buffs.custom@, REINFORCED).state is Empty {
                match custom_of(old(self).settings.custom@, REINFORCED) {
                    Some(remind) => if mode_applies(remind.mode, map_id) {
                        old(self).custom_triggers@.insert(remind.id, now)
                    } else {
                        old(self).custom_triggers@
                    },
                    None => old(self).custom_triggers@,
                }
            } else {
                old(self).custom_triggers@
            }),
            final(self).food_trigger == old(self).food_trigger,
            final(self).util_trigger == old(self).util_trigger,
            final(self).encounter == old(self).encounter,
            final(self).settings == old(self).settings,
    {
        if self.settings.during_encounter {
            self.check_reinforced(buffs, now, map_id);
        }
    }

    /// Checks for a missing Reinforced Armor buff.
    pub fn check_reinforced(&mut self, buffs: &Buffs, now: u64, map_id: Option<u32>)
        ensures
            final(self).custom_triggers@ == (if old(self).can_remind_spec()
                && custom_or_default(buffs.custom@, REINFORCED).state is Empty {
                match custom_of(old(self).settings.custom@, REINFORCED) {
                    Some(remind) => if mode_applies(remind.mode, map_id) {
                        old(self).custom_triggers@.insert(remind.id, now)
                    } else {
                        old(self).custom_triggers@
                    },
                    None => old(self).custom_triggers@,
                }
            } else {
                old(self).custom_triggers@
            }),
            final(self).food_trigger == old(self).food_trigger,
            final(self).util_trigger == old(self).util_trigger,
            final(self).encounter == old(self).encounter,
            final(self).settings == old(self).settings,
    {
        if self.can_remind() {
            if let BuffState::Empty = buffs.custom_state(REINFORCED) {
                self.trigger_custom(REINFORCED, now, map_id);
            }
        }
    }
}

/// Outside of an encounter, checking all reminders triggers none of them.
pub proof fn law_no_reminder_outside_encounter(
    before: Reminder,
    after: Reminder,
    self_buffs: Option<&Buffs>,
    now: u64,
    map_id: Option<u32>,
)
    requires
        before.encounter is None,
        all_checked(before, after, self_buffs, now, map_id),
    ensures
        same_triggers(before, after),
{
    assert(!before.can_remind_spec());
    assert(after.custom_triggers@ =~= before.custom_triggers@);
}

/// The pending check of an encounter happens at most once: once it was due, a later update
/// triggers no reminder and keeps the encounter.
pub proof fn law_pending_check_once(
    first: Reminder,
    second: Reminder,
    third: Reminder,
    buffs: Option<&Buffs>,
    later_buffs: Option<&Buffs>,
    time: u64,
    later_time: u64,
    now: u64,
    later_now: u64,
    map_id: Option<u32>,
)
    requires
        first.encounter matches Some(e) && e.pending_check && e.start_time + CHECK_TIME_DIFF <= time,
        pending_check_updated(first, second, buffs, time, now, map_id),
        pending_check_updated(second, third, later_buffs, later_time, later_now, map_id),
    ensures
        same_triggers(second, third),
        third.encounter == second.encounter,
{
}

/// Checking the food of the local player during an encounter that can remind, with food
/// reminders on, reminds exactly when no food or Malnourished (46587) is applied; an unknown
/// state or any other food leaves the trigger as it was.
pub proof fn law_food_check(r: Reminder, state: BuffState<u32>, now: u64)
    requires
        r.can_remind_spec(),
        r.settings.food,
    ensures
        state is Empty ==> food_check_result(r, state, now) == Some(now),
        state == BuffState::Applied(46587u32) ==> food_check_result(r, state, now) == Some(now),
        state is Unknown ==> food_check_result(r, state, now) == r.food_trigger,
        (state matches BuffState::Applied(id) && id != 46587) ==> food_check_result(r, state, now) == r.food_trigger,
{
}

/// Checking the utility of the local player during an encounter that can remind, with utility
/// reminders on, reminds exactly when no utility or Diminished (46668) is applied; an unknown
/// state or any other utility leaves the trigger as it was.
pub proof fn law_util_check(r: Reminder, state: BuffState<u32>, now: u64)
    requires
        r.can_remind_spec(),
        r.settings.util,
    ensures
        state is Empty ==> util_check_result(r, state, now) == Some(now),
        state == BuffState::Applied(46668u32) ==> util_check_result(r, state, now) == Some(now),
        state is Unknown ==> util_check_result(r, state, now) == r.util_trigger,
        (state matches BuffState::Applied(id) && id != 46668) ==> util_check_result(r, state, now) == r.util_trigger,
{
}

/// Checking all reminders, as on encounter start or end, reminds of Malnourished and Diminished
/// like of missing food and utility, when reminders can be given and are on.
pub proof fn law_all_checked_mal_dim(before: Reminder, after: Reminder, buffs: &Buffs, now: u64, map_id: Option<u32>)
    requires
        all_checked(before, after, Some(buffs), now, map_id),
        before.can_remind_spec(),
    ensures
        before.settings.food && (buffs.food.state is Empty || buffs.food.state == BuffState::Applied(46587u32))
            ==> after.food_trigger == Some(now),
        before.settings.util && (buffs.util.state is Empty || buffs.util.state == BuffState::Applied(46668u32))
            ==> after.util_trigger == Some(now),
{
}

} // verus!
