//! Which reminders are displayed.

use super::{displayed, ActiveReminders, Reminder};
use std::collections::BTreeMap;
use vstd::prelude::*;
use vstd::std_specs::iter::IteratorSpec;

verus! {

broadcast use {vstd::std_specs::btree::group_btree_axioms, vstd::laws_cmp::group_laws_cmp};

/// The trigger after checking whether it is still displayed at `now`.
pub open spec fn kept_trigger(trigger: Option<u64>, duration: u64, now: u64) -> Option<u64> {
    match trigger {
        Some(time) => if displayed(time, duration, now) { Some(time) } else { None },
        None => None,
    }
}

/// The text of the food & utility reminder.
pub open spec fn spec_reminder_text(food: bool, util: bool) -> Option<Seq<char>> {
    if food && util {
        Some("Food & Utility reminder!"@)
    } else if food {
        Some("Food reminder!"@)
    } else if util {
        Some("Utility reminder!"@)
    } else {
        None
    }
}

/// Returns the text of the food & utility reminder, if any of them is displayed.
pub fn reminder_text(food: bool, util: bool) -> (r: Option<&'static str>)
    ensures
        match r {
            Some(text) => spec_reminder_text(food, util) == Some(text@),
            None => spec_reminder_text(food, util) is None,
        },
{
    if food && util {
        Some("Food & Utility reminder!")
    } else if food {
        Some("Food reminder!")
    } else if util {
        Some("Utility reminder!")
    } else {
        None
    }
}

impl Reminder {
    /// Checks whether a trigger at `time` is still displayed at `now`.
    pub fn is_triggered(time: u64, duration: u64, now: u64) -> (r: bool)
        ensures
            r == displayed(time, duration, now),
    {
        now.saturating_sub(time) <= duration
    }

    /// Checks if a trigger is currently active and resets it if it is no longer displayed.
    pub fn update_trigger(trigger: &mut Option<u64>, duration: u64, now: u64) -> (r: bool)
        ensures
            *final(trigger) == kept_trigger(*old(trigger), duration, now),
            r == (*final(trigger) is Some),
    {
        match *trigger {
            Some(time) => {
                if Self::is_triggered(time, duration, now) {
                    true
                } else {
                    *trigger = None;
                    false
                }
            },
            None => false,
        }
    }

    /// Updates all triggers to the time `now` and returns the reminders to display.
    ///
    /// Triggers that are no longer displayed are reset.
    pub fn update_triggers(&mut self, now: u64) -> (r: ActiveReminders)
        ensures
            final(self).food_trigger == kept_trigger(old(self).food_trigger, old(self).settings.duration, now),
            final(self).util_trigger == kept_trigger(old(self).util_trigger, old(self).settings.duration, now),
            final(self).custom_triggers@ == old(self).custom_triggers@.restrict(
                old(self).custom_triggers@.dom().filter(|id: u32| displayed(old(self).custom_triggers@[id], old(self).settings.duration, now))),
            r.food == (final(self).food_trigger is Some),
            r.util == (final(self).util_trigger is Some),
            r.custom@.to_set() == final(self).custom_triggers@.dom(),
            r.custom@.no_duplicates(),
            final(self).encounter == old(self).encounter,
            final(self).settings == old(self).settings,
    {
        let duration = self.settings.duration;
        let food = Self::update_trigger(&mut self.food_trigger, duration, now);
        let util = Self::update_trigger(&mut self.util_trigger, duration, now);
        let mut kept: BTreeMap<u32, u64> = BTreeMap::new();
        let mut ids: Vec<u32> = Vec::new();
        let ghost all = self.custom_triggers@;
        let ghost pairs = vstd::std_specs::btree::spec_btree_map_iter(&self.custom_triggers).remaining();
        let ghost target = all.restrict(all.dom().filter(|id: u32| displayed(all[id], duration, now)));
        let ghost mut done: int = 0;
        for kv in it: self.custom_triggers.iter()
            invariant
                it.seq() == pairs,
                done == it.index(),
                pairs == vstd::std_specs::btree::spec_btree_map_iter(&self.custom_triggers).remaining(),
                pairs.no_duplicates(),
                all == self.custom_triggers@,
                target == all.restrict(all.dom().filter(|id: u32| displayed(all[id], duration, now))),
                forall|k: u32| #[trigger] kept@.contains_key(k) ==> target.contains_key(k) && kept@[k] == target[k],
                forall|i: int| 0 <= i < done && displayed(*pairs[i].1, duration, now) ==> #[trigger] kept@.contains_key(*pairs[i].0),
                forall|k: u32| kept@.contains_key(k) ==> exists|i: int| 0 <= i < done && #[trigger] pairs[i].0 == &k,
                ids@.to_set() == kept@.dom(),
                ids@.no_duplicates(),
        {
            let (id, time) = kv;
            proof {
                assert(kv == pairs[done]);
                assert(all.contains_key(*pairs[done].0));
                assert(all[*pairs[done].0] == *pairs[done].1);
            }
            if Self::is_triggered(*time, duration, now) {
                proof {
                    if kept@.contains_key(*id) {
                        let i = choose|i: int| 0 <= i < done && #[trigger] pairs[i].0 == id;
                        assert(pairs[i] != pairs[done]);
                        assert(false);
                    }
                }
                let ghost prev = ids@;
                kept.insert(*id, *time);
                ids.push(*id);
                proof {
                    prev.lemma_push_to_set_commute(*id);
                    assert(ids@ == prev.push(*id));
                    assert(!prev.contains(*id));
                }
            }
            proof { done = done + 1; }
        }
        proof {
            assert(done == pairs.len());
            assert forall|k: u32| target.contains_key(k) implies #[trigger] kept@.contains_key(k) by {
                assert(all.contains_key(k));
                assert(pairs.contains((&k, &all[k])));
                let i = choose|i: int| 0 <= i < pairs.len() && pairs[i] == (&k, &all[k]);
                assert(displayed(all[k], duration, now));
                assert(displayed(*pairs[i].1, duration, now));
                assert(kept@.contains_key(*pairs[i].0));
            }
            assert(kept@ =~= target);
        }
        self.custom_triggers = kept;
        ActiveReminders { food, util, custom: ids }
    }
}

} // verus!
