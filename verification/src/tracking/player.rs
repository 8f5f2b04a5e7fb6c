//! Players with their food & utility buffs, identified by known buff kinds.

use crate::arc_util::game::{Profession, Specialization};
use vstd::prelude::*;

verus! {

/// A known food buff, identified by its buff id.
#[derive(Debug, Clone, Copy, PartialEq, Eq, Structural)]
pub struct Food(pub u32);

/// A known utility buff, identified by its buff id.
#[derive(Debug, Clone, Copy, PartialEq, Eq, Structural)]
pub struct Utility(pub u32);

/// Possible states of a buff of a player.
#[derive(Debug, Clone, Copy, PartialEq, Eq, Structural)]
pub enum BuffStatus<T> {
    /// Buff state is not set (yet).
    Unset,
    /// No buff is applied.
    Empty,
    /// A known buff is applied.
    Known(T),
    /// A buff unknown to the definitions is applied, with its buff id.
    Unknown(u32),
}

/// A buff of a player with the id of the event that set it.
#[derive(Debug, Clone, Copy, PartialEq, Eq, Structural)]
pub struct Buff<T> {
    /// Current buff state.
    pub state: BuffStatus<T>,
    /// Id of the event of the last update.
    pub event_id: u64,
}

impl<T> Buff<T> {
    /// The buff after an update with `state` from the event `event_id`.
    ///
    /// Only events later than the last update are accepted.
    pub open spec fn after_update(self, state: BuffStatus<T>, event_id: u64) -> Self {
        if event_id > self.event_id {
            Buff { state, event_id }
        } else {
            self
        }
    }

    /// Creates a new buff.
    pub fn new(state: BuffStatus<T>, event_id: u64) -> (r: Self)
        ensures
            r == (Buff { state, event_id }),
    {
        Self { state, event_id }
    }

    /// Updates the buff.
    ///
    /// Returns `false` if this update was ignored due to out of order.
    pub fn update(&mut self, state: BuffStatus<T>, event_id: u64) -> (changed: bool)
        ensures
            changed == (event_id > old(self).event_id),
            *final(self) == old(self).after_update(state, event_id),
    {
        if event_id > self.event_id {
            self.state = state;
            self.event_id = event_id;
            true
        } else {
            false
        }
    }
}

/// Whether a remove of `removed` applies to the buff state.
///
/// Unset states are always removed, unknown buffs only by an unknown remove,
/// known buffs only by a remove of the same buff.
pub open spec fn status_remove_applies<T>(removed: Option<T>, state: BuffStatus<T>) -> bool {
    match (removed, state) {
        (_, BuffStatus::Unset) => true,
        (None, BuffStatus::Unknown(_)) => true,
        (Some(removed), BuffStatus::Known(applied)) => removed == applied,
        _ => false,
    }
}

/// Struct representing a player.
#[derive(Debug)]
pub struct Player {
    /// Player id given by the game.
    pub id: usize,
    /// Player character name.
    pub character: String,
    /// Player account name.
    pub account: String,
    /// Whether the player is the local player.
    pub is_self: bool,
    /// Profession (class) of the player character.
    pub profession: Profession,
    /// Current elite specialization the player has equipped.
    pub elite: Specialization,
    /// Current squad subgroup the player is in.
    pub subgroup: usize,
    /// Whether the player is currently in combat.
    pub combat: bool,
    /// Current food buff applied to the player.
    pub food: Buff<Food>,
    /// Current utility buff applied to the player.
    pub util: Buff<Utility>,
}

impl Player {
    /// Creates a new player, out of combat and with unset buffs.
    pub fn new(
        id: usize,
        character: &str,
        account: &str,
        is_self: bool,
        profession: Profession,
        elite: Specialization,
        subgroup: usize,
    ) -> (r: Self)
        ensures
            r.id == id,
            r.character@ == character@,
            r.account@ == account@,
            r.is_self == is_self,
            r.profession == profession,
            r.elite == elite,
            r.subgroup == subgroup,
            !r.combat,
            r.food == (Buff::<Food> { state: BuffStatus::Unset, event_id: 0 }),
            r.util == (Buff::<Utility> { state: BuffStatus::Unset, event_id: 0 }),
    {
        Self {
            id,
            character: String::from_str(character),
            account: String::from_str(account),
            is_self,
            profession,
            elite,
            subgroup,
            combat: false,
            food: Buff::new(BuffStatus::Unset, 0),
            util: Buff::new(BuffStatus::Unset, 0),
        }
    }

    /// Sets all unset buffs to none.
    pub fn unset_to_none(&mut self, time: u64)
        ensures
            final(self).food == (if old(self).food.state == BuffStatus::<Food>::Unset {
                old(self).food.after_update(BuffStatus::Empty, time)
            } else {
                old(self).food
            }),
            final(self).util == (if old(self).util.state == BuffStatus::<Utility>::Unset {
                old(self).util.after_update(BuffStatus::Empty, time)
            } else {
                old(self).util
            }),
            *final(self) == (Player { food: final(self).food, util: final(self).util, ..*old(self) }),
    {
        if let BuffStatus::Unset = self.food.state {
            self.food.update(BuffStatus::Empty, time);
        }
        if let BuffStatus::Unset = self.util.state {
            self.util.update(BuffStatus::Empty, time);
        }
    }

    /// Enters the player into combat, moving them to the given subgroup if any.
    pub fn enter_combat(&mut self, new_subgroup: Option<usize>)
        ensures
            final(self).combat,
            final(self).subgroup == (match new_subgroup {
                Some(sub) => sub,
                None => old(self).subgroup,
            }),
            *final(self) == (Player { combat: final(self).combat, subgroup: final(self).subgroup, ..*old(self) }),
    {
        self.combat = true;
        if let Some(sub) = new_subgroup {
            self.subgroup = sub;
        }
    }

    /// Exits the player from combat.
    pub fn exit_combat(&mut self)
        ensures
            *final(self) == (Player { combat: false, ..*old(self) }),
    {
        self.combat = false;
    }

    /// Applies a food buff to the player.
    ///
    /// Returns `true` if this update changed the buff state.
    pub fn apply_food(&mut self, food: Food, event_id: u64) -> (changed: bool)
        ensures
            changed == (event_id > old(self).food.event_id && old(self).food.state != BuffStatus::Known(food)),
            final(self).food == old(self).food.after_update(BuffStatus::Known(food), event_id),
            *final(self) == (Player { food: final(self).food, ..*old(self) }),
    {
        let differs = match self.food.state {
            BuffStatus::Known(applied) => applied != food,
            _ => true,
        };
        let accepted = self.food.update(BuffStatus::Known(food), event_id);
        accepted && differs
    }

    /// Applies an unknown food buff to the player.
    ///
    /// Returns `false` if this update was ignored.
    pub fn apply_unknown_food(&mut self, id: u32, event_id: u64) -> (changed: bool)
        ensures
            changed == (event_id > old(self).food.event_id),
            final(self).food == old(self).food.after_update(BuffStatus::Unknown(id), event_id),
            *final(self) == (Player { food: final(self).food, ..*old(self) }),
    {
        self.food.update(BuffStatus::Unknown(id), event_id)
    }

    /// Removes the current food buff from the player.
    ///
    /// Has no effect if the current buff is different from the passed buff.
    /// Passing [`None`] indicates an unknown buff. Unset buffs are always removed.
    ///
    /// Returns `false` if this update was ignored.
    pub fn remove_food(&mut self, food: Option<Food>, event_id: u64) -> (changed: bool)
        ensures
            changed == (status_remove_applies(food, old(self).food.state) && event_id > old(self).food.event_id),
            final(self).food == (if status_remove_applies(food, old(self).food.state) {
                old(self).food.after_update(BuffStatus::Empty, event_id)
            } else {
                old(self).food
            }),
            *final(self) == (Player { food: final(self).food, ..*old(self) }),
    {
        let applies = match (food, self.food.state) {
            (_, BuffStatus::Unset) | (None, BuffStatus::Unknown(_)) => true,
            (Some(removed), BuffStatus::Known(applied)) => removed == applied,
            _ => false,
        };
        if applies {
            self.food.update(BuffStatus::Empty, event_id)
        } else {
            false
        }
    }

    /// Applies an utility buff to the player.
    ///
    /// Returns `false` if this update was ignored.
    pub fn apply_util(&mut self, util: Utility, event_id: u64) -> (changed: bool)
        ensures
            changed == (event_id > old(self).util.event_id),
            final(self).util == old(self).util.after_update(BuffStatus::Known(util), event_id),
            *final(self) == (Player { util: final(self).util, ..*old(self) }),
    {
        self.util.update(BuffStatus::Known(util), event_id)
    }

    /// Applies an unknown utility buff to the player.
    ///
    /// Returns `false` if this update was ignored.
    pub fn apply_unknown_util(&mut self, id: u32, event_id: u64) -> (changed: bool)
        ensures
            changed == (event_id > old(self).util.event_id),
            final(self).util == old(self).util.after_update(BuffStatus::Unknown(id), event_id),
            *final(self) == (Player { util: final(self).util, ..*old(self) }),
    {
        self.util.update(BuffStatus::Unknown(id), event_id)
    }

    /// Removes the current utility buff from the player.
    ///
    /// Has no effect if the current buff is different from the passed buff.
    /// Passing [`None`] indicates an unknown buff. Unset buffs are always removed.
    ///
    /// Returns `false` if this update was ignored.
    pub fn remove_util(&mut self, util: Option<Utility>, event_id: u64) -> (changed: bool)
        ensures
            changed == (status_remove_applies(util, old(self).util.state) && event_id > old(self).util.event_id),
            final(self).util == (if status_remove_applies(util, old(self).util.state) {
                old(self).util.after_update(BuffStatus::Empty, event_id)
            } else {
                old(self).util
            }),
            *final(self) == (Player { util: final(self).util, ..*old(self) }),
    {
        let applies = match (util, self.util.state) {
            (_, BuffStatus::Unset) | (None, BuffStatus::Unknown(_)) => true,
            (Some(removed), BuffStatus::Known(applied)) => removed == applied,
            _ => false,
        };
        if applies {
            self.util.update(BuffStatus::Empty, event_id)
        } else {
            false
        }
    }
}

impl PartialEq for Player {
    /// Players are equal if their ids are equal.
    fn eq(&self, other: &Self) -> (r: bool) {
        self.id == other.id
    }
}

impl vstd::std_specs::cmp::PartialEqSpecImpl for Player {
    open spec fn obeys_eq_spec() -> bool {
        true
    }

    open spec fn eq_spec(&self, other: &Player) -> bool {
        self.id == other.id
    }
}

impl Eq for Player {}

impl PartialOrd for Player {
    /// Players are ordered by their ids.
    fn partial_cmp(&self, other: &Self) -> (r: Option<core::cmp::Ordering>) {
        if self.id < other.id {
            Some(core::cmp::Ordering::Less)
        } else if self.id == other.id {
            Some(core::cmp::Ordering::Equal)
        } else {
            Some(core::cmp::Ordering::Greater)
        }
    }
}

impl vstd::std_specs::cmp::PartialOrdSpecImpl for Player {
    open spec fn obeys_partial_cmp_spec() -> bool {
        true
    }

    open spec fn partial_cmp_spec(&self, other: &Player) -> Option<core::cmp::Ordering> {
        if self.id < other.id {
            Some(core::cmp::Ordering::Less)
        } else if self.id == other.id {
            Some(core::cmp::Ordering::Equal)
        } else {
            Some(core::cmp::Ordering::Greater)
        }
    }
}

/// A buff takes the state of a later event and ignores an event that is not later.
pub proof fn law_buff_event_order<T>(before: Buff<T>, state: BuffStatus<T>, event_id: u64)
    ensures
        event_id > before.event_id ==> before.after_update(state, event_id) == (Buff { state, event_id }),
        event_id <= before.event_id ==> before.after_update(state, event_id) == before,
        before.after_update(state, event_id).event_id >= before.event_id,
{
}

/// Removing a known buff leaves another known buff in place, and an unknown remove leaves a
/// known buff in place.
pub proof fn law_remove_other_kept<T>(applied: T, removed: Option<T>)
    requires
        removed != Some(applied),
    ensures
        !status_remove_applies(removed, BuffStatus::Known(applied)),
{
}

} // verus!
