//! Tracker entries with food, utility and Reinforced Armor buffs.

use super::buff::{remove_applies, BuffState, TrackedBuff};
use super::squad::SquadPlayer;
use vstd::prelude::*;

verus! {

/// A tracker entry: a player with their food, utility and Reinforced Armor buffs.
#[derive(Debug)]
pub struct Entry {
    /// Player this entry corresponds to.
    pub player: SquadPlayer,
    /// Current food buff applied to the player.
    pub food: TrackedBuff<u32>,
    /// Current utility buff applied to the player.
    pub util: TrackedBuff<u32>,
    /// Whether the Reinforced Armor buff is applied to the player.
    pub reinf: TrackedBuff<()>,
}

impl Entry {
    /// Creates a new entry with unknown buff states.
    pub fn new(player: SquadPlayer) -> (r: Self)
        ensures
            r.player == player,
            r.food == (TrackedBuff::<u32> { state: BuffState::Unknown, time: 0 }),
            r.util == (TrackedBuff::<u32> { state: BuffState::Unknown, time: 0 }),
            r.reinf == (TrackedBuff::<()> { state: BuffState::Unknown, time: 0 }),
    {
        Self::with_states(player, BuffState::Unknown, BuffState::Unknown, BuffState::Unknown)
    }

    /// Creates a new entry with the given buff states.
    pub fn with_states(player: SquadPlayer, food: BuffState<u32>, util: BuffState<u32>, reinf: BuffState<()>) -> (r: Self)
        ensures
            r.player == player,
            r.food == (TrackedBuff { state: food, time: 0 }),
            r.util == (TrackedBuff { state: util, time: 0 }),
            r.reinf == (TrackedBuff { state: reinf, time: 0 }),
    {
        Self::with_buffs(player, TrackedBuff::new(food), TrackedBuff::new(util), TrackedBuff::new(reinf))
    }

    /// Creates a new entry with the given tracked buffs.
    pub fn with_buffs(player: SquadPlayer, food: TrackedBuff<u32>, util: TrackedBuff<u32>, reinf: TrackedBuff<()>) -> (r: Self)
        ensures
            r == (Entry { player, food, util, reinf }),
    {
        Self { player, food, util, reinf }
    }

    /// Resets all buffs.
    pub fn reset_buffs(&mut self)
        ensures
            final(self).player == old(self).player,
            final(self).food == (TrackedBuff::<u32> { state: BuffState::Unknown, time: 0 }),
            final(self).util == (TrackedBuff::<u32> { state: BuffState::Unknown, time: 0 }),
            final(self).reinf == (TrackedBuff::<()> { state: BuffState::Unknown, time: 0 }),
    {
        self.food = TrackedBuff::default();
        self.util = TrackedBuff::default();
        self.reinf = TrackedBuff::default();
    }

    /// Sets all buffs to none at `time`.
    pub fn buffs_to_none(&mut self, time: u64)
        ensures
            final(self).player == old(self).player,
            final(self).food == old(self).food.after_update(BuffState::Empty, time, false),
            final(self).util == old(self).util.after_update(BuffState::Empty, time, false),
            final(self).reinf == old(self).reinf.after_update(BuffState::Empty, time, false),
    {
        self.food.update(BuffState::Empty, time, false);
        self.util.update(BuffState::Empty, time, false);
        self.reinf.update(BuffState::Empty, time, false);
    }

    /// Applies a food buff to the player.
    ///
    /// Returns `true` if this update changed the buff state.
    pub fn apply_food(&mut self, food: u32, time: u64) -> (changed: bool)
        ensures
            changed == (old(self).food.accepts(time, true) && old(self).food.state != BuffState::Applied(food)),
            *final(self) == (Entry { food: old(self).food.after_update(BuffState::Applied(food), time, true), ..*old(self) }),
    {
        let differs = match self.food.state {
            BuffState::Applied(applied) => applied != food,
            _ => true,
        };
        let accepted = self.food.update(BuffState::Applied(food), time, true);
        accepted && differs
    }

    /// Removes the current food buff from the player.
    ///
    /// Has no effect if the current buff is different from the passed buff.
    /// Returns `false` if this update was ignored.
    pub fn remove_food(&mut self, food: u32, time: u64) -> (changed: bool)
        ensures
            changed == (remove_applies(old(self).food.state, food) && old(self).food.accepts(time, false)),
            *final(self) == (Entry {
                food: if remove_applies(old(self).food.state, food) {
                    old(self).food.after_update(BuffState::Empty, time, false)
                } else {
                    old(self).food
                },
                ..*old(self)
            }),
    {
        let applies = match self.food.state {
            BuffState::Applied(applied) => food == applied,
            _ => true,
        };
        if applies {
            self.food.update(BuffState::Empty, time, false)
        } else {
            false
        }
    }

    /// Applies an utility buff to the player.
    ///
    /// Returns `false` if this update was ignored.
    pub fn apply_util(&mut self, util: u32, time: u64) -> (changed: bool)
        ensures
            changed == old(self).util.accepts(time, true),
            *final(self) == (Entry { util: old(self).util.after_update(BuffState::Applied(util), time, true), ..*old(self) }),
    {
        self.util.update(BuffState::Applied(util), time, true)
    }

    /// Removes the current utility buff from the player.
    ///
    /// Has no effect if the current buff is different from the passed buff.
    /// Returns `false` if this update was ignored.
    pub fn remove_util(&mut self, util: u32, time: u64) -> (changed: bool)
        ensures
            changed == (remove_applies(old(self).util.state, util) && old(self).util.accepts(time, false)),
            *final(self) == (Entry {
                util: if remove_applies(old(self).util.state, util) {
                    old(self).util.after_update(BuffState::Empty, time, false)
                } else {
                    old(self).util
                },
                ..*old(self)
            }),
    {
        let applies = match self.util.state {
            BuffState::Applied(applied) => util == applied,
            _ => true,
        };
        if applies {
            self.util.update(BuffState::Empty, time, false)
        } else {
            false
        }
    }

    /// Applies the Reinforced Armor buff to the player.
    ///
    /// Returns `false` if this update was ignored.
    pub fn apply_reinf(&mut self, time: u64) -> (changed: bool)
        ensures
            changed == old(self).reinf.accepts(time, true),
            *final(self) == (Entry { reinf: old(self).reinf.after_update(BuffState::Applied(()), time, true), ..*old(self) }),
    {
        self.reinf.update(BuffState::Applied(()), time, true)
    }

    /// Removes the Reinforced Armor buff from the player.
    ///
    /// Returns `false` if this update was ignored.
    pub fn remove_reinf(&mut self, time: u64) -> (changed: bool)
        ensures
            changed == old(self).reinf.accepts(time, false),
            *final(self) == (Entry { reinf: old(self).reinf.after_update(BuffState::Empty, time, false), ..*old(self) }),
    {
        self.reinf.update(BuffState::Empty, time, false)
    }
}

impl From<SquadPlayer> for Entry {
    fn from(player: SquadPlayer) -> (r: Self) {
        Self::new(player)
    }
}

impl vstd::std_specs::convert::FromSpecImpl<SquadPlayer> for Entry {
    open spec fn obeys_from_spec() -> bool {
        true
    }

    open spec fn from_spec(player: SquadPlayer) -> Entry {
        Entry {
            player,
            food: TrackedBuff { state: BuffState::Unknown, time: 0 },
            util: TrackedBuff { state: BuffState::Unknown, time: 0 },
            reinf: TrackedBuff { state: BuffState::Unknown, time: 0 },
        }
    }
}

} // verus!
