use crate::data::constants::{fractal_maps, is_fractal_map, is_raid_map, raid_maps, REINFORCED};
use vstd::prelude::*;

verus! {

/// Game mode.
#[derive(Debug, Clone, Copy, PartialEq, Eq, Structural)]
pub enum GameMode {
    All,
    Raid,
    Fractal,
}

impl Default for GameMode {
    fn default() -> (r: Self)
        ensures
            r == GameMode::All,
    {
        GameMode::All
    }
}

impl GameMode {
    /// Whether the game mode includes the map id.
    pub open spec fn includes(self, map_id: u32) -> bool {
        match self {
            GameMode::All => true,
            GameMode::Raid => raid_maps().contains(map_id),
            GameMode::Fractal => fractal_maps().contains(map_id),
        }
    }

    /// Checks whether the [`GameMode`] includes the map id.
    pub fn is_map(&self, map_id: u32) -> (r: bool)
        ensures
            r == self.includes(map_id),
    {
        match self {
            GameMode::All => true,
            GameMode::Raid => is_raid_map(map_id),
            GameMode::Fractal => is_fractal_map(map_id),
        }
    }
}

/// Custom buff to remind for.
#[derive(Debug)]
pub struct CustomReminder {
    /// Id of the buff.
    pub id: u32,
    /// Name of the reminder (usually buff name).
    pub name: String,
    /// [`GameMode`] this reminder is restricted to.
    pub mode: GameMode,
}

impl CustomReminder {
    /// Creates a new custom reminder.
    pub fn new(id: u32, name: &str, mode: GameMode) -> (r: Self)
        ensures
            r.id == id,
            r.name@ == name@,
            r.mode == mode,
    {
        Self { id, name: String::from_str(name), mode }
    }

    /// Returns the name displayed for the reminder.
    pub fn display_name(&self) -> (r: &str)
        ensures
            r@ == self.name@,
    {
        self.name.as_str()
    }

    /// Returns the default custom reminders.
    ///
    /// Reinforced Armor in all game modes and the three fractal potions in fractals.
    pub fn defaults() -> (r: Vec<Self>)
        ensures
            r@.len() == 4,
            r@[0].id == REINFORCED && r@[0].name@ == "Reinforced"@ && r@[0].mode == GameMode::All,
            r@[1].id == 32473 && r@[1].name@ == "Offensive"@ && r@[1].mode == GameMode::Fractal,
            r@[2].id == 32134 && r@[2].name@ == "Defensive"@ && r@[2].mode == GameMode::Fractal,
            r@[3].id == 33024 && r@[3].name@ == "Mobility"@ && r@[3].mode == GameMode::Fractal,
    {
        let mut r = Vec::new();
        r.push(Self::new(REINFORCED, "Reinforced", GameMode::All));
        // fractal potions
        r.push(Self::new(32473, "Offensive", GameMode::Fractal));
        r.push(Self::new(32134, "Defensive", GameMode::Fractal));
        r.push(Self::new(33024, "Mobility", GameMode::Fractal));
        r
    }
}

} // verus!
