use vstd::prelude::*;

verus! {

/// Buff definitions data.
#[derive(Debug, Default)]
pub struct DefData {
    /// Food buff definitions.
    pub food: Vec<BuffData>,
    /// Utility buff definitions.
    pub utility: Vec<BuffData>,
    /// Ignored buffs.
    pub ignore: Vec<u32>,
    /// Boss ids.
    pub bosses: Vec<u32>,
}

/// Single buff data entry.
#[derive(Debug)]
pub struct BuffData {
    /// Ingame buff id.
    pub id: u32,
    /// Full name of the buff (or item applying it).
    pub name: String,
    /// Buff stats.
    pub stats: Vec<String>,
    /// Short display name in buff tracker table.
    pub display: String,
    /// Rarity of the item applying the effect.
    pub rarity: Rarity,
}

/// Rarity of an item.
#[derive(Debug, Clone, Copy, PartialEq, Eq, Structural)]
pub enum Rarity {
    Basic,
    Fine,
    Masterwork,
    Rare,
    Exotic,
    Ascended,
    Legendary,
}

impl Default for Rarity {
    fn default() -> (r: Self)
        ensures
            r == Rarity::Basic,
    {
        Rarity::Basic
    }
}

} // verus!
