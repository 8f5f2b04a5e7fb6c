use super::defaults::{default_definitions, is_default_data};
use super::structs::{DefData, Rarity};
use super::{food_entries, ignore_entries, util_entries, DefinitionEntry, DefinitionKind};
use vstd::prelude::*;

verus! {

/// Colors of item rarities.
#[derive(Debug, Clone, Copy, PartialEq, Eq, Structural)]
pub enum RarityColor {
    Fine,
    Masterwork,
    Rare,
    Exotic,
    Ascended,
    Legendary,
}

impl DefData {
    /// Returns the default definitions data.
    pub fn with_defaults() -> (r: Self)
        ensures
            is_default_data(r),
    {
        default_definitions()
    }

    /// Returns the total number of definition entries.
    pub fn len(&self) -> (r: usize)
        requires
            self.food@.len() + self.utility@.len() + self.ignore@.len() <= usize::MAX,
        ensures
            r == self.food@.len() + self.utility@.len() + self.ignore@.len(),
    {
        self.food.len() + self.utility.len() + self.ignore.len()
    }

    /// Converts this into all entries: food, then utility, then ignored buffs.
    pub fn into_entries(self) -> (r: Vec<DefinitionEntry>)
        ensures
            r@ == food_entries(self.food@) + util_entries(self.utility@) + ignore_entries(self.ignore@),
    {
        let DefData { food, utility, ignore, .. } = self;
        let ghost all_food = food@;
        let ghost all_util = utility@;
        let ghost all_ignore = ignore@;
        let mut r: Vec<DefinitionEntry> = Vec::new();
        for item in it: food
            invariant
                it.seq() == all_food,
                r@ == food_entries(all_food.take(it.index() as int)),
        {
            proof {
                assert(food_entries(all_food.take(it.index() + 1)) == food_entries(all_food.take(it.index() as int)).push(super::food_entry(item)));
            }
            r.push(DefinitionEntry::new_food(item));
        }
        proof { assert(all_food.take(all_food.len() as int) == all_food); }
        let ghost prefix = r@;
        for item in it: utility
            invariant
                it.seq() == all_util,
                r@ == prefix + util_entries(all_util.take(it.index() as int)),
        {
            proof {
                assert(util_entries(all_util.take(it.index() + 1)) == util_entries(all_util.take(it.index() as int)).push(super::util_entry(item)));
            }
            r.push(DefinitionEntry::new_util(item));
        }
        proof { assert(all_util.take(all_util.len() as int) == all_util); }
        let ghost prefix2 = r@;
        for id in it: ignore
            invariant
                it.seq() == all_ignore,
                r@ == prefix2 + ignore_entries(all_ignore.take(it.index() as int)),
        {
            proof {
                assert(ignore_entries(all_ignore.take(it.index() + 1)) == ignore_entries(all_ignore.take(it.index() as int)).push(super::ignore_entry(id)));
            }
            r.push(DefinitionEntry::new(id, DefinitionKind::Ignore));
        }
        proof { assert(all_ignore.take(all_ignore.len() as int) == all_ignore); }
        r
    }
}

impl Rarity {
    /// Returns the color associated with the [`Rarity`], basic items have none.
    pub fn color(&self) -> (r: Option<RarityColor>)
        ensures
            match self {
                Rarity::Basic => r is None,
                Rarity::Fine => r == Some(RarityColor::Fine),
                Rarity::Masterwork => r == Some(RarityColor::Masterwork),
                Rarity::Rare => r == Some(RarityColor::Rare),
                Rarity::Exotic => r == Some(RarityColor::Exotic),
                Rarity::Ascended => r == Some(RarityColor::Ascended),
                Rarity::Legendary => r == Some(RarityColor::Legendary),
            },
    {
        match self {
            Rarity::Basic => None,
            Rarity::Fine => Some(RarityColor::Fine),
            Rarity::Masterwork => Some(RarityColor::Masterwork),
            Rarity::Rare => Some(RarityColor::Rare),
            Rarity::Exotic => Some(RarityColor::Exotic),
            Rarity::Ascended => Some(RarityColor::Ascended),
            Rarity::Legendary => Some(RarityColor::Legendary),
        }
    }
}

} // verus!
