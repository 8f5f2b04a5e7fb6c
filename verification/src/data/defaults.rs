//! Default buff definitions.

use super::constants::{bosses, spec_bosses, DIMINISHED, MALNOURISHED, REINFORCED};
use super::structs::{BuffData, DefData, Rarity};
use vstd::prelude::*;

verus! {

/// Creates buff data without stats.
fn plain_buff(id: u32, name: &str, display: &str) -> (r: BuffData)
    ensures
        r.id == id,
        r.name@ == name@,
        r.stats@.len() == 0,
        r.display@ == display@,
        r.rarity == Rarity::Basic,
{
    BuffData {
        id,
        name: String::from_str(name),
        stats: Vec::new(),
        display: String::from_str(display),
        rarity: Rarity::Basic,
    }
}

/// Whether `data` is the default definitions data.
///
/// Food holds Malnourished, utility holds Diminished, Reinforced Armor is ignored
/// and the bosses are the raid & fractal bosses.
pub open spec fn is_default_data(data: DefData) -> bool {
    &&& data.food@.len() == 1
    &&& data.food@[0].id == MALNOURISHED
    &&& data.food@[0].name@ == "Malnourished"@
    &&& data.food@[0].display@ == "Malnourished"@
    &&& data.food@[0].stats@.len() == 0
    &&& data.food@[0].rarity == Rarity::Basic
    &&& data.utility@.len() == 1
    &&& data.utility@[0].id == DIMINISHED
    &&& data.utility@[0].name@ == "Diminished"@
    &&& data.utility@[0].display@ == "Diminished"@
    &&& data.utility@[0].stats@.len() == 0
    &&& data.utility@[0].rarity == Rarity::Basic
    &&& data.ignore@ == seq![REINFORCED]
    &&& data.bosses@ == spec_bosses()
}

/// Returns the default definitions.
pub fn default_definitions() -> (r: DefData)
    ensures
        is_default_data(r),
{
    let mut food = Vec::new();
    food.push(plain_buff(MALNOURISHED, "Malnourished", "Malnourished"));
    let mut utility = Vec::new();
    utility.push(plain_buff(DIMINISHED, "Diminished", "Diminished"));
    let mut ignore: Vec<u32> = Vec::new();
    ignore.push(REINFORCED);
    assert(ignore@ =~= seq![REINFORCED]);
    DefData { food, utility, ignore, bosses: bosses() }
}

} // verus!
