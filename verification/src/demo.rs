//! Display names of buff states in the demo windows.

use crate::data::{definition_of, DefinitionKind, Definitions};
use crate::tracking::buff::BuffState;
use vstd::prelude::*;

verus! {

/// The display name of a food buff state: the name of a defined food, else a placeholder.
pub open spec fn spec_food_name(defs: Seq<crate::data::DefinitionEntry>, buff: BuffState<u32>) -> Seq<char> {
    match buff {
        BuffState::Unknown => "Unset"@,
        BuffState::Empty => "None"@,
        BuffState::Applied(id) => match definition_of(defs, id) {
            Some(DefinitionKind::Food(food)) => food.name@,
            _ => "Unknown"@,
        },
    }
}

/// The display name of an utility buff state: the name of a defined utility, else a placeholder.
pub open spec fn spec_util_name(defs: Seq<crate::data::DefinitionEntry>, buff: BuffState<u32>) -> Seq<char> {
    match buff {
        BuffState::Unknown => "Unset"@,
        BuffState::Empty => "None"@,
        BuffState::Applied(id) => match definition_of(defs, id) {
            Some(DefinitionKind::Util(util)) => util.name@,
            _ => "Unknown"@,
        },
    }
}

/// Returns the display name for a given food buff.
pub fn food_name<'a>(defs: &'a Definitions, buff: BuffState<u32>) -> (r: &'a str)
    ensures
        r@ == spec_food_name(defs@, buff),
{
    match buff {
        BuffState::Unknown => {
            proof { reveal_strlit("Unset"); }
            "Unset"
        },
        BuffState::Empty => {
            proof { reveal_strlit("None"); }
            "None"
        },
        BuffState::Applied(id) => match defs.get_definition(id) {
            Some(DefinitionKind::Food(food)) => food.name.as_str(),
            _ => {
                proof { reveal_strlit("Unknown"); }
                "Unknown"
            },
        },
    }
}

/// Returns the display name for a given utility buff.
pub fn util_name<'a>(defs: &'a Definitions, buff: BuffState<u32>) -> (r: &'a str)
    ensures
        r@ == spec_util_name(defs@, buff),
{
    match buff {
        BuffState::Unknown => {
            proof { reveal_strlit("Unset"); }
            "Unset"
        },
        BuffState::Empty => {
            proof { reveal_strlit("None"); }
            "None"
        },
        BuffState::Applied(id) => match defs.get_definition(id) {
            Some(DefinitionKind::Util(util)) => util.name.as_str(),
            _ => {
                proof { reveal_strlit("Unknown"); }
                "Unknown"
            },
        },
    }
}

} // verus!
