//! Buff definitions keyed by buff id, with boss ids.

use crate::data::defaults::{default_definitions, is_default_data};
use crate::data::structs::{BuffData, DefData};
use std::collections::HashMap;
use vstd::prelude::*;
use vstd::std_specs::iter::IteratorSpec;

verus! {

broadcast use vstd::std_specs::hash::group_hash_axioms;

/// Malnourished buff id.
pub const MALNOURISHED: u32 = 46587;

/// Diminished buff id.
pub const DIMINISHED: u32 = 46668;

/// Buff definition.
#[derive(Debug)]
pub enum BuffDef {
    Food(BuffData),
    Util(BuffData),
    Ignore(u32),
}

/// The map after defining all given food buffs in order.
pub open spec fn with_food(m: Map<u32, BuffDef>, food: Seq<BuffData>) -> Map<u32, BuffDef>
    decreases food.len(),
{
    if food.len() == 0 {
        m
    } else {
        with_food(m, food.drop_last()).insert(food.last().id, BuffDef::Food(food.last()))
    }
}

/// The map after defining all given utility buffs in order.
pub open spec fn with_util(m: Map<u32, BuffDef>, util: Seq<BuffData>) -> Map<u32, BuffDef>
    decreases util.len(),
{
    if util.len() == 0 {
        m
    } else {
        with_util(m, util.drop_last()).insert(util.last().id, BuffDef::Util(util.last()))
    }
}

/// The map after ignoring all given buff ids in order.
pub open spec fn with_ignored(m: Map<u32, BuffDef>, ids: Seq<u32>) -> Map<u32, BuffDef>
    decreases ids.len(),
{
    if ids.len() == 0 {
        m
    } else {
        with_ignored(m, ids.drop_last()).insert(ids.last(), BuffDef::Ignore(ids.last()))
    }
}

/// Whether every definition in the map is stored under its own buff id.
pub open spec fn keyed_by_id(m: Map<u32, BuffDef>) -> bool {
    forall|k: u32| #[trigger] m.contains_key(k) ==> match m[k] {
        BuffDef::Food(data) => data.id == k,
        BuffDef::Util(data) => data.id == k,
        BuffDef::Ignore(id) => id == k,
    }
}

/// Shared buff definitions data.
#[derive(Debug)]
pub struct Definitions {
    data: HashMap<u32, BuffDef>,
    bosses: Vec<u32>,
}

impl Definitions {
    #[verifier::type_invariant]
    spec fn well_formed(self) -> bool {
        keyed_by_id(self.data@)
    }

    /// The buff definitions by buff id.
    pub closed spec fn buffs(&self) -> Map<u32, BuffDef> {
        self.data@
    }

    /// The boss ids.
    pub closed spec fn boss_ids(&self) -> Seq<u32> {
        self.bosses@
    }

    /// Creates a new empty set of definitions.
    pub fn empty() -> (r: Self)
        ensures
            r.buffs() == Map::<u32, BuffDef>::empty(),
            r.boss_ids() == Seq::<u32>::empty(),
    {
        Self { data: HashMap::new(), bosses: Vec::new() }
    }

    /// Creates a new set of definitions with the default definitions.
    pub fn with_defaults() -> (r: Self)
        ensures
            exists|data: DefData| #[trigger] is_default_data(data)
                && r.buffs() == with_ignored(with_util(with_food(Map::empty(), data.food@), data.utility@), data.ignore@)
                && r.boss_ids() == data.bosses@,
    {
        let mut defs = Self::empty();
        let data = default_definitions();
        let ghost d = data;
        defs.add_data(data);
        assert(is_default_data(d));
        defs
    }

    /// Adds new buff definitions.
    ///
    /// A definition replaces the one with the same id.
    pub fn add_buffs(&mut self, food: Vec<BuffData>, util: Vec<BuffData>, ignore: Vec<u32>)
        ensures
            final(self).buffs() == with_ignored(with_util(with_food(old(self).buffs(), food@), util@), ignore@),
            final(self).boss_ids() == old(self).boss_ids(),
    {
        proof { use_type_invariant(&*self); }
        let mut data: HashMap<u32, BuffDef> = HashMap::new();
        std::mem::swap(&mut data, &mut self.data);
        let ghost start = data@;
        let ghost all_food = food@;
        for entry in it: food
            invariant
                it.seq() == all_food,
                data@ == with_food(start, all_food.take(it.index() as int)),
                keyed_by_id(data@),
        {
            proof {
                assert(all_food.take(it.index() + 1).drop_last() == all_food.take(it.index() as int));
            }
            data.insert(entry.id, BuffDef::Food(entry));
        }
        proof { assert(all_food.take(all_food.len() as int) == all_food); }
        let ghost after_food = data@;
        let ghost all_util = util@;
        for entry in it: util
            invariant
                it.seq() == all_util,
                data@ == with_util(after_food, all_util.take(it.index() as int)),
                keyed_by_id(data@),
        {
            proof {
                assert(all_util.take(it.index() + 1).drop_last() == all_util.take(it.index() as int));
            }
            data.insert(entry.id, BuffDef::Util(entry));
        }
        proof { assert(all_util.take(all_util.len() as int) == all_util); }
        let ghost after_util = data@;
        let ghost all_ignore = ignore@;
        for id in it: ignore
            invariant
                it.seq() == all_ignore,
                data@ == with_ignored(after_util, all_ignore.take(it.index() as int)),
                keyed_by_id(data@),
        {
            proof {
                assert(all_ignore.take(it.index() + 1).drop_last() == all_ignore.take(it.index() as int));
            }
            data.insert(id, BuffDef::Ignore(id));
        }
        proof { assert(all_ignore.take(all_ignore.len() as int) == all_ignore); }
        self.data = data;
    }

    /// Adds new boss ids.
    pub fn add_bosses(&mut self, bosses: Vec<u32>)
        ensures
            final(self).boss_ids() == old(self).boss_ids() + bosses@,
            final(self).buffs() == old(self).buffs(),
    {
        proof { use_type_invariant(&*self); }
        let mut bosses = bosses;
        let mut all: Vec<u32> = Vec::new();
        std::mem::swap(&mut all, &mut self.bosses);
        all.append(&mut bosses);
        self.bosses = all;
    }

    /// Add definitions from a [`DefData`] collection.
    pub fn add_data(&mut self, data: DefData)
        ensures
            final(self).buffs() == with_ignored(with_util(with_food(old(self).buffs(), data.food@), data.utility@), data.ignore@),
            final(self).boss_ids() == old(self).boss_ids() + data.bosses@,
    {
        let DefData { food, utility, ignore, bosses } = data;
        self.add_buffs(food, utility, ignore);
        self.add_bosses(bosses);
    }

    /// Returns the buff definition with the given id.
    pub fn get_buff(&self, buff_id: u32) -> (r: Option<&BuffDef>)
        ensures
            match r {
                Some(def) => self.buffs().contains_key(buff_id) && self.buffs()[buff_id] == *def,
                None => !self.buffs().contains_key(buff_id),
            },
    {
        self.data.get(&buff_id)
    }

    /// Checks whether the id is in the list of bosses.
    pub fn is_boss(&self, id: u32) -> (r: bool)
        ensures
            r == self.boss_ids().contains(id),
    {
        let mut i: usize = 0;
        while i < self.bosses.len()
            invariant
                i <= self.bosses.len(),
                forall|k: int| 0 <= k < i ==> self.bosses@[k] != id,
            decreases self.bosses.len() - i,
        {
            if self.bosses[i] == id {
                return true;
            }
            i = i + 1;
        }
        false
    }

    /// Returns all food definitions, in no particular order.
    pub fn all_food(&self) -> (r: Vec<&BuffData>)
        ensures
            forall|i: int| 0 <= i < r@.len() ==> self.buffs().contains_key(r@[i].id)
                && self.buffs()[r@[i].id] == BuffDef::Food(*r@[i]),
            forall|k: u32| #[trigger] self.buffs().contains_key(k) && self.buffs()[k] is Food
                ==> exists|i: int| 0 <= i < r@.len() && BuffDef::Food(*r@[i]) == self.buffs()[k],
    {
        proof { use_type_invariant(self); }
        let mut r: Vec<&BuffData> = Vec::new();
        let ghost values = vstd::std_specs::hash::spec_values_iter(&self.data).remaining();
        let ghost mut done: int = 0;
        for def in it: self.data.values()
            invariant
                it.seq() == values,
                done == it.index(),
                values == vstd::std_specs::hash::spec_values_iter(&self.data).remaining(),
                keyed_by_id(self.data@),
                forall|i: int| 0 <= i < r@.len() ==> self.data@.contains_key(r@[i].id)
                    && self.data@[r@[i].id] == BuffDef::Food(*r@[i]),
                forall|j: int| 0 <= j < done && (#[trigger] values[j]) is Food
                    ==> exists|i: int| 0 <= i < r@.len() && BuffDef::Food(*r@[i]) == *values[j],
        {
            proof {
                assert(def == values[done]);
                assert(values.unref().to_set().contains(*values[done]));
                assert(values.unref()[done] == *values[done]);
                assert(self.data@.values().contains(*values[done]));
            }
            let ghost before = r@;
            match def {
                BuffDef::Food(data) => {
                    r.push(data);
                    proof {
                        assert forall|j: int| 0 <= j < done + 1 && (#[trigger] values[j]) is Food
                            implies exists|i: int| 0 <= i < r@.len() && BuffDef::Food(*r@[i]) == *values[j] by {
                            if j == done {
                                assert(BuffDef::Food(*r@[before.len() as int]) == *values[j]);
                            } else {
                                let i = choose|i: int| 0 <= i < before.len() && BuffDef::Food(*before[i]) == *values[j];
                                assert(r@[i] == before[i]);
                            }
                        }
                    }
                },
                _ => {},
            }
            proof { done = done + 1; }
        }
        proof {
            assert forall|k: u32| #[trigger] self.data@.contains_key(k) && self.data@[k] is Food
                implies exists|i: int| 0 <= i < r@.len() && BuffDef::Food(*r@[i]) == self.data@[k] by {
                assert(self.data@.values().contains(self.data@[k]));
                assert(values.unref().to_set().contains(self.data@[k]));
            }
        }
        r
    }
}

} // verus!
