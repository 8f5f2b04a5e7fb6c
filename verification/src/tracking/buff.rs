use std::collections::BTreeMap;
use vstd::prelude::*;
use vstd::std_specs::iter::IteratorSpec;

verus! {

broadcast use {vstd::std_specs::btree::group_btree_axioms, vstd::laws_cmp::group_laws_cmp};

/// The sequence a `BTreeMap` iterator yields.
pub open spec fn spec_btree_map_iter_of<'a>(m: &'a BTreeMap<u32, BuffState<()>>) -> std::collections::btree_map::Iter<'a, u32, BuffState<()>> {
    vstd::std_specs::btree::spec_btree_map_iter(m)
}

/// Possible buff states.
#[derive(Debug, Clone, Copy)]
pub enum BuffState<T> {
    /// Buff state is not set (yet).
    ///
    /// This is the initial value.
    Unknown,
    /// No buff is applied.
    Empty,
    /// Some buff is applied.
    Applied(T),
}

impl<T> Default for BuffState<T> {
    fn default() -> (r: Self)
        ensures
            r is Unknown,
    {
        BuffState::Unknown
    }
}

/// Struct representing a tracked buff.
#[derive(Debug, Clone, Copy)]
pub struct TrackedBuff<T> {
    /// Current buff state.
    pub state: BuffState<T>,
    /// Timestamp of the last update.
    pub time: u64,
}

impl<T> TrackedBuff<T> {
    /// Whether an update at `time` is accepted by this tracked buff.
    ///
    /// Later updates are always accepted, updates at the same time only when overwriting.
    pub open spec fn accepts(self, time: u64, overwrite: bool) -> bool {
        time > self.time || (overwrite && time == self.time)
    }

    /// The tracked buff after an update with `state` at `time`.
    pub open spec fn after_update(self, state: BuffState<T>, time: u64, overwrite: bool) -> Self {
        if self.accepts(time, overwrite) {
            TrackedBuff { state, time }
        } else {
            self
        }
    }

    /// Creates a new tracked buff.
    pub fn new(state: BuffState<T>) -> (r: Self)
        ensures
            r.state == state,
            r.time == 0,
    {
        Self { state, time: 0 }
    }

    /// Updates the tracked buff.
    ///
    /// `time` is the timestamp of the event.
    /// `overwrite` determines whether the same time replaces the current state.
    ///
    /// Returns `false` if this update was ignored due to out of order.
    pub fn update(&mut self, state: BuffState<T>, time: u64, overwrite: bool) -> (changed: bool)
        ensures
            changed == old(self).accepts(time, overwrite),
            *final(self) == old(self).after_update(state, time, overwrite),
    {
        if time > self.time || (overwrite && time == self.time) {
            self.state = state;
            self.time = time;
            true
        } else {
            false
        }
    }

    /// Updates the tracked buff state if it is currently [`BuffState::Unknown`].
    ///
    /// Returns `false` if this update was ignored.
    pub fn update_if_unknown(&mut self, state: BuffState<T>, time: u64) -> (changed: bool)
        ensures
            changed == (old(self).state is Unknown),
            changed ==> final(self).state == state && final(self).time == time,
            !changed ==> *final(self) == *old(self),
    {
        if let BuffState::Unknown = self.state {
            self.state = state;
            self.time = time;
            true
        } else {
            false
        }
    }
}

impl<T> Default for TrackedBuff<T> {
    fn default() -> (r: Self)
        ensures
            r.state is Unknown,
            r.time == 0,
    {
        Self::new(BuffState::Unknown)
    }
}


/// Returns the tracked custom buff for `id`, or a fresh one if it is not tracked yet.
pub open spec fn custom_or_default(custom: Map<u32, TrackedBuff<()>>, id: u32) -> TrackedBuff<()> {
    if custom.contains_key(id) {
        custom[id]
    } else {
        TrackedBuff { state: BuffState::Unknown, time: 0 }
    }
}

/// The tracked buff after setting an unknown state to none at `time`.
pub open spec fn unset_to_empty<T>(buff: TrackedBuff<T>, time: u64) -> TrackedBuff<T> {
    if buff.state is Unknown {
        TrackedBuff { state: BuffState::Empty, time }
    } else {
        buff
    }
}

/// Whether a remove of `buff` applies to the given tracked buff state.
///
/// A remove always applies unless a different buff is known to be applied.
pub open spec fn remove_applies(state: BuffState<u32>, buff: u32) -> bool {
    match state {
        BuffState::Applied(applied) => applied == buff,
        _ => true,
    }
}

/// Buff information.
#[derive(Debug)]
pub struct Buffs {
    /// Current food buff applied to the player.
    pub food: TrackedBuff<u32>,
    /// Current utility buff applied to the player.
    pub util: TrackedBuff<u32>,
    /// Custom tracked buffs.
    pub custom: BTreeMap<u32, TrackedBuff<()>>,
}

impl Buffs {
    /// Creates new buff information with initial states.
    pub fn new() -> (r: Self)
        ensures
            r.food == (TrackedBuff::<u32> { state: BuffState::Unknown, time: 0 }),
            r.util == (TrackedBuff::<u32> { state: BuffState::Unknown, time: 0 }),
            r.custom@ == Map::<u32, TrackedBuff<()>>::empty(),
    {
        Self::with_buffs(TrackedBuff::new(BuffState::Unknown), TrackedBuff::new(BuffState::Unknown), BTreeMap::new())
    }

    /// Creates new buff information with given buff states.
    ///
    /// All given states start with the timestamp `0`.
    pub fn with_states(
        food: BuffState<u32>,
        util: BuffState<u32>,
        custom: BTreeMap<u32, BuffState<()>>,
    ) -> (r: Self)
        ensures
            r.food == (TrackedBuff { state: food, time: 0 }),
            r.util == (TrackedBuff { state: util, time: 0 }),
            r.custom@ == custom@.map_values(|state: BuffState<()>| TrackedBuff { state, time: 0 }),
    {
        let mut entries: BTreeMap<u32, TrackedBuff<()>> = BTreeMap::new();
        let ghost target = custom@.map_values(|state: BuffState<()>| TrackedBuff { state, time: 0 });
        let ghost pairs = spec_btree_map_iter_of(&custom).remaining();
        let ghost mut done: int = 0;
        for kv in it: custom.iter()
            invariant
                forall|k: u32| #[trigger] entries@.contains_key(k) ==> target.contains_key(k) && entries@[k] == target[k],
                forall|i: int| 0 <= i < done ==> #[trigger] entries@.contains_key(*pairs[i].0),
                it.seq() == pairs,
                done == it.index(),
                target == custom@.map_values(|state: BuffState<()>| TrackedBuff { state, time: 0 }),
                pairs == spec_btree_map_iter_of(&custom).remaining(),
        {
            let (id, state) = kv;
            proof {
                assert(kv == pairs[done]);
                assert(custom@.contains_key(*pairs[done].0));
                assert(custom@[*pairs[done].0] == *pairs[done].1);
            }
            assert(target[*id] == (TrackedBuff { state: custom@[*id], time: 0 }));
            entries.insert(*id, TrackedBuff::new(*state));
            proof { done = done + 1; }
        }
        proof {
            assert(done == pairs.len());
            assert forall|k: u32| target.contains_key(k) implies #[trigger] entries@.contains_key(k) by {
                assert(pairs.contains((&k, &custom@[k])));
                let i = choose|i: int| 0 <= i < pairs.len() && pairs[i] == (&k, &custom@[k]);
                assert(entries@.contains_key(*pairs[i].0));
            }
            assert(entries@ =~= target);
        }
        Self::with_buffs(TrackedBuff::new(food), TrackedBuff::new(util), entries)
    }

    /// Creates new buff information with given tracked buffs.
    pub fn with_buffs(
        food: TrackedBuff<u32>,
        util: TrackedBuff<u32>,
        custom: BTreeMap<u32, TrackedBuff<()>>,
    ) -> (r: Self)
        ensures
            r.food == food,
            r.util == util,
            r.custom@ == custom@,
    {
        Self { food, util, custom }
    }

    /// Returns a copy of the buff information.
    pub fn duplicate(&self) -> (r: Self)
        ensures
            r.food == self.food,
            r.util == self.util,
            r.custom@ == self.custom@,
    {
        Buffs { food: self.food, util: self.util, custom: self.custom.clone() }
    }

    /// Resets all buffs.
    pub fn reset_buffs(&mut self)
        ensures
            final(self).food == (TrackedBuff::<u32> { state: BuffState::Unknown, time: 0 }),
            final(self).util == (TrackedBuff::<u32> { state: BuffState::Unknown, time: 0 }),
            final(self).custom@ == Map::<u32, TrackedBuff<()>>::empty(),
    {
        self.food = TrackedBuff::default();
        self.util = TrackedBuff::default();
        self.custom = BTreeMap::new();
    }

    /// Sets all unset buff states to none.
    ///
    /// Custom buffs with the given ids are tracked from now on, unset ones are set to none as well.
    pub fn unset_to_none(&mut self, time: u64, custom_ids: &Vec<u32>)
        ensures
            final(self).food == unset_to_empty(old(self).food, time),
            final(self).util == unset_to_empty(old(self).util, time),
            final(self).custom@.dom() == old(self).custom@.dom() + custom_ids@.to_set(),
            forall|id: u32| #[trigger] final(self).custom@.contains_key(id) ==> final(self).custom@[id] == (
                if custom_ids@.contains(id) {
                    unset_to_empty(custom_or_default(old(self).custom@, id), time)
                } else {
                    old(self).custom@[id]
                }),
    {
        self.food.update_if_unknown(BuffState::Empty, time);
        self.util.update_if_unknown(BuffState::Empty, time);
        let ghost start = self.custom@;
        let ghost food = self.food;
        let ghost util = self.util;
        for i in 0..custom_ids.len()
            invariant
                self.food == food,
                self.util == util,
                self.custom@.dom() == start.dom() + custom_ids@.take(i as int).to_set(),
                forall|id: u32| #[trigger] self.custom@.contains_key(id) ==> self.custom@[id] == (
                    if custom_ids@.take(i as int).contains(id) {
                        unset_to_empty(custom_or_default(start, id), time)
                    } else {
                        start[id]
                    }),
        {
            let id = custom_ids[i];
            let mut buff = match self.custom.get(&id) {
                Some(buff) => *buff,
                None => TrackedBuff::default(),
            };
            buff.update_if_unknown(BuffState::Empty, time);
            self.custom.insert(id, buff);
            proof {
                let prev = custom_ids@.take(i as int);
                let next = custom_ids@.take(i + 1);
                assert(next == prev.push(id));
                assert(next.to_set() == prev.to_set().insert(id)) by {
                    prev.lemma_push_to_set_commute(id);
                }
                assert forall|k: u32| next.contains(k) <==> (prev.contains(k) || k == id) by {
                    if k == id { assert(next[i as int] == id); }
                    if prev.contains(k) {
                        let j = choose|j: int| 0 <= j < prev.len() && prev[j] == k;
                        assert(next[j] == k);
                    }
                    if next.contains(k) && k != id {
                        let j = choose|j: int| 0 <= j < next.len() && next[j] == k;
                        assert(prev[j] == k);
                    }
                }
            }
        }
        proof {
            assert(custom_ids@.take(custom_ids.len() as int) == custom_ids@);
        }
    }

    /// Applies a food buff to the player.
    ///
    /// Returns `true` if this update changed the buff state.
    pub fn apply_food(&mut self, food: u32, time: u64) -> (changed: bool)
        ensures
            changed == (old(self).food.accepts(time, true) && old(self).food.state != BuffState::Applied(food)),
            final(self).food == old(self).food.after_update(BuffState::Applied(food), time, true),
            final(self).util == old(self).util,
            final(self).custom@ == old(self).custom@,
    {
        let differs = match self.food.state {
            BuffState::Applied(applied) => applied != food,
            _ => true,
        };
        let accepted = self.food.update(BuffState::Applied(food), time, true);
        accepted && differs
    }

    /// Removes the current food buff from the player.
    ///
    /// Has no effect if the current buff is different from the passed buff.
    ///
    /// Returns `false` if this update was ignored.
    pub fn remove_food(&mut self, food: u32, time: u64) -> (changed: bool)
        ensures
            changed == (remove_applies(old(self).food.state, food) && old(self).food.accepts(time, false)),
            final(self).food == (if changed { TrackedBuff { state: BuffState::Empty, time } } else { old(self).food }),
            final(self).util == old(self).util,
            final(self).custom@ == old(self).custom@,
    {
        let applies = match self.food.state {
            BuffState::Applied(applied) => food == applied,
            _ => true,
        };
        if applies {
            self.food.update(BuffState::Empty, time, false)
        } else {
            false
        }
    }

    /// Applies an utility buff to the player.
    ///
    /// Returns `false` if this update was ignored.
    pub fn apply_util(&mut self, util: u32, time: u64) -> (changed: bool)
        ensures
            changed == old(self).util.accepts(time, true),
            final(self).util == (if changed { TrackedBuff { state: BuffState::Applied(util), time } } else { old(self).util }),
            final(self).food == old(self).food,
            final(self).custom@ == old(self).custom@,
    {
        self.util.update(BuffState::Applied(util), time, true)
    }

    /// Removes the current utility buff from the player.
    ///
    /// Has no effect if the current buff is different from the passed buff.
    ///
    /// Returns `false` if this update was ignored.
    pub fn remove_util(&mut self, util: u32, time: u64) -> (changed: bool)
        ensures
            changed == (remove_applies(old(self).util.state, util) && old(self).util.accepts(time, false)),
            final(self).util == (if changed { TrackedBuff { state: BuffState::Empty, time } } else { old(self).util }),
            final(self).food == old(self).food,
            final(self).custom@ == old(self).custom@,
    {
        let applies = match self.util.state {
            BuffState::Applied(applied) => util == applied,
            _ => true,
        };
        if applies {
            self.util.update(BuffState::Empty, time, false)
        } else {
            false
        }
    }

    /// Applies a custom tracked buff to the player.
    ///
    /// The buff is tracked from now on, even if this update was ignored.
    /// Returns `false` if this update was ignored.
    pub fn apply_custom(&mut self, id: u32, time: u64) -> (changed: bool)
        ensures
            changed == custom_or_default(old(self).custom@, id).accepts(time, true),
            final(self).custom@ == old(self).custom@.insert(id,
                if changed { TrackedBuff { state: BuffState::Applied(()), time } } else { custom_or_default(old(self).custom@, id) }),
            final(self).food == old(self).food,
            final(self).util == old(self).util,
    {
        let mut buff = match self.custom.get(&id) {
            Some(buff) => *buff,
            None => TrackedBuff::default(),
        };
        let changed = buff.update(BuffState::Applied(()), time, true);
        self.custom.insert(id, buff);
        changed
    }

    /// Removes a custom tracked buff from the player.
    ///
    /// Returns `false` if this update was ignored.
    /// Buffs which are not tracked are ignored.
    pub fn remove_custom(&mut self, id: u32, time: u64) -> (changed: bool)
        ensures
            changed == (old(self).custom@.contains_key(id) && old(self).custom@[id].accepts(time, false)),
            final(self).custom@ == (if changed {
                old(self).custom@.insert(id, TrackedBuff { state: BuffState::Empty, time })
            } else {
                old(self).custom@
            }),
            final(self).food == old(self).food,
            final(self).util == old(self).util,
    {
        match self.custom.get(&id) {
            Some(buff) => {
                let mut buff = *buff;
                if buff.update(BuffState::Empty, time, false) {
                    self.custom.insert(id, buff);
                    true
                } else {
                    false
                }
            },
            None => false,
        }
    }

    /// Returns the [`BuffState`] of the given custom buff id.
    pub fn custom_state(&self, id: u32) -> (state: BuffState<()>)
        ensures
            state == custom_or_default(self.custom@, id).state,
    {
        match self.custom.get(&id) {
            Some(buff) => buff.state,
            None => BuffState::Unknown,
        }
    }
}

impl Default for Buffs {
    fn default() -> (r: Self)
        ensures
            r.food.state is Unknown && r.food.time == 0,
            r.util.state is Unknown && r.util.time == 0,
            r.custom@ == Map::<u32, TrackedBuff<()>>::empty(),
    {
        Self::new()
    }
}

/// A tracked buff never moves back in time through updates.
pub proof fn law_tracked_buff_time_monotone<T>(before: TrackedBuff<T>, state: BuffState<T>, time: u64, overwrite: bool)
    ensures
        before.after_update(state, time, overwrite).time >= before.time,
{
}

/// A later event always wins: an update at a later time is never ignored.
pub proof fn law_tracked_buff_later_wins<T>(before: TrackedBuff<T>, state: BuffState<T>, time: u64, overwrite: bool)
    requires
        time > before.time,
    ensures
        before.after_update(state, time, overwrite) == (TrackedBuff { state, time }),
{
}

/// Events that arrive out of order are ignored: an update at an earlier time has no effect.
pub proof fn law_tracked_buff_earlier_ignored<T>(before: TrackedBuff<T>, state: BuffState<T>, time: u64, overwrite: bool)
    requires
        time < before.time,
    ensures
        before.after_update(state, time, overwrite) == before,
{
}

/// A food removed right after being applied leaves no food, whichever food was applied before.
pub proof fn law_apply_then_remove_food(before: TrackedBuff<u32>, food: u32, applied_at: u64, removed_at: u64)
    requires
        applied_at < removed_at,
        before.accepts(applied_at, true),
    ensures
        ({
            let applied = before.after_update(BuffState::Applied(food), applied_at, true);
            &&& remove_applies(applied.state, food)
            &&& applied.after_update(BuffState::Empty, removed_at, false) == (TrackedBuff::<u32> { state: BuffState::Empty, time: removed_at })
        }),
{
}

/// A remove of a different buff than the one applied is ignored.
pub proof fn law_remove_other_ignored(applied: u32, removed: u32)
    requires
        applied != removed,
    ensures
        !remove_applies(BuffState::Applied(applied), removed),
{
}

} // verus!
