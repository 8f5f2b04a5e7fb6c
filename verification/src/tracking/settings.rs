//! Settings of the tracker.

use super::buff::{BuffState, Buffs, TrackedBuff};
use super::squad::{SquadPlayer, TrackerEntry};
use crate::builds::Builds;
use crate::data::constants::REINFORCED;
use std::collections::BTreeMap;
use vstd::prelude::*;
use vstd::std_specs::iter::IteratorSpec;

verus! {

broadcast use {vstd::std_specs::btree::group_btree_axioms, vstd::laws_cmp::group_laws_cmp};

/// Default hotkey for the tracker: the virtual key code of `F`.
pub const DEFAULT_HOTKEY: u32 = 0x46;

/// Color for subgroup numbers or player names.
#[derive(Debug, Clone, Copy, PartialEq, Eq, Structural)]
pub enum Color {
    NoColor,
    Sub,
    Prof,
}

impl Color {
    /// All colors, in order.
    pub fn all() -> (r: Vec<Color>)
        ensures
            r@ == seq![Color::NoColor, Color::Sub, Color::Prof],
    {
        let mut r = Vec::new();
        r.push(Color::NoColor);
        r.push(Color::Sub);
        r.push(Color::Prof);
        r
    }

    /// The displayed name of the color.
    pub open spec fn spec_name(self) -> Seq<char> {
        match self {
            Color::NoColor => "None"@,
            Color::Sub => "Subgroup"@,
            Color::Prof => "Profession"@,
        }
    }

    /// Returns the displayed name of the color.
    pub fn name(&self) -> (r: &'static str)
        ensures
            r@ == self.spec_name(),
    {
        match self {
            Color::NoColor => "None",
            Color::Sub => "Subgroup",
            Color::Prof => "Profession",
        }
    }
}

/// Settings for the tracker.
#[derive(Debug, Clone, Copy, PartialEq, Eq, Structural)]
pub struct TrackerSettings {
    /// Whether to save the buffs on own characters.
    pub save_chars: bool,
    /// Hotkey for the tracker window.
    pub hotkey: Option<u32>,
    /// Whether to show table header icons.
    pub show_icons: bool,
    /// Whether to show the subgroup column.
    pub show_sub: bool,
    /// Color for subgroup numbers.
    pub color_sub: Color,
    /// Color for player names.
    pub color_name: Color,
}

impl TrackerSettings {
    /// The default tracker settings.
    pub open spec fn spec_default() -> Self {
        TrackerSettings {
            save_chars: true,
            hotkey: Some(DEFAULT_HOTKEY),
            show_icons: true,
            show_sub: true,
            color_sub: Color::Sub,
            color_name: Color::Prof,
        }
    }

    /// Creates the default tracker settings.
    pub fn new() -> (r: Self)
        ensures
            r == Self::spec_default(),
    {
        Self {
            save_chars: true,
            hotkey: Some(DEFAULT_HOTKEY),
            show_icons: true,
            show_sub: true,
            color_sub: Color::Sub,
            color_name: Color::Prof,
        }
    }
}

impl Default for TrackerSettings {
    fn default() -> (r: Self)
        ensures
            r == Self::spec_default(),
    {
        Self::new()
    }
}

/// The states of tracked custom buffs.
pub open spec fn custom_states(custom: Map<u32, TrackedBuff<()>>) -> Map<u32, BuffState<()>> {
    custom.map_values(|buff: TrackedBuff<()>| buff.state)
}

/// Whether `saved` holds the player and the buff states of the tracker entry `entry`.
pub open spec fn saved_from(saved: SettingsEntry, entry: TrackerEntry) -> bool {
    &&& saved.player == entry.player
    &&& saved.food == entry.data.food.state
    &&& saved.util == entry.data.util.state
    &&& saved.buffs@ == custom_states(entry.data.custom@)
    &&& saved.reinforced is None
}

/// Whether the tracker entry `entry` is restored from `saved`: a saved Reinforced state is
/// restored as custom buff, all states start at timestamp `0`.
pub open spec fn restored_from(saved: SettingsEntry, entry: TrackerEntry) -> bool {
    &&& entry.player == saved.player
    &&& entry.data.food == (TrackedBuff { state: saved.food, time: 0 })
    &&& entry.data.util == (TrackedBuff { state: saved.util, time: 0 })
    &&& entry.data.custom@ == (match saved.reinforced {
        Some(reinf) => saved.buffs@.insert(REINFORCED, reinf),
        None => saved.buffs@,
    }).map_values(|state: BuffState<()>| TrackedBuff { state, time: 0 })
}

/// Saved player entry.
#[derive(Debug)]
pub struct SettingsEntry {
    pub player: SquadPlayer,
    pub food: BuffState<u32>,
    pub util: BuffState<u32>,
    pub buffs: BTreeMap<u32, BuffState<()>>,
    /// Reinforced state for backwards compatibility.
    pub reinforced: Option<BuffState<()>>,
}

impl SettingsEntry {
    /// Creates a new saved player entry.
    pub fn new(player: SquadPlayer, food: BuffState<u32>, util: BuffState<u32>, buffs: BTreeMap<u32, BuffState<()>>) -> (r: Self)
        ensures
            r.player == player,
            r.food == food,
            r.util == util,
            r.buffs@ == buffs@,
            r.reinforced is None,
    {
        Self { player, food, util, buffs, reinforced: None }
    }

    /// Saves the buff states of a tracker entry.
    pub fn from_entry(entry: TrackerEntry) -> (r: Self)
        ensures
            saved_from(r, entry),
    {
        let TrackerEntry { player, data } = entry;
        let Buffs { food, util, custom } = data;
        let mut states: BTreeMap<u32, BuffState<()>> = BTreeMap::new();
        let ghost target = custom_states(custom@);
        let ghost pairs = vstd::std_specs::btree::spec_btree_map_iter(&custom).remaining();
        let ghost mut done: int = 0;
        for kv in it: custom.iter()
            invariant
                it.seq() == pairs,
                done == it.index(),
                pairs == vstd::std_specs::btree::spec_btree_map_iter(&custom).remaining(),
                target == custom_states(custom@),
                forall|k: u32| #[trigger] states@.contains_key(k) ==> target.contains_key(k) && states@[k] == target[k],
                forall|i: int| 0 <= i < done ==> #[trigger] states@.contains_key(*pairs[i].0),
        {
            let (id, buff) = kv;
            proof {
                assert(kv == pairs[done]);
                assert(custom@.contains_key(*pairs[done].0));
                assert(custom@[*pairs[done].0] == *pairs[done].1);
                assert(target[*id] == custom@[*id].state);
            }
            states.insert(*id, buff.state);
            proof { done = done + 1; }
        }
        proof {
            assert(done == pairs.len());
            assert forall|k: u32| target.contains_key(k) implies #[trigger] states@.contains_key(k) by {
                assert(pairs.contains((&k, &custom@[k])));
                let i = choose|i: int| 0 <= i < pairs.len() && pairs[i] == (&k, &custom@[k]);
                assert(states@.contains_key(*pairs[i].0));
            }
            assert(states@ =~= target);
        }
        Self::new(player, food.state, util.state, states)
    }

    /// Restores a tracker entry from the saved states.
    ///
    /// A saved Reinforced state is restored as custom buff. All states start at timestamp `0`.
    pub fn into_entry(self) -> (r: TrackerEntry)
        ensures
            restored_from(self, r),
    {
        let SettingsEntry { player, food, util, buffs, reinforced } = self;
        let mut buffs = buffs;
        if let Some(reinf) = reinforced {
            buffs.insert(REINFORCED, reinf);
        }
        TrackerEntry::new(player, Buffs::with_states(food, util, buffs))
    }
}

/// Saved state of the tracker.
#[derive(Debug)]
pub struct TrackerState {
    pub settings: TrackerSettings,
    pub own_chars: Vec<SettingsEntry>,
    pub builds: Builds,
}

impl TrackerState {
    /// Creates the default tracker state.
    pub fn new() -> (r: Self)
        ensures
            r.settings == TrackerSettings::spec_default(),
            r.own_chars@.len() == 0,
            r.builds.entries@.len() == 0,
    {
        Self { settings: TrackerSettings::new(), own_chars: Vec::new(), builds: Builds::new() }
    }
}

impl Default for TrackerState {
    fn default() -> (r: Self)
        ensures
            r.settings == TrackerSettings::spec_default(),
            r.own_chars@.len() == 0,
            r.builds.entries@.len() == 0,
    {
        Self::new()
    }
}

/// Saving an entry and restoring it gives back the player and all buff states, at timestamp `0`.
pub proof fn law_save_restore_states(entry: TrackerEntry, saved: SettingsEntry, restored: TrackerEntry)
    requires
        saved_from(saved, entry),
        restored_from(saved, restored),
    ensures
        restored.player == entry.player,
        restored.data.food == (TrackedBuff { state: entry.data.food.state, time: 0 }),
        restored.data.util == (TrackedBuff { state: entry.data.util.state, time: 0 }),
        custom_states(restored.data.custom@) == custom_states(entry.data.custom@),
        restored.data.custom@.dom() == entry.data.custom@.dom(),
{
    assert(custom_states(restored.data.custom@) =~= custom_states(entry.data.custom@));
    assert(restored.data.custom@.dom() =~= entry.data.custom@.dom());
}

} // verus!
