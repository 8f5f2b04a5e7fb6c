//! Tracking of player buffs.

pub mod buff;
pub mod entry;
pub mod player;
pub mod settings;
pub mod sorting;
pub mod squad;
pub mod state;

use crate::builds::Builds;
use crate::text::str_eq;
use buff::Buffs;
use settings::{restored_from, saved_from, SettingsEntry, TrackerSettings, TrackerState};
use sorting::{sort_players, Sorting};
use squad::{SquadPlayer, TrackerEntry};
use vstd::prelude::*;

verus! {

/// Index of the first entry of a player with the given id.
pub open spec fn index_of_id(s: Seq<TrackerEntry>, id: usize) -> Option<int>
    decreases s.len(),
{
    if s.len() == 0 {
        None
    } else if s[0].player.id == id {
        Some(0)
    } else {
        match index_of_id(s.drop_first(), id) {
            Some(i) => Some(i + 1),
            None => None,
        }
    }
}

/// Index of the first entry of the given character.
pub open spec fn index_of_character(s: Seq<TrackerEntry>, character: Seq<char>) -> Option<int>
    decreases s.len(),
{
    if s.len() == 0 {
        None
    } else if s[0].player.character@ == character {
        Some(0)
    } else {
        match index_of_character(s.drop_first(), character) {
            Some(i) => Some(i + 1),
            None => None,
        }
    }
}

/// Index of the first entry of the local player.
pub open spec fn index_of_self(s: Seq<TrackerEntry>) -> Option<int>
    decreases s.len(),
{
    if s.len() == 0 {
        None
    } else if s[0].player.is_self {
        Some(0)
    } else {
        match index_of_self(s.drop_first()) {
            Some(i) => Some(i + 1),
            None => None,
        }
    }
}

/// Index of the first entry of the given account.
pub open spec fn index_of_account(s: Seq<TrackerEntry>, account: Seq<char>) -> Option<int>
    decreases s.len(),
{
    if s.len() == 0 {
        None
    } else if s[0].player.account@ == account {
        Some(0)
    } else {
        match index_of_account(s.drop_first(), account) {
            Some(i) => Some(i + 1),
            None => None,
        }
    }
}

/// The index of an account is the first position holding it.
pub proof fn lemma_index_of_account(s: Seq<TrackerEntry>, account: Seq<char>, i: int)
    requires
        0 <= i < s.len(),
        s[i].player.account@ == account,
        forall|k: int| 0 <= k < i ==> (#[trigger] s[k]).player.account@ != account,
    ensures
        index_of_account(s, account) == Some(i),
    decreases i,
{
    if i > 0 {
        let rest = s.drop_first();
        assert forall|k: int| 0 <= k < i - 1 implies (#[trigger] rest[k]).player.account@ != account by {
            assert(rest[k] == s[k + 1]);
        }
        lemma_index_of_account(rest, account, i - 1);
    }
}

/// No index is found for an account no entry holds.
pub proof fn lemma_index_of_account_none(s: Seq<TrackerEntry>, account: Seq<char>)
    requires
        forall|k: int| 0 <= k < s.len() ==> (#[trigger] s[k]).player.account@ != account,
    ensures
        index_of_account(s, account) is None,
    decreases s.len(),
{
    if s.len() > 0 {
        let rest = s.drop_first();
        assert forall|k: int| 0 <= k < rest.len() implies (#[trigger] rest[k]).player.account@ != account by {
            assert(rest[k] == s[k + 1]);
        }
        lemma_index_of_account_none(rest, account);
    }
}

/// A found account index is in bounds.
pub proof fn lemma_index_of_account_bounds(s: Seq<TrackerEntry>, account: Seq<char>)
    ensures
        index_of_account(s, account) matches Some(i) ==> 0 <= i < s.len() && s[i].player.account@ == account,
    decreases s.len(),
{
    if s.len() > 0 {
        lemma_index_of_account_bounds(s.drop_first(), account);
    }
}

/// The cache after storing an entry of an own character, replacing an entry of the same character.
pub open spec fn cache_stored(cache: Seq<TrackerEntry>, entry: TrackerEntry) -> Seq<TrackerEntry> {
    match index_of_character(cache, entry.player.character@) {
        Some(i) => cache.remove(i).push(entry),
        None => cache.push(entry),
    }
}


/// The cache after storing all entries in order.
pub open spec fn cache_stored_all(cache: Seq<TrackerEntry>, entries: Seq<TrackerEntry>) -> Seq<TrackerEntry>
    decreases entries.len(),
{
    if entries.len() == 0 {
        cache
    } else {
        cache_stored(cache_stored_all(cache, entries.drop_last()), entries.last())
    }
}

/// The entries of own characters to save: the local player first, then the cache.
pub open spec fn own_entries(players: Seq<TrackerEntry>, cache: Seq<TrackerEntry>) -> Seq<TrackerEntry> {
    match index_of_self(players) {
        Some(i) => seq![players[i]] + cache,
        None => cache,
    }
}

/// The index of an id is the first position holding it.
pub proof fn lemma_index_of_id(s: Seq<TrackerEntry>, id: usize, i: int)
    requires
        0 <= i < s.len(),
        s[i].player.id == id,
        forall|k: int| 0 <= k < i ==> #[trigger] s[k].player.id != id,
    ensures
        index_of_id(s, id) == Some(i),
    decreases i,
{
    if i > 0 {
        let rest = s.drop_first();
        assert forall|k: int| 0 <= k < i - 1 implies #[trigger] rest[k].player.id != id by {
            assert(rest[k] == s[k + 1]);
        }
        lemma_index_of_id(rest, id, i - 1);
    }
}

/// No index is found for an id no entry holds.
pub proof fn lemma_index_of_id_none(s: Seq<TrackerEntry>, id: usize)
    requires
        forall|k: int| 0 <= k < s.len() ==> #[trigger] s[k].player.id != id,
    ensures
        index_of_id(s, id) is None,
    decreases s.len(),
{
    if s.len() > 0 {
        let rest = s.drop_first();
        assert forall|k: int| 0 <= k < rest.len() implies #[trigger] rest[k].player.id != id by {
            assert(rest[k] == s[k + 1]);
        }
        lemma_index_of_id_none(rest, id);
    }
}

/// The index of a character is the first position holding it.
pub proof fn lemma_index_of_character(s: Seq<TrackerEntry>, character: Seq<char>, i: int)
    requires
        0 <= i < s.len(),
        s[i].player.character@ == character,
        forall|k: int| 0 <= k < i ==> (#[trigger] s[k]).player.character@ != character,
    ensures
        index_of_character(s, character) == Some(i),
    decreases i,
{
    if i > 0 {
        let rest = s.drop_first();
        assert forall|k: int| 0 <= k < i - 1 implies (#[trigger] rest[k]).player.character@ != character by {
            assert(rest[k] == s[k + 1]);
        }
        lemma_index_of_character(rest, character, i - 1);
    }
}

/// No index is found for a character no entry holds.
pub proof fn lemma_index_of_character_none(s: Seq<TrackerEntry>, character: Seq<char>)
    requires
        forall|k: int| 0 <= k < s.len() ==> (#[trigger] s[k]).player.character@ != character,
    ensures
        index_of_character(s, character) is None,
    decreases s.len(),
{
    if s.len() > 0 {
        let rest = s.drop_first();
        assert forall|k: int| 0 <= k < rest.len() implies (#[trigger] rest[k]).player.character@ != character by {
            assert(rest[k] == s[k + 1]);
        }
        lemma_index_of_character_none(rest, character);
    }
}

/// The index of the local player is the first position holding them.
pub proof fn lemma_index_of_self(s: Seq<TrackerEntry>, i: int)
    requires
        0 <= i < s.len(),
        s[i].player.is_self,
        forall|k: int| 0 <= k < i ==> !(#[trigger] s[k]).player.is_self,
    ensures
        index_of_self(s) == Some(i),
    decreases i,
{
    if i > 0 {
        let rest = s.drop_first();
        assert forall|k: int| 0 <= k < i - 1 implies !(#[trigger] rest[k]).player.is_self by {
            assert(rest[k] == s[k + 1]);
        }
        lemma_index_of_self(rest, i - 1);
    }
}

/// No index is found for the local player if no entry is theirs.
pub proof fn lemma_index_of_self_none(s: Seq<TrackerEntry>)
    requires
        forall|k: int| 0 <= k < s.len() ==> !(#[trigger] s[k]).player.is_self,
    ensures
        index_of_self(s) is None,
    decreases s.len(),
{
    if s.len() > 0 {
        let rest = s.drop_first();
        assert forall|k: int| 0 <= k < rest.len() implies !(#[trigger] rest[k]).player.is_self by {
            assert(rest[k] == s[k + 1]);
        }
        lemma_index_of_self_none(rest);
    }
}

/// A found index is in bounds.
pub proof fn lemma_index_of_bounds(s: Seq<TrackerEntry>, id: usize, character: Seq<char>)
    ensures
        index_of_id(s, id) matches Some(i) ==> 0 <= i < s.len() && s[i].player.id == id,
        index_of_character(s, character) matches Some(i) ==> 0 <= i < s.len() && s[i].player.character@ == character,
        index_of_self(s) matches Some(i) ==> 0 <= i < s.len() && s[i].player.is_self,
    decreases s.len(),
{
    if s.len() > 0 {
        lemma_index_of_bounds(s.drop_first(), id, character);
    }
}

/// Whether `after` is `before` after adding `player`.
///
/// The buffs of an own character are restored from the cache, others start unknown.
/// Players are sorted afterwards.
pub open spec fn player_added(before: Tracker, after: Tracker, player: SquadPlayer) -> bool {
    let cached = player.is_self && index_of_character(before.cache@, player.character@) is Some;
    &&& exists|e: TrackerEntry| {
        &&& after.players@ == sort_players(#[trigger] before.players@.push(e), before.sorting, before.reverse)
        &&& e.player == player
        &&& cached ==> {
            let i = index_of_character(before.cache@, player.character@)->0;
            &&& e.data == before.cache@[i].data
            &&& after.cache@ == before.cache@.remove(i)
        }
        &&& !cached ==> {
            &&& e.data.food.state is Unknown && e.data.food.time == 0
            &&& e.data.util.state is Unknown && e.data.util.time == 0
            &&& e.data.custom@ == Map::<u32, buff::TrackedBuff<()>>::empty()
            &&& after.cache@ == before.cache@
        }
    }
    &&& after.settings == before.settings
    &&& after.sorting == before.sorting
    &&& after.reverse == before.reverse
    &&& after.chars_reset == before.chars_reset
    &&& after.builds == before.builds
}

/// Whether `after` is `before` after removing the player `id`.
///
/// The entry of an own character is stored in the cache.
pub open spec fn player_removed(before: Tracker, after: Tracker, id: usize) -> bool {
    &&& match index_of_id(before.players@, id) {
        Some(i) => {
            &&& after.players@ == before.players@.remove(i)
            &&& after.cache@ == (if before.players@[i].player.is_self {
                cache_stored(before.cache@, before.players@[i])
            } else {
                before.cache@
            })
        },
        None => after.players@ == before.players@ && after.cache@ == before.cache@,
    }
    &&& after.settings == before.settings
    &&& after.sorting == before.sorting
    &&& after.reverse == before.reverse
    &&& after.chars_reset == before.chars_reset
    &&& after.builds == before.builds
}

/// Player tracker.
///
/// Entries of own characters leaving the squad are cached and restored when they return.
#[derive(Debug)]
pub struct Tracker {
    /// Current tracker settings.
    pub settings: TrackerSettings,
    /// Currently tracked players.
    pub players: Vec<TrackerEntry>,
    /// Cached entries of own characters.
    pub cache: Vec<TrackerEntry>,
    /// Current sorting.
    pub sorting: Sorting,
    /// Current sorting direction.
    pub reverse: bool,
    /// Reset confirm state for own characters.
    pub chars_reset: bool,
    /// User-defined builds.
    pub builds: Builds,
}

impl Tracker {
    /// Default hotkey for tracker.
    pub const DEFAULT_HOTKEY: u32 = settings::DEFAULT_HOTKEY;

    /// Creates a new tracker.
    pub fn new() -> (r: Self)
        ensures
            r.settings == TrackerSettings::spec_default(),
            r.players@.len() == 0,
            r.cache@.len() == 0,
            r.sorting == Sorting::Sub,
            !r.reverse,
            !r.chars_reset,
            r.builds.entries@.len() == 0,
            r.builds.display_notes,
            !r.builds.filter_prof,
            r.builds.search@.len() == 0,
            !r.builds.edit,
    {
        Self {
            settings: TrackerSettings::new(),
            players: Vec::new(),
            cache: Vec::new(),
            sorting: Sorting::Sub,
            reverse: false,
            chars_reset: false,
            builds: Builds::new(),
        }
    }

    /// Returns the index of the tracked player with the given id.
    pub fn find_player(&self, id: usize) -> (r: Option<usize>)
        ensures
            match r {
                Some(i) => index_of_id(self.players@, id) == Some(i as int),
                None => index_of_id(self.players@, id) is None,
            },
    {
        let mut i: usize = 0;
        while i < self.players.len()
            invariant
                i <= self.players.len(),
                forall|k: int| 0 <= k < i ==> #[trigger] self.players@[k].player.id != id,
            decreases self.players.len() - i,
        {
            if self.players[i].player.id == id {
                proof { lemma_index_of_id(self.players@, id, i as int); }
                return Some(i);
            }
            i = i + 1;
        }
        proof { lemma_index_of_id_none(self.players@, id); }
        None
    }

    /// Returns the index of the tracked player of the given account.
    pub fn find_account(&self, account: &str) -> (r: Option<usize>)
        ensures
            match r {
                Some(i) => index_of_account(self.players@, account@) == Some(i as int),
                None => index_of_account(self.players@, account@) is None,
            },
    {
        let mut i: usize = 0;
        while i < self.players.len()
            invariant
                i <= self.players.len(),
                forall|k: int| 0 <= k < i ==> (#[trigger] self.players@[k]).player.account@ != account@,
            decreases self.players.len() - i,
        {
            if str_eq(self.players[i].player.account.as_str(), account) {
                proof { lemma_index_of_account(self.players@, account@, i as int); }
                return Some(i);
            }
            i = i + 1;
        }
        proof { lemma_index_of_account_none(self.players@, account@); }
        None
    }

    /// Returns the entry of the local player.
    pub fn get_self(&self) -> (r: Option<&TrackerEntry>)
        ensures
            match r {
                Some(entry) => index_of_self(self.players@) matches Some(i) && self.players@[i] == *entry,
                None => index_of_self(self.players@) is None,
            },
    {
        let mut i: usize = 0;
        while i < self.players.len()
            invariant
                i <= self.players.len(),
                forall|k: int| 0 <= k < i ==> !(#[trigger] self.players@[k]).player.is_self,
            decreases self.players.len() - i,
        {
            if self.players[i].player.is_self {
                proof { lemma_index_of_self(self.players@, i as int); }
                return Some(&self.players[i]);
            }
            i = i + 1;
        }
        proof { lemma_index_of_self_none(self.players@); }
        None
    }

    /// Returns the index of the cached entry of the given character.
    fn find_cached(&self, character: &str) -> (r: Option<usize>)
        ensures
            match r {
                Some(i) => index_of_character(self.cache@, character@) == Some(i as int),
                None => index_of_character(self.cache@, character@) is None,
            },
    {
        let mut i: usize = 0;
        while i < self.cache.len()
            invariant
                i <= self.cache.len(),
                forall|k: int| 0 <= k < i ==> (#[trigger] self.cache@[k]).player.character@ != character@,
            decreases self.cache.len() - i,
        {
            if str_eq(self.cache[i].player.character.as_str(), character) {
                proof { lemma_index_of_character(self.cache@, character@, i as int); }
                return Some(i);
            }
            i = i + 1;
        }
        proof { lemma_index_of_character_none(self.cache@, character@); }
        None
    }

    /// Sorts the players in the tracker table.
    pub fn refresh_sort(&mut self)
        ensures
            final(self).players@ == sort_players(old(self).players@, old(self).sorting, old(self).reverse),
            final(self).cache@ == old(self).cache@,
            final(self).settings == old(self).settings,
            final(self).sorting == old(self).sorting,
            final(self).reverse == old(self).reverse,
            final(self).chars_reset == old(self).chars_reset,
            final(self).chars_reset == old(self).chars_reset,
            final(self).builds == old(self).builds,
    {
        let mut players: Vec<TrackerEntry> = Vec::new();
        std::mem::swap(&mut players, &mut self.players);
        self.players = sorting::sort_entries(players, self.sorting, self.reverse);
    }

    /// Sorts the players if they are sorted by the given column.
    pub fn refresh_sort_if(&mut self, sorting: Sorting)
        ensures
            final(self).players@ == (if old(self).sorting == sorting {
                sort_players(old(self).players@, old(self).sorting, old(self).reverse)
            } else {
                old(self).players@
            }),
            final(self).cache@ == old(self).cache@,
            final(self).settings == old(self).settings,
            final(self).sorting == old(self).sorting,
            final(self).reverse == old(self).reverse,
            final(self).chars_reset == old(self).chars_reset,
            final(self).builds == old(self).builds,
    {
        if self.sorting == sorting {
            self.refresh_sort();
        }
    }

    /// Changes the sorting and sorts the players.
    pub fn set_sorting(&mut self, sorting: Sorting, reverse: bool)
        ensures
            final(self).players@ == sort_players(old(self).players@, sorting, reverse),
            final(self).sorting == sorting,
            final(self).reverse == reverse,
            final(self).cache@ == old(self).cache@,
            final(self).settings == old(self).settings,
            final(self).chars_reset == old(self).chars_reset,
            final(self).builds == old(self).builds,
    {
        self.sorting = sorting;
        self.reverse = reverse;
        self.refresh_sort();
    }

    /// Sorts the players by a column of the squad table, in ascending or descending order.
    ///
    /// The column index counts the subgroup column only if it is shown. Ascending order in the
    /// table is the reverse of the tracker's order.
    pub fn sort_by_column(&mut self, column: usize, ascending: bool)
        requires
            sorting::column_index(column, old(self).settings.show_sub) < 4,
        ensures
            final(self).sorting == sorting::column_sorting(sorting::column_index(column, old(self).settings.show_sub)),
            final(self).reverse == ascending,
            final(self).players@ == sort_players(old(self).players@, final(self).sorting, ascending),
            final(self).cache@ == old(self).cache@,
            final(self).settings == old(self).settings,
            final(self).chars_reset == old(self).chars_reset,
            final(self).builds == old(self).builds,
    {
        let sorting = sorting::sorting_for_column(column, self.settings.show_sub);
        self.set_sorting(sorting, ascending);
    }

    /// Stores an entry of an own character in the cache, replacing an entry of the same character.
    pub fn cache_store(&mut self, entry: TrackerEntry)
        ensures
            final(self).cache@ == cache_stored(old(self).cache@, entry),
            final(self).players@ == old(self).players@,
            final(self).settings == old(self).settings,
            final(self).sorting == old(self).sorting,
            final(self).reverse == old(self).reverse,
            final(self).chars_reset == old(self).chars_reset,
            final(self).builds == old(self).builds,
    {
        proof { lemma_index_of_bounds(self.cache@, 0, entry.player.character@); }
        match self.find_cached(entry.player.character.as_str()) {
            Some(i) => {
                self.cache.remove(i);
            },
            None => {},
        }
        self.cache.push(entry);
    }

    /// Stores multiple entries of own characters in the cache, in order.
    pub fn cache_multiple(&mut self, entries: Vec<TrackerEntry>)
        ensures
            final(self).cache@ == cache_stored_all(old(self).cache@, entries@),
            final(self).players@ == old(self).players@,
            final(self).settings == old(self).settings,
            final(self).sorting == old(self).sorting,
            final(self).reverse == old(self).reverse,
            final(self).chars_reset == old(self).chars_reset,
            final(self).builds == old(self).builds,
    {
        let ghost all = entries@;
        let ghost mut done: int = 0;
        for entry in it: entries
            invariant
                it.seq() == all,
                done == it.index(),
                self.cache@ == cache_stored_all(old(self).cache@, all.take(done)),
                self.players@ == old(self).players@,
                self.chars_reset == old(self).chars_reset,
                self.builds == old(self).builds,
                self.settings == old(self).settings,
                self.sorting == old(self).sorting,
                self.reverse == old(self).reverse,
        {
            proof {
                assert(all.take(done + 1).drop_last() == all.take(done));
                assert(all.take(done + 1).last() == entry);
            }
            self.cache_store(entry);
            proof { done = done + 1; }
        }
        proof { assert(all.take(done) == all); }
    }

    /// Removes a tracked player, returning `true` if they were tracked.
    ///
    /// The entry of an own character is stored in the cache.
    pub fn remove_player(&mut self, id: usize) -> (removed: bool)
        ensures
            removed == (index_of_id(old(self).players@, id) is Some),
            player_removed(*old(self), *final(self), id),
    {
        proof { lemma_index_of_bounds(self.players@, id, Seq::empty()); }
        match self.find_player(id) {
            Some(i) => {
                let entry = self.players.remove(i);
                if entry.player.is_self {
                    self.cache_store(entry);
                }
                true
            },
            None => false,
        }
    }

    /// Clears the cache of own characters.
    pub fn clear_cache(&mut self)
        ensures
            final(self).cache@.len() == 0,
            final(self).players@ == old(self).players@,
            final(self).settings == old(self).settings,
            final(self).sorting == old(self).sorting,
            final(self).reverse == old(self).reverse,
            final(self).chars_reset == old(self).chars_reset,
            final(self).builds == old(self).builds,
    {
        self.cache = Vec::new();
    }

    /// Resets the buffs of all tracked players.
    pub fn reset_squad(&mut self)
        ensures
            final(self).players@.len() == old(self).players@.len(),
            forall|i: int| 0 <= i < final(self).players@.len() ==> {
                &&& (#[trigger] final(self).players@[i]).player == old(self).players@[i].player
                &&& final(self).players@[i].data.food.state is Unknown && final(self).players@[i].data.food.time == 0
                &&& final(self).players@[i].data.util.state is Unknown && final(self).players@[i].data.util.time == 0
                &&& final(self).players@[i].data.custom@ == Map::<u32, buff::TrackedBuff<()>>::empty()
            },
            final(self).cache@ == old(self).cache@,
            final(self).settings == old(self).settings,
            final(self).sorting == old(self).sorting,
            final(self).reverse == old(self).reverse,
            final(self).chars_reset == old(self).chars_reset,
            final(self).builds == old(self).builds,
    {
        let mut players: Vec<TrackerEntry> = Vec::new();
        std::mem::swap(&mut players, &mut self.players);
        let ghost all = players@;
        let mut reset: Vec<TrackerEntry> = Vec::new();
        for entry in it: players
            invariant
                it.seq() == all,
                reset@.len() == it.index(),
                forall|i: int| 0 <= i < reset@.len() ==> {
                    &&& (#[trigger] reset@[i]).player == all[i].player
                    &&& reset@[i].data.food.state is Unknown && reset@[i].data.food.time == 0
                    &&& reset@[i].data.util.state is Unknown && reset@[i].data.util.time == 0
                    &&& reset@[i].data.custom@ == Map::<u32, buff::TrackedBuff<()>>::empty()
                },
        {
            let mut entry = entry;
            entry.data.reset_buffs();
            reset.push(entry);
        }
        self.players = reset;
    }

    /// Returns the tracker state to save.
    ///
    /// Own characters, the local player first, are saved if enabled in the settings.
    pub fn current_settings(&self) -> (r: TrackerState)
        ensures
            r.settings == self.settings,
            r.builds.entries@ == self.builds.entries@,
            r.builds.display_notes == self.builds.display_notes,
            r.builds.filter_prof == self.builds.filter_prof,
            !self.settings.save_chars ==> r.own_chars@.len() == 0,
            self.settings.save_chars ==> {
                let own = own_entries(self.players@, self.cache@);
                &&& r.own_chars@.len() == own.len()
                &&& forall|k: int| 0 <= k < own.len() ==> saved_from(#[trigger] r.own_chars@[k], own[k])
            },
    {
        let mut own_chars: Vec<SettingsEntry> = Vec::new();
        if self.settings.save_chars {
            if let Some(entry) = self.get_self() {
                own_chars.push(SettingsEntry::from_entry(entry.duplicate()));
            }
            let ghost first = own_chars@.len();
            let ghost own = own_entries(self.players@, self.cache@);
            proof { lemma_index_of_bounds(self.players@, 0, Seq::empty()); }
            let mut i: usize = 0;
            while i < self.cache.len()
                invariant
                    i <= self.cache.len(),
                    own == own_entries(self.players@, self.cache@),
                    own.len() == first + self.cache@.len(),
                    first == (if index_of_self(self.players@) is Some { 1int } else { 0int }),
                    own_chars@.len() == first + i,
                    forall|k: int| 0 <= k < first + i ==> saved_from(#[trigger] own_chars@[k], own[k]),
            decreases self.cache.len() - i,
            {
                own_chars.push(SettingsEntry::from_entry(self.cache[i].duplicate()));
                assert(own[first + i] == self.cache@[i as int]);
                i = i + 1;
            }
        }
        TrackerState { settings: self.settings, own_chars, builds: self.builds.current_settings() }
    }

    /// Loads a saved tracker state.
    ///
    /// Own characters are restored into the cache if enabled in the loaded settings.
    pub fn load_settings(&mut self, loaded: TrackerState)
        ensures
            final(self).settings == loaded.settings,
            final(self).players@ == old(self).players@,
            final(self).builds.entries@ == loaded.builds.entries@,
            final(self).builds.display_notes == loaded.builds.display_notes,
            final(self).builds.filter_prof == loaded.builds.filter_prof,
            !loaded.settings.save_chars ==> final(self).cache@ == old(self).cache@,
            loaded.settings.save_chars ==> exists|restored: Seq<TrackerEntry>| {
                &&& restored.len() == loaded.own_chars@.len()
                &&& forall|k: int| 0 <= k < restored.len() ==> restored_from(loaded.own_chars@[k], #[trigger] restored[k])
                &&& final(self).cache@ == cache_stored_all(old(self).cache@, restored)
            },
    {
        let TrackerState { settings, own_chars, builds } = loaded;
        self.settings = settings;
        if self.settings.save_chars {
            let mut entries: Vec<TrackerEntry> = Vec::new();
            let ghost saved = own_chars@;
            for entry in it: own_chars
                invariant
                    it.seq() == saved,
                    entries@.len() == it.index(),
                    forall|k: int| 0 <= k < entries@.len() ==> restored_from(saved[k], #[trigger] entries@[k]),
            {
                entries.push(entry.into_entry());
            }
            let ghost restored = entries@;
            self.cache_multiple(entries);
            assert(forall|k: int| 0 <= k < restored.len() ==> restored_from(loaded.own_chars@[k], #[trigger] restored[k]));
        }
        self.builds.load_settings(builds);
    }

    /// Adds a new tracked player, returning `true` if their buffs were restored from the cache.
    ///
    /// The buffs of an own character are restored from the cache, others start unknown.
    /// Players are sorted afterwards.
    pub fn add_player(&mut self, player: SquadPlayer) -> (cached: bool)
        ensures
            cached == (player.is_self && index_of_character(old(self).cache@, player.character@) is Some),
            player_added(*old(self), *final(self), player),
    {
        proof { lemma_index_of_bounds(self.cache@, 0, player.character@); }
        let found = if player.is_self { self.find_cached(player.character.as_str()) } else { None };
        let (data, cached) = match found {
            Some(i) => (self.cache.remove(i).data, true),
            None => (Buffs::new(), false),
        };
        let entry = TrackerEntry::new(player, data);
        let ghost added = entry;
        self.players.push(entry);
        self.refresh_sort();
        assert(self.players@ == sort_players(old(self).players@.push(added), old(self).sorting, old(self).reverse));
        cached
    }
}

/// Whether each character occurs at most once in the cache.
pub open spec fn characters_unique(cache: Seq<TrackerEntry>) -> bool {
    forall|a: int, b: int| 0 <= a < b < cache.len() ==> (#[trigger] cache[a]).player.character@ != (#[trigger] cache[b]).player.character@
}

/// Storing an entry in the cache keeps each character at most once, and the entry is found last.
pub proof fn law_cache_store_unique(cache: Seq<TrackerEntry>, entry: TrackerEntry)
    requires
        characters_unique(cache),
    ensures
        characters_unique(cache_stored(cache, entry)),
        index_of_character(cache_stored(cache, entry), entry.player.character@) == Some(cache_stored(cache, entry).len() - 1),
        cache_stored(cache, entry).last() == entry,
{
    let c = entry.player.character@;
    lemma_index_of_bounds(cache, 0, c);
    let rest = match index_of_character(cache, c) {
        Some(i) => cache.remove(i),
        None => cache,
    };
    assert(cache_stored(cache, entry) == rest.push(entry));
    assert forall|k: int| 0 <= k < rest.len() implies (#[trigger] rest[k]).player.character@ != c by {
        match index_of_character(cache, c) {
            Some(i) => {
                if k < i {
                    assert(rest[k] == cache[k]);
                    assert(cache[k].player.character@ != cache[i].player.character@);
                } else {
                    assert(rest[k] == cache[k + 1]);
                    assert(cache[i].player.character@ != cache[k + 1].player.character@);
                }
            },
            None => {
                if cache[k].player.character@ == c {
                    lemma_index_of_character_first(cache, c, k);
                }
            },
        }
    }
    let stored = rest.push(entry);
    assert forall|a: int, b: int| 0 <= a < b < stored.len() implies (#[trigger] stored[a]).player.character@ != (#[trigger] stored[b]).player.character@ by {
        if b == rest.len() {
            assert(stored[a] == rest[a]);
        } else {
            assert(stored[a] == rest[a] && stored[b] == rest[b]);
            match index_of_character(cache, c) {
                Some(i) => {
                    let ia = if a < i { a } else { a + 1 };
                    let ib = if b < i { b } else { b + 1 };
                    assert(rest[a] == cache[ia] && rest[b] == cache[ib]);
                },
                None => {},
            }
        }
    }
    assert forall|k: int| 0 <= k < stored.len() - 1 implies (#[trigger] stored[k]).player.character@ != c by {
        assert(stored[k] == rest[k]);
    }
    lemma_index_of_character(stored, c, stored.len() - 1);
}

/// A found character index comes first: no earlier entry holds the character.
proof fn lemma_index_of_character_first(s: Seq<TrackerEntry>, character: Seq<char>, k: int)
    requires
        0 <= k < s.len(),
        s[k].player.character@ == character,
    ensures
        index_of_character(s, character) matches Some(i) && i <= k,
    decreases k,
{
    if k > 0 && s[0].player.character@ != character {
        let rest = s.drop_first();
        assert(rest[k - 1] == s[k]);
        lemma_index_of_character_first(rest, character, k - 1);
    }
}

/// An own character leaving the squad and returning gets their buffs back.
pub proof fn law_cache_restores_buffs(left: Tracker, gone: Tracker, back: Tracker, id: usize, player: SquadPlayer)
    requires
        characters_unique(left.cache@),
        index_of_id(left.players@, id) matches Some(i)
            && left.players@[i].player.is_self
            && left.players@[i].player.character@ == player.character@,
        player.is_self,
        player_removed(left, gone, id),
        player_added(gone, back, player),
    ensures
        exists|e: TrackerEntry| {
            &&& back.players@ == sort_players(#[trigger] gone.players@.push(e), gone.sorting, gone.reverse)
            &&& e.player == player
            &&& e.data == left.players@[index_of_id(left.players@, id)->0].data
        },
{
    let i = index_of_id(left.players@, id)->0;
    law_cache_store_unique(left.cache@, left.players@[i]);
}

} // verus!
