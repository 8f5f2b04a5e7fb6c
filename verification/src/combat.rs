//! Plugin driven by ArcDPS combat events, tracking squad members by the buff definitions.
//!
//! Every player carries a food and an utility buff, ordered by the ids of the events that set
//! them. Buffs with a definition are known, buffs recognized by the name of their category
//! only are unknown.

use crate::arc_util::api::{BuffRemove, StateChange};
use crate::arc_util::game::{Profession, Specialization};
use crate::data::constants::{DIMINISHED, MALNOURISHED};
use crate::defs::{BuffDef, Definitions};
use crate::plugin::event::Agent;
use crate::reminder::Reminder;
use crate::text::str_eq;
use crate::tracking::player::{status_remove_applies, Buff, BuffStatus, Food, Player, Utility};
use crate::tracking::squad::{account_name, strip_account};
use vstd::prelude::*;

verus! {

/// The information of a combat event the plugin reads.
#[derive(Debug, Clone, Copy, PartialEq, Eq, Structural)]
pub struct CombatEvent {
    /// Timestamp of the event (ms).
    pub time: u64,
    /// Id of the source agent.
    pub src_agent: usize,
    /// Id of the destination agent; the new subgroup on combat enter.
    pub dst_agent: usize,
    /// Id of the skill or buff.
    pub skill_id: u32,
    /// Whether the event is about a buff (non-zero).
    pub buff: u8,
    /// Damage dealt by a buff.
    pub buff_dmg: i32,
    /// State change kind.
    pub is_statechange: StateChange,
    /// Buff remove kind.
    pub is_buff_remove: BuffRemove,
}

/// Index of the first player with the given id.
pub open spec fn index_of_player(s: Seq<Player>, id: usize) -> Option<int>
    decreases s.len(),
{
    if s.len() == 0 {
        None
    } else if s[0].id == id {
        Some(0)
    } else {
        match index_of_player(s.drop_first(), id) {
            Some(i) => Some(i + 1),
            None => None,
        }
    }
}

/// Index of the first local player.
pub open spec fn index_of_local(s: Seq<Player>) -> Option<int>
    decreases s.len(),
{
    if s.len() == 0 {
        None
    } else if s[0].is_self {
        Some(0)
    } else {
        match index_of_local(s.drop_first()) {
            Some(i) => Some(i + 1),
            None => None,
        }
    }
}

/// The index of a player is the first position holding their id.
proof fn lemma_index_of_player(s: Seq<Player>, id: usize, i: int)
    requires
        0 <= i <= s.len(),
        i < s.len() ==> s[i].id == id,
        forall|k: int| 0 <= k < i ==> (#[trigger] s[k]).id != id,
    ensures
        index_of_player(s, id) == (if i < s.len() { Some(i) } else { None::<int> }),
    decreases i,
{
    if i > 0 {
        let rest = s.drop_first();
        assert forall|k: int| 0 <= k < i - 1 implies (#[trigger] rest[k]).id != id by {
            assert(rest[k] == s[k + 1]);
        }
        lemma_index_of_player(rest, id, i - 1);
    }
}

/// The index of the local player is the first position holding them.
proof fn lemma_index_of_local(s: Seq<Player>, i: int)
    requires
        0 <= i <= s.len(),
        i < s.len() ==> s[i].is_self,
        forall|k: int| 0 <= k < i ==> !(#[trigger] s[k]).is_self,
    ensures
        index_of_local(s) == (if i < s.len() { Some(i) } else { None::<int> }),
    decreases i,
{
    if i > 0 {
        let rest = s.drop_first();
        assert forall|k: int| 0 <= k < i - 1 implies !(#[trigger] rest[k]).is_self by {
            assert(rest[k] == s[k + 1]);
        }
        lemma_index_of_local(rest, i - 1);
    }
}

/// Whether the food state calls for a reminder: no food or Malnourished.
pub open spec fn food_missing(state: BuffStatus<Food>) -> bool {
    state == BuffStatus::<Food>::Empty || state == BuffStatus::Known(Food(MALNOURISHED))
        || state == BuffStatus::<Food>::Unknown(MALNOURISHED)
}

/// Whether the utility state calls for a reminder: no utility or Diminished.
pub open spec fn util_missing(state: BuffStatus<Utility>) -> bool {
    state == BuffStatus::<Utility>::Empty || state == BuffStatus::Known(Utility(DIMINISHED))
        || state == BuffStatus::<Utility>::Unknown(DIMINISHED)
}

/// The player with unset buffs set to none by the event `event_id`.
pub open spec fn unset_player(p: Player, event_id: u64) -> Player {
    Player {
        food: if p.food.state == BuffStatus::<Food>::Unset { p.food.after_update(BuffStatus::Empty, event_id) } else { p.food },
        util: if p.util.state == BuffStatus::<Utility>::Unset { p.util.after_update(BuffStatus::Empty, event_id) } else { p.util },
        ..p
    }
}

/// The players with the combat state of the player `id` changed, moving them to `subgroup` if given.
pub open spec fn combat_set(players: Seq<Player>, id: usize, combat: bool, subgroup: Option<usize>) -> Seq<Player> {
    match index_of_player(players, id) {
        Some(i) => players.update(i, Player {
            combat,
            subgroup: match subgroup {
                Some(sub) => sub,
                None => players[i].subgroup,
            },
            ..players[i]
        }),
        None => players,
    }
}

/// The players without the first player `id`.
pub open spec fn player_gone(players: Seq<Player>, id: usize) -> Seq<Player> {
    match index_of_player(players, id) {
        Some(i) => players.remove(i),
        None => players,
    }
}

/// Whether `p` is the player joining the squad in a tracking change.
///
/// The account name loses a leading `:`, the player starts out of combat with unset buffs.
pub open spec fn joined_player(
    p: Player,
    id: usize,
    character: Seq<char>,
    account: Seq<char>,
    prof: u32,
    elite: u32,
    team: u16,
    is_self: u32,
) -> bool {
    &&& p.id == id
    &&& p.character@ == character
    &&& p.account@ == account_name(account)
    &&& p.is_self == (is_self != 0)
    &&& p.profession.code() == prof || (p.profession == Profession::Unknown)
    &&& forall|v: Profession| #[trigger] v.code() == prof ==> p.profession == v
    &&& p.elite.code() == elite || (p.elite == Specialization::Unknown)
    &&& forall|v: Specialization| #[trigger] v.code() == elite ==> p.elite == v
    &&& p.subgroup == team
    &&& !p.combat
    &&& p.food == (Buff::<Food> { state: BuffStatus::Unset, event_id: 0 })
    &&& p.util == (Buff::<Utility> { state: BuffStatus::Unset, event_id: 0 })
}

/// The plugin state.
#[derive(Debug)]
pub struct Plugin {
    /// Buff definitions.
    pub defs: Definitions,
    /// Reminder settings and triggers.
    pub reminder: Reminder,
    /// Tracked squad members.
    pub players: Vec<Player>,
    /// Target id of the current encounter.
    pub encounter: Option<usize>,
}

/// Whether the local player can be reminded in an encounter with the given target:
/// during an encounter, with a boss target if restricted to bosses.
pub open spec fn can_remind_in(defs: Definitions, r: Reminder, encounter: Option<usize>) -> bool {
    match encounter {
        Some(target) => !r.settings.only_bosses || (target <= u32::MAX && defs.boss_ids().contains(target as u32)),
        None => false,
    }
}

/// The food trigger after checking the local player among `players` for missing food.
pub open spec fn food_checked(defs: Definitions, r: Reminder, players: Seq<Player>, encounter: Option<usize>, now: u64) -> Option<u64> {
    match index_of_local(players) {
        Some(i) => if can_remind_in(defs, r, encounter) && food_missing(players[i].food.state) && r.settings.food {
            Some(now)
        } else {
            r.food_trigger
        },
        None => r.food_trigger,
    }
}

/// The utility trigger after checking the local player among `players` for missing utility.
pub open spec fn util_checked(defs: Definitions, r: Reminder, players: Seq<Player>, encounter: Option<usize>, now: u64) -> Option<u64> {
    match index_of_local(players) {
        Some(i) => if can_remind_in(defs, r, encounter) && util_missing(players[i].util.state) && r.settings.util {
            Some(now)
        } else {
            r.util_trigger
        },
        None => r.util_trigger,
    }
}

/// Whether `after` is `before` with the given players, encounter and food & utility triggers.
pub open spec fn plugin_is(
    before: Plugin,
    after: Plugin,
    players: Seq<Player>,
    encounter: Option<usize>,
    food: Option<u64>,
    util: Option<u64>,
) -> bool {
    &&& after.defs == before.defs
    &&& after.players@ == players
    &&& after.encounter == encounter
    &&& after.reminder.food_trigger == food
    &&& after.reminder.util_trigger == util
    &&& after.reminder.custom_triggers@ == before.reminder.custom_triggers@
    &&& after.reminder.settings == before.reminder.settings
    &&& after.reminder.encounter == before.reminder.encounter
}

/// Whether `after` is `before` unchanged in what the contracts speak of.
pub open spec fn unchanged(before: Plugin, after: Plugin) -> bool {
    plugin_is(before, after, before.players@, before.encounter, before.reminder.food_trigger, before.reminder.util_trigger)
}

/// Players and food & utility triggers after the buff `buff_id` named `name` was applied to the
/// player `player_id` by the event `event_id`, at the clock time `now`.
///
/// Becoming Malnourished or Diminished reminds the local player, if enabled.
pub open spec fn applied(
    before: Plugin,
    player_id: usize,
    buff_id: u32,
    name: Option<&str>,
    event_id: u64,
    now: u64,
) -> (Seq<Player>, Option<u64>, Option<u64>) {
    let players = before.players@;
    let r = before.reminder;
    match index_of_player(players, player_id) {
        None => (players, r.food_trigger, r.util_trigger),
        Some(i) => {
            let p = players[i];
            if before.defs.buffs().contains_key(buff_id) {
                match before.defs.buffs()[buff_id] {
                    BuffDef::Food(data) => {
                        let changed = event_id > p.food.event_id && p.food.state != BuffStatus::Known(Food(data.id));
                        (
                            players.update(i, Player { food: p.food.after_update(BuffStatus::Known(Food(data.id)), event_id), ..p }),
                            if changed && r.settings.always_mal_dim && p.is_self && data.id == MALNOURISHED && r.settings.food {
                                Some(now)
                            } else {
                                r.food_trigger
                            },
                            r.util_trigger,
                        )
                    },
                    BuffDef::Util(data) => {
                        let changed = event_id > p.util.event_id;
                        (
                            players.update(i, Player { util: p.util.after_update(BuffStatus::Known(Utility(data.id)), event_id), ..p }),
                            r.food_trigger,
                            if changed && r.settings.always_mal_dim && p.is_self && data.id == DIMINISHED && r.settings.util {
                                Some(now)
                            } else {
                                r.util_trigger
                            },
                        )
                    },
                    BuffDef::Ignore(_) => (players, r.food_trigger, r.util_trigger),
                }
            } else if name matches Some(n) && n@ == "Nourishment"@ {
                (
                    players.update(i, Player { food: p.food.after_update(BuffStatus::Unknown(buff_id), event_id), ..p }),
                    r.food_trigger,
                    r.util_trigger,
                )
            } else if name matches Some(n) && n@ == "Enhancement"@ {
                (
                    players.update(i, Player { util: p.util.after_update(BuffStatus::Unknown(buff_id), event_id), ..p }),
                    r.food_trigger,
                    r.util_trigger,
                )
            } else {
                (players, r.food_trigger, r.util_trigger)
            }
        },
    }
}

/// The player after removing the food `food` (unknown if `None`) by the event `event_id`.
pub open spec fn food_removed(p: Player, food: Option<Food>, event_id: u64) -> Player {
    Player {
        food: if status_remove_applies(food, p.food.state) { p.food.after_update(BuffStatus::Empty, event_id) } else { p.food },
        ..p
    }
}

/// The player after removing the utility `util` (unknown if `None`) by the event `event_id`.
pub open spec fn util_removed(p: Player, util: Option<Utility>, event_id: u64) -> Player {
    Player {
        util: if status_remove_applies(util, p.util.state) { p.util.after_update(BuffStatus::Empty, event_id) } else { p.util },
        ..p
    }
}

/// Players and food & utility triggers after the food `food` (unknown if `None`) was removed
/// from the player at index `i`; the local player running out during an encounter is checked.
pub open spec fn food_remove_result(before: Plugin, i: int, food: Option<Food>, event_id: u64, now: u64) -> (Seq<Player>, Option<u64>, Option<u64>) {
    let p = before.players@[i];
    let r = before.reminder;
    let players = before.players@.update(i, food_removed(p, food, event_id));
    let changed = status_remove_applies(food, p.food.state) && event_id > p.food.event_id;
    (
        players,
        if changed && r.settings.during_encounter && p.is_self {
            food_checked(before.defs, r, players, before.encounter, now)
        } else {
            r.food_trigger
        },
        r.util_trigger,
    )
}

/// Players and food & utility triggers after the utility `util` (unknown if `None`) was removed
/// from the player at index `i`; the local player running out during an encounter is checked.
pub open spec fn util_remove_result(before: Plugin, i: int, util: Option<Utility>, event_id: u64, now: u64) -> (Seq<Player>, Option<u64>, Option<u64>) {
    let p = before.players@[i];
    let r = before.reminder;
    let players = before.players@.update(i, util_removed(p, util, event_id));
    let changed = status_remove_applies(util, p.util.state) && event_id > p.util.event_id;
    (
        players,
        r.food_trigger,
        if changed && r.settings.during_encounter && p.is_self {
            util_checked(before.defs, r, players, before.encounter, now)
        } else {
            r.util_trigger
        },
    )
}

/// Players and food & utility triggers after the buff `buff_id` named `name` was removed from the
/// player `player_id` by the event `event_id`, at the clock time `now`.
pub open spec fn removed(
    before: Plugin,
    player_id: usize,
    buff_id: u32,
    name: Option<&str>,
    event_id: u64,
    now: u64,
) -> (Seq<Player>, Option<u64>, Option<u64>) {
    let players = before.players@;
    let r = before.reminder;
    match index_of_player(players, player_id) {
        None => (players, r.food_trigger, r.util_trigger),
        Some(i) => if before.defs.buffs().contains_key(buff_id) {
            match before.defs.buffs()[buff_id] {
                BuffDef::Food(data) => food_remove_result(before, i, Some(Food(data.id)), event_id, now),
                BuffDef::Util(data) => util_remove_result(before, i, Some(Utility(data.id)), event_id, now),
                BuffDef::Ignore(_) => (players, r.food_trigger, r.util_trigger),
            }
        } else if name matches Some(n) && n@ == "Nourishment"@ {
            food_remove_result(before, i, None, event_id, now)
        } else if name matches Some(n) && n@ == "Enhancement"@ {
            util_remove_result(before, i, None, event_id, now)
        } else {
            (players, r.food_trigger, r.util_trigger)
        },
    }
}

/// Whether `after` is `before` after a squad tracking change with the agents `src` and `dst`.
///
/// A source with a profession adds the player described by both agents, one without removes
/// the player. Agents with an elite specialization are no tracking change.
pub open spec fn squad_changed(before: Plugin, after: Plugin, src: Agent, dst: Option<Agent>) -> bool {
    let r = before.reminder;
    if src.elite != 0 {
        unchanged(before, after)
    } else if src.prof != 0 {
        match (src.name, dst) {
            (Some(character), Some(d)) => match d.name {
                Some(account) => exists|p: Player| #[trigger] joined_player(p, src.id, character@, account@, d.prof, d.elite, d.team, d.is_self)
                    && plugin_is(before, after, before.players@.push(p), before.encounter, r.food_trigger, r.util_trigger),
                None => unchanged(before, after),
            },
            _ => unchanged(before, after),
        }
    } else {
        plugin_is(before, after, player_gone(before.players@, src.id), before.encounter, r.food_trigger, r.util_trigger)
    }
}

/// Whether `after` is `before` after the combat event `event` from `src` to `dst` with the id
/// `event_id`, at the clock time `now`.
pub open spec fn combat_handled(
    before: Plugin,
    after: Plugin,
    event: CombatEvent,
    src: Agent,
    dst: Option<Agent>,
    skill_name: Option<&str>,
    event_id: u64,
    now: u64,
) -> bool {
    let players = before.players@;
    let r = before.reminder;
    match event.is_statechange {
        StateChange::EnterCombat => plugin_is(before, after, combat_set(players, src.id, true, Some(event.dst_agent)),
            before.encounter, r.food_trigger, r.util_trigger),
        StateChange::ExitCombat => plugin_is(before, after, combat_set(players, src.id, false, None),
            before.encounter, r.food_trigger, r.util_trigger),
        StateChange::LogStart => {
            let unset = players.map_values(|p: Player| unset_player(p, event_id));
            let encounter = Some(event.src_agent);
            plugin_is(before, after, unset, encounter,
                if r.settings.encounter_start { food_checked(before.defs, r, unset, encounter, now) } else { r.food_trigger },
                if r.settings.encounter_start { util_checked(before.defs, r, unset, encounter, now) } else { r.util_trigger })
        },
        StateChange::LogEnd => plugin_is(before, after, players, None,
            if r.settings.encounter_end { food_checked(before.defs, r, players, before.encounter, now) } else { r.food_trigger },
            if r.settings.encounter_end { util_checked(before.defs, r, players, before.encounter, now) } else { r.util_trigger }),
        _ => if event.is_buff_remove == BuffRemove::NoRemove {
            match dst {
                Some(d) => if event.buff != 0 && event.buff_dmg == 0 {
                    let res = applied(before, d.id, event.skill_id, skill_name, event_id, now);
                    plugin_is(before, after, res.0, before.encounter, res.1, res.2)
                } else {
                    unchanged(before, after)
                },
                None => unchanged(before, after),
            }
        } else {
            let res = removed(before, src.id, event.skill_id, skill_name, event_id, now);
            plugin_is(before, after, res.0, before.encounter, res.1, res.2)
        },
    }
}

impl Plugin {
    /// Creates a new plugin with the default definitions, no players and no encounter.
    pub fn new() -> (r: Self)
        ensures
            exists|data: crate::data::structs::DefData| #[trigger] crate::data::defaults::is_default_data(data)
                && r.defs.buffs() == crate::defs::with_ignored(crate::defs::with_util(crate::defs::with_food(
                    Map::empty(), data.food@), data.utility@), data.ignore@)
                && r.defs.boss_ids() == data.bosses@,
            r.players@.len() == 0,
            r.encounter is None,
            r.reminder.food_trigger is None,
            r.reminder.util_trigger is None,
            r.reminder.custom_triggers@ == Map::<u32, u64>::empty(),
            r.reminder.encounter is None,
            r.reminder.settings.food && r.reminder.settings.util,
            r.reminder.settings.only_bosses && r.reminder.settings.encounter_start,
            r.reminder.settings.encounter_end && r.reminder.settings.during_encounter,
            r.reminder.settings.always_mal_dim,
    {
        Self { defs: Definitions::with_defaults(), reminder: Reminder::new(), players: Vec::new(), encounter: None }
    }

    /// Returns the index of the tracked player with the given id.
    pub fn find_player(&self, id: usize) -> (r: Option<usize>)
        ensures
            match r {
                Some(i) => index_of_player(self.players@, id) == Some(i as int) && i < self.players@.len(),
                None => index_of_player(self.players@, id) is None,
            },
    {
        let mut i: usize = 0;
        while i < self.players.len()
            invariant
                i <= self.players.len(),
                forall|k: int| 0 <= k < i ==> (#[trigger] self.players@[k]).id != id,
            decreases self.players.len() - i,
        {
            if self.players[i].id == id {
                proof { lemma_index_of_player(self.players@, id, i as int); }
                return Some(i);
            }
            i = i + 1;
        }
        proof { lemma_index_of_player(self.players@, id, i as int); }
        None
    }

    /// Returns the index of the local player.
    pub fn find_local(&self) -> (r: Option<usize>)
        ensures
            match r {
                Some(i) => index_of_local(self.players@) == Some(i as int) && i < self.players@.len(),
                None => index_of_local(self.players@) is None,
            },
    {
        let mut i: usize = 0;
        while i < self.players.len()
            invariant
                i <= self.players.len(),
                forall|k: int| 0 <= k < i ==> !(#[trigger] self.players@[k]).is_self,
            decreases self.players.len() - i,
        {
            if self.players[i].is_self {
                proof { lemma_index_of_local(self.players@, i as int); }
                return Some(i);
            }
            i = i + 1;
        }
        proof { lemma_index_of_local(self.players@, i as int); }
        None
    }

    /// Whether the local player can be reminded.
    pub fn can_remind(&self) -> (r: bool)
        ensures
            r == can_remind_in(self.defs, self.reminder, self.encounter),
    {
        match self.encounter {
            Some(target) => if !self.reminder.settings.only_bosses {
                true
            } else if target <= u32::MAX as usize {
                self.defs.is_boss(target as u32)
            } else {
                false
            },
            None => false,
        }
    }

    /// Checks for missing food on the local player.
    pub fn check_self_food(&mut self, now: u64)
        ensures
            plugin_is(*old(self), *final(self), old(self).players@, old(self).encounter,
                food_checked(old(self).defs, old(self).reminder, old(self).players@, old(self).encounter, now),
                old(self).reminder.util_trigger),
    {
        if let Some(i) = self.find_local() {
            let missing = match self.players[i].food.state {
                BuffStatus::Empty => true,
                BuffStatus::Known(Food(id)) => id == MALNOURISHED,
                BuffStatus::Unknown(id) => id == MALNOURISHED,
                BuffStatus::Unset => false,
            };
            if self.can_remind() && missing {
                self.reminder.trigger_food(now);
            }
        }
    }

    /// Checks for missing utility on the local player.
    pub fn check_self_util(&mut self, now: u64)
        ensures
            plugin_is(*old(self), *final(self), old(self).players@, old(self).encounter,
                old(self).reminder.food_trigger,
                util_checked(old(self).defs, old(self).reminder, old(self).players@, old(self).encounter, now)),
    {
        if let Some(i) = self.find_local() {
            let missing = match self.players[i].util.state {
                BuffStatus::Empty => true,
                BuffStatus::Known(Utility(id)) => id == DIMINISHED,
                BuffStatus::Unknown(id) => id == DIMINISHED,
                BuffStatus::Unset => false,
            };
            if self.can_remind() && missing {
                self.reminder.trigger_util(now);
            }
        }
    }

    /// Sets the combat state of the player `id`, moving them to `subgroup` if given.
    fn set_combat(&mut self, id: usize, combat: bool, subgroup: Option<usize>)
        requires
            !combat ==> subgroup is None,
        ensures
            plugin_is(*old(self), *final(self), combat_set(old(self).players@, id, combat, subgroup),
                old(self).encounter, old(self).reminder.food_trigger, old(self).reminder.util_trigger),
    {
        if let Some(i) = self.find_player(id) {
            if combat {
                self.players[i].enter_combat(subgroup);
            } else {
                self.players[i].exit_combat();
            }
        }
    }

    /// Handles the start of an encounter with the target `target_id`.
    ///
    /// Unset buffs are set to none, as initial buffs are reported right after.
    fn log_start(&mut self, target_id: usize, event_id: u64, now: u64)
        ensures
            ({
                let unset = old(self).players@.map_values(|p: Player| unset_player(p, event_id));
                let r = old(self).reminder;
                let encounter = Some(target_id);
                plugin_is(*old(self), *final(self), unset, encounter,
                    if r.settings.encounter_start { food_checked(old(self).defs, r, unset, encounter, now) } else { r.food_trigger },
                    if r.settings.encounter_start { util_checked(old(self).defs, r, unset, encounter, now) } else { r.util_trigger })
            }),
    {
        let mut players: Vec<Player> = Vec::new();
        std::mem::swap(&mut players, &mut self.players);
        let ghost start = players@;
        let n = players.len();
        for i in 0..n
            invariant
                n == players.len(),
                start.len() == n,
                forall|k: int| 0 <= k < i ==> #[trigger] players@[k] == unset_player(start[k], event_id),
                forall|k: int| i <= k < n ==> #[trigger] players@[k] == start[k],
        {
            players[i].unset_to_none(event_id);
        }
        assert(players@ == start.map_values(|p: Player| unset_player(p, event_id)));
        self.players = players;
        self.encounter = Some(target_id);
        if self.reminder.settings.encounter_start {
            self.check_self_food(now);
            self.check_self_util(now);
        }
    }

    /// Handles the end of an encounter.
    fn log_end(&mut self, now: u64)
        ensures
            ({
                let r = old(self).reminder;
                let players = old(self).players@;
                plugin_is(*old(self), *final(self), players, None,
                    if r.settings.encounter_end { food_checked(old(self).defs, r, players, old(self).encounter, now) } else { r.food_trigger },
                    if r.settings.encounter_end { util_checked(old(self).defs, r, players, old(self).encounter, now) } else { r.util_trigger })
            }),
    {
        if self.reminder.settings.encounter_end {
            self.check_self_food(now);
            self.check_self_util(now);
        }
        self.encounter = None;
    }

    /// Handles the buff `buff_id` named `buff_name` applied to the player `player_id`.
    pub fn buff_apply(&mut self, player_id: usize, buff_id: u32, buff_name: Option<&str>, event_id: u64, now: u64)
        ensures
            ({
                let res = applied(*old(self), player_id, buff_id, buff_name, event_id, now);
                plugin_is(*old(self), *final(self), res.0, old(self).encounter, res.1, res.2)
            }),
    {
        if let Some(i) = self.find_player(player_id) {
            let is_self = self.players[i].is_self;
            match self.defs.get_buff(buff_id) {
                Some(BuffDef::Food(food)) => {
                    let id = food.id;
                    if self.players[i].apply_food(Food(id), event_id) {
                        if self.reminder.settings.always_mal_dim && is_self && id == MALNOURISHED {
                            self.reminder.trigger_food(now);
                        }
                    }
                },
                Some(BuffDef::Util(util)) => {
                    let id = util.id;
                    if self.players[i].apply_util(Utility(id), event_id) {
                        if self.reminder.settings.always_mal_dim && is_self && id == DIMINISHED {
                            self.reminder.trigger_util(now);
                        }
                    }
                },
                Some(BuffDef::Ignore(_)) => {},
                None => {
                    if let Some(name) = buff_name {
                        if str_eq(name, "Nourishment") {
                            self.players[i].apply_unknown_food(buff_id, event_id);
                        } else if str_eq(name, "Enhancement") {
                            self.players[i].apply_unknown_util(buff_id, event_id);
                        }
                    }
                },
            }
        }
    }

    /// Removes the food `food` (unknown if `None`) from the player at index `i`.
    fn remove_food_at(&mut self, i: usize, food: Option<Food>, event_id: u64, now: u64)
        requires
            i < old(self).players@.len(),
        ensures
            ({
                let res = food_remove_result(*old(self), i as int, food, event_id, now);
                plugin_is(*old(self), *final(self), res.0, old(self).encounter, res.1, res.2)
            }),
    {
        let is_self = self.players[i].is_self;
        if self.players[i].remove_food(food, event_id) {
            if self.reminder.settings.during_encounter && is_self {
                self.check_self_food(now);
            }
        }
    }

    /// Removes the utility `util` (unknown if `None`) from the player at index `i`.
    fn remove_util_at(&mut self, i: usize, util: Option<Utility>, event_id: u64, now: u64)
        requires
            i < old(self).players@.len(),
        ensures
            ({
                let res = util_remove_result(*old(self), i as int, util, event_id, now);
                plugin_is(*old(self), *final(self), res.0, old(self).encounter, res.1, res.2)
            }),
    {
        let is_self = self.players[i].is_self;
        if self.players[i].remove_util(util, event_id) {
            if self.reminder.settings.during_encounter && is_self {
                self.check_self_util(now);
            }
        }
    }

    /// Handles the buff `buff_id` named `buff_name` removed from the player `player_id`.
    pub fn buff_remove(&mut self, player_id: usize, buff_id: u32, buff_name: Option<&str>, event_id: u64, now: u64)
        ensures
            ({
                let res = removed(*old(self), player_id, buff_id, buff_name, event_id, now);
                plugin_is(*old(self), *final(self), res.0, old(self).encounter, res.1, res.2)
            }),
    {
        if let Some(i) = self.find_player(player_id) {
            let (kind, id): (u8, u32) = match self.defs.get_buff(buff_id) {
                Some(BuffDef::Food(food)) => (1, food.id),
                Some(BuffDef::Util(util)) => (2, util.id),
                Some(BuffDef::Ignore(_)) => (0, 0),
                None => (3, 0),
            };
            if kind == 1 {
                self.remove_food_at(i, Some(Food(id)), event_id, now);
            } else if kind == 2 {
                self.remove_util_at(i, Some(Utility(id)), event_id, now);
            } else if kind == 3 {
                if let Some(name) = buff_name {
                    if str_eq(name, "Nourishment") {
                        self.remove_food_at(i, None, event_id, now);
                    } else if str_eq(name, "Enhancement") {
                        self.remove_util_at(i, None, event_id, now);
                    }
                }
            }
        }
    }

    /// Handles a squad tracking change with the agents `src` and `dst`.
    fn tracking_change(&mut self, src: &Agent, dst: Option<Agent>)
        ensures
            squad_changed(*old(self), *final(self), *src, dst),
    {
        if src.elite == 0 {
            if src.prof != 0 {
                if let (Some(character), Some(dst)) = (src.name, dst) {
                    if let Some(account) = dst.name {
                        let account = strip_account(account);
                        let player = Player::new(
                            src.id,
                            character,
                            account.as_str(),
                            dst.is_self != 0,
                            Profession::from_primitive(dst.prof),
                            Specialization::from_primitive(dst.elite),
                            dst.team as usize,
                        );
                        let ghost joined = player;
                        self.players.push(player);
                        assert(joined_player(joined, src.id, src.name.unwrap()@, dst.name.unwrap()@, dst.prof, dst.elite, dst.team, dst.is_self));
                    }
                }
            } else {
                if let Some(i) = self.find_player(src.id) {
                    self.players.remove(i);
                }
            }
        }
    }

    /// Handles a combat event.
    ///
    /// Events without source are ignored, events without combat data are squad tracking changes.
    /// `now` is the current time of a monotonic clock (ms).
    pub fn combat_event(
        &mut self,
        event: Option<CombatEvent>,
        src: Option<Agent>,
        dest: Option<Agent>,
        skill_name: Option<&str>,
        event_id: u64,
        _revision: u64,
        now: u64,
    )
        ensures
            match src {
                None => unchanged(*old(self), *final(self)),
                Some(s) => match event {
                    Some(e) => combat_handled(*old(self), *final(self), e, s, dest, skill_name, event_id, now),
                    None => squad_changed(*old(self), *final(self), s, dest),
                },
            },
    {
        if let Some(src) = src {
            if let Some(event) = event {
                match event.is_statechange {
                    StateChange::EnterCombat => self.set_combat(src.id, true, Some(event.dst_agent)),
                    StateChange::ExitCombat => self.set_combat(src.id, false, None),
                    StateChange::LogStart => self.log_start(event.src_agent, event_id, now),
                    StateChange::LogEnd => self.log_end(now),
                    _ => {
                        if event.is_buff_remove == BuffRemove::NoRemove {
                            if event.buff != 0 && event.buff_dmg == 0 {
                                if let Some(dest) = dest {
                                    self.buff_apply(dest.id, event.skill_id, skill_name, event_id, now);
                                }
                            }
                        } else {
                            self.buff_remove(src.id, event.skill_id, skill_name, event_id, now);
                        }
                    },
                }
            } else {
                self.tracking_change(&src, dest);
            }
        }
    }
}

/// Starting an encounter with an event later than the last buff update leaves no buff unset,
/// and keeps every buff that was set.
pub proof fn law_log_start_sets_unset(p: Player, event_id: u64)
    requires
        event_id > p.food.event_id,
        event_id > p.util.event_id,
    ensures
        unset_player(p, event_id).food.state != BuffStatus::<Food>::Unset,
        unset_player(p, event_id).util.state != BuffStatus::<Utility>::Unset,
        p.food.state != BuffStatus::<Food>::Unset ==> unset_player(p, event_id).food == p.food,
        p.util.state != BuffStatus::<Utility>::Unset ==> unset_player(p, event_id).util == p.util,
{
}

/// Without an encounter the local player is never reminded by a check.
pub proof fn law_no_check_outside_encounter(defs: Definitions, r: Reminder, players: Seq<Player>, now: u64)
    ensures
        food_checked(defs, r, players, None, now) == r.food_trigger,
        util_checked(defs, r, players, None, now) == r.util_trigger,
{
}

/// A buff applied to a tracked player other than the local player never triggers a reminder,
/// not even Malnourished or Diminished.
pub proof fn law_apply_to_other_no_reminder(before: Plugin, player_id: usize, buff_id: u32, name: Option<&str>, event_id: u64, now: u64)
    requires
        index_of_player(before.players@, player_id) matches Some(i) && !before.players@[i].is_self,
    ensures
        applied(before, player_id, buff_id, name, event_id, now).1 == before.reminder.food_trigger,
        applied(before, player_id, buff_id, name, event_id, now).2 == before.reminder.util_trigger,
{
}

/// Removing a buff from a tracked player other than the local player never triggers a reminder.
pub proof fn law_remove_from_other_no_reminder(before: Plugin, player_id: usize, buff_id: u32, name: Option<&str>, event_id: u64, now: u64)
    requires
        index_of_player(before.players@, player_id) matches Some(i) && !before.players@[i].is_self,
    ensures
        removed(before, player_id, buff_id, name, event_id, now).1 == before.reminder.food_trigger,
        removed(before, player_id, buff_id, name, event_id, now).2 == before.reminder.util_trigger,
{
}

} // verus!
