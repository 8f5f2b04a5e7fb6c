//! Handling of combat events from the area stats.

use super::Plugin;
use crate::arc_util::api::{Activation, BuffRemove};
use crate::data::constants::{DIMINISHED, MALNOURISHED, REINFORCED};
use crate::data::{definition_of, BuffKind, DefinitionEntry, DefinitionKind};
use crate::reminder::custom::CustomReminder;
use crate::reminder::{custom_of, Encounter, Reminder};
use crate::reminder::event::{all_checked, all_checked_custom, food_missing, pending_check_updated, util_missing};
use crate::tracking::buff::{custom_or_default, remove_applies, unset_to_empty, BuffState, Buffs, TrackedBuff};
use crate::tracking::{index_of_account, index_of_id, index_of_self, player_added, player_removed, Tracker};
use crate::tracking::sorting::{sort_players, Sorting};
use crate::tracking::squad::{tracking_player, SquadPlayer, TrackerEntry};
use vstd::prelude::*;

verus! {

broadcast use {vstd::std_specs::btree::group_btree_axioms, vstd::laws_cmp::group_laws_cmp};

/// Kind of a combat event, as far as the plugin tells them apart.
#[derive(Debug, Clone, Copy, PartialEq, Eq, Structural)]
pub enum EventKind {
    /// Logging has started.
    LogStart,
    /// The target of the log changed.
    LogNpcUpdate,
    /// Logging has ended.
    LogEnd,
    /// Regular event, not a state change.
    Normal,
    /// Delayed event from the API.
    ApiDelayed,
    /// Buff present when logging started.
    BuffInitial,
    /// Any other state change.
    Other,
}

/// The information of a combat event the plugin reads.
#[derive(Debug, Clone, Copy, PartialEq, Eq, Structural)]
pub struct CombatEvent {
    /// Timestamp of the event (ms).
    pub time: u64,
    /// Id of the source agent.
    pub src_agent: usize,
    /// Id of the skill or buff.
    pub skill_id: u32,
    /// Whether the event is about a buff (non-zero).
    pub buff: u8,
    /// Damage dealt by a buff.
    pub buff_dmg: i32,
    /// State change kind.
    pub is_statechange: EventKind,
    /// Activation kind.
    pub is_activation: Activation,
    /// Buff remove kind.
    pub is_buff_remove: BuffRemove,
}

/// The information of an agent the plugin reads.
#[derive(Debug, Clone, Copy)]
pub struct Agent<'a> {
    /// Id of the agent.
    pub id: usize,
    /// Name of the agent.
    pub name: Option<&'a str>,
    /// Profession code; zero for a player leaving the squad.
    pub prof: u32,
    /// Elite specialization code; zero marks a squad tracking change.
    pub elite: u32,
    /// Team (subgroup) of the agent.
    pub team: u16,
    /// Whether the agent is the local player (non-zero).
    pub is_self: u32,
}

/// Role of a user in the squad, as reported by unofficial extras.
#[derive(Debug, Clone, Copy, PartialEq, Eq, Structural)]
pub enum UserRole {
    SquadLeader,
    Lieutenant,
    Member,
    Invited,
    Applied,
    /// The user left the squad.
    NoRole,
    Invalid,
}

/// A user of a squad update from unofficial extras.
#[derive(Debug, Clone, Copy)]
pub struct UserInfo<'a> {
    /// Account name of the user.
    pub account_name: Option<&'a str>,
    /// Role of the user.
    pub role: UserRole,
    /// Subgroup of the user, starting at zero.
    pub subgroup: u8,
}

/// Whether the role is that of a squad member.
pub open spec fn in_squad(role: UserRole) -> bool {
    role == UserRole::SquadLeader || role == UserRole::Lieutenant || role == UserRole::Member
}

/// The players after the squad update of one user: a member's subgroup is set, counted from one.
pub open spec fn subgroup_set(players: Seq<TrackerEntry>, user: UserInfo) -> Seq<TrackerEntry> {
    match user.account_name {
        Some(name) => if in_squad(user.role) {
            match index_of_account(players, name@) {
                Some(i) => players.update(i, TrackerEntry {
                    player: SquadPlayer { subgroup: (user.subgroup + 1) as usize, ..players[i].player },
                    ..players[i]
                }),
                None => players,
            }
        } else {
            players
        },
        None => players,
    }
}

/// The players after the squad updates of all users, in order.
pub open spec fn subgroups_set(players: Seq<TrackerEntry>, users: Seq<UserInfo>) -> Seq<TrackerEntry>
    decreases users.len(),
{
    if users.len() == 0 {
        players
    } else {
        subgroup_set(subgroups_set(players, users.drop_last()), users.last())
    }
}

/// Whether `after` is `before` after a squad tracking change with the agents `src` and `dst`.
///
/// A source with a profession adds the player described by both agents, one without removes
/// the player. Agents with an elite specialization are no tracking change.
pub open spec fn tracking_changed(before: Plugin, after: Plugin, src: Agent, dst: Option<Agent>) -> bool {
    &&& base_frame(before, after)
    &&& crate::reminder::event::same_triggers(before.reminder, after.reminder)
    &&& after.reminder.encounter == before.reminder.encounter
    &&& if src.elite != 0 {
        after.tracker.players@ == before.tracker.players@ && after.tracker.cache@ == before.tracker.cache@
    } else if src.prof != 0 {
        match (src.name, dst) {
            (Some(character), Some(d)) => match d.name {
                Some(account) => exists|p: SquadPlayer| #[trigger] tracking_player(p, src.id, character@, account@, d.prof, d.elite, d.team, d.is_self)
                    && player_added(before.tracker, after.tracker, p),
                None => after.tracker.players@ == before.tracker.players@ && after.tracker.cache@ == before.tracker.cache@,
            },
            _ => after.tracker.players@ == before.tracker.players@ && after.tracker.cache@ == before.tracker.cache@,
        }
    } else {
        player_removed(before.tracker, after.tracker, src.id)
    }
}

/// Whether `after` is `before` after handling the combat event `event` from `src` to `dst`,
/// before the pending check, at the clock time `now` on the map `map_id`.
pub open spec fn event_handled(
    before: Plugin,
    after: Plugin,
    event: CombatEvent,
    src: Agent,
    dst: Option<Agent>,
    skill_name: Option<&str>,
    now: u64,
    map_id: Option<u32>,
) -> bool {
    match event.is_statechange {
        EventKind::LogStart => log_started(before, after, event.src_agent, event.time),
        EventKind::LogNpcUpdate => log_updated(before, after, event.src_agent, event.time),
        EventKind::LogEnd => log_ended(before, after, now, map_id),
        EventKind::Normal | EventKind::ApiDelayed | EventKind::BuffInitial => if event.is_activation == Activation::NoActivation {
            match event.is_buff_remove {
                BuffRemove::NoRemove => match dst {
                    Some(d) => if event.buff != 0 && event.buff_dmg == 0 {
                        buff_applied(before, after, d.id, event.skill_id, skill_name, event.time, now)
                    } else {
                        after == before
                    },
                    None => after == before,
                },
                BuffRemove::All | BuffRemove::Manual => buff_removed(before, after, src.id, event.skill_id, skill_name, event.time, now, map_id),
                _ => after == before,
            }
        } else {
            after == before
        },
        EventKind::Other => after == before,
    }
}

/// How a buff is handled by the plugin.
#[derive(Debug, Clone, Copy, PartialEq, Eq, Structural)]
pub enum BuffClass {
    /// Buff of a custom reminder.
    Custom,
    /// Food buff.
    Food,
    /// Utility buff.
    Util,
    /// Any other buff, which is not tracked.
    Other,
}

/// How the buff `id` with the skill name `name` is handled.
///
/// Custom reminders take precedence over definitions. Buffs without definition are
/// recognized by the name of their category.
pub open spec fn buff_class(custom: Seq<CustomReminder>, defs: Seq<DefinitionEntry>, id: u32, name: Option<&str>) -> BuffClass {
    if custom_of(custom, id) is Some {
        BuffClass::Custom
    } else if id == REINFORCED {
        BuffClass::Other
    } else {
        match definition_of(defs, id) {
            Some(DefinitionKind::Food(_)) => BuffClass::Food,
            Some(DefinitionKind::Util(_)) => BuffClass::Util,
            Some(DefinitionKind::Ignore) => BuffClass::Other,
            None => if name matches Some(n) && n@ == "Nourishment"@ {
                BuffClass::Food
            } else if name matches Some(n) && n@ == "Enhancement"@ {
                BuffClass::Util
            } else {
                BuffClass::Other
            },
        }
    }
}

/// Whether `after` holds the entries of `before`, where only the buffs of entry `i` may differ.
pub open spec fn entry_data_changed(before: Seq<TrackerEntry>, after: Seq<TrackerEntry>, i: int) -> bool {
    &&& 0 <= i < before.len()
    &&& after.len() == before.len()
    &&& after[i].player == before[i].player
    &&& forall|k: int| 0 <= k < before.len() && k != i ==> after[k] == before[k]
}

/// The buffs `after` are `before` with food `id` applied at `time`.
pub open spec fn food_applied(before: Buffs, after: Buffs, id: u32, time: u64) -> bool {
    &&& after.food == before.food.after_update(BuffState::Applied(id), time, true)
    &&& after.util == before.util
    &&& after.custom@ == before.custom@
}

/// The buffs `after` are `before` with utility `id` applied at `time`.
pub open spec fn util_applied(before: Buffs, after: Buffs, id: u32, time: u64) -> bool {
    &&& after.util == before.util.after_update(BuffState::Applied(id), time, true)
    &&& after.food == before.food
    &&& after.custom@ == before.custom@
}

/// The buffs `after` are `before` with the custom buff `id` applied at `time`.
pub open spec fn custom_applied(before: Buffs, after: Buffs, id: u32, time: u64) -> bool {
    &&& after.custom@ == before.custom@.insert(id,
        custom_or_default(before.custom@, id).after_update(BuffState::Applied(()), time, true))
    &&& after.food == before.food
    &&& after.util == before.util
}

/// The food trigger after the local player got the buff `id`: Malnourished reminds if enabled.
pub open spec fn food_trigger_on_apply(r: Reminder, id: u32, now: u64) -> Option<u64> {
    if r.settings.always_mal_dim && id == MALNOURISHED && r.settings.food { Some(now) } else { r.food_trigger }
}

/// The utility trigger after the local player got the buff `id`: Diminished reminds if enabled.
pub open spec fn util_trigger_on_apply(r: Reminder, id: u32, now: u64) -> Option<u64> {
    if r.settings.always_mal_dim && id == DIMINISHED && r.settings.util { Some(now) } else { r.util_trigger }
}

/// Whether `after` differs from `before` at most in the tracked players and the reminder triggers.
pub open spec fn players_triggers_changed(before: Plugin, after: Plugin) -> bool {
    &&& plugin_frame(before, after)
    &&& after.reminder.encounter == before.reminder.encounter
}

/// Whether `after` differs from `before` at most in the tracked players, the reminder triggers
/// and the encounter.
pub open spec fn plugin_frame(before: Plugin, after: Plugin) -> bool {
    &&& base_frame(before, after)
    &&& after.tracker.cache@ == before.tracker.cache@
}

/// Whether `after` differs from `before` at most in the tracked and cached players, the
/// reminder triggers and the encounter.
pub open spec fn base_frame(before: Plugin, after: Plugin) -> bool {
    &&& after.extras == before.extras
    &&& after.defs@ == before.defs@
    &&& after.defs_state == before.defs_state
    &&& after.tracker_visible == before.tracker_visible
    &&& after.reset_confirm == before.reset_confirm
    &&& after.tracker.settings == before.tracker.settings
    &&& after.tracker.sorting == before.tracker.sorting
    &&& after.tracker.reverse == before.tracker.reverse
    &&& after.tracker.chars_reset == before.tracker.chars_reset
    &&& after.tracker.builds == before.tracker.builds
    &&& after.reminder.settings == before.reminder.settings
}

/// The players after changing the buffs of one of them, sorted again if sorted by `column`.
pub open spec fn resorted(before: Plugin, players: Seq<TrackerEntry>, changed: bool, column: Sorting) -> Seq<TrackerEntry> {
    if changed && before.tracker.sorting == column {
        sort_players(players, before.tracker.sorting, before.tracker.reverse)
    } else {
        players
    }
}

/// Whether `after` is `before` after the buff `buff_id` named `name` was applied to the player
/// `player_id` at `time`, at the clock time `now`.
pub open spec fn buff_applied(
    before: Plugin,
    after: Plugin,
    player_id: usize,
    buff_id: u32,
    name: Option<&str>,
    time: u64,
    now: u64,
) -> bool {
    &&& players_triggers_changed(before, after)
    &&& match index_of_id(before.tracker.players@, player_id) {
        None => after.tracker.players@ == before.tracker.players@
            && crate::reminder::event::same_triggers(before.reminder, after.reminder),
        Some(i) => {
            let entry = before.tracker.players@[i];
            let r = before.reminder;
            match buff_class(r.settings.custom@, before.defs@, buff_id, name) {
                BuffClass::Custom => {
                    &&& entry_data_changed(before.tracker.players@, after.tracker.players@, i)
                    &&& custom_applied(entry.data, after.tracker.players@[i].data, buff_id, time)
                    &&& crate::reminder::event::same_triggers(r, after.reminder)
                },
                BuffClass::Food => {
                    let changed = entry.data.food.accepts(time, true) && entry.data.food.state != BuffState::Applied(buff_id);
                    let notify = changed && entry.player.is_self;
                    exists|mid: Seq<TrackerEntry>| {
                        &&& #[trigger] entry_data_changed(before.tracker.players@, mid, i)
                        &&& food_applied(entry.data, mid[i].data, buff_id, time)
                        &&& after.tracker.players@ == resorted(before, mid, changed, Sorting::Food)
                        &&& after.reminder.food_trigger == (if notify { food_trigger_on_apply(r, buff_id, now) } else { r.food_trigger })
                        &&& after.reminder.util_trigger == (if notify { util_trigger_on_apply(r, buff_id, now) } else { r.util_trigger })
                        &&& after.reminder.custom_triggers@ == r.custom_triggers@
                    }
                },
                BuffClass::Util => {
                    let changed = entry.data.util.accepts(time, true);
                    let notify = changed && entry.player.is_self;
                    exists|mid: Seq<TrackerEntry>| {
                        &&& #[trigger] entry_data_changed(before.tracker.players@, mid, i)
                        &&& util_applied(entry.data, mid[i].data, buff_id, time)
                        &&& after.tracker.players@ == resorted(before, mid, changed, Sorting::Util)
                        &&& after.reminder.food_trigger == (if notify { food_trigger_on_apply(r, buff_id, now) } else { r.food_trigger })
                        &&& after.reminder.util_trigger == (if notify { util_trigger_on_apply(r, buff_id, now) } else { r.util_trigger })
                        &&& after.reminder.custom_triggers@ == r.custom_triggers@
                    }
                },
                BuffClass::Other => after.tracker.players@ == before.tracker.players@
                    && crate::reminder::event::same_triggers(r, after.reminder),
            }
        },
    }
}

/// The buffs `after` are `before` with food `id` removed at `time`.
pub open spec fn food_removed(before: Buffs, after: Buffs, id: u32, time: u64) -> bool {
    &&& after.food == (if remove_applies(before.food.state, id) {
        before.food.after_update(BuffState::Empty, time, false)
    } else {
        before.food
    })
    &&& after.util == before.util
    &&& after.custom@ == before.custom@
}

/// The buffs `after` are `before` with utility `id` removed at `time`.
pub open spec fn util_removed(before: Buffs, after: Buffs, id: u32, time: u64) -> bool {
    &&& after.util == (if remove_applies(before.util.state, id) {
        before.util.after_update(BuffState::Empty, time, false)
    } else {
        before.util
    })
    &&& after.food == before.food
    &&& after.custom@ == before.custom@
}

/// Whether removing the custom buff `id` at `time` changes the buffs: only tracked buffs are removed.
pub open spec fn custom_remove_changes(buffs: Buffs, id: u32, time: u64) -> bool {
    buffs.custom@.contains_key(id) && buffs.custom@[id].accepts(time, false)
}

/// The buffs `after` are `before` with the custom buff `id` removed at `time`.
pub open spec fn custom_removed(before: Buffs, after: Buffs, id: u32, time: u64) -> bool {
    &&& after.custom@ == (if custom_remove_changes(before, id, time) {
        before.custom@.insert(id, TrackedBuff { state: BuffState::Empty, time })
    } else {
        before.custom@
    })
    &&& after.food == before.food
    &&& after.util == before.util
}

/// Whether `after` is `before` after the buff `buff_id` named `name` was removed from the player
/// `player_id` at `time`, at the clock time `now` on the map `map_id`.
///
/// When a buff of the local player runs out during an encounter, its reminder is checked.
pub open spec fn buff_removed(
    before: Plugin,
    after: Plugin,
    player_id: usize,
    buff_id: u32,
    name: Option<&str>,
    time: u64,
    now: u64,
    map_id: Option<u32>,
) -> bool {
    &&& players_triggers_changed(before, after)
    &&& match index_of_id(before.tracker.players@, player_id) {
        None => after.tracker.players@ == before.tracker.players@
            && crate::reminder::event::same_triggers(before.reminder, after.reminder),
        Some(i) => {
            let entry = before.tracker.players@[i];
            let r = before.reminder;
            let during = r.settings.during_encounter;
            match buff_class(r.settings.custom@, before.defs@, buff_id, name) {
                BuffClass::Custom => {
                    let data = after.tracker.players@[i].data;
                    let notify = custom_remove_changes(entry.data, buff_id, time) && entry.player.is_self;
                    &&& entry_data_changed(before.tracker.players@, after.tracker.players@, i)
                    &&& custom_removed(entry.data, data, buff_id, time)
                    &&& after.reminder.food_trigger == r.food_trigger
                    &&& after.reminder.util_trigger == r.util_trigger
                    &&& notify && during ==> all_checked_custom(r, after.reminder, &data, now, map_id)
                    &&& !(notify && during) ==> after.reminder.custom_triggers@ == r.custom_triggers@
                },
                BuffClass::Food => {
                    let changed = remove_applies(entry.data.food.state, buff_id) && entry.data.food.accepts(time, false);
                    let notify = changed && entry.player.is_self;
                    exists|mid: Seq<TrackerEntry>| {
                        &&& #[trigger] entry_data_changed(before.tracker.players@, mid, i)
                        &&& food_removed(entry.data, mid[i].data, buff_id, time)
                        &&& after.tracker.players@ == resorted(before, mid, changed, Sorting::Food)
                        &&& after.reminder.food_trigger == (if notify && during && r.can_remind_spec()
                            && food_missing(mid[i].data.food.state) && r.settings.food {
                            Some(now)
                        } else {
                            r.food_trigger
                        })
                        &&& after.reminder.util_trigger == r.util_trigger
                        &&& after.reminder.custom_triggers@ == r.custom_triggers@
                    }
                },
                BuffClass::Util => {
                    let changed = remove_applies(entry.data.util.state, buff_id) && entry.data.util.accepts(time, false);
                    let notify = changed && entry.player.is_self;
                    exists|mid: Seq<TrackerEntry>| {
                        &&& #[trigger] entry_data_changed(before.tracker.players@, mid, i)
                        &&& util_removed(entry.data, mid[i].data, buff_id, time)
                        &&& after.tracker.players@ == resorted(before, mid, changed, Sorting::Util)
                        &&& after.reminder.util_trigger == (if notify && during && r.can_remind_spec()
                            && util_missing(mid[i].data.util.state) && r.settings.util {
                            Some(now)
                        } else {
                            r.util_trigger
                        })
                        &&& after.reminder.food_trigger == r.food_trigger
                        &&& after.reminder.custom_triggers@ == r.custom_triggers@
                    }
                },
                BuffClass::Other => after.tracker.players@ == before.tracker.players@
                    && crate::reminder::event::same_triggers(r, after.reminder),
            }
        },
    }
}

/// The buff ids of the custom reminders, in order.
pub open spec fn custom_ids(custom: Seq<CustomReminder>) -> Seq<u32> {
    custom.map_values(|r: CustomReminder| r.id)
}

/// The buffs `after` are `before` with all unset buffs set to none at `time`, and the custom
/// buffs `ids` tracked from now on.
pub open spec fn buffs_unset(before: Buffs, after: Buffs, time: u64, ids: Seq<u32>) -> bool {
    &&& after.food == unset_to_empty(before.food, time)
    &&& after.util == unset_to_empty(before.util, time)
    &&& after.custom@.dom() == before.custom@.dom() + ids.to_set()
    &&& forall|id: u32| #[trigger] after.custom@.contains_key(id) ==> after.custom@[id] == (
        if ids.contains(id) {
            unset_to_empty(custom_or_default(before.custom@, id), time)
        } else {
            before.custom@[id]
        })
}

/// The buffs of the local player among `players`, if they are tracked.
pub open spec fn self_buffs(players: Seq<TrackerEntry>) -> Option<Buffs> {
    match index_of_self(players) {
        Some(i) => Some(players[i].data),
        None => None,
    }
}

/// Whether the entries `after` are `before` with the buffs of each set by [`buffs_unset`].
pub open spec fn all_unset(before: Seq<TrackerEntry>, after: Seq<TrackerEntry>, time: u64, ids: Seq<u32>) -> bool {
    &&& after.len() == before.len()
    &&& forall|k: int| 0 <= k < after.len() ==> (#[trigger] after[k]).player == before[k].player
        && buffs_unset(before[k].data, after[k].data, time, ids)
}

/// Whether `after` is `before` after an encounter with the target `target_id` started at `time`.
///
/// Unset buffs of all players are set to none, as initial buffs are reported right after.
pub open spec fn log_started(before: Plugin, after: Plugin, target_id: usize, time: u64) -> bool {
    let ids = custom_ids(before.reminder.settings.custom@);
    &&& plugin_frame(before, after)
    &&& crate::reminder::event::same_triggers(before.reminder, after.reminder)
    &&& after.reminder.encounter == Some(Encounter {
        target_id,
        start_time: time,
        pending_check: before.reminder.settings.encounter_start,
    })
    &&& exists|mid: Seq<TrackerEntry>| {
        &&& #[trigger] all_unset(before.tracker.players@, mid, time, ids)
        &&& after.tracker.players@ == (if before.tracker.sorting == Sorting::Food || before.tracker.sorting == Sorting::Util {
            sort_players(mid, before.tracker.sorting, before.tracker.reverse)
        } else {
            mid
        })
    }
}

/// Whether `after` is `before` after the encounter target changed to `target_id` at `time`.
pub open spec fn log_updated(before: Plugin, after: Plugin, target_id: usize, time: u64) -> bool {
    &&& plugin_frame(before, after)
    &&& after.tracker.players@ == before.tracker.players@
    &&& crate::reminder::event::same_triggers(before.reminder, after.reminder)
    &&& after.reminder.encounter == (match before.reminder.encounter {
        Some(encounter) => Some(Encounter { target_id, ..encounter }),
        None => Some(Encounter { target_id, start_time: time, pending_check: before.reminder.settings.encounter_start }),
    })
}

/// Whether the triggers of `after` are those of `before` after checking all reminders on the
/// buffs of the local player among `players`.
pub open spec fn self_checked(before: Reminder, after: Reminder, players: Seq<TrackerEntry>, now: u64, map_id: Option<u32>) -> bool {
    match self_buffs(players) {
        Some(buffs) => all_checked(before, after, Some(&buffs), now, map_id),
        None => all_checked(before, after, None, now, map_id),
    }
}

/// Whether `after` is `before` after the encounter ended, at the clock time `now` on the map `map_id`.
pub open spec fn log_ended(before: Plugin, after: Plugin, now: u64, map_id: Option<u32>) -> bool {
    &&& plugin_frame(before, after)
    &&& after.tracker.players@ == before.tracker.players@
    &&& after.reminder.encounter is None
    &&& before.reminder.settings.encounter_end ==> self_checked(before.reminder, after.reminder, before.tracker.players@, now, map_id)
    &&& !before.reminder.settings.encounter_end ==> crate::reminder::event::same_triggers(before.reminder, after.reminder)
}

/// Whether `after` is `before` after updating the pending check with an event at `time`.
pub open spec fn pending_updated(before: Plugin, after: Plugin, time: u64, now: u64, map_id: Option<u32>) -> bool {
    &&& plugin_frame(before, after)
    &&& after.tracker.players@ == before.tracker.players@
    &&& match self_buffs(before.tracker.players@) {
        Some(buffs) => pending_check_updated(before.reminder, after.reminder, Some(&buffs), time, now, map_id),
        None => pending_check_updated(before.reminder, after.reminder, None, time, now, map_id),
    }
}

/// Returns the buffs of the local player, if tracked.
fn tracked_self_buffs(tracker: &Tracker) -> (r: Option<&Buffs>)
    ensures
        match r {
            Some(buffs) => self_buffs(tracker.players@) == Some(*buffs),
            None => self_buffs(tracker.players@) is None,
        },
{
    match tracker.get_self() {
        Some(entry) => Some(&entry.data),
        None => None,
    }
}

impl Plugin {
    /// Returns how the buff `id` with the skill name `name` is handled.
    pub fn buff_class(&self, id: u32, name: Option<&str>) -> (r: BuffClass)
        ensures
            r == buff_class(self.reminder.settings.custom@, self.defs@, id, name),
    {
        if self.reminder.custom(id).is_some() {
            BuffClass::Custom
        } else {
            match self.defs.get_buff(id, name) {
                BuffKind::Food(_) => BuffClass::Food,
                BuffKind::Util(_) => BuffClass::Util,
                _ => BuffClass::Other,
            }
        }
    }

    /// Handles a buff apply event.
    pub fn buff_apply(&mut self, player_id: usize, buff_id: u32, buff_name: Option<&str>, time: u64, now: u64)
        ensures
            buff_applied(*old(self), *final(self), player_id, buff_id, buff_name, time, now),
    {
        let class = self.buff_class(buff_id, buff_name);
        proof { crate::tracking::lemma_index_of_bounds(self.tracker.players@, player_id, Seq::empty()); }
        match self.tracker.find_player(player_id) {
            Some(i) => {
                let is_self = self.tracker.players[i].player.is_self;
                match class {
                    BuffClass::Custom => {
                        self.tracker.players[i].data.apply_custom(buff_id, time);
                    },
                    BuffClass::Food => {
                        let changed = self.tracker.players[i].data.apply_food(buff_id, time);
                        let ghost mid = self.tracker.players@;
                        if changed {
                            if is_self {
                                self.reminder.self_buff_apply(buff_id, now);
                            }
                            self.tracker.refresh_sort_if(Sorting::Food);
                        }
                        assert(entry_data_changed(old(self).tracker.players@, mid, i as int));
                    },
                    BuffClass::Util => {
                        let changed = self.tracker.players[i].data.apply_util(buff_id, time);
                        let ghost mid = self.tracker.players@;
                        if changed {
                            if is_self {
                                self.reminder.self_buff_apply(buff_id, now);
                            }
                            self.tracker.refresh_sort_if(Sorting::Util);
                        }
                        assert(entry_data_changed(old(self).tracker.players@, mid, i as int));
                    },
                    BuffClass::Other => {},
                }
            },
            None => {},
        }
    }

    /// Handles a buff remove event.
    pub fn buff_remove(
        &mut self,
        player_id: usize,
        buff_id: u32,
        buff_name: Option<&str>,
        time: u64,
        now: u64,
        map_id: Option<u32>,
    )
        ensures
            buff_removed(*old(self), *final(self), player_id, buff_id, buff_name, time, now, map_id),
    {
        let class = self.buff_class(buff_id, buff_name);
        proof { crate::tracking::lemma_index_of_bounds(self.tracker.players@, player_id, Seq::empty()); }
        match self.tracker.find_player(player_id) {
            Some(i) => {
                let is_self = self.tracker.players[i].player.is_self;
                match class {
                    BuffClass::Custom => {
                        let changed = self.tracker.players[i].data.remove_custom(buff_id, time);
                        if changed && is_self {
                            self.reminder.self_custom_remove(&self.tracker.players[i].data, now, map_id);
                        }
                    },
                    BuffClass::Food => {
                        let changed = self.tracker.players[i].data.remove_food(buff_id, time);
                        let ghost mid = self.tracker.players@;
                        if changed {
                            if is_self {
                                self.reminder.self_food_remove(&self.tracker.players[i].data, now);
                            }
                            self.tracker.refresh_sort_if(Sorting::Food);
                        }
                        assert(entry_data_changed(old(self).tracker.players@, mid, i as int));
                    },
                    BuffClass::Util => {
                        let changed = self.tracker.players[i].data.remove_util(buff_id, time);
                        let ghost mid = self.tracker.players@;
                        if changed {
                            if is_self {
                                self.reminder.self_util_remove(&self.tracker.players[i].data, now);
                            }
                            self.tracker.refresh_sort_if(Sorting::Util);
                        }
                        assert(entry_data_changed(old(self).tracker.players@, mid, i as int));
                    },
                    BuffClass::Other => {},
                }
            },
            None => {},
        }
    }

    /// Returns the buff ids of the custom reminders.
    fn custom_ids(&self) -> (ids: Vec<u32>)
        ensures
            ids@ == custom_ids(self.reminder.settings.custom@),
    {
        let custom = self.reminder.all_custom();
        let mut ids: Vec<u32> = Vec::new();
        for k in 0..custom.len()
            invariant
                custom@ == self.reminder.settings.custom@,
                ids@ == custom_ids(custom@.take(k as int)),
        {
            ids.push(custom[k].id);
            proof {
                assert(custom@.take(k + 1) == custom@.take(k as int).push(custom@[k as int]));
                assert(custom_ids(custom@.take(k + 1)) == custom_ids(custom@.take(k as int)).push(custom@[k as int].id));
            }
        }
        proof { assert(custom@.take(custom@.len() as int) == custom@); }
        ids
    }

    /// Handles the start of an encounter with the target `target_id` at `time`.
    pub fn log_start(&mut self, target_id: usize, time: u64)
        ensures
            log_started(*old(self), *final(self), target_id, time),
    {
        let ids = self.custom_ids();
        let mut players: Vec<TrackerEntry> = Vec::new();
        std::mem::swap(&mut players, &mut self.tracker.players);
        let ghost start = players@;
        let n = players.len();
        for i in 0..n
            invariant
                n == players.len(),
                start.len() == n,
                forall|k: int| 0 <= k < i ==> (#[trigger] players@[k]).player == start[k].player
                    && buffs_unset(start[k].data, players@[k].data, time, ids@),
                forall|k: int| i <= k < n ==> #[trigger] players@[k] == start[k],
        {
            players[i].data.unset_to_none(time, &ids);
        }
        let ghost mid = players@;
        self.tracker.players = players;
        self.tracker.refresh_sort_if(Sorting::Food);
        self.tracker.refresh_sort_if(Sorting::Util);
        self.reminder.start_encounter(target_id, time);
        assert(all_unset(old(self).tracker.players@, mid, time, custom_ids(old(self).reminder.settings.custom@)));
    }

    /// Handles a change of the encounter target to `target_id` at `time`.
    pub fn log_update(&mut self, target_id: usize, time: u64)
        ensures
            log_updated(*old(self), *final(self), target_id, time),
    {
        self.reminder.change_encounter(target_id, time);
    }

    /// Handles the end of an encounter, at the clock time `now` on the map `map_id`.
    pub fn log_end(&mut self, now: u64, map_id: Option<u32>)
        ensures
            log_ended(*old(self), *final(self), now, map_id),
    {
        let buffs = tracked_self_buffs(&self.tracker);
        self.reminder.end_encounter(buffs, now, map_id);
    }

    /// Updates the pending buff check with an event at `time`.
    pub fn update_pending_check(&mut self, time: u64, now: u64, map_id: Option<u32>)
        ensures
            pending_updated(*old(self), *final(self), time, now, map_id),
    {
        let buffs = tracked_self_buffs(&self.tracker);
        self.reminder.update_pending_check(buffs, time, now, map_id);
    }

    /// Handles a squad tracking change with the agents `src` and `dst`.
    fn tracking_change(&mut self, src: &Agent, dst: Option<Agent>)
        ensures
            tracking_changed(*old(self), *final(self), *src, dst),
    {
        if src.elite == 0 {
            if src.prof != 0 {
                if let Some(dst) = dst {
                    match SquadPlayer::from_tracking_change(src.id, src.name, dst.name, dst.prof, dst.elite, dst.team, dst.is_self) {
                        Some(player) => {
                            self.tracker.add_player(player);
                        },
                        None => {},
                    }
                }
            } else {
                self.tracker.remove_player(src.id);
            }
        }
    }

    /// Handles a combat event from area stats.
    ///
    /// Events without source are ignored, events without combat data are squad tracking changes.
    /// After each event but initial buffs the pending buff check is updated.
    /// `now` is the current time of a monotonic clock (ms), `map_id` the current map, if known.
    pub fn area_event(
        &mut self,
        event: Option<CombatEvent>,
        src: Option<Agent>,
        dst: Option<Agent>,
        skill_name: Option<&str>,
        _event_id: u64,
        _revision: u64,
        now: u64,
        map_id: Option<u32>,
    )
        ensures
            match src {
                None => *final(self) == *old(self),
                Some(s) => match event {
                    Some(e) => exists|mid: Plugin| {
                        &&& #[trigger] event_handled(*old(self), mid, e, s, dst, skill_name, now, map_id)
                        &&& if e.is_statechange == EventKind::BuffInitial {
                            *final(self) == mid
                        } else {
                            pending_updated(mid, *final(self), e.time, now, map_id)
                        }
                    },
                    None => tracking_changed(*old(self), *final(self), s, dst),
                },
            },
    {
        if let Some(src) = src {
            if let Some(event) = event {
                match event.is_statechange {
                    EventKind::LogStart => self.log_start(event.src_agent, event.time),
                    EventKind::LogNpcUpdate => self.log_update(event.src_agent, event.time),
                    EventKind::LogEnd => self.log_end(now, map_id),
                    EventKind::Normal | EventKind::ApiDelayed | EventKind::BuffInitial => {
                        if event.is_activation == Activation::NoActivation {
                            match event.is_buff_remove {
                                BuffRemove::NoRemove => {
                                    if event.buff != 0 && event.buff_dmg == 0 {
                                        if let Some(dst) = dst {
                                            self.buff_apply(dst.id, event.skill_id, skill_name, event.time, now);
                                        }
                                    }
                                },
                                BuffRemove::All | BuffRemove::Manual => {
                                    self.buff_remove(src.id, event.skill_id, skill_name, event.time, now, map_id);
                                },
                                BuffRemove::Single | BuffRemove::Unknown => {},
                            }
                        }
                    },
                    EventKind::Other => {},
                }
                let ghost mid = *self;
                if event.is_statechange != EventKind::BuffInitial {
                    self.update_pending_check(event.time, now, map_id);
                }
                assert(event_handled(*old(self), mid, event, src, dst, skill_name, now, map_id));
            } else {
                self.tracking_change(&src, dst);
            }
        }
    }

    /// Handles a squad update from unofficial extras.
    ///
    /// Members get their subgroup set, counted from one. Players are sorted afterwards if
    /// sorted by subgroup.
    pub fn extras_squad_update(&mut self, users: Vec<UserInfo>)
        ensures
            players_triggers_changed(*old(self), *final(self)),
            crate::reminder::event::same_triggers(old(self).reminder, final(self).reminder),
            final(self).tracker.players@ == (if old(self).tracker.sorting == Sorting::Sub {
                sort_players(subgroups_set(old(self).tracker.players@, users@), old(self).tracker.sorting, old(self).tracker.reverse)
            } else {
                subgroups_set(old(self).tracker.players@, users@)
            }),
    {
        for k in 0..users.len()
            invariant
                players_triggers_changed(*old(self), *self),
                crate::reminder::event::same_triggers(old(self).reminder, self.reminder),
                self.tracker.players@ == subgroups_set(old(self).tracker.players@, users@.take(k as int)),
        {
            let user = users[k];
            proof {
                assert(users@.take(k + 1).drop_last() == users@.take(k as int));
                assert(users@.take(k + 1).last() == user);
            }
            if let Some(name) = user.account_name {
                if user.role == UserRole::SquadLeader || user.role == UserRole::Lieutenant || user.role == UserRole::Member {
                    proof { crate::tracking::lemma_index_of_account_bounds(self.tracker.players@, name@); }
                    match self.tracker.find_account(name) {
                        Some(i) => {
                            let subgroup = user.subgroup as usize + 1;
                            self.tracker.players[i].player.subgroup = subgroup;
                        },
                        None => {},
                    }
                }
            }
        }
        proof { assert(users@.take(users@.len() as int) == users@); }
        self.tracker.refresh_sort_if(Sorting::Sub);
    }
}

/// A buff applied to a tracked player other than the local player never triggers a reminder,
/// not even Malnourished or Diminished: all reminder triggers stay as they were.
pub proof fn law_apply_to_other_no_reminder(
    before: Plugin,
    after: Plugin,
    player_id: usize,
    buff_id: u32,
    name: Option<&str>,
    time: u64,
    now: u64,
)
    requires
        buff_applied(before, after, player_id, buff_id, name, time, now),
        index_of_id(before.tracker.players@, player_id) matches Some(i) && !before.tracker.players@[i].player.is_self,
    ensures
        after.reminder.food_trigger == before.reminder.food_trigger,
        after.reminder.util_trigger == before.reminder.util_trigger,
        after.reminder.custom_triggers@ == before.reminder.custom_triggers@,
{
}

/// Malnourished (46587) applied to the local player, who had another or no food, reminds of
/// food at `now` when that is enabled.
pub proof fn law_malnourished_on_self_reminds(before: Plugin, after: Plugin, player_id: usize, name: Option<&str>, time: u64, now: u64)
    requires
        buff_applied(before, after, player_id, 46587, name, time, now),
        index_of_id(before.tracker.players@, player_id) matches Some(i) && before.tracker.players@[i].player.is_self
            && time > before.tracker.players@[i].data.food.time
            && before.tracker.players@[i].data.food.state != BuffState::Applied(46587u32),
        buff_class(before.reminder.settings.custom@, before.defs@, 46587, name) == BuffClass::Food,
        before.reminder.settings.always_mal_dim && before.reminder.settings.food,
    ensures
        after.reminder.food_trigger == Some(now),
{
}

/// A squad update of a squad leader, lieutenant or member with a tracked account sets that
/// player's subgroup to the reported one counted from one, and changes nothing else; an update
/// of any other role, or of an untracked account, changes nothing.
pub proof fn law_squad_update_subgroup(players: Seq<TrackerEntry>, user: UserInfo)
    ensures
        ({
            let member = user.role == UserRole::SquadLeader || user.role == UserRole::Lieutenant || user.role == UserRole::Member;
            match user.account_name {
                Some(name) => match index_of_account(players, name@) {
                    Some(i) => if member {
                        &&& subgroup_set(players, user).len() == players.len()
                        &&& subgroup_set(players, user)[i].player.subgroup == user.subgroup + 1
                        &&& subgroup_set(players, user)[i].player.account@ == name@
                        &&& subgroup_set(players, user)[i].data == players[i].data
                        &&& forall|k: int| 0 <= k < players.len() && k != i ==> #[trigger] subgroup_set(players, user)[k] == players[k]
                    } else {
                        subgroup_set(players, user) == players
                    },
                    None => subgroup_set(players, user) == players,
                },
                None => subgroup_set(players, user) == players,
            }
        }),
{
    if let Some(name) = user.account_name {
        crate::tracking::lemma_index_of_account_bounds(players, name@);
    }
}

/// A buff removed from a tracked player other than the local player never triggers a reminder.
pub proof fn law_remove_from_other_no_reminder(
    before: Plugin,
    after: Plugin,
    player_id: usize,
    buff_id: u32,
    name: Option<&str>,
    time: u64,
    now: u64,
    map_id: Option<u32>,
)
    requires
        buff_removed(before, after, player_id, buff_id, name, time, now, map_id),
        index_of_id(before.tracker.players@, player_id) matches Some(i) && !before.tracker.players@[i].player.is_self,
    ensures
        after.reminder.food_trigger == before.reminder.food_trigger,
        after.reminder.util_trigger == before.reminder.util_trigger,
        after.reminder.custom_triggers@ == before.reminder.custom_triggers@,
{
}

} // verus!
