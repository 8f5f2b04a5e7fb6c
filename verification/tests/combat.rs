use arcdps_food_reminder::arc_util::api::{BuffRemove, StateChange};
use arcdps_food_reminder::combat::{CombatEvent, Plugin};
use arcdps_food_reminder::data::constants::{DIMINISHED, MALNOURISHED};
use arcdps_food_reminder::data::structs::{BuffData, Rarity};
use arcdps_food_reminder::plugin::event::Agent;
use arcdps_food_reminder::tracking::player::{BuffStatus, Food, Utility};

const BOSS: usize = 15438;

fn agent(id: usize, name: &'static str, prof: u32, elite: u32, team: u16, is_self: u32) -> Agent<'static> {
    Agent { id, name: Some(name), prof, elite, team, is_self }
}

fn event(kind: StateChange, skill_id: u32, remove: BuffRemove) -> CombatEvent {
    CombatEvent {
        time: 0,
        src_agent: BOSS,
        dst_agent: 0,
        skill_id,
        buff: 1,
        buff_dmg: 0,
        is_statechange: kind,
        is_buff_remove: remove,
    }
}

fn joined(self_: bool) -> Plugin {
    let mut plugin = Plugin::new();
    let src = agent(7, "Char", 2, 0, 0, 0);
    let dst = agent(0, ":Acc", 2, 18, 3, if self_ { 1 } else { 0 });
    plugin.combat_event(None, Some(src), Some(dst), None, 0, 0, 0);
    plugin
}

#[test]
fn combat_tracking_change() {
    let mut plugin = joined(true);
    assert_eq!(plugin.players.len(), 1);
    assert_eq!(plugin.players[0].account, "Acc");
    assert_eq!(plugin.players[0].subgroup, 3);
    assert_eq!(plugin.players[0].food.state, BuffStatus::Unset);
    let leave = Agent { id: 7, name: None, prof: 0, elite: 0, team: 0, is_self: 0 };
    plugin.combat_event(None, Some(leave), None, None, 0, 0, 0);
    assert!(plugin.players.is_empty());
}

#[test]
fn combat_enter_and_exit() {
    let mut plugin = joined(false);
    let src = agent(7, "Char", 2, 18, 3, 0);
    let mut enter = event(StateChange::EnterCombat, 0, BuffRemove::NoRemove);
    enter.dst_agent = 5;
    plugin.combat_event(Some(enter), Some(src), None, None, 1, 0, 0);
    assert!(plugin.players[0].combat);
    assert_eq!(plugin.players[0].subgroup, 5);
    plugin.combat_event(Some(event(StateChange::ExitCombat, 0, BuffRemove::NoRemove)), Some(src), None, None, 2, 0, 0);
    assert!(!plugin.players[0].combat);
}

#[test]
fn combat_known_and_unknown_buffs() {
    let mut plugin = joined(false);
    plugin.defs.add_buffs(
        vec![BuffData { id: 100, name: "Soup".to_string(), stats: vec![], display: "Soup".to_string(), rarity: Rarity::Fine }],
        vec![],
        vec![],
    );
    let src = agent(7, "Char", 2, 18, 3, 0);
    let apply = event(StateChange::NoStateChange, 100, BuffRemove::NoRemove);
    plugin.combat_event(Some(apply), Some(src), Some(src), None, 5, 0, 0);
    assert_eq!(plugin.players[0].food.state, BuffStatus::Known(Food(100)));

    let unknown = event(StateChange::NoStateChange, 555, BuffRemove::NoRemove);
    plugin.combat_event(Some(unknown), Some(src), Some(src), Some("Enhancement"), 6, 0, 0);
    assert_eq!(plugin.players[0].util.state, BuffStatus::<Utility>::Unknown(555));

    let stale = event(StateChange::NoStateChange, 100, BuffRemove::All);
    plugin.combat_event(Some(stale), Some(src), None, None, 4, 0, 0);
    assert_eq!(plugin.players[0].food.state, BuffStatus::Known(Food(100)));

    let remove = event(StateChange::NoStateChange, 100, BuffRemove::Single);
    plugin.combat_event(Some(remove), Some(src), None, None, 7, 0, 0);
    assert_eq!(plugin.players[0].food.state, BuffStatus::<Food>::Empty);

    let remove_unknown = event(StateChange::NoStateChange, 555, BuffRemove::Manual);
    plugin.combat_event(Some(remove_unknown), Some(src), None, Some("Enhancement"), 8, 0, 0);
    assert_eq!(plugin.players[0].util.state, BuffStatus::<Utility>::Empty);
}

#[test]
fn combat_log_start_reminds_missing_food() {
    let mut plugin = joined(true);
    let boss = agent(BOSS, "Boss", 0, 0, 0, 0);
    plugin.combat_event(Some(event(StateChange::LogStart, 0, BuffRemove::NoRemove)), Some(boss), None, None, 3, 0, 77);
    assert_eq!(plugin.encounter, Some(BOSS));
    assert_eq!(plugin.players[0].food.state, BuffStatus::<Food>::Empty);
    assert_eq!(plugin.reminder.food_trigger, Some(77));
    assert_eq!(plugin.reminder.util_trigger, Some(77));
    plugin.combat_event(Some(event(StateChange::LogEnd, 0, BuffRemove::NoRemove)), Some(boss), None, None, 4, 0, 78);
    assert!(plugin.encounter.is_none());
    assert_eq!(plugin.reminder.food_trigger, Some(78));
}

#[test]
fn combat_no_reminder_for_trash() {
    let mut plugin = joined(true);
    let trash = agent(3, "Trash", 0, 0, 0, 0);
    let mut start = event(StateChange::LogStart, 0, BuffRemove::NoRemove);
    start.src_agent = 3;
    plugin.combat_event(Some(start), Some(trash), None, None, 3, 0, 77);
    assert!(!plugin.can_remind());
    assert!(plugin.reminder.food_trigger.is_none());
}

#[test]
fn combat_malnourished_reminds_self() {
    let mut plugin = joined(true);
    let me = agent(7, "Char", 2, 18, 3, 1);
    let apply = event(StateChange::NoStateChange, MALNOURISHED, BuffRemove::NoRemove);
    plugin.combat_event(Some(apply), Some(me), Some(me), None, 5, 0, 12);
    assert_eq!(plugin.reminder.food_trigger, Some(12));
    let apply = event(StateChange::NoStateChange, DIMINISHED, BuffRemove::NoRemove);
    plugin.combat_event(Some(apply), Some(me), Some(me), None, 6, 0, 13);
    assert_eq!(plugin.reminder.util_trigger, Some(13));
}

#[test]
fn combat_food_running_out_during_encounter() {
    let mut plugin = joined(true);
    let boss = agent(BOSS, "Boss", 0, 0, 0, 0);
    let me = agent(7, "Char", 2, 18, 3, 1);
    plugin.reminder.settings.encounter_start = false;
    plugin.combat_event(Some(event(StateChange::LogStart, 0, BuffRemove::NoRemove)), Some(boss), None, None, 1, 0, 1);
    plugin.combat_event(Some(event(StateChange::NoStateChange, 9, BuffRemove::NoRemove)), Some(me), Some(me), Some("Nourishment"), 2, 0, 2);
    assert_eq!(plugin.players[0].food.state, BuffStatus::<Food>::Unknown(9));
    assert!(plugin.reminder.food_trigger.is_none());
    plugin.combat_event(Some(event(StateChange::NoStateChange, 9, BuffRemove::All)), Some(me), None, Some("Nourishment"), 3, 0, 3);
    assert_eq!(plugin.reminder.food_trigger, Some(3));
}
