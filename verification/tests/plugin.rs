use arcdps_food_reminder::arc_util::api::{Activation, BuffRemove};
use arcdps_food_reminder::builds::build_entry::Build;
use arcdps_food_reminder::data::constants::{DIMINISHED, MALNOURISHED, REINFORCED};
use arcdps_food_reminder::data::structs::{BuffData, DefData, Rarity};
use arcdps_food_reminder::data::LoadError;
use arcdps_food_reminder::plugin::event::{Agent, BuffClass, CombatEvent, EventKind, UserInfo, UserRole};
use arcdps_food_reminder::plugin::{defs_action, DefsAction, ExtrasState, Plugin, SettingsVersion};
use arcdps_food_reminder::tracking::buff::BuffState;
use arcdps_food_reminder::tracking::sorting::Sorting;

const BOSS: usize = 15438;

fn agent(id: usize, name: &'static str, prof: u32, elite: u32, team: u16, is_self: u32) -> Agent<'static> {
    Agent { id, name: Some(name), prof, elite, team, is_self }
}

fn join(plugin: &mut Plugin, id: usize, character: &'static str, account: &'static str, is_self: bool) {
    let src = agent(id, character, 1, 0, 0, 0);
    let dst = agent(0, account, 1, 27, 1, if is_self { 1 } else { 0 });
    plugin.area_event(None, Some(src), Some(dst), None, 0, 0, 0, None);
}

fn event(kind: EventKind, time: u64, skill_id: u32, remove: BuffRemove) -> CombatEvent {
    CombatEvent {
        time,
        src_agent: BOSS,
        skill_id,
        buff: 1,
        buff_dmg: 0,
        is_statechange: kind,
        is_activation: Activation::NoActivation,
        is_buff_remove: remove,
    }
}

fn food_data(id: u32, name: &str) -> BuffData {
    BuffData { id, name: name.to_string(), stats: vec![], display: name.to_string(), rarity: Rarity::Exotic }
}

#[test]
fn squad_tracking_change_adds_and_removes() {
    let mut plugin = Plugin::new();
    join(&mut plugin, 7, "Char", ":Acc.1234", true);
    assert_eq!(plugin.tracker.players.len(), 1);
    assert_eq!(plugin.tracker.players[0].player.account, "Acc.1234");
    assert!(plugin.tracker.players[0].player.is_self);

    let src = Agent { id: 7, name: None, prof: 0, elite: 0, team: 0, is_self: 0 };
    plugin.area_event(None, Some(src), None, None, 0, 0, 0, None);
    assert!(plugin.tracker.players.is_empty());
    assert_eq!(plugin.tracker.cache.len(), 1);
}

#[test]
fn event_without_source_is_ignored() {
    let mut plugin = Plugin::new();
    join(&mut plugin, 7, "Char", ":Acc", true);
    let e = event(EventKind::Normal, 10, MALNOURISHED, BuffRemove::NoRemove);
    plugin.area_event(Some(e), None, Some(agent(7, "Char", 1, 27, 1, 1)), None, 1, 0, 0, None);
    assert!(matches!(plugin.tracker.players[0].data.food.state, BuffState::Unknown));
}

#[test]
fn food_apply_and_remove_from_events() {
    let mut plugin = Plugin::new();
    plugin.load_definitions(Ok(DefData { food: vec![food_data(100, "Soup")], utility: vec![], ignore: vec![], bosses: vec![] }));
    join(&mut plugin, 7, "Char", ":Acc", false);
    let src = agent(7, "Char", 1, 27, 1, 0);

    let apply = event(EventKind::Normal, 10, 100, BuffRemove::NoRemove);
    plugin.area_event(Some(apply), Some(src), Some(src), None, 1, 0, 0, None);
    assert!(matches!(plugin.tracker.players[0].data.food.state, BuffState::Applied(100)));

    let unknown = event(EventKind::Normal, 11, 555, BuffRemove::NoRemove);
    plugin.area_event(Some(unknown), Some(src), Some(src), Some("Enhancement"), 2, 0, 0, None);
    assert!(matches!(plugin.tracker.players[0].data.util.state, BuffState::Applied(555)));

    let remove = event(EventKind::Normal, 12, 100, BuffRemove::All);
    plugin.area_event(Some(remove), Some(src), None, None, 3, 0, 0, None);
    assert!(matches!(plugin.tracker.players[0].data.food.state, BuffState::Empty));

    let single = event(EventKind::Normal, 13, 555, BuffRemove::Single);
    plugin.area_event(Some(single), Some(src), None, Some("Enhancement"), 4, 0, 0, None);
    assert!(matches!(plugin.tracker.players[0].data.util.state, BuffState::Applied(555)));
}

#[test]
fn encounter_start_checks_own_buffs() {
    let mut plugin = Plugin::new();
    join(&mut plugin, 7, "Char", ":Acc", true);
    let src = agent(BOSS, "Boss", 0, 0, 0, 0);
    plugin.area_event(Some(event(EventKind::LogStart, 1000, 0, BuffRemove::NoRemove)), Some(src), None, None, 1, 0, 50, None);
    assert!(matches!(plugin.tracker.players[0].data.food.state, BuffState::Empty));
    assert!(plugin.reminder.food_trigger.is_none());

    let initial = event(EventKind::BuffInitial, 1300, 9999, BuffRemove::NoRemove);
    plugin.area_event(Some(initial), Some(src), None, None, 2, 0, 60, None);
    assert!(plugin.reminder.food_trigger.is_none());

    let later = event(EventKind::Normal, 1300, 0, BuffRemove::NoRemove);
    plugin.area_event(Some(later), Some(src), None, None, 3, 0, 70, Some(872));
    assert_eq!(plugin.reminder.food_trigger, Some(70));
    assert_eq!(plugin.reminder.util_trigger, Some(70));
    assert!(plugin.reminder.custom_triggers.contains_key(&REINFORCED));
    assert!(plugin.reminder.custom_triggers.contains_key(&32473));

    plugin.area_event(Some(event(EventKind::LogEnd, 2000, 0, BuffRemove::NoRemove)), Some(src), None, None, 4, 0, 80, None);
    assert!(plugin.reminder.encounter.is_none());
    assert_eq!(plugin.reminder.food_trigger, Some(80));
}

#[test]
fn encounter_target_change() {
    let mut plugin = Plugin::new();
    let src = agent(1, "Boss", 0, 0, 0, 0);
    let mut update = event(EventKind::LogNpcUpdate, 500, 0, BuffRemove::NoRemove);
    update.src_agent = BOSS;
    plugin.area_event(Some(update), Some(src), None, None, 1, 0, 0, None);
    assert_eq!(plugin.reminder.current_encounter(), Some(BOSS));
    assert_eq!(plugin.reminder.encounter.unwrap().start_time, 500);
}

#[test]
fn malnourished_on_self_reminds() {
    let mut plugin = Plugin::new();
    join(&mut plugin, 7, "Char", ":Acc", true);
    let src = agent(7, "Char", 1, 27, 1, 1);
    plugin.buff_apply(7, MALNOURISHED, None, 10, 99);
    assert_eq!(plugin.reminder.food_trigger, Some(99));
    plugin.buff_apply(7, DIMINISHED, None, 11, 100);
    assert_eq!(plugin.reminder.util_trigger, Some(100));
    assert!(matches!(plugin.tracker.players[0].data.util.state, BuffState::Applied(DIMINISHED)));
    let _ = src;
}

#[test]
fn buff_classes() {
    let plugin = Plugin::new();
    assert_eq!(plugin.buff_class(REINFORCED, None), BuffClass::Custom);
    assert_eq!(plugin.buff_class(MALNOURISHED, None), BuffClass::Food);
    assert_eq!(plugin.buff_class(DIMINISHED, None), BuffClass::Util);
    assert_eq!(plugin.buff_class(1, Some("Nourishment")), BuffClass::Food);
    assert_eq!(plugin.buff_class(1, Some("Enhancement")), BuffClass::Util);
    assert_eq!(plugin.buff_class(1, None), BuffClass::Other);
}

#[test]
fn squad_update_sets_subgroups() {
    let mut plugin = Plugin::new();
    join(&mut plugin, 1, "A", ":Acc.A", false);
    join(&mut plugin, 2, "B", ":Acc.B", false);
    plugin.tracker.set_sorting(Sorting::Sub, false);
    plugin.extras_squad_update(vec![
        UserInfo { account_name: Some("Acc.A"), role: UserRole::Member, subgroup: 4 },
        UserInfo { account_name: Some("Acc.B"), role: UserRole::SquadLeader, subgroup: 0 },
        UserInfo { account_name: Some("Acc.X"), role: UserRole::Member, subgroup: 2 },
        UserInfo { account_name: Some("Acc.B"), role: UserRole::Invited, subgroup: 7 },
    ]);
    let subs: Vec<(usize, &str)> = plugin.tracker.players.iter().map(|e| (e.player.subgroup, e.player.account.as_str())).collect();
    assert_eq!(subs, vec![(1, "Acc.B"), (5, "Acc.A")]);
}

#[test]
fn definitions_loading_outcomes() {
    let mut plugin = Plugin::new();
    assert_eq!(plugin.defs_state, Err(LoadError::NotFound));
    plugin.load_definitions(Err(LoadError::InvalidJSON));
    assert_eq!(plugin.defs_state, Err(LoadError::InvalidJSON));
    plugin.load_definitions(Ok(DefData::default()));
    assert_eq!(plugin.defs_state, Ok(()));
    plugin.reset_definitions();
    assert_eq!(plugin.defs_state, Err(LoadError::NotFound));
}

#[test]
fn hotkey_toggles_tracker() {
    let mut plugin = Plugin::new();
    assert!(plugin.tracker_visible);
    assert!(!plugin.key_event(0x46, true, false));
    assert!(!plugin.tracker_visible);
    assert!(plugin.key_event(0x46, true, true));
    assert!(!plugin.tracker_visible);
    assert!(!plugin.key_event(0x46, true, false));
    assert!(plugin.tracker_visible);
    assert!(plugin.key_event(0x47, true, false));
    plugin.tracker.settings.hotkey = None;
    assert!(plugin.key_event(0x46, true, false));
}

#[test]
fn extras_state() {
    let mut plugin = Plugin::new();
    assert_eq!(plugin.extras, ExtrasState::Missing);
    plugin.extras_init(true);
    assert_eq!(plugin.extras, ExtrasState::Found);
    plugin.extras_init(false);
    assert_eq!(plugin.extras, ExtrasState::Incompatible);
}

#[test]
fn settings_version_decides_definitions() {
    let v = |major, minor, patch, pre_release| SettingsVersion { major, minor, patch, pre_release };
    assert_eq!(defs_action(Some(v(0, 4, 0, false)), true), DefsAction::Load);
    assert_eq!(defs_action(Some(v(0, 5, 1, false)), false), DefsAction::Skip);
    assert_eq!(defs_action(Some(v(0, 4, 0, true)), true), DefsAction::RemoveOld);
    assert_eq!(defs_action(Some(v(0, 3, 9, false)), true), DefsAction::RemoveOld);
    assert_eq!(defs_action(None, true), DefsAction::RemoveOld);
    assert!(v(1, 0, 0, true).at_least(0, 4, 0));
}

#[test]
fn key_event_keeps_settings() {
    let mut plugin = Plugin::new();
    plugin.reset_confirm = true;
    assert!(!plugin.key_event(0x46, true, false));
    assert_eq!(plugin.tracker.settings.hotkey, Some(0x46));
    assert!(plugin.reset_confirm);
}

#[test]
fn reapplied_malnourished_reminds_once() {
    let mut plugin = Plugin::new();
    join(&mut plugin, 7, "Char", ":Acc", true);
    plugin.buff_apply(7, MALNOURISHED, None, 10, 99);
    assert_eq!(plugin.reminder.food_trigger, Some(99));
    plugin.reminder.food_trigger = None;
    plugin.buff_apply(7, MALNOURISHED, None, 20, 100);
    assert_eq!(plugin.reminder.food_trigger, None);
}

#[test]
fn settings_inputs() {
    let mut plugin = Plugin::new();
    assert_eq!(plugin.duration_input(), 5000);
    plugin.set_duration_input(-5);
    assert_eq!(plugin.reminder.settings.duration, 0);
    plugin.set_duration_input(1200);
    assert_eq!(plugin.duration_input(), 1200);
    assert_eq!(plugin.hotkey_input(), 0x46);
    plugin.set_hotkey_input(0);
    assert_eq!(plugin.tracker.settings.hotkey, None);
    assert_eq!(plugin.hotkey_input(), 0);
    plugin.set_hotkey_input(0x47);
    assert_eq!(plugin.tracker.settings.hotkey, Some(0x47));
}

#[test]
fn untracked_remove_keeps_builds() {
    let mut plugin = Plugin::new();
    plugin.tracker.builds.entries.push(Build::empty());
    plugin.buff_remove(99, MALNOURISHED, None, 5, 6, None);
    assert_eq!(plugin.tracker.builds.entries.len(), 1);
    assert!(!plugin.tracker.chars_reset);
}
