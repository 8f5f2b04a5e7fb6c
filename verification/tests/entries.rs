use arcdps_food_reminder::arc_util::game::{Profession, Specialization};
use arcdps_food_reminder::data::structs::{BuffData, Rarity};
use arcdps_food_reminder::data::Definitions;
use arcdps_food_reminder::demo::{food_name, util_name};
use arcdps_food_reminder::reminder::Reminder;
use arcdps_food_reminder::data::constants::REINFORCED;
use arcdps_food_reminder::tracking::buff::{BuffState, Buffs};
use arcdps_food_reminder::tracking::entry::Entry;
use arcdps_food_reminder::tracking::player::Player;
use arcdps_food_reminder::tracking::settings::SettingsEntry;
use arcdps_food_reminder::tracking::squad::{SquadPlayer, TrackerEntry};
use arcdps_food_reminder::tracking::Tracker;

fn squad_player(id: usize, character: &str, is_self: bool) -> SquadPlayer {
    SquadPlayer::new(id, character, "Acc", is_self, Profession::Mesmer, Specialization::Chronomancer, 1)
}

#[test]
fn entry_buffs() {
    let mut entry = Entry::from(squad_player(1, "A", false));
    assert!(matches!(entry.food.state, BuffState::Unknown));
    assert!(entry.apply_food(3, 10));
    assert!(!entry.remove_food(4, 11));
    assert!(entry.remove_food(3, 11));
    assert!(matches!(entry.food.state, BuffState::Empty));
    assert!(entry.apply_reinf(12));
    assert!(matches!(entry.reinf.state, BuffState::Applied(())));
    assert!(!entry.remove_reinf(12));
    assert!(entry.remove_reinf(13));
    entry.buffs_to_none(20);
    assert!(matches!(entry.util.state, BuffState::Empty));
    entry.reset_buffs();
    assert!(matches!(entry.util.state, BuffState::Unknown));
    assert_eq!(entry.util.time, 0);
    let entry = Entry::with_states(squad_player(2, "B", true), BuffState::Applied(5), BuffState::Empty, BuffState::Unknown);
    assert!(matches!(entry.food.state, BuffState::Applied(5)));
    assert_eq!(entry.food.time, 0);
}

#[test]
fn demo_buff_names() {
    let mut defs = Definitions::empty();
    let soup = BuffData { id: 7, name: "Soup".to_string(), stats: vec![], display: "Soup".to_string(), rarity: Rarity::Rare };
    defs.add_buffs(vec![soup], vec![], vec![]);
    assert_eq!(food_name(&defs, BuffState::Unknown), "Unset");
    assert_eq!(food_name(&defs, BuffState::Empty), "None");
    assert_eq!(food_name(&defs, BuffState::Applied(7)), "Soup");
    assert_eq!(food_name(&defs, BuffState::Applied(8)), "Unknown");
    assert_eq!(util_name(&defs, BuffState::Applied(7)), "Unknown");
}

#[test]
fn reinforced_check() {
    let mut reminder = Reminder::new();
    let mut buffs = Buffs::new();
    buffs.unset_to_none(0, &vec![REINFORCED]);
    reminder.check_reinforced(&buffs, 5, None);
    assert!(reminder.custom_triggers.is_empty());
    reminder.settings.only_bosses = false;
    reminder.start_encounter(1, 0);
    reminder.check_reinforced(&buffs, 6, None);
    assert_eq!(reminder.custom_triggers.get(&REINFORCED), Some(&6));
    reminder.settings.during_encounter = false;
    reminder.custom_triggers.clear();
    reminder.self_reinf_remove(&buffs, 7, None);
    assert!(reminder.custom_triggers.is_empty());
}

#[test]
fn players_compare_by_id() {
    let a = Player::new(1, "A", "X", false, Profession::Thief, Specialization::Deadeye, 1);
    let b = Player::new(1, "B", "Y", true, Profession::Ranger, Specialization::Druid, 2);
    let c = Player::new(2, "A", "X", false, Profession::Thief, Specialization::Deadeye, 1);
    assert!(a == b);
    assert!(a != c);
    assert!(a < c);
}

#[test]
fn saved_characters_round_trip() {
    let mut tracker = Tracker::new();
    tracker.add_player(squad_player(1, "Own", true));
    tracker.players[0].data.apply_food(9, 100);
    tracker.players[0].data.apply_custom(REINFORCED, 100);
    let mut cached = Buffs::new();
    cached.apply_util(4, 3);
    tracker.cache_store(TrackerEntry::new(squad_player(2, "Alt", true), cached));

    let state = tracker.current_settings();
    assert_eq!(state.own_chars.len(), 2);
    assert_eq!(state.own_chars[0].player.character, "Own");
    assert_eq!(state.own_chars[1].player.character, "Alt");

    let mut restored = Tracker::new();
    restored.load_settings(state);
    assert_eq!(restored.cache.len(), 2);
    assert!(matches!(restored.cache[0].data.food.state, BuffState::Applied(9)));
    assert_eq!(restored.cache[0].data.food.time, 0);
    assert!(matches!(restored.cache[0].data.custom_state(REINFORCED), BuffState::Applied(())));
    assert!(matches!(restored.cache[1].data.util.state, BuffState::Applied(4)));
    assert!(restored.add_player(squad_player(5, "Own", true)));
    assert!(matches!(restored.players[0].data.food.state, BuffState::Applied(9)));
}

#[test]
fn saved_reinforced_restored_as_custom() {
    let mut entry = SettingsEntry::new(squad_player(1, "Old", true), BuffState::Empty, BuffState::Empty, Default::default());
    entry.reinforced = Some(BuffState::Applied(()));
    let restored = entry.into_entry();
    assert!(matches!(restored.data.custom_state(REINFORCED), BuffState::Applied(())));
}

#[test]
fn saving_disabled_keeps_no_characters() {
    let mut tracker = Tracker::new();
    tracker.settings.save_chars = false;
    tracker.add_player(squad_player(1, "Own", true));
    assert!(tracker.current_settings().own_chars.is_empty());
}
