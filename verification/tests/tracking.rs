use arcdps_food_reminder::arc_util::game::{Profession, Specialization};
use arcdps_food_reminder::tracking::buff::{BuffState, Buffs, TrackedBuff};
use arcdps_food_reminder::tracking::player::{Buff, BuffStatus, Food, Player, Utility};
use arcdps_food_reminder::tracking::sorting::{sorting_for_column, Sorting};
use arcdps_food_reminder::tracking::squad::{strip_account, SquadPlayer};
use arcdps_food_reminder::tracking::state::TrackedState;
use arcdps_food_reminder::tracking::Tracker;

fn squad_player(id: usize, character: &str, is_self: bool, subgroup: usize) -> SquadPlayer {
    SquadPlayer::new(
        id,
        character,
        "Account.1234",
        is_self,
        Profession::Guardian,
        Specialization::Firebrand,
        subgroup,
    )
}

#[test]
fn tracked_buff_later_update_wins() {
    let mut buff = TrackedBuff::new(BuffState::Unknown);
    assert!(buff.update(BuffState::Applied(7u32), 10, false));
    assert!(!buff.update(BuffState::Applied(8), 5, true));
    assert!(matches!(buff.state, BuffState::Applied(7)));
    assert!(!buff.update(BuffState::Empty, 10, false));
    assert!(buff.update(BuffState::Empty, 10, true));
    assert!(matches!(buff.state, BuffState::Empty));
    assert_eq!(buff.time, 10);
}

#[test]
fn buffs_apply_then_remove_food() {
    let mut buffs = Buffs::new();
    assert!(buffs.apply_food(12, 100));
    assert!(matches!(buffs.food.state, BuffState::Applied(12)));
    assert!(!buffs.remove_food(13, 200));
    assert!(matches!(buffs.food.state, BuffState::Applied(12)));
    assert!(buffs.remove_food(12, 200));
    assert!(matches!(buffs.food.state, BuffState::Empty));
    assert!(matches!(buffs.util.state, BuffState::Unknown));
}

#[test]
fn buffs_custom_tracking() {
    let mut buffs = Buffs::new();
    assert!(!buffs.remove_custom(5, 10));
    assert!(matches!(buffs.custom_state(5), BuffState::Unknown));
    assert!(buffs.apply_custom(5, 10));
    assert!(matches!(buffs.custom_state(5), BuffState::Applied(())));
    assert!(buffs.remove_custom(5, 20));
    assert!(matches!(buffs.custom_state(5), BuffState::Empty));
}

#[test]
fn buffs_unset_to_none() {
    let mut buffs = Buffs::new();
    buffs.apply_util(3, 5);
    buffs.unset_to_none(50, &vec![9]);
    assert!(matches!(buffs.food.state, BuffState::Empty));
    assert_eq!(buffs.food.time, 50);
    assert!(matches!(buffs.util.state, BuffState::Applied(3)));
    assert!(matches!(buffs.custom_state(9), BuffState::Empty));
}

#[test]
fn tracked_state_ignores_replay() {
    let mut state = TrackedState::new(1u32);
    assert!(state.update(2, 10, 1));
    assert!(!state.update(3, 10, 1));
    assert!(!state.update(4, 9, 5));
    assert_eq!(state.state, 2);
}

#[test]
fn player_buffs_by_event_order() {
    let mut player = Player::new(1, "Char", "Acc", true, Profession::Warrior, Specialization::Berserker, 2);
    assert!(player.apply_food(Food(10), 5));
    assert!(!player.apply_food(Food(11), 4));
    assert_eq!(player.food, Buff { state: BuffStatus::Known(Food(10)), event_id: 5 });
    assert!(!player.remove_food(Some(Food(11)), 6));
    assert!(!player.remove_food(None, 6));
    assert!(player.remove_food(Some(Food(10)), 6));
    assert_eq!(player.food.state, BuffStatus::Empty);
    assert!(player.apply_unknown_util(77, 7));
    assert!(player.remove_util(None, 8));
    assert_eq!(player.util.state, BuffStatus::<Utility>::Empty);
    player.enter_combat(Some(4));
    assert!(player.combat);
    assert_eq!(player.subgroup, 4);
    player.exit_combat();
    assert!(!player.combat);
}

#[test]
fn player_unset_to_none() {
    let mut player = Player::new(1, "Char", "Acc", false, Profession::Thief, Specialization::Daredevil, 1);
    player.apply_util(Utility(3), 2);
    player.unset_to_none(9);
    assert_eq!(player.food, Buff { state: BuffStatus::Empty, event_id: 9 });
    assert_eq!(player.util.state, BuffStatus::Known(Utility(3)));
}

#[test]
fn tracking_change_strips_account_colon() {
    let player = SquadPlayer::from_tracking_change(3, Some("Char"), Some(":Acc.1234"), 1, 27, 2, 1).unwrap();
    assert_eq!(player.account, "Acc.1234");
    assert_eq!(player.character, "Char");
    assert_eq!(player.profession, Profession::Guardian);
    assert_eq!(player.elite, Specialization::Dragonhunter);
    assert_eq!(player.subgroup, 2);
    assert!(player.is_self);
    assert!(SquadPlayer::from_tracking_change(3, None, Some(":Acc"), 1, 27, 2, 1).is_none());
    assert_eq!(strip_account("Acc"), "Acc");
    assert_eq!(strip_account(""), "");
}

#[test]
fn tracker_caches_own_characters() {
    let mut tracker = Tracker::new();
    assert!(!tracker.add_player(squad_player(1, "Own", true, 1)));
    assert!(!tracker.add_player(squad_player(2, "Other", false, 1)));
    let i = tracker.find_player(1).unwrap();
    tracker.players[i].data.apply_food(42, 10);

    assert!(tracker.remove_player(1));
    assert!(!tracker.remove_player(1));
    assert_eq!(tracker.players.len(), 1);
    assert_eq!(tracker.cache.len(), 1);

    assert!(tracker.add_player(squad_player(5, "Own", true, 3)));
    assert_eq!(tracker.cache.len(), 0);
    let i = tracker.find_player(5).unwrap();
    assert!(matches!(tracker.players[i].data.food.state, BuffState::Applied(42)));

    assert!(tracker.remove_player(2));
    assert_eq!(tracker.cache.len(), 0);
}

#[test]
fn tracker_sorts_by_subgroup() {
    let mut tracker = Tracker::new();
    tracker.add_player(squad_player(1, "B", false, 3));
    tracker.add_player(squad_player(2, "A", false, 1));
    tracker.add_player(squad_player(3, "C", false, 2));
    tracker.set_sorting(Sorting::Sub, false);
    let subs: Vec<usize> = tracker.players.iter().map(|e| e.player.subgroup).collect();
    assert_eq!(subs, vec![1, 2, 3]);
    tracker.set_sorting(Sorting::Name, true);
    let names: Vec<&str> = tracker.players.iter().map(|e| e.player.character.as_str()).collect();
    assert_eq!(names, vec!["C", "B", "A"]);
    assert_eq!(tracker.find_account("Account.1234"), Some(0));
    assert!(tracker.get_self().is_none());
}

#[test]
fn tracker_reset_squad() {
    let mut tracker = Tracker::new();
    tracker.add_player(squad_player(1, "A", false, 1));
    tracker.players[0].data.apply_food(3, 4);
    tracker.reset_squad();
    assert!(matches!(tracker.players[0].data.food.state, BuffState::Unknown));
    assert_eq!(tracker.players[0].data.food.time, 0);
}

#[test]
fn sorting_keeps_order_of_equal_keys() {
    let mut tracker = Tracker::new();
    tracker.set_sorting(Sorting::Sub, false);
    tracker.add_player(squad_player(1, "First", false, 2));
    tracker.add_player(squad_player(2, "Low", false, 1));
    tracker.add_player(squad_player(3, "Second", false, 2));
    tracker.add_player(squad_player(4, "Third", false, 2));
    let names: Vec<&str> = tracker.players.iter().map(|e| e.player.character.as_str()).collect();
    assert_eq!(names, vec!["Low", "First", "Second", "Third"]);
    tracker.set_sorting(Sorting::Sub, true);
    let names: Vec<&str> = tracker.players.iter().map(|e| e.player.character.as_str()).collect();
    assert_eq!(names, vec!["First", "Second", "Third", "Low"]);
}

#[test]
fn reapplying_same_food_is_no_change() {
    let mut buffs = Buffs::new();
    assert!(buffs.apply_food(12, 100));
    assert!(!buffs.apply_food(12, 200));
    assert!(matches!(buffs.food.state, BuffState::Applied(12)));
    assert_eq!(buffs.food.time, 200);
    assert!(buffs.apply_food(13, 300));
    assert!(!buffs.apply_food(14, 250));

    let mut player = Player::new(1, "Char", "Acc", true, Profession::Warrior, Specialization::Berserker, 2);
    assert!(player.apply_food(Food(10), 5));
    assert!(!player.apply_food(Food(10), 6));
    assert_eq!(player.food.event_id, 6);
}

#[test]
fn sorting_by_table_column() {
    assert_eq!(sorting_for_column(0, true), Sorting::Sub);
    assert_eq!(sorting_for_column(3, true), Sorting::Util);
    assert_eq!(sorting_for_column(0, false), Sorting::Name);
    assert_eq!(sorting_for_column(2, false), Sorting::Util);

    let mut tracker = Tracker::new();
    tracker.add_player(squad_player(1, "B", false, 3));
    tracker.add_player(squad_player(2, "A", false, 1));
    tracker.sort_by_column(1, false);
    assert_eq!(tracker.sorting, Sorting::Name);
    assert!(!tracker.reverse);
    let names: Vec<&str> = tracker.players.iter().map(|e| e.player.character.as_str()).collect();
    assert_eq!(names, vec!["A", "B"]);
    tracker.settings.show_sub = false;
    tracker.sort_by_column(0, true);
    assert_eq!(tracker.sorting, Sorting::Name);
    assert!(tracker.reverse);
}
