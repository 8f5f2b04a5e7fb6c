use arcdps_food_reminder::data::constants::{DIMINISHED, MALNOURISHED, REINFORCED};
use arcdps_food_reminder::reminder::custom::{CustomReminder, GameMode};
use arcdps_food_reminder::reminder::display::reminder_text;
use arcdps_food_reminder::reminder::Reminder;
use arcdps_food_reminder::tracking::buff::Buffs;

const BOSS: usize = 15438;

#[test]
fn no_reminder_outside_encounter() {
    let mut reminder = Reminder::new();
    let buffs = Buffs::new();
    reminder.check_food(&buffs, 100);
    reminder.check_self_all(Some(&buffs), 100, None);
    assert!(reminder.food_trigger.is_none());
    assert!(reminder.util_trigger.is_none());
    assert!(!reminder.can_remind());
}

#[test]
fn only_bosses_needs_boss_target() {
    let mut reminder = Reminder::new();
    reminder.start_encounter(1, 0);
    assert!(!reminder.can_remind());
    reminder.change_encounter(BOSS, 10);
    assert!(reminder.can_remind());
    assert_eq!(reminder.current_encounter(), Some(BOSS));
    assert_eq!(reminder.encounter.unwrap().start_time, 0);
    reminder.settings.only_bosses = false;
    reminder.change_encounter(1, 20);
    assert!(reminder.can_remind());
}

#[test]
fn pending_check_after_delay_once() {
    let mut reminder = Reminder::new();
    let mut buffs = Buffs::new();
    buffs.unset_to_none(0, &vec![]);
    reminder.start_encounter(BOSS, 1000);
    reminder.update_pending_check(Some(&buffs), 1100, 5, None);
    assert!(reminder.food_trigger.is_none());
    assert!(reminder.encounter.unwrap().pending_check);
    reminder.update_pending_check(Some(&buffs), 1250, 6, None);
    assert_eq!(reminder.food_trigger, Some(6));
    assert_eq!(reminder.util_trigger, Some(6));
    assert!(!reminder.encounter.unwrap().pending_check);
    reminder.food_trigger = None;
    reminder.update_pending_check(Some(&buffs), 5000, 7, None);
    assert!(reminder.food_trigger.is_none());
}

#[test]
fn end_encounter_checks_and_ends() {
    let mut reminder = Reminder::new();
    let mut buffs = Buffs::new();
    buffs.apply_food(MALNOURISHED, 1);
    buffs.apply_util(99, 1);
    reminder.start_encounter(BOSS, 0);
    reminder.end_encounter(Some(&buffs), 42, None);
    assert_eq!(reminder.food_trigger, Some(42));
    assert!(reminder.util_trigger.is_none());
    assert!(reminder.encounter.is_none());
}

#[test]
fn malnourished_and_diminished_always_remind() {
    let mut reminder = Reminder::new();
    reminder.self_buff_apply(MALNOURISHED, 3);
    assert_eq!(reminder.food_trigger, Some(3));
    reminder.self_buff_apply(DIMINISHED, 4);
    assert_eq!(reminder.util_trigger, Some(4));
    reminder.settings.always_mal_dim = false;
    reminder.self_buff_apply(MALNOURISHED, 5);
    assert_eq!(reminder.food_trigger, Some(3));
}

#[test]
fn custom_reminder_restricted_to_map() {
    let mut reminder = Reminder::new();
    reminder.trigger_custom(32473, 1, None);
    assert!(reminder.custom_triggers.is_empty());
    reminder.trigger_custom(32473, 2, Some(872));
    assert_eq!(reminder.custom_triggers.get(&32473), Some(&2));
    reminder.trigger_custom(REINFORCED, 3, None);
    assert_eq!(reminder.custom_triggers.get(&REINFORCED), Some(&3));
    reminder.trigger_custom(1, 4, None);
    assert_eq!(reminder.custom_triggers.len(), 2);
}

#[test]
fn reminders_expire_after_duration() {
    let mut reminder = Reminder::new();
    reminder.trigger_food(1000);
    reminder.trigger_custom(REINFORCED, 2000, None);
    let active = reminder.update_triggers(6000);
    assert!(active.food);
    assert!(!active.util);
    assert_eq!(active.custom, vec![REINFORCED]);
    let active = reminder.update_triggers(6001);
    assert!(!active.food);
    assert!(reminder.food_trigger.is_none());
    let active = reminder.update_triggers(7001);
    assert!(active.custom.is_empty());
    assert!(Reminder::is_triggered(10, 5, 3));
}

#[test]
fn reminder_texts() {
    assert_eq!(reminder_text(true, true), Some("Food & Utility reminder!"));
    assert_eq!(reminder_text(true, false), Some("Food reminder!"));
    assert_eq!(reminder_text(false, true), Some("Utility reminder!"));
    assert_eq!(reminder_text(false, false), None);
}

#[test]
fn custom_defaults_and_modes() {
    let defaults = CustomReminder::defaults();
    assert_eq!(defaults.len(), 4);
    assert_eq!(defaults[0].id, REINFORCED);
    assert_eq!(defaults[0].display_name(), "Reinforced");
    assert!(GameMode::Fractal.is_map(872));
    assert!(!GameMode::Fractal.is_map(1));
    assert!(GameMode::All.is_map(1));
    assert!(!GameMode::Raid.is_map(872));
}

#[test]
fn custom_check_on_missing_buff() {
    let mut reminder = Reminder::new();
    reminder.settings.only_bosses = false;
    reminder.start_encounter(1, 0);
    let mut buffs = Buffs::new();
    buffs.unset_to_none(0, &vec![REINFORCED, 32473]);
    reminder.check_custom(&buffs, 9, Some(872));
    assert_eq!(reminder.custom_triggers.get(&REINFORCED), Some(&9));
    assert_eq!(reminder.custom_triggers.get(&32473), Some(&9));
    assert_eq!(reminder.custom_triggers.get(&32134), None);
}
