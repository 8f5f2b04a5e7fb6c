use arcdps_food_reminder::action::Action;
use arcdps_food_reminder::arc_util::api::{Activation, BuffCategory, BuffRemove, CustomSkill, StateChange};
use arcdps_food_reminder::arc_util::exports::{Modifiers, UISettings};
use arcdps_food_reminder::arc_util::game::{Attribute, Language, Profession, Specialization};
use arcdps_food_reminder::builds::build_entry::Build;
use arcdps_food_reminder::builds::{build_buff_status, BuildBuffStatus, Builds};
use arcdps_food_reminder::data::constants::{is_fractal_map, is_raid_map, professions};
use arcdps_food_reminder::tracking::buff::BuffState;
use arcdps_food_reminder::tracking::settings::{Color, TrackerSettings};

#[test]
fn action_moves_entries() {
    let mut list = vec![1, 2, 3];
    Action::Up(2).perform(&mut list);
    assert_eq!(list, vec![1, 3, 2]);
    Action::Down(0).perform(&mut list);
    assert_eq!(list, vec![3, 1, 2]);
    Action::Remove(1).perform(&mut list);
    assert_eq!(list, vec![3, 2]);
    Action::NoAction.perform(&mut list);
    assert_eq!(list, vec![3, 2]);

    let mut action = Action::NoAction;
    action.render_buttons(0, 2, true, false, false);
    assert_eq!(action, Action::NoAction);
    action.render_buttons(1, 2, true, true, false);
    assert_eq!(action, Action::Up(1));
    action.render_buttons(0, 2, true, true, true);
    assert_eq!(action, Action::Remove(0));
}

#[test]
fn enum_codes_round_trip() {
    assert_eq!(Profession::from_primitive(1), Profession::Guardian);
    assert_eq!(Profession::from_primitive(1000), Profession::Unknown);
    assert_eq!(Specialization::from_primitive(62), Specialization::Firebrand);
    assert_eq!(Attribute::from_primitive(65535), Attribute::Unknown);
    assert_eq!(StateChange::from_primitive(9), StateChange::LogStart);
    assert_eq!(BuffRemove::from_primitive(1), BuffRemove::All);
    assert_eq!(BuffRemove::from_primitive(200), BuffRemove::Unknown);
    assert_eq!(Activation::from_primitive(0), Activation::NoActivation);
    assert_eq!(Language::try_from_primitive(0), Some(Language::English));
    assert!(Language::try_from_primitive(1).is_none());
    assert_eq!(CustomSkill::try_from_primitive(1066), Some(CustomSkill::Resurrect));
    assert!(BuffCategory::try_from_primitive(250).is_none());
    assert_eq!(professions().len(), 10);
}

#[test]
fn exported_settings_bits() {
    let ui = UISettings::from_raw(0b101);
    assert!(ui.hidden);
    assert!(!ui.draw_always);
    assert!(ui.modifiers_move_lock);
    assert!(!ui.close_with_esc);
    let modifiers = Modifiers::from_raw(0x0003_0002_0001);
    assert_eq!(modifiers.modifier1, 1);
    assert_eq!(modifiers.modifier2, 2);
    assert_eq!(modifiers.modifier_multi, 3);
}

#[test]
fn map_kinds() {
    assert!(is_raid_map(1062));
    assert!(!is_raid_map(872));
    assert!(is_fractal_map(872));
    assert!(!is_fractal_map(15));
}

#[test]
fn builds_search_and_status() {
    let mut builds = Builds::new();
    builds.entries.push(Build::new(Profession::Guardian, "Power Firebrand", "Quickness", 1, 2));
    builds.entries.push(Build::new(Profession::Warrior, "Banner", "notes", 3, 4));
    builds.set_search("FIRE".to_string());
    assert!(!builds.entries[0].visible);
    builds.set_search("fire".to_string());
    assert!(builds.entries[0].visible);
    assert!(!builds.entries[1].visible);
    builds.set_search(String::new());
    assert!(builds.entries[1].visible);
    builds.filter_prof = true;
    assert_eq!(builds.shown_builds(Some(Profession::Warrior)), vec![1]);
    assert!(!builds.is_editing());
    builds.toggle_edit();
    assert!(builds.is_editing());
    assert_eq!(build_buff_status(BuffState::Applied(1), 1), BuildBuffStatus::Applied);
    assert_eq!(build_buff_status(BuffState::Applied(2), 1), BuildBuffStatus::Missing);
    assert_eq!(build_buff_status(BuffState::Unknown, 1), BuildBuffStatus::Unknown);
}

#[test]
fn tracker_settings_defaults() {
    let settings = TrackerSettings::new();
    assert_eq!(settings.hotkey, Some(0x46));
    assert_eq!(Color::Prof.name(), "Profession");
    assert_eq!(Color::all().len(), 3);
}

#[test]
fn action_up_then_down_restores() {
    let mut list = vec!['a', 'b', 'c'];
    Action::Up(1).perform(&mut list);
    assert_eq!(list, vec!['b', 'a', 'c']);
    Action::Down(0).perform(&mut list);
    assert_eq!(list, vec!['a', 'b', 'c']);
}

#[test]
fn action_buttons_single_entry() {
    let mut action = Action::NoAction;
    action.render_buttons(0, 1, true, true, false);
    assert_eq!(action, Action::NoAction);
}
