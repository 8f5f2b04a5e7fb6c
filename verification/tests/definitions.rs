use arcdps_food_reminder::data::constants::{DIMINISHED, MALNOURISHED, REINFORCED};
use arcdps_food_reminder::data::default_definitions;
use arcdps_food_reminder::data::structs::{BuffData, DefData, Rarity};
use arcdps_food_reminder::data::{BuffKind, DefinitionKind, Definitions};
use arcdps_food_reminder::defs;

fn buff(id: u32, name: &str) -> BuffData {
    BuffData {
        id,
        name: name.to_string(),
        stats: vec!["+100 Power".to_string()],
        display: name.to_string(),
        rarity: Rarity::Fine,
    }
}

#[test]
fn mod_definitions() {
    let DefData {
        food,
        utility,
        ignore,
        ..
    } = default_definitions();

    assert!(!food.is_empty());
    assert!(!utility.is_empty());
    assert!(!ignore.is_empty());

    assert!(food.iter().any(|entry| entry.id == MALNOURISHED));
    assert!(utility.iter().any(|entry| entry.id == DIMINISHED));
}

#[test]
fn defs_definitions() {
    let DefData {
        food,
        utility,
        ignore,
        bosses,
    } = default_definitions();

    assert!(!food.is_empty());
    assert!(!utility.is_empty());
    assert!(!ignore.is_empty());
    assert!(!bosses.is_empty());

    assert!(food.iter().any(|entry| entry.id == MALNOURISHED));
    assert!(utility.iter().any(|entry| entry.id == DIMINISHED));
}

#[test]
fn get_buff_classifies_known_and_named_buffs() {
    let mut defs = Definitions::empty();
    defs.add_buffs(vec![buff(10, "Bowl of Soup")], vec![buff(20, "Sharpening Stone")], vec![30]);

    assert!(matches!(defs.get_buff(10, None), BuffKind::Food(Some(data)) if data.id == 10));
    assert!(matches!(defs.get_buff(20, None), BuffKind::Util(Some(data)) if data.id == 20));
    assert!(matches!(defs.get_buff(30, None), BuffKind::Ignore));
    assert!(matches!(defs.get_buff(REINFORCED, None), BuffKind::Reinforced));
    assert!(matches!(defs.get_buff(40, Some("Nourishment")), BuffKind::Food(None)));
    assert!(matches!(defs.get_buff(41, Some("Enhancement")), BuffKind::Util(None)));
    assert!(matches!(defs.get_buff(42, Some("Might")), BuffKind::Unknown));
    assert!(matches!(defs.get_buff(43, None), BuffKind::Unknown));
}

#[test]
fn later_definition_replaces_earlier() {
    let mut defs = Definitions::empty();
    defs.add_buffs(vec![buff(10, "Bowl of Soup")], vec![], vec![]);
    defs.add_buffs(vec![], vec![buff(10, "Oil")], vec![]);

    assert!(matches!(defs.get_definition(10), Some(DefinitionKind::Util(data)) if data.name == "Oil"));
    assert_eq!(defs.all_food().len(), 0);
    assert_eq!(defs.all_util().len(), 1);
}

#[test]
fn definitions_sorted_by_name() {
    let mut defs = Definitions::empty();
    defs.add_buffs(vec![buff(2, "Zucchini"), buff(1, "Apple"), buff(3, "Mango")], vec![], vec![]);
    let names: Vec<&str> = defs.all_food().iter().map(|data| data.name.as_str()).collect();
    assert_eq!(names, vec!["Apple", "Mango", "Zucchini"]);
}

#[test]
fn default_definitions_hold_malnourished() {
    let defs = Definitions::with_defaults();
    assert!(matches!(defs.get_buff(MALNOURISHED, None), BuffKind::Food(Some(_))));
    assert!(matches!(defs.get_buff(DIMINISHED, None), BuffKind::Util(Some(_))));
}

#[test]
fn definition_kind_names() {
    assert_eq!(DefinitionKind::Food(buff(1, "Soup")).name(), "Soup");
    assert_eq!(DefinitionKind::Util(buff(1, "Stone")).name(), "Stone");
    assert_eq!(DefinitionKind::Ignore.name(), "");
}

#[test]
fn map_definitions_lookup_and_bosses() {
    let mut defs = defs::Definitions::empty();
    defs.add_buffs(vec![buff(10, "Soup")], vec![buff(20, "Stone")], vec![30]);
    defs.add_bosses(vec![15438]);
    assert!(matches!(defs.get_buff(10), Some(defs::BuffDef::Food(data)) if data.id == 10));
    assert!(matches!(defs.get_buff(20), Some(defs::BuffDef::Util(data)) if data.id == 20));
    assert!(matches!(defs.get_buff(30), Some(defs::BuffDef::Ignore(30))));
    assert!(defs.get_buff(40).is_none());
    assert!(defs.is_boss(15438));
    assert!(!defs.is_boss(1));
}

#[test]
fn map_definitions_defaults() {
    let defs = defs::Definitions::with_defaults();
    assert!(matches!(defs.get_buff(MALNOURISHED), Some(defs::BuffDef::Food(_))));
    assert!(defs.is_boss(15438));
}

#[test]
fn default_definitions_agree() {
    let defaults = Definitions::with_defaults();
    let mut added = Definitions::empty();
    added.add_data(default_definitions());
    for id in [MALNOURISHED, DIMINISHED, REINFORCED, 1, 100_000] {
        let a = defaults.get_definition(id).map(|def| (def.name().to_string(), matches!(def, DefinitionKind::Food(_))));
        let b = added.get_definition(id).map(|def| (def.name().to_string(), matches!(def, DefinitionKind::Food(_))));
        assert_eq!(a, b);
    }
    assert!(defaults.get_definition(REINFORCED).is_some());
    assert!(defaults.get_definition(1).is_none());
}
