use crate::arc_util::game::Profession;
use vstd::prelude::*;

verus! {

/// Malnourished buff id.
pub const MALNOURISHED: u32 = 46587;

/// Diminished buff id.
pub const DIMINISHED: u32 = 46668;

/// Reinforced Armor buff id.
pub const REINFORCED: u32 = 9283;

/// Professions sorted alphabetically.
pub open spec fn spec_professions() -> Seq<Profession> {
    seq![
        Profession::Unknown,
        Profession::Elementalist,
        Profession::Engineer,
        Profession::Guardian,
        Profession::Mesmer,
        Profession::Necromancer,
        Profession::Ranger,
        Profession::Revenant,
        Profession::Thief,
        Profession::Warrior,
    ]
}

/// Returns the professions sorted alphabetically.
pub fn professions() -> (r: Vec<Profession>)
    ensures
        r@ == spec_professions(),
{
    let r = vec![
        Profession::Unknown,
        Profession::Elementalist,
        Profession::Engineer,
        Profession::Guardian,
        Profession::Mesmer,
        Profession::Necromancer,
        Profession::Ranger,
        Profession::Revenant,
        Profession::Thief,
        Profession::Warrior,
    ];
    assert(r@ =~= spec_professions());
    r
}

/// Ids of all raid maps.
pub open spec fn raid_maps() -> Set<u32> {
    set![
        1155, // aerodrome
        1062, // spirit vale
        1149, // salvation pass
        1156, // stronghold of the faithful
        1188, // bastion of the penitent
        1264, // hall of chains
        1303, // mythwright gambit
        1323, // key of ahdashim
    ]
}

/// Ids of all fractal maps.
pub open spec fn fractal_maps() -> Set<u32> {
    set![
        872, // mistlock observatory
        954, // volcanic
        947, // uncategorized
        948, // snowblind
        950, // urban battleground
        949, // swampland
        952, // cliffside
        951, // aquatic ruins
        953, // underground facility
        958, // solid ocean
        955, // molten furnance
        959, // molten boss
        956, // aetherblade
        957, // thaumanova reactor
        960, // captain mai trin boss
        1164, // chaos
        1177, // nightmare
        1205, // shattered observatory
        1267, // twilight oasis
        1290, // deepstone
        1309, // siren's reef
        1384, // sunqua peak
    ]
}

/// Checks whether the map id belongs to a raid map.
pub fn is_raid_map(map_id: u32) -> (r: bool)
    ensures
        r == raid_maps().contains(map_id),
{
    matches!(map_id, 1155 | 1062 | 1149 | 1156 | 1188 | 1264 | 1303 | 1323)
}

/// Checks whether the map id belongs to a fractal map.
pub fn is_fractal_map(map_id: u32) -> (r: bool)
    ensures
        r == fractal_maps().contains(map_id),
{
    matches!(
        map_id,
        872 | 954 | 947 | 948 | 950 | 949 | 952 | 951 | 953 | 958 | 955 | 959 | 956 | 957 | 960 | 1164 | 1177
            | 1205 | 1267 | 1290 | 1309 | 1384
    )
}

/// Boss ids.
pub open spec fn spec_bosses() -> Seq<u32> {
    seq![
        15438, // Vale Guardian
        15429, // Gorseval
        15375, // Sabetha
        16123, // Slothasor
        16088, // Berg
        16137, // Zane
        16125, // Narella
        16115, // Matthias
        16253, // MacLeod
        16235, // Keep Construct
        16246, // Xera
        17194, // Cairn
        17172, // Mursaat Overseer
        17188, // Samarog
        17154, // Deimos
        19767, // Soulless Horror
        19828, // Desmina
        19691, // Broken King
        19536, // Soul Eater
        19651, // Eye of Judgement
        19844, // Eye of Fate
        19450, // Dhuum
        43974, // Conjured Amalgamate
        10142, // Conjured Amalgamate Right Arm
        37464, // Conjured Amalgamate Left Arm
        21105, // Nikare
        21089, // Kenut
        20934, // Qadim
        22006, // Adina
        21964, // Sabir
        22000, // Qadim the Peerless
        17021, // MAMA
        17028, // Siax
        16948, // Ensolyss
        17632, // Skorvald
        17949, // Artsariiv
        17759, // Arkk
        23254, // Ai
    ]
}

/// Returns the boss ids.
pub fn bosses() -> (r: Vec<u32>)
    ensures
        r@ == spec_bosses(),
{
    let r: Vec<u32> = vec![
        15438, 15429, 15375, 16123, 16088, 16137, 16125, 16115, 16253, 16235, 16246, 17194, 17172,
        17188, 17154, 19767, 19828, 19691, 19536, 19651, 19844, 19450, 43974, 10142, 37464, 21105,
        21089, 20934, 22006, 21964, 22000, 17021, 17028, 16948, 17632, 17949, 17759, 23254,
    ];
    assert(r@ =~= spec_bosses());
    r
}

} // verus!
