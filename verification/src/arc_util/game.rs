//! General GW2 related enums.
//!
//! These are also used in the ArcDPS API, but may be useful outside.

use vstd::prelude::*;

verus! {

/// GW2 client language.
#[derive(Debug, Clone, Copy, PartialEq, Eq, Structural)]
pub enum Language {
    English,
    French,
    German,
    Spanish,
    Chinese,
}

impl Language {
    /// The primitive value of the variant.
    pub open spec fn code(self) -> u8 {
        match self {
            Language::English => 0,
            Language::French => 2,
            Language::German => 3,
            Language::Spanish => 4,
            Language::Chinese => 5,
        }
    }

    /// Returns the primitive value of the variant.
    pub fn to_primitive(&self) -> (r: u8)
        ensures
            r == self.code(),
    {
        match self {
            Language::English => 0,
            Language::French => 2,
            Language::German => 3,
            Language::Spanish => 4,
            Language::Chinese => 5,
        }
    }

    /// Converts a primitive value, failing for values of no variant.
    pub fn try_from_primitive(value: u8) -> (r: Option<Self>)
        ensures
            forall|v: Self| #[trigger] v.code() == value ==> r == Some(v),
            r matches Option::Some(v) ==> v.code() == value,
    {
        match value {
            0 => Option::Some(Language::English),
            2 => Option::Some(Language::French),
            3 => Option::Some(Language::German),
            4 => Option::Some(Language::Spanish),
            5 => Option::Some(Language::Chinese),
            _ => Option::None,
        }
    }
}

/// Player profession.
#[derive(Debug, Clone, Copy, PartialEq, Eq, Structural)]
pub enum Profession {
    /// Unknown or invalid.
    Unknown,
    Guardian,
    Warrior,
    Engineer,
    Ranger,
    Thief,
    Elementalist,
    Mesmer,
    Necromancer,
    Revenant,
}

impl Profession {
    /// The primitive value of the variant.
    pub open spec fn code(self) -> u32 {
        match self {
            Profession::Unknown => 0,
            Profession::Guardian => 1,
            Profession::Warrior => 2,
            Profession::Engineer => 3,
            Profession::Ranger => 4,
            Profession::Thief => 5,
            Profession::Elementalist => 6,
            Profession::Mesmer => 7,
            Profession::Necromancer => 8,
            Profession::Revenant => 9,
        }
    }

    /// Returns the primitive value of the variant.
    pub fn to_primitive(&self) -> (r: u32)
        ensures
            r == self.code(),
    {
        match self {
            Profession::Unknown => 0,
            Profession::Guardian => 1,
            Profession::Warrior => 2,
            Profession::Engineer => 3,
            Profession::Ranger => 4,
            Profession::Thief => 5,
            Profession::Elementalist => 6,
            Profession::Mesmer => 7,
            Profession::Necromancer => 8,
            Profession::Revenant => 9,
        }
    }

    /// Converts a primitive value, falling back to [`Profession::Unknown`] for values of no variant.
    pub fn from_primitive(value: u32) -> (r: Self)
        ensures
            forall|v: Self| #[trigger] v.code() == value ==> r == v,
            r.code() == value || r == Profession::Unknown,
    {
        match value {
            0 => Profession::Unknown,
            1 => Profession::Guardian,
            2 => Profession::Warrior,
            3 => Profession::Engineer,
            4 => Profession::Ranger,
            5 => Profession::Thief,
            6 => Profession::Elementalist,
            7 => Profession::Mesmer,
            8 => Profession::Necromancer,
            9 => Profession::Revenant,
            _ => Profession::Unknown,
        }
    }
}

/// Player specializations.
#[derive(Debug, Clone, Copy, PartialEq, Eq, Structural)]
pub enum Specialization {
    /// Unknown or invalid.
    Unknown,
    Dueling,
    Domination,
    Inspiration,
    Illusions,
    Chronomancer,
    Chaos,
    Mirage,
    DeathMagic,
    BloodMagic,
    Reaper,
    Curses,
    SoulReaping,
    Spite,
    Scourge,
    Invocation,
    Retribution,
    Corruption,
    Devastation,
    Salvation,
    Herald,
    Renegade,
    Strength,
    Tactics,
    Berserker,
    Defense,
    Arms,
    Discipline,
    Spellbreaker,
    Druid,
    Marksmanship,
    NatureMagic,
    Skirmishing,
    Beastmastery,
    WildernessSurvival,
    Soulbeast,
    Explosives,
    Tools,
    Alchemy,
    Firearms,
    Scrapper,
    Inventions,
    Holosmith,
    Daredevil,
    ShadowArts,
    DeadlyArts,
    CriticalStrikes,
    Trickery,
    Acrobatics,
    Deadeye,
    Valor,
    Radiance,
    Dragonhunter,
    Zeal,
    Virtues,
    Honor,
    Firebrand,
    Water,
    Earth,
    Fire,
    Arcane,
    Air,
    Tempest,
    Weaver,
}

impl Specialization {
    /// The primitive value of the variant.
    pub open spec fn code(self) -> u32 {
        match self {
            Specialization::Unknown => 0,
            Specialization::Dueling => 1,
            Specialization::Domination => 10,
            Specialization::Inspiration => 23,
            Specialization::Illusions => 24,
            Specialization::Chronomancer => 40,
            Specialization::Chaos => 45,
            Specialization::Mirage => 59,
            Specialization::DeathMagic => 2,
            Specialization::BloodMagic => 19,
            Specialization::Reaper => 34,
            Specialization::Curses => 39,
            Specialization::SoulReaping => 50,
            Specialization::Spite => 53,
            Specialization::Scourge => 60,
            Specialization::Invocation => 3,
            Specialization::Retribution => 9,
            Specialization::Corruption => 14,
            Specialization::Devastation => 15,
            Specialization::Salvation => 12,
            Specialization::Herald => 52,
            Specialization::Renegade => 63,
            Specialization::Strength => 4,
            Specialization::Tactics => 11,
            Specialization::Berserker => 18,
            Specialization::Defense => 22,
            Specialization::Arms => 36,
            Specialization::Discipline => 51,
            Specialization::Spellbreaker => 61,
            Specialization::Druid => 5,
            Specialization::Marksmanship => 8,
            Specialization::NatureMagic => 25,
            Specialization::Skirmishing => 30,
            Specialization::Beastmastery => 32,
            Specialization::WildernessSurvival => 33,
            Specialization::Soulbeast => 55,
            Specialization::Explosives => 6,
            Specialization::Tools => 21,
            Specialization::Alchemy => 29,
            Specialization::Firearms => 38,
            Specialization::Scrapper => 43,
            Specialization::Inventions => 47,
            Specialization::Holosmith => 57,
            Specialization::Daredevil => 7,
            Specialization::ShadowArts => 20,
            Specialization::DeadlyArts => 28,
            Specialization::CriticalStrikes => 35,
            Specialization::Trickery => 44,
            Specialization::Acrobatics => 54,
            Specialization::Deadeye => 58,
            Specialization::Valor => 13,
            Specialization::Radiance => 16,
            Specialization::Dragonhunter => 27,
            Specialization::Zeal => 42,
            Specialization::Virtues => 46,
            Specialization::Honor => 49,
            Specialization::Firebrand => 62,
            Specialization::Water => 17,
            Specialization::Earth => 26,
            Specialization::Fire => 31,
            Specialization::Arcane => 37,
            Specialization::Air => 41,
            Specialization::Tempest => 48,
            Specialization::Weaver => 56,
        }
    }

    /// Returns the primitive value of the variant.
    pub fn to_primitive(&self) -> (r: u32)
        ensures
            r == self.code(),
    {
        match self {
            Specialization::Unknown => 0,
            Specialization::Dueling => 1,
            Specialization::Domination => 10,
            Specialization::Inspiration => 23,
            Specialization::Illusions => 24,
            Specialization::Chronomancer => 40,
            Specialization::Chaos => 45,
            Specialization::Mirage => 59,
            Specialization::DeathMagic => 2,
            Specialization::BloodMagic => 19,
            Specialization::Reaper => 34,
            Specialization::Curses => 39,
            Specialization::SoulReaping => 50,
            Specialization::Spite => 53,
            Specialization::Scourge => 60,
            Specialization::Invocation => 3,
            Specialization::Retribution => 9,
            Specialization::Corruption => 14,
            Specialization::Devastation => 15,
            Specialization::Salvation => 12,
            Specialization::Herald => 52,
            Specialization::Renegade => 63,
            Specialization::Strength => 4,
            Specialization::Tactics => 11,
            Specialization::Berserker => 18,
            Specialization::Defense => 22,
            Specialization::Arms => 36,
            Specialization::Discipline => 51,
            Specialization::Spellbreaker => 61,
            Specialization::Druid => 5,
            Specialization::Marksmanship => 8,
            Specialization::NatureMagic => 25,
            Specialization::Skirmishing => 30,
            Specialization::Beastmastery => 32,
            Specialization::WildernessSurvival => 33,
            Specialization::Soulbeast => 55,
            Specialization::Explosives => 6,
            Specialization::Tools => 21,
            Specialization::Alchemy => 29,
            Specialization::Firearms => 38,
            Specialization::Scrapper => 43,
            Specialization::Inventions => 47,
            Specialization::Holosmith => 57,
            Specialization::Daredevil => 7,
            Specialization::ShadowArts => 20,
            Specialization::DeadlyArts => 28,
            Specialization::CriticalStrikes => 35,
            Specialization::Trickery => 44,
            Specialization::Acrobatics => 54,
            Specialization::Deadeye => 58,
            Specialization::Valor => 13,
            Specialization::Radiance => 16,
            Specialization::Dragonhunter => 27,
            Specialization::Zeal => 42,
            Specialization::Virtues => 46,
            Specialization::Honor => 49,
            Specialization::Firebrand => 62,
            Specialization::Water => 17,
            Specialization::Earth => 26,
            Specialization::Fire => 31,
            Specialization::Arcane => 37,
            Specialization::Air => 41,
            Specialization::Tempest => 48,
            Specialization::Weaver => 56,
        }
    }

    /// Converts a primitive value, falling back to [`Specialization::Unknown`] for values of no variant.
    pub fn from_primitive(value: u32) -> (r: Self)
        ensures
            forall|v: Self| #[trigger] v.code() == value ==> r == v,
            r.code() == value || r == Specialization::Unknown,
    {
        match value {
            0 => Specialization::Unknown,
            1 => Specialization::Dueling,
            10 => Specialization::Domination,
            23 => Specialization::Inspiration,
            24 => Specialization::Illusions,
            40 => Specialization::Chronomancer,
            45 => Specialization::Chaos,
            59 => Specialization::Mirage,
            2 => Specialization::DeathMagic,
            19 => Specialization::BloodMagic,
            34 => Specialization::Reaper,
            39 => Specialization::Curses,
            50 => Specialization::SoulReaping,
            53 => Specialization::Spite,
            60 => Specialization::Scourge,
            3 => Specialization::Invocation,
            9 => Specialization::Retribution,
            14 => Specialization::Corruption,
            15 => Specialization::Devastation,
            12 => Specialization::Salvation,
            52 => Specialization::Herald,
            63 => Specialization::Renegade,
            4 => Specialization::Strength,
            11 => Specialization::Tactics,
            18 => Specialization::Berserker,
            22 => Specialization::Defense,
            36 => Specialization::Arms,
            51 => Specialization::Discipline,
            61 => Specialization::Spellbreaker,
            5 => Specialization::Druid,
            8 => Specialization::Marksmanship,
            25 => Specialization::NatureMagic,
            30 => Specialization::Skirmishing,
            32 => Specialization::Beastmastery,
            33 => Specialization::WildernessSurvival,
            55 => Specialization::Soulbeast,
            6 => Specialization::Explosives,
            21 => Specialization::Tools,
            29 => Specialization::Alchemy,
            38 => Specialization::Firearms,
            43 => Specialization::Scrapper,
            47 => Specialization::Inventions,
            57 => Specialization::Holosmith,
            7 => Specialization::Daredevil,
            20 => Specialization::ShadowArts,
            28 => Specialization::DeadlyArts,
            35 => Specialization::CriticalStrikes,
            44 => Specialization::Trickery,
            54 => Specialization::Acrobatics,
            58 => Specialization::Deadeye,
            13 => Specialization::Valor,
            16 => Specialization::Radiance,
            27 => Specialization::Dragonhunter,
            42 => Specialization::Zeal,
            46 => Specialization::Virtues,
            49 => Specialization::Honor,
            62 => Specialization::Firebrand,
            17 => Specialization::Water,
            26 => Specialization::Earth,
            31 => Specialization::Fire,
            37 => Specialization::Arcane,
            41 => Specialization::Air,
            48 => Specialization::Tempest,
            56 => Specialization::Weaver,
            _ => Specialization::Unknown,
        }
    }
}

/// Buff formula attributes.
#[derive(Debug, Clone, Copy, PartialEq, Eq, Structural)]
pub enum Attribute {
    NoAttribute,
    Power,
    Precision,
    Toughness,
    Vitality,
    Ferocity,
    Healing,
    Condition,
    Concentration,
    Expertise,
    Armor,
    Agony,
    StatInc,
    FlatInc,
    PhysInc,
    CondInc,
    PhysRec,
    CondRec,
    Attackspeed,
    SiphonInc,
    SiphonRec,
    /// Unknown or invalid.
    Unknown,
}

impl Attribute {
    /// The primitive value of the variant.
    pub open spec fn code(self) -> u16 {
        match self {
            Attribute::NoAttribute => 0,
            Attribute::Power => 1,
            Attribute::Precision => 2,
            Attribute::Toughness => 3,
            Attribute::Vitality => 4,
            Attribute::Ferocity => 5,
            Attribute::Healing => 6,
            Attribute::Condition => 7,
            Attribute::Concentration => 8,
            Attribute::Expertise => 9,
            Attribute::Armor => 10,
            Attribute::Agony => 11,
            Attribute::StatInc => 12,
            Attribute::FlatInc => 13,
            Attribute::PhysInc => 14,
            Attribute::CondInc => 15,
            Attribute::PhysRec => 16,
            Attribute::CondRec => 17,
            Attribute::Attackspeed => 18,
            Attribute::SiphonInc => 19,
            Attribute::SiphonRec => 20,
            Attribute::Unknown => 65535,
        }
    }

    /// Returns the primitive value of the variant.
    pub fn to_primitive(&self) -> (r: u16)
        ensures
            r == self.code(),
    {
        match self {
            Attribute::NoAttribute => 0,
            Attribute::Power => 1,
            Attribute::Precision => 2,
            Attribute::Toughness => 3,
            Attribute::Vitality => 4,
            Attribute::Ferocity => 5,
            Attribute::Healing => 6,
            Attribute::Condition => 7,
            Attribute::Concentration => 8,
            Attribute::Expertise => 9,
            Attribute::Armor => 10,
            Attribute::Agony => 11,
            Attribute::StatInc => 12,
            Attribute::FlatInc => 13,
            Attribute::PhysInc => 14,
            Attribute::CondInc => 15,
            Attribute::PhysRec => 16,
            Attribute::CondRec => 17,
            Attribute::Attackspeed => 18,
            Attribute::SiphonInc => 19,
            Attribute::SiphonRec => 20,
            Attribute::Unknown => 65535,
        }
    }

    /// Converts a primitive value, falling back to [`Attribute::Unknown`] for values of no variant.
    pub fn from_primitive(value: u16) -> (r: Self)
        ensures
            forall|v: Self| #[trigger] v.code() == value ==> r == v,
            r.code() == value || r == Attribute::Unknown,
    {
        match value {
            0 => Attribute::NoAttribute,
            1 => Attribute::Power,
            2 => Attribute::Precision,
            3 => Attribute::Toughness,
            4 => Attribute::Vitality,
            5 => Attribute::Ferocity,
            6 => Attribute::Healing,
            7 => Attribute::Condition,
            8 => Attribute::Concentration,
            9 => Attribute::Expertise,
            10 => Attribute::Armor,
            11 => Attribute::Agony,
            12 => Attribute::StatInc,
            13 => Attribute::FlatInc,
            14 => Attribute::PhysInc,
            15 => Attribute::CondInc,
            16 => Attribute::PhysRec,
            17 => Attribute::CondRec,
            18 => Attribute::Attackspeed,
            19 => Attribute::SiphonInc,
            20 => Attribute::SiphonRec,
            65535 => Attribute::Unknown,
            _ => Attribute::Unknown,
        }
    }
}

/// The professions in the order of their ArcDPS codes, starting at code 1.
pub open spec fn professions_by_code() -> Seq<Profession> {
    seq![
        Profession::Guardian,
        Profession::Warrior,
        Profession::Engineer,
        Profession::Ranger,
        Profession::Thief,
        Profession::Elementalist,
        Profession::Mesmer,
        Profession::Necromancer,
        Profession::Revenant,
    ]
}

/// ArcDPS numbers the professions from 1 in game order (Guardian, Warrior, Engineer, Ranger,
/// Thief, Elementalist, Mesmer, Necromancer, Revenant), with 0 for unknown; no other code is used.
pub proof fn law_profession_codes(v: Profession, code: u32)
    ensures
        (v.code() == 0) <==> (v == Profession::Unknown),
        1 <= code <= 9 ==> ((v.code() == code) <==> (v == professions_by_code()[code - 1])),
        v.code() <= 9,
{
}

} // verus!
