//! ArcDPS combat API enums.
//!
//! Each enum converts from and to the primitive value ArcDPS uses for it.

use vstd::prelude::*;

verus! {

/// Whether the entity is an ally or enemy.
///
/// *Arc calls this "iff" for if friend/foe.*
#[derive(Debug, Clone, Copy, PartialEq, Eq, Structural)]
pub enum Team {
    /// Allied entity.
    Friend,
    /// Enemy entity.
    Foe,
    /// Uncertain whether ally or enemy.
    Unknown,
}

impl Team {
    /// The primitive value of the variant.
    pub open spec fn code(self) -> u8 {
        match self {
            Team::Friend => 0,
            Team::Foe => 1,
            Team::Unknown => 2,
        }
    }

    /// Returns the primitive value of the variant.
    pub fn to_primitive(&self) -> (r: u8)
        ensures
            r == self.code(),
    {
        match self {
            Team::Friend => 0,
            Team::Foe => 1,
            Team::Unknown => 2,
        }
    }

    /// Converts a primitive value, falling back to [`Team::Unknown`] for values of no variant.
    pub fn from_primitive(value: u8) -> (r: Self)
        ensures
            forall|v: Self| #[trigger] v.code() == value ==> r == v,
            r.code() == value || r == Team::Unknown,
    {
        match value {
            0 => Team::Friend,
            1 => Team::Foe,
            2 => Team::Unknown,
            _ => Team::Unknown,
        }
    }
}

/// Strike types.
///
/// *Arc calls this "combat result".*
#[derive(Debug, Clone, Copy, PartialEq, Eq, Structural)]
pub enum Strike {
    /// Normal damage strike, no crit, no glance.
    Normal,
    /// Strike was critical.
    Crit,
    /// Strike was glancing.
    Glance,
    /// Strike was blocked, due to Aegis, Chrono Shield 4 etc.
    Block,
    /// Strike was evaded, due to dodge, Mesmer Sword 2 etc.
    Evade,
    /// Strike interrupted something.
    Interrupt,
    /// Strike was absorbed, usually due to a "true" invulnerability.
    Absorb,
    /// Strike missed, due to blind etc.
    Blind,
    /// Skill killed the target, not a damage strike.
    KillingBlow,
    /// Skill downed the target, not a damage strike.
    Downed,
    /// Skill dealt breakbar damage, not a damage strike.
    Breakbar,
    /// On-activation event, not a damage strike.
    Activation,
    /// Unknown or invalid.
    Unknown,
}

impl Strike {
    /// The primitive value of the variant.
    pub open spec fn code(self) -> u8 {
        match self {
            Strike::Normal => 0,
            Strike::Crit => 1,
            Strike::Glance => 2,
            Strike::Block => 3,
            Strike::Evade => 4,
            Strike::Interrupt => 5,
            Strike::Absorb => 6,
            Strike::Blind => 7,
            Strike::KillingBlow => 8,
            Strike::Downed => 9,
            Strike::Breakbar => 10,
            Strike::Activation => 11,
            Strike::Unknown => 12,
        }
    }

    /// Returns the primitive value of the variant.
    pub fn to_primitive(&self) -> (r: u8)
        ensures
            r == self.code(),
    {
        match self {
            Strike::Normal => 0,
            Strike::Crit => 1,
            Strike::Glance => 2,
            Strike::Block => 3,
            Strike::Evade => 4,
            Strike::Interrupt => 5,
            Strike::Absorb => 6,
            Strike::Blind => 7,
            Strike::KillingBlow => 8,
            Strike::Downed => 9,
            Strike::Breakbar => 10,
            Strike::Activation => 11,
            Strike::Unknown => 12,
        }
    }

    /// Converts a primitive value, falling back to [`Strike::Unknown`] for values of no variant.
    pub fn from_primitive(value: u8) -> (r: Self)
        ensures
            forall|v: Self| #[trigger] v.code() == value ==> r == v,
            r.code() == value || r == Strike::Unknown,
    {
        match value {
            0 => Strike::Normal,
            1 => Strike::Crit,
            2 => Strike::Glance,
            3 => Strike::Block,
            4 => Strike::Evade,
            5 => Strike::Interrupt,
            6 => Strike::Absorb,
            7 => Strike::Blind,
            8 => Strike::KillingBlow,
            9 => Strike::Downed,
            10 => Strike::Breakbar,
            11 => Strike::Activation,
            12 => Strike::Unknown,
            _ => Strike::Unknown,
        }
    }
}

/// Skill activation state.
#[derive(Debug, Clone, Copy, PartialEq, Eq, Structural)]
pub enum Activation {
    /// Not used, different kind of event.
    NoActivation,
    /// Started skill/animation activation.
    Start,
    /// Unused as of 5th November 2019.
    QuicknessUnused,
    /// Stopped skill activation with reaching tooltip time.
    CancelFire,
    /// Stopped skill activation without reaching tooltip time.
    CancelCancel,
    /// Animation completed fully.
    Reset,
    /// Unknown or invalid.
    Unknown,
}

impl Activation {
    /// The primitive value of the variant.
    pub open spec fn code(self) -> u8 {
        match self {
            Activation::NoActivation => 0,
            Activation::Start => 1,
            Activation::QuicknessUnused => 2,
            Activation::CancelFire => 3,
            Activation::CancelCancel => 4,
            Activation::Reset => 5,
            Activation::Unknown => 6,
        }
    }

    /// Returns the primitive value of the variant.
    pub fn to_primitive(&self) -> (r: u8)
        ensures
            r == self.code(),
    {
        match self {
            Activation::NoActivation => 0,
            Activation::Start => 1,
            Activation::QuicknessUnused => 2,
            Activation::CancelFire => 3,
            Activation::CancelCancel => 4,
            Activation::Reset => 5,
            Activation::Unknown => 6,
        }
    }

    /// Converts a primitive value, falling back to [`Activation::Unknown`] for values of no variant.
    pub fn from_primitive(value: u8) -> (r: Self)
        ensures
            forall|v: Self| #[trigger] v.code() == value ==> r == v,
            r.code() == value || r == Activation::Unknown,
    {
        match value {
            0 => Activation::NoActivation,
            1 => Activation::Start,
            2 => Activation::QuicknessUnused,
            3 => Activation::CancelFire,
            4 => Activation::CancelCancel,
            5 => Activation::Reset,
            6 => Activation::Unknown,
            _ => Activation::Unknown,
        }
    }
}

/// Combat state change.
#[derive(Debug, Clone, Copy, PartialEq, Eq, Structural)]
pub enum StateChange {
    /// Not used, different kind of event.
    NoStateChange,
    /// Source entity entered combat, destination contains the subgroup.
    EnterCombat,
    /// Source entity left combat.
    ExitCombat,
    /// Source entity is now alive.
    ChangeUp,
    /// Source entity is now dead.
    ChangeDead,
    /// Source entity is now downed.
    ChangeDown,
    /// Source entity is now in game tracking range.
    Spawn,
    /// Source entity is no longer being tracked or out of game tracking range.
    Despawn,
    /// Source entity health change.
    HealthUpdate,
    /// Logging has started.
    LogStart,
    /// Logging has ended.
    LogEnd,
    /// Source entity swapped weapon set.
    WeaponSwap,
    /// Source entity maximum health change.
    MaxHealthUpdate,
    /// Source entity is "recording" player.
    PointOfView,
    /// Source entity contains the game text language.
    Language,
    /// Source entity contains the game build.
    GWBuild,
    /// Source entity contains the sever shard id.
    ShardId,
    /// Source entity got a reward chest.
    Reward,
    /// Appears once per buff per entity on logging start.
    BuffInitial,
    /// Source entity position change.
    Position,
    /// Source entity velocity change.
    Velocity,
    /// Source entity facing change.
    Facing,
    /// Source entity team change.
    TeamChange,
    /// Source entity is now an attack target.
    AttackTarget,
    /// Source entity targetability change.
    Targetable,
    /// Source entity contains the map id.
    MapId,
    /// Used internally by ArcDPS.
    ReplInfo,
    /// Source entity with active buff.
    StackActive,
    /// Source entity with reset buff.
    StackReset,
    /// Source entity is in guild.
    Guild,
    /// Buff information.
    BuffInfo,
    /// Buff formula.
    BuffFormula,
    /// Skill information.
    SkillInfo,
    /// Skill action.
    SkillTiming,
    /// Source entity breakbar state change.
    BreakbarState,
    /// Breakbar percentage.
    BreakbarPercent,
    /// Error.
    Error,
    /// Source entity has tag.
    Tag,
    /// Source entity barrier change.
    BarrierUpdate,
    /// Arc UI stats reset.
    StatReset,
    /// Combat event with state change byte set to this.
    Extension,
    /// Combat event with state change byte set to this.
    ApiDelayed,
    /// Unknown or invalid.
    Unknown,
}

impl StateChange {
    /// The primitive value of the variant.
    pub open spec fn code(self) -> u8 {
        match self {
            StateChange::NoStateChange => 0,
            StateChange::EnterCombat => 1,
            StateChange::ExitCombat => 2,
            StateChange::ChangeUp => 3,
            StateChange::ChangeDead => 4,
            StateChange::ChangeDown => 5,
            StateChange::Spawn => 6,
            StateChange::Despawn => 7,
            StateChange::HealthUpdate => 8,
            StateChange::LogStart => 9,
            StateChange::LogEnd => 10,
            StateChange::WeaponSwap => 11,
            StateChange::MaxHealthUpdate => 12,
            StateChange::PointOfView => 13,
            StateChange::Language => 14,
            StateChange::GWBuild => 15,
            StateChange::ShardId => 16,
            StateChange::Reward => 17,
            StateChange::BuffInitial => 18,
            StateChange::Position => 19,
            StateChange::Velocity => 20,
            StateChange::Facing => 21,
            StateChange::TeamChange => 22,
            StateChange::AttackTarget => 23,
            StateChange::Targetable => 24,
            StateChange::MapId => 25,
            StateChange::ReplInfo => 26,
            StateChange::StackActive => 27,
            StateChange::StackReset => 28,
            StateChange::Guild => 29,
            StateChange::BuffInfo => 30,
            StateChange::BuffFormula => 31,
            StateChange::SkillInfo => 32,
            StateChange::SkillTiming => 33,
            StateChange::BreakbarState => 34,
            StateChange::BreakbarPercent => 35,
            StateChange::Error => 36,
            StateChange::Tag => 37,
            StateChange::BarrierUpdate => 38,
            StateChange::StatReset => 39,
            StateChange::Extension => 40,
            StateChange::ApiDelayed => 41,
            StateChange::Unknown => 42,
        }
    }

    /// Returns the primitive value of the variant.
    pub fn to_primitive(&self) -> (r: u8)
        ensures
            r == self.code(),
    {
        match self {
            StateChange::NoStateChange => 0,
            StateChange::EnterCombat => 1,
            StateChange::ExitCombat => 2,
            StateChange::ChangeUp => 3,
            StateChange::ChangeDead => 4,
            StateChange::ChangeDown => 5,
            StateChange::Spawn => 6,
            StateChange::Despawn => 7,
            StateChange::HealthUpdate => 8,
            StateChange::LogStart => 9,
            StateChange::LogEnd => 10,
            StateChange::WeaponSwap => 11,
            StateChange::MaxHealthUpdate => 12,
            StateChange::PointOfView => 13,
            StateChange::Language => 14,
            StateChange::GWBuild => 15,
            StateChange::ShardId => 16,
            StateChange::Reward => 17,
            StateChange::BuffInitial => 18,
            StateChange::Position => 19,
            StateChange::Velocity => 20,
            StateChange::Facing => 21,
            StateChange::TeamChange => 22,
            StateChange::AttackTarget => 23,
            StateChange::Targetable => 24,
            StateChange::MapId => 25,
            StateChange::ReplInfo => 26,
            StateChange::StackActive => 27,
            StateChange::StackReset => 28,
            StateChange::Guild => 29,
            StateChange::BuffInfo => 30,
            StateChange::BuffFormula => 31,
            StateChange::SkillInfo => 32,
            StateChange::SkillTiming => 33,
            StateChange::BreakbarState => 34,
            StateChange::BreakbarPercent => 35,
            StateChange::Error => 36,
            StateChange::Tag => 37,
            StateChange::BarrierUpdate => 38,
            StateChange::StatReset => 39,
            StateChange::Extension => 40,
            StateChange::ApiDelayed => 41,
            StateChange::Unknown => 42,
        }
    }

    /// Converts a primitive value, falling back to [`StateChange::Unknown`] for values of no variant.
    pub fn from_primitive(value: u8) -> (r: Self)
        ensures
            forall|v: Self| #[trigger] v.code() == value ==> r == v,
            r.code() == value || r == StateChange::Unknown,
    {
        match value {
            0 => StateChange::NoStateChange,
            1 => StateChange::EnterCombat,
            2 => StateChange::ExitCombat,
            3 => StateChange::ChangeUp,
            4 => StateChange::ChangeDead,
            5 => StateChange::ChangeDown,
            6 => StateChange::Spawn,
            7 => StateChange::Despawn,
            8 => StateChange::HealthUpdate,
            9 => StateChange::LogStart,
            10 => StateChange::LogEnd,
            11 => StateChange::WeaponSwap,
            12 => StateChange::MaxHealthUpdate,
            13 => StateChange::PointOfView,
            14 => StateChange::Language,
            15 => StateChange::GWBuild,
            16 => StateChange::ShardId,
            17 => StateChange::Reward,
            18 => StateChange::BuffInitial,
            19 => StateChange::Position,
            20 => StateChange::Velocity,
            21 => StateChange::Facing,
            22 => StateChange::TeamChange,
            23 => StateChange::AttackTarget,
            24 => StateChange::Targetable,
            25 => StateChange::MapId,
            26 => StateChange::ReplInfo,
            27 => StateChange::StackActive,
            28 => StateChange::StackReset,
            29 => StateChange::Guild,
            30 => StateChange::BuffInfo,
            31 => StateChange::BuffFormula,
            32 => StateChange::SkillInfo,
            33 => StateChange::SkillTiming,
            34 => StateChange::BreakbarState,
            35 => StateChange::BreakbarPercent,
            36 => StateChange::Error,
            37 => StateChange::Tag,
            38 => StateChange::BarrierUpdate,
            39 => StateChange::StatReset,
            40 => StateChange::Extension,
            41 => StateChange::ApiDelayed,
            42 => StateChange::Unknown,
            _ => StateChange::Unknown,
        }
    }
}

/// Combat buff remove.
#[derive(Debug, Clone, Copy, PartialEq, Eq, Structural)]
pub enum BuffRemove {
    /// Not used, different kind of event.
    NoRemove,
    /// Last or all stacks removed, sent by server.
    All,
    /// Single stack removed, happens for each stack on cleanse.
    Single,
    /// Single stack removed automatically by Arc on out of combat or all stack.
    Manual,
    /// Unknown or invalid.
    Unknown,
}

impl BuffRemove {
    /// The primitive value of the variant.
    pub open spec fn code(self) -> u8 {
        match self {
            BuffRemove::NoRemove => 0,
            BuffRemove::All => 1,
            BuffRemove::Single => 2,
            BuffRemove::Manual => 3,
            BuffRemove::Unknown => 4,
        }
    }

    /// Returns the primitive value of the variant.
    pub fn to_primitive(&self) -> (r: u8)
        ensures
            r == self.code(),
    {
        match self {
            BuffRemove::NoRemove => 0,
            BuffRemove::All => 1,
            BuffRemove::Single => 2,
            BuffRemove::Manual => 3,
            BuffRemove::Unknown => 4,
        }
    }

    /// Converts a primitive value, falling back to [`BuffRemove::Unknown`] for values of no variant.
    pub fn from_primitive(value: u8) -> (r: Self)
        ensures
            forall|v: Self| #[trigger] v.code() == value ==> r == v,
            r.code() == value || r == BuffRemove::Unknown,
    {
        match value {
            0 => BuffRemove::NoRemove,
            1 => BuffRemove::All,
            2 => BuffRemove::Single,
            3 => BuffRemove::Manual,
            4 => BuffRemove::Unknown,
            _ => BuffRemove::Unknown,
        }
    }
}

/// Combat buff cycle.
#[derive(Debug, Clone, Copy, PartialEq, Eq, Structural)]
pub enum BuffCycle {
    /// Damage happened on tick timer.
    Cycle,
    /// Damage happened outside tick timer (resistable).
    NotCycle,
    /// Retired since May 2021.
    NotCycleOrResist,
    /// Damage happened to target on hitting target.
    NotCycleDmgToTargetOnHit,
    /// Damage happened to source on hitting target.
    NotCycleDmgToSourceOnHit,
    /// Damage happened to target on source losing a stack.
    NotCycleDmgToTargetOnStackRemove,
    /// Unknown or invalid.
    Unknown,
}

impl BuffCycle {
    /// The primitive value of the variant.
    pub open spec fn code(self) -> u8 {
        match self {
            BuffCycle::Cycle => 0,
            BuffCycle::NotCycle => 1,
            BuffCycle::NotCycleOrResist => 2,
            BuffCycle::NotCycleDmgToTargetOnHit => 3,
            BuffCycle::NotCycleDmgToSourceOnHit => 4,
            BuffCycle::NotCycleDmgToTargetOnStackRemove => 5,
            BuffCycle::Unknown => 6,
        }
    }

    /// Returns the primitive value of the variant.
    pub fn to_primitive(&self) -> (r: u8)
        ensures
            r == self.code(),
    {
        match self {
            BuffCycle::Cycle => 0,
            BuffCycle::NotCycle => 1,
            BuffCycle::NotCycleOrResist => 2,
            BuffCycle::NotCycleDmgToTargetOnHit => 3,
            BuffCycle::NotCycleDmgToSourceOnHit => 4,
            BuffCycle::NotCycleDmgToTargetOnStackRemove => 5,
            BuffCycle::Unknown => 6,
        }
    }

    /// Converts a primitive value, falling back to [`BuffCycle::Unknown`] for values of no variant.
    pub fn from_primitive(value: u8) -> (r: Self)
        ensures
            forall|v: Self| #[trigger] v.code() == value ==> r == v,
            r.code() == value || r == BuffCycle::Unknown,
    {
        match value {
            0 => BuffCycle::Cycle,
            1 => BuffCycle::NotCycle,
            2 => BuffCycle::NotCycleOrResist,
            3 => BuffCycle::NotCycleDmgToTargetOnHit,
            4 => BuffCycle::NotCycleDmgToSourceOnHit,
            5 => BuffCycle::NotCycleDmgToTargetOnStackRemove,
            6 => BuffCycle::Unknown,
            _ => BuffCycle::Unknown,
        }
    }
}

/// ArcDPS custom skill ids.
#[derive(Debug, Clone, Copy, PartialEq, Eq, Structural)]
pub enum CustomSkill {
    /// Resurrect skill, not custom but important and unnamed.
    Resurrect,
    /// Bandage downstate skill.
    Bandage,
    /// Dodge skill.
    Dodge,
}

impl CustomSkill {
    /// The primitive value of the variant.
    pub open spec fn code(self) -> u16 {
        match self {
            CustomSkill::Resurrect => 1066,
            CustomSkill::Bandage => 1175,
            CustomSkill::Dodge => 65001,
        }
    }

    /// Returns the primitive value of the variant.
    pub fn to_primitive(&self) -> (r: u16)
        ensures
            r == self.code(),
    {
        match self {
            CustomSkill::Resurrect => 1066,
            CustomSkill::Bandage => 1175,
            CustomSkill::Dodge => 65001,
        }
    }

    /// Converts a primitive value, failing for values of no variant.
    pub fn try_from_primitive(value: u16) -> (r: Option<Self>)
        ensures
            forall|v: Self| #[trigger] v.code() == value ==> r == Some(v),
            r matches Option::Some(v) ==> v.code() == value,
    {
        match value {
            1066 => Option::Some(CustomSkill::Resurrect),
            1175 => Option::Some(CustomSkill::Bandage),
            65001 => Option::Some(CustomSkill::Dodge),
            _ => Option::None,
        }
    }
}

/// Buff info category.
#[derive(Debug, Clone, Copy, PartialEq, Eq, Structural)]
pub enum BuffCategory {
    Boon,
    Any,
    Condition,
    Food,
    Upgrade,
    Boost,
    Trait,
    Enhancement,
    Stance,
}

impl BuffCategory {
    /// The primitive value of the variant.
    pub open spec fn code(self) -> u8 {
        match self {
            BuffCategory::Boon => 0,
            BuffCategory::Any => 1,
            BuffCategory::Condition => 2,
            BuffCategory::Food => 4,
            BuffCategory::Upgrade => 6,
            BuffCategory::Boost => 8,
            BuffCategory::Trait => 11,
            BuffCategory::Enhancement => 13,
            BuffCategory::Stance => 16,
        }
    }

    /// Returns the primitive value of the variant.
    pub fn to_primitive(&self) -> (r: u8)
        ensures
            r == self.code(),
    {
        match self {
            BuffCategory::Boon => 0,
            BuffCategory::Any => 1,
            BuffCategory::Condition => 2,
            BuffCategory::Food => 4,
            BuffCategory::Upgrade => 6,
            BuffCategory::Boost => 8,
            BuffCategory::Trait => 11,
            BuffCategory::Enhancement => 13,
            BuffCategory::Stance => 16,
        }
    }

    /// Converts a primitive value, failing for values of no variant.
    pub fn try_from_primitive(value: u8) -> (r: Option<Self>)
        ensures
            forall|v: Self| #[trigger] v.code() == value ==> r == Some(v),
            r matches Option::Some(v) ==> v.code() == value,
    {
        match value {
            0 => Option::Some(BuffCategory::Boon),
            1 => Option::Some(BuffCategory::Any),
            2 => Option::Some(BuffCategory::Condition),
            4 => Option::Some(BuffCategory::Food),
            6 => Option::Some(BuffCategory::Upgrade),
            8 => Option::Some(BuffCategory::Boost),
            11 => Option::Some(BuffCategory::Trait),
            13 => Option::Some(BuffCategory::Enhancement),
            16 => Option::Some(BuffCategory::Stance),
            _ => Option::None,
        }
    }
}

/// The buff remove kinds in the order of their ArcDPS codes, starting at 0.
pub open spec fn buff_removes_by_code() -> Seq<BuffRemove> {
    seq![BuffRemove::NoRemove, BuffRemove::All, BuffRemove::Single, BuffRemove::Manual, BuffRemove::Unknown]
}

/// The activation kinds in the order of their ArcDPS codes, starting at 0.
pub open spec fn activations_by_code() -> Seq<Activation> {
    seq![
        Activation::NoActivation,
        Activation::Start,
        Activation::QuicknessUnused,
        Activation::CancelFire,
        Activation::CancelCancel,
        Activation::Reset,
        Activation::Unknown,
    ]
}

/// ArcDPS codes buff removes as none 0, all 1, single 2, manual 3, and activations as none 0,
/// start 1, quickness 2, cancel fire 3, cancel cancel 4, reset 5.
pub proof fn law_event_kind_codes(remove: BuffRemove, activation: Activation, code: u8)
    ensures
        code < 5 ==> ((remove.code() == code) <==> (remove == buff_removes_by_code()[code as int])),
        remove.code() < 5,
        code < 7 ==> ((activation.code() == code) <==> (activation == activations_by_code()[code as int])),
        activation.code() < 7,
{
}

/// The state changes the plugins react to have their ArcDPS codes: no state change 0, combat
/// enter 1 and exit 2, log start 9 and end 10, initial buff 18, delayed API event 41.
pub proof fn law_state_change_codes(change: StateChange)
    ensures
        (change.code() == 0) <==> (change == StateChange::NoStateChange),
        (change.code() == 1) <==> (change == StateChange::EnterCombat),
        (change.code() == 2) <==> (change == StateChange::ExitCombat),
        (change.code() == 9) <==> (change == StateChange::LogStart),
        (change.code() == 10) <==> (change == StateChange::LogEnd),
        (change.code() == 18) <==> (change == StateChange::BuffInitial),
        (change.code() == 41) <==> (change == StateChange::ApiDelayed),
{
}

} // verus!
