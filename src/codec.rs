//! Conversions between the runtime's raw integer codes and closed enumerations.
//!
//! Decoding is partial: a code that names no variant decodes to `None` and is
//! never mapped onto a neighbouring variant. Encoding is total and exact.
use vstd::prelude::*;

verus! {

// Raw codes of move targets, as the runtime stores them.
pub const TARGET_ENEMIES: u32 = 0;
pub const TARGET_PARTY: u32 = 1;
pub const TARGET_ALL: u32 = 2;
pub const TARGET_USER: u32 = 3;
pub const TARGET_ENEMIES_AFTER_CHARGING: u32 = 4;
pub const TARGET_ALL_EXCEPT_USER: u32 = 5;
pub const TARGET_TEAMMATES: u32 = 6;
pub const TARGET_SPECIAL: u32 = 15;

/// Move target (i.e., who does a move affect when used?).
#[derive(PartialEq, Eq, Structural, Clone, Copy, Debug)]
pub enum MoveTarget {
    Enemies,
    Party,
    All,
    User,
    EnemiesAfterCharging,
    AllExceptUser,
    Teammates,
    Special,
}

/// The raw code the runtime uses for each target.
pub open spec fn target_code(t: MoveTarget) -> u32 {
    match t {
        MoveTarget::Enemies => TARGET_ENEMIES,
        MoveTarget::Party => TARGET_PARTY,
        MoveTarget::All => TARGET_ALL,
        MoveTarget::User => TARGET_USER,
        MoveTarget::EnemiesAfterCharging => TARGET_ENEMIES_AFTER_CHARGING,
        MoveTarget::AllExceptUser => TARGET_ALL_EXCEPT_USER,
        MoveTarget::Teammates => TARGET_TEAMMATES,
        MoveTarget::Special => TARGET_SPECIAL,
    }
}

/// The target whose code is `c`, if there is one.
pub open spec fn decode_target(c: u32) -> Option<MoveTarget> {
    if exists|t: MoveTarget| target_code(t) == c {
        Some(choose|t: MoveTarget| target_code(t) == c)
    } else {
        None
    }
}

/// No two targets share a code.
pub proof fn lemma_target_code_injective()
    ensures
        forall|a: MoveTarget, b: MoveTarget| target_code(a) == target_code(b) ==> a == b,
{
}

/// Decoding the code of a target gives back that target.
pub proof fn lemma_target_round_trip(t: MoveTarget)
    ensures
        decode_target(target_code(t)) == Some(t),
{
    lemma_target_code_injective();
}

/// A code that no target has decodes to nothing.
pub proof fn lemma_target_unknown_code(c: u32)
    requires
        forall|t: MoveTarget| target_code(t) != c,
    ensures
        decode_target(c) is None,
{
}

impl MoveTarget {
    /// The target for a raw code, or `None` where the code names no target.
    pub fn from_raw(code: u32) -> (r: Option<MoveTarget>)
        ensures
            r == decode_target(code),
    {
        proof {
            lemma_target_code_injective();
        }
        let r = if code == TARGET_ENEMIES {
            Some(MoveTarget::Enemies)
        } else if code == TARGET_PARTY {
            Some(MoveTarget::Party)
        } else if code == TARGET_ALL {
            Some(MoveTarget::All)
        } else if code == TARGET_USER {
            Some(MoveTarget::User)
        } else if code == TARGET_ENEMIES_AFTER_CHARGING {
            Some(MoveTarget::EnemiesAfterCharging)
        } else if code == TARGET_ALL_EXCEPT_USER {
            Some(MoveTarget::AllExceptUser)
        } else if code == TARGET_TEAMMATES {
            Some(MoveTarget::Teammates)
        } else if code == TARGET_SPECIAL {
            Some(MoveTarget::Special)
        } else {
            None
        };
        proof {
            if let Some(t) = r {
                lemma_target_round_trip(t);
            }
        }
        r
    }

    /// The raw code of this target.
    pub fn to_raw(&self) -> (r: u32)
        ensures
            r == target_code(*self),
    {
        match self {
            MoveTarget::Enemies => TARGET_ENEMIES,
            MoveTarget::Party => TARGET_PARTY,
            MoveTarget::All => TARGET_ALL,
            MoveTarget::User => TARGET_USER,
            MoveTarget::EnemiesAfterCharging => TARGET_ENEMIES_AFTER_CHARGING,
            MoveTarget::AllExceptUser => TARGET_ALL_EXCEPT_USER,
            MoveTarget::Teammates => TARGET_TEAMMATES,
            MoveTarget::Special => TARGET_SPECIAL,
        }
    }
}

// Raw codes of move ranges, as the runtime stores them.
pub const RANGE_FRONT: u32 = 0;
pub const RANGE_FRONT_AND_SIDES: u32 = 1;
pub const RANGE_NEARBY: u32 = 2;
pub const RANGE_ROOM: u32 = 3;
pub const RANGE_FRONT_2: u32 = 4;
pub const RANGE_FRONT_10: u32 = 5;
pub const RANGE_FLOOR: u32 = 6;
pub const RANGE_USER: u32 = 7;
pub const RANGE_FRONT_WITH_CORNER_CUTTING: u32 = 8;
pub const RANGE_FRONT_2_WITH_CORNER_CUTTING: u32 = 9;
pub const RANGE_SPECIAL: u32 = 15;

/// Move range.
#[derive(PartialEq, Eq, Structural, Clone, Copy, Debug)]
pub enum MoveRange {
    Front,
    FrontAndSides,
    Nearby,
    Room,
    Front2,
    Front10,
    Floor,
    User,
    FrontWithCornerCutting,
    Front2WithCornerCutting,
    Special,
}

/// The raw code the runtime uses for each range.
pub open spec fn range_code(x: MoveRange) -> u32 {
    match x {
        MoveRange::Front => RANGE_FRONT,
        MoveRange::FrontAndSides => RANGE_FRONT_AND_SIDES,
        MoveRange::Nearby => RANGE_NEARBY,
        MoveRange::Room => RANGE_ROOM,
        MoveRange::Front2 => RANGE_FRONT_2,
        MoveRange::Front10 => RANGE_FRONT_10,
        MoveRange::Floor => RANGE_FLOOR,
        MoveRange::User => RANGE_USER,
        MoveRange::FrontWithCornerCutting => RANGE_FRONT_WITH_CORNER_CUTTING,
        MoveRange::Front2WithCornerCutting => RANGE_FRONT_2_WITH_CORNER_CUTTING,
        MoveRange::Special => RANGE_SPECIAL,
    }
}

/// The range whose code is `c`, if there is one.
pub open spec fn decode_range(c: u32) -> Option<MoveRange> {
    if exists|x: MoveRange| range_code(x) == c {
        Some(choose|x: MoveRange| range_code(x) == c)
    } else {
        None
    }
}

/// No two ranges share a code.
pub proof fn lemma_range_code_injective()
    ensures
        forall|a: MoveRange, b: MoveRange| range_code(a) == range_code(b) ==> a == b,
{
}

/// Decoding the code of a range gives back that range.
pub proof fn lemma_range_round_trip(x: MoveRange)
    ensures
        decode_range(range_code(x)) == Some(x),
{
    lemma_range_code_injective();
}

/// A code that no range has decodes to nothing.
pub proof fn lemma_range_unknown_code(c: u32)
    requires
        forall|x: MoveRange| range_code(x) != c,
    ensures
        decode_range(c) is None,
{
}

impl MoveRange {
    /// The range for a raw code, or `None` where the code names no range.
    pub fn from_raw(code: u32) -> (r: Option<MoveRange>)
        ensures
            r == decode_range(code),
    {
        proof {
            lemma_range_code_injective();
        }
        let r = if code == RANGE_FRONT {
            Some(MoveRange::Front)
        } else if code == RANGE_FRONT_AND_SIDES {
            Some(MoveRange::FrontAndSides)
        } else if code == RANGE_NEARBY {
            Some(MoveRange::Nearby)
        } else if code == RANGE_ROOM {
            Some(MoveRange::Room)
        } else if code == RANGE_FRONT_2 {
            Some(MoveRange::Front2)
        } else if code == RANGE_FRONT_10 {
            Some(MoveRange::Front10)
        } else if code == RANGE_FLOOR {
            Some(MoveRange::Floor)
        } else if code == RANGE_USER {
            Some(MoveRange::User)
        } else if code == RANGE_FRONT_WITH_CORNER_CUTTING {
            Some(MoveRange::FrontWithCornerCutting)
        } else if code == RANGE_FRONT_2_WITH_CORNER_CUTTING {
            Some(MoveRange::Front2WithCornerCutting)
        } else if code == RANGE_SPECIAL {
            Some(MoveRange::Special)
        } else {
            None
        };
        proof {
            if let Some(x) = r {
                lemma_range_round_trip(x);
            }
        }
        r
    }

    /// The raw code of this range.
    pub fn to_raw(&self) -> (r: u32)
        ensures
            r == range_code(*self),
    {
        match self {
            MoveRange::Front => RANGE_FRONT,
            MoveRange::FrontAndSides => RANGE_FRONT_AND_SIDES,
            MoveRange::Nearby => RANGE_NEARBY,
            MoveRange::Room => RANGE_ROOM,
            MoveRange::Front2 => RANGE_FRONT_2,
            MoveRange::Front10 => RANGE_FRONT_10,
            MoveRange::Floor => RANGE_FLOOR,
            MoveRange::User => RANGE_USER,
            MoveRange::FrontWithCornerCutting => RANGE_FRONT_WITH_CORNER_CUTTING,
            MoveRange::Front2WithCornerCutting => RANGE_FRONT_2_WITH_CORNER_CUTTING,
            MoveRange::Special => RANGE_SPECIAL,
        }
    }
}

// Raw codes of AI conditions, as the runtime stores them.
pub const AI_CONDITION_NONE: u32 = 0;
pub const AI_CONDITION_RANDOM: u32 = 1;
pub const AI_CONDITION_HP_25: u32 = 2;
pub const AI_CONDITION_STATUS: u32 = 3;
pub const AI_CONDITION_ASLEEP: u32 = 4;
pub const AI_CONDITION_GHOST: u32 = 5;
pub const AI_CONDITION_HP_25_OR_STATUS: u32 = 6;

/// Conditions checked by the AI to determine when a move should be used.
/// It does not affect how the move works.
#[derive(PartialEq, Eq, Structural, Clone, Copy, Debug)]
pub enum MoveAiCondition {
    /// No condition: the move may always be used.
    NoCondition,
    /// The AI will consider a target eligible with a chance equal to the
    /// move's `ai_condition_random_chance` value.
    Random,
    /// Target has HP <= 25%
    Hp25,
    /// Target has a negative status condition
    Status,
    /// Target is asleep, napping or in a nightmare
    Asleep,
    /// Target is ghost-type and not exposed
    GhostType,
    /// Target has HP <= 25% or a negative status condition
    Hp25OrStatus,
}

/// The raw code the runtime uses for each AI condition.
pub open spec fn ai_condition_code(x: MoveAiCondition) -> u32 {
    match x {
        MoveAiCondition::NoCondition => AI_CONDITION_NONE,
        MoveAiCondition::Random => AI_CONDITION_RANDOM,
        MoveAiCondition::Hp25 => AI_CONDITION_HP_25,
        MoveAiCondition::Status => AI_CONDITION_STATUS,
        MoveAiCondition::Asleep => AI_CONDITION_ASLEEP,
        MoveAiCondition::GhostType => AI_CONDITION_GHOST,
        MoveAiCondition::Hp25OrStatus => AI_CONDITION_HP_25_OR_STATUS,
    }
}

/// The AI condition whose code is `c`, if there is one.
pub open spec fn decode_ai_condition(c: u32) -> Option<MoveAiCondition> {
    if exists|x: MoveAiCondition| ai_condition_code(x) == c {
        Some(choose|x: MoveAiCondition| ai_condition_code(x) == c)
    } else {
        None
    }
}

/// No two AI conditions share a code.
pub proof fn lemma_ai_condition_code_injective()
    ensures
        forall|a: MoveAiCondition, b: MoveAiCondition| ai_condition_code(a) == ai_condition_code(b) ==> a == b,
{
}

/// Decoding the code of a AI condition gives back that AI condition.
pub proof fn lemma_ai_condition_round_trip(x: MoveAiCondition)
    ensures
        decode_ai_condition(ai_condition_code(x)) == Some(x),
{
    lemma_ai_condition_code_injective();
}

/// A code that no AI condition has decodes to nothing.
pub proof fn lemma_ai_condition_unknown_code(c: u32)
    requires
        forall|x: MoveAiCondition| ai_condition_code(x) != c,
    ensures
        decode_ai_condition(c) is None,
{
}

impl MoveAiCondition {
    /// The AI condition for a raw code, or `None` where the code names no AI condition.
    pub fn from_raw(code: u32) -> (r: Option<MoveAiCondition>)
        ensures
            r == decode_ai_condition(code),
    {
        proof {
            lemma_ai_condition_code_injective();
        }
        let r = if code == AI_CONDITION_NONE {
            Some(MoveAiCondition::NoCondition)
        } else if code == AI_CONDITION_RANDOM {
            Some(MoveAiCondition::Random)
        } else if code == AI_CONDITION_HP_25 {
            Some(MoveAiCondition::Hp25)
        } else if code == AI_CONDITION_STATUS {
            Some(MoveAiCondition::Status)
        } else if code == AI_CONDITION_ASLEEP {
            Some(MoveAiCondition::Asleep)
        } else if code == AI_CONDITION_GHOST {
            Some(MoveAiCondition::GhostType)
        } else if code == AI_CONDITION_HP_25_OR_STATUS {
            Some(MoveAiCondition::Hp25OrStatus)
        } else {
            None
        };
        proof {
            if let Some(x) = r {
                lemma_ai_condition_round_trip(x);
            }
        }
        r
    }

    /// The raw code of this AI condition.
    pub fn to_raw(&self) -> (r: u32)
        ensures
            r == ai_condition_code(*self),
    {
        match self {
            MoveAiCondition::NoCondition => AI_CONDITION_NONE,
            MoveAiCondition::Random => AI_CONDITION_RANDOM,
            MoveAiCondition::Hp25 => AI_CONDITION_HP_25,
            MoveAiCondition::Status => AI_CONDITION_STATUS,
            MoveAiCondition::Asleep => AI_CONDITION_ASLEEP,
            MoveAiCondition::GhostType => AI_CONDITION_GHOST,
            MoveAiCondition::Hp25OrStatus => AI_CONDITION_HP_25_OR_STATUS,
        }
    }
}

// Raw codes of move categories, as the runtime stores them.
pub const CATEGORY_PHYSICAL: u32 = 0;
pub const CATEGORY_SPECIAL: u32 = 1;
pub const CATEGORY_STATUS: u32 = 2;

/// Move category: physical, special or status.
#[derive(PartialEq, Eq, Structural, Clone, Copy, Debug)]
pub enum MoveCategory {
    Physical,
    Special,
    Status,
}

/// The raw code the runtime uses for each category.
pub open spec fn category_code(x: MoveCategory) -> u32 {
    match x {
        MoveCategory::Physical => CATEGORY_PHYSICAL,
        MoveCategory::Special => CATEGORY_SPECIAL,
        MoveCategory::Status => CATEGORY_STATUS,
    }
}

/// The category whose code is `c`, if there is one.
pub open spec fn decode_category(c: u32) -> Option<MoveCategory> {
    if exists|x: MoveCategory| category_code(x) == c {
        Some(choose|x: MoveCategory| category_code(x) == c)
    } else {
        None
    }
}

/// No two categories share a code.
pub proof fn lemma_category_code_injective()
    ensures
        forall|a: MoveCategory, b: MoveCategory| category_code(a) == category_code(b) ==> a == b,
{
}

/// Decoding the code of a category gives back that category.
pub proof fn lemma_category_round_trip(x: MoveCategory)
    ensures
        decode_category(category_code(x)) == Some(x),
{
    lemma_category_code_injective();
}

/// A code that no category has decodes to nothing.
pub proof fn lemma_category_unknown_code(c: u32)
    requires
        forall|x: MoveCategory| category_code(x) != c,
    ensures
        decode_category(c) is None,
{
}

impl MoveCategory {
    /// The category for a raw code, or `None` where the code names no category.
    pub fn from_raw(code: u32) -> (r: Option<MoveCategory>)
        ensures
            r == decode_category(code),
    {
        proof {
            lemma_category_code_injective();
        }
        let r = if code == CATEGORY_PHYSICAL {
            Some(MoveCategory::Physical)
        } else if code == CATEGORY_SPECIAL {
            Some(MoveCategory::Special)
        } else if code == CATEGORY_STATUS {
            Some(MoveCategory::Status)
        } else {
            None
        };
        proof {
            if let Some(x) = r {
                lemma_category_round_trip(x);
            }
        }
        r
    }

    /// The raw code of this category.
    pub fn to_raw(&self) -> (r: u32)
        ensures
            r == category_code(*self),
    {
        match self {
            MoveCategory::Physical => CATEGORY_PHYSICAL,
            MoveCategory::Special => CATEGORY_SPECIAL,
            MoveCategory::Status => CATEGORY_STATUS,
        }
    }
}
} // verus!
