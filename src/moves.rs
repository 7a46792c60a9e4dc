//! Move IDs and the move record that the runtime keeps for each known move of
//! a monster.
//!
//! Values that only the runtime's catalog holds (a move's maximum PP, whether
//! an item is an orb) are handed in by the caller, who reads them from the
//! runtime; the decisions made on them are stated and proved here.
use vstd::prelude::*;
use crate::ids::{ItemId, ITEM_NOTHING};

verus! {

/// Flag bit in `flags0`: the move slot holds a move.
pub const MOVE_FLAG_EXISTS: u8 = 0x1;
/// Flag bit in `flags0`: the AI may use the move.
pub const MOVE_FLAG_ENABLED_FOR_AI: u8 = 0x4;
/// The highest PP a move can have, whatever its catalog entry says.
pub const MAX_PP_CEILING: u8 = 99;

/// A move ID with associated methods to get metadata.
///
/// Whoever makes one vouches that the code names an existing move: the
/// runtime's catalog bounds are not known here, so nothing checks it.
#[derive(PartialEq, Eq, Structural, Clone, Copy, Debug)]
pub struct MoveId(pub u32);

/// Why a monster fainted: the move that knocked it out, or an item.
#[derive(PartialEq, Eq, Structural, Clone, Copy, Debug)]
pub enum FaintReason {
    Move(MoveId),
    OrbItem,
    NonOrbItem,
}

/// The faint reason for a move used together with an item: the move itself
/// where there is no item, else the kind of item.
pub open spec fn faint_reason_of(move_id: MoveId, item_id: ItemId, item_is_orb: bool) -> FaintReason {
    if item_id.0 == ITEM_NOTHING {
        FaintReason::Move(move_id)
    } else if item_is_orb {
        FaintReason::OrbItem
    } else {
        FaintReason::NonOrbItem
    }
}

impl MoveId {
    /// The ID for the move with the given code.
    pub fn new(id: u32) -> (r: MoveId)
        ensures
            r.0 == id,
    {
        MoveId(id)
    }

    /// The raw code of this move.
    pub fn id(&self) -> (r: u32)
        ensures
            r == self.0,
    {
        self.0
    }

    /// The faint reason for this move used together with `item_id`.
    ///
    /// `item_is_orb` is the runtime catalog's answer to whether `item_id` is
    /// an orb; it matters only where there is an item.
    pub fn get_faint_reason(&self, item_id: ItemId, item_is_orb: bool) -> (r: FaintReason)
        ensures
            r == faint_reason_of(*self, item_id, item_is_orb),
    {
        if item_id.id() == ITEM_NOTHING {
            FaintReason::Move(*self)
        } else if item_is_orb {
            FaintReason::OrbItem
        } else {
            FaintReason::NonOrbItem
        }
    }
}

impl From<MoveId> for u32 {
    fn from(v: MoveId) -> (r: u32) {
        v.0
    }
}

impl vstd::std_specs::convert::FromSpecImpl<MoveId> for u32 {
    open spec fn obeys_from_spec() -> bool {
        true
    }

    open spec fn from_spec(v: MoveId) -> u32 {
        v.0
    }
}

/// A monster move: one slot of a monster's move list, laid out as the
/// runtime keeps it.
#[derive(PartialEq, Eq, Structural, Clone, Copy, Debug)]
pub struct Move {
    /// Flag bits, see the `MOVE_FLAG_*` constants.
    pub flags0: u8,
    /// Further flag bits (sealed, consecutive uses and the like).
    pub flags2: u16,
    /// The move in this slot.
    pub id: MoveId,
    /// PP left.
    pub pp: u8,
    /// Ginseng boost.
    pub ginseng: u8,
}

/// A catalog maximum PP, capped at the ceiling.
pub open spec fn capped_max_pp(catalog_max_pp: u8) -> u8 {
    if catalog_max_pp > MAX_PP_CEILING {
        MAX_PP_CEILING
    } else {
        catalog_max_pp
    }
}

/// The record that initialization writes for `move_id`, whose catalog entry
/// gives `catalog_max_pp`.
pub open spec fn initialized_move(move_id: MoveId, catalog_max_pp: u8) -> Move {
    Move {
        flags0: MOVE_FLAG_EXISTS | MOVE_FLAG_ENABLED_FOR_AI,
        flags2: 0,
        id: move_id,
        pp: capped_max_pp(catalog_max_pp),
        ginseng: 0,
    }
}

/// Whether the bit `flag` is set in `flags`.
pub open spec fn has_flag(flags: u8, flag: u8) -> bool {
    flags & flag != 0
}

/// After initialization with a move ID and that move's catalog maximum PP,
/// the record holds that ID, exists and is enabled for the AI, its PP is the
/// catalog maximum capped at 99, and its ginseng boost is 0.
pub proof fn lemma_init_then_read(move_id: MoveId, catalog_max_pp: u8)
    ensures
        initialized_move(move_id, catalog_max_pp).id == move_id,
        has_flag(initialized_move(move_id, catalog_max_pp).flags0, MOVE_FLAG_EXISTS),
        has_flag(initialized_move(move_id, catalog_max_pp).flags0, MOVE_FLAG_ENABLED_FOR_AI),
        initialized_move(move_id, catalog_max_pp).pp == capped_max_pp(catalog_max_pp),
        catalog_max_pp <= 99 ==> capped_max_pp(catalog_max_pp) == catalog_max_pp,
        catalog_max_pp > 99 ==> capped_max_pp(catalog_max_pp) == 99,
        initialized_move(move_id, catalog_max_pp).ginseng == 0,
{
    assert(has_flag(0x1u8 | 0x4u8, 0x1u8) && has_flag(0x1u8 | 0x4u8, 0x4u8)) by (bit_vector);
}

impl Move {
    /// Initializes a move record, whatever it held before.
    ///
    /// This sets the exists and enabled-for-AI flags (and clears the others),
    /// the ID to `move_id`, the PP to the move's maximum PP, and the ginseng
    /// boost to 0. `catalog_max_pp` is the maximum PP that the runtime's
    /// catalog gives for `move_id`.
    pub fn init(&mut self, move_id: MoveId, catalog_max_pp: u8)
        ensures
            *final(self) == initialized_move(move_id, catalog_max_pp),
    {
        let pp = if catalog_max_pp > MAX_PP_CEILING {
            MAX_PP_CEILING
        } else {
            catalog_max_pp
        };
        *self = Move {
            flags0: MOVE_FLAG_EXISTS | MOVE_FLAG_ENABLED_FOR_AI,
            flags2: 0,
            id: move_id,
            pp,
            ginseng: 0,
        };
    }

    /// Returns the move ID.
    pub fn id(&self) -> (r: MoveId)
        ensures
            r == self.id,
    {
        self.id
    }

    /// The maximum PP of this move: `catalog_max_pp`, the maximum that the
    /// runtime's catalog gives for the move's ID, capped at 99.
    pub fn get_max_pp(&self, catalog_max_pp: u8) -> (r: i32)
        ensures
            r == capped_max_pp(catalog_max_pp) as i32,
    {
        if catalog_max_pp > MAX_PP_CEILING {
            MAX_PP_CEILING as i32
        } else {
            catalog_max_pp as i32
        }
    }

    /// Whether the slot holds a move.
    pub fn f_exists(&self) -> (r: bool)
        ensures
            r == has_flag(self.flags0, MOVE_FLAG_EXISTS),
    {
        self.flags0 & MOVE_FLAG_EXISTS != 0
    }

    /// Whether the AI may use the move.
    pub fn f_enabled_for_ai(&self) -> (r: bool)
        ensures
            r == has_flag(self.flags0, MOVE_FLAG_ENABLED_FOR_AI),
    {
        self.flags0 & MOVE_FLAG_ENABLED_FOR_AI != 0
    }
}

} // verus!
