//! Identifiers of runtime catalog entries other than moves.
use vstd::prelude::*;

verus! {

/// The item ID that stands for "no item".
pub const ITEM_NOTHING: u32 = 0;

/// An item ID.
///
/// Whoever makes one vouches that the code names an existing item: the
/// runtime's catalog bounds are not known here, so nothing checks it.
#[derive(PartialEq, Eq, Structural, Clone, Copy, Debug)]
pub struct ItemId(pub u32);

impl ItemId {
    /// The ID for the item with the given code.
    pub fn new(id: u32) -> (r: ItemId)
        ensures
            r.0 == id,
    {
        ItemId(id)
    }

    /// The raw code of this item.
    pub fn id(&self) -> (r: u32)
        ensures
            r == self.0,
    {
        self.0
    }
}

/// A monster or move type ID.
///
/// As with [`ItemId`], the maker vouches that the code names an existing type.
#[derive(PartialEq, Eq, Structural, Clone, Copy, Debug)]
pub struct MonsterTypeId(pub u32);

impl MonsterTypeId {
    /// The ID for the type with the given code.
    pub fn new(id: u32) -> (r: MonsterTypeId)
        ensures
            r.0 == id,
    {
        MonsterTypeId(id)
    }

    /// The raw code of this type.
    pub fn id(&self) -> (r: u32)
        ensures
            r == self.0,
    {
        self.0
    }
}

} // verus!
