//! The packed target-and-range word of a move and its typed form.
//!
//! The runtime keeps a move's target, range and AI condition in one 16-bit
//! word of four 4-bit fields: target in bits 0..4, range in bits 4..8, AI
//! condition in bits 8..12, and an uninterpreted field in bits 12..16.
use vstd::prelude::*;
use crate::codec::{
    MoveTarget, MoveRange, MoveAiCondition, target_code, range_code, ai_condition_code,
    decode_target, decode_range, decode_ai_condition, lemma_target_round_trip,
    lemma_range_round_trip, lemma_ai_condition_round_trip,
};

verus! {

/// Mask of one 4-bit field of the packed word.
pub const FIELD_MASK: u16 = 0xF;

/// The target field of a packed word.
pub open spec fn field_target(bits: u16) -> u16 {
    bits & 0xF
}

/// The range field of a packed word.
pub open spec fn field_range(bits: u16) -> u16 {
    (bits >> 4u16) & 0xF
}

/// The AI-condition field of a packed word.
pub open spec fn field_ai_condition(bits: u16) -> u16 {
    (bits >> 8u16) & 0xF
}

/// The uninterpreted field of a packed word.
pub open spec fn field_unused(bits: u16) -> u16 {
    bits >> 12u16
}

/// The word holding the four given fields, each below 16.
pub open spec fn pack_fields(target: u16, range: u16, ai_condition: u16, unused: u16) -> u16 {
    target | (range << 4u16) | (ai_condition << 8u16) | (unused << 12u16)
}

/// Each field of a packed word reads back what was packed into it.
pub proof fn lemma_pack_fields(target: u16, range: u16, ai_condition: u16, unused: u16)
    requires
        target < 16,
        range < 16,
        ai_condition < 16,
        unused < 16,
    ensures
        field_target(pack_fields(target, range, ai_condition, unused)) == target,
        field_range(pack_fields(target, range, ai_condition, unused)) == range,
        field_ai_condition(pack_fields(target, range, ai_condition, unused)) == ai_condition,
        field_unused(pack_fields(target, range, ai_condition, unused)) == unused,
{
    assert(field_target(pack_fields(target, range, ai_condition, unused)) == target
        && field_range(pack_fields(target, range, ai_condition, unused)) == range
        && field_ai_condition(pack_fields(target, range, ai_condition, unused)) == ai_condition
        && field_unused(pack_fields(target, range, ai_condition, unused)) == unused)
        by (bit_vector)
        requires
            target < 16,
            range < 16,
            ai_condition < 16,
            unused < 16,
    ;
}

/// The raw target-and-range word as the runtime stores it.
#[derive(PartialEq, Eq, Structural, Clone, Copy, Debug)]
pub struct PackedTargetAndRange {
    pub bits: u16,
}

impl PackedTargetAndRange {
    /// Packs four raw field values, each of which must fit in four bits.
    pub fn new(target: u16, range: u16, ai_condition: u16, unused: u16) -> (r: PackedTargetAndRange)
        requires
            target < 16,
            range < 16,
            ai_condition < 16,
            unused < 16,
        ensures
            r.bits == pack_fields(target, range, ai_condition, unused),
    {
        PackedTargetAndRange { bits: target | (range << 4u16) | (ai_condition << 8u16) | (unused << 12u16) }
    }

    /// The raw target code.
    pub fn target(&self) -> (r: u16)
        ensures
            r == field_target(self.bits),
    {
        self.bits & FIELD_MASK
    }

    /// The raw range code.
    pub fn range(&self) -> (r: u16)
        ensures
            r == field_range(self.bits),
    {
        (self.bits >> 4u16) & FIELD_MASK
    }

    /// The raw AI-condition code.
    pub fn ai_condition(&self) -> (r: u16)
        ensures
            r == field_ai_condition(self.bits),
    {
        (self.bits >> 8u16) & FIELD_MASK
    }

    /// The uninterpreted field.
    pub fn unused(&self) -> (r: u16)
        ensures
            r == field_unused(self.bits),
    {
        self.bits >> 12u16
    }
}

/// Range, target and AI data for a move.
/// A field is `None` where the word holds a code that names no variant.
#[derive(PartialEq, Eq, Structural, Clone, Copy, Debug)]
pub struct MoveTargetAndRange {
    pub target: Option<MoveTarget>,
    pub range: Option<MoveRange>,
    pub ai_condition: Option<MoveAiCondition>,
    pub unused: u16,
}

/// What a packed word decodes to: each field decoded on its own, the
/// uninterpreted field copied.
pub open spec fn decode_target_and_range(bits: u16) -> MoveTargetAndRange {
    MoveTargetAndRange {
        target: decode_target(field_target(bits) as u32),
        range: decode_range(field_range(bits) as u32),
        ai_condition: decode_ai_condition(field_ai_condition(bits) as u32),
        unused: field_unused(bits),
    }
}

/// The packed word for a record whose three fields are all present; `None`
/// where any is absent. Only the low four bits of `unused` fit in the word.
pub open spec fn encode_target_and_range(tr: MoveTargetAndRange) -> Option<u16> {
    match (tr.target, tr.range, tr.ai_condition) {
        (Some(t), Some(r), Some(a)) => Some(
            pack_fields(
                target_code(t) as u16,
                range_code(r) as u16,
                ai_condition_code(a) as u16,
                tr.unused & 0xF,
            ),
        ),
        _ => None,
    }
}

/// A record whose three fields are all present, and whose uninterpreted field
/// fits in its four bits, encodes to a word that decodes back to the same
/// record, the uninterpreted field included.
pub proof fn lemma_target_and_range_round_trip(tr: MoveTargetAndRange)
    requires
        tr.target is Some,
        tr.range is Some,
        tr.ai_condition is Some,
        tr.unused < 16,
    ensures
        encode_target_and_range(tr) is Some,
        decode_target_and_range(encode_target_and_range(tr)->Some_0) == tr,
{
    let t = tr.target->Some_0;
    let r = tr.range->Some_0;
    let a = tr.ai_condition->Some_0;
    let u = tr.unused;
    lemma_target_round_trip(t);
    lemma_range_round_trip(r);
    lemma_ai_condition_round_trip(a);
    assert(u & 0xF == u) by (bit_vector)
        requires
            u < 16,
    ;
    lemma_pack_fields(target_code(t) as u16, range_code(r) as u16, ai_condition_code(a) as u16, u);
}

/// A record with any of its three fields absent does not encode.
pub proof fn lemma_target_and_range_incomplete(tr: MoveTargetAndRange)
    requires
        tr.target is None || tr.range is None || tr.ai_condition is None,
    ensures
        encode_target_and_range(tr) is None,
{
}

/// A word whose three codes all name variants decodes to a record that
/// encodes back to the same word: decoding loses nothing and encoding
/// invents nothing.
pub proof fn lemma_known_word_round_trip(bits: u16)
    requires
        decode_target_and_range(bits).target is Some,
        decode_target_and_range(bits).range is Some,
        decode_target_and_range(bits).ai_condition is Some,
    ensures
        encode_target_and_range(decode_target_and_range(bits)) == Some(bits),
{
    let t = field_target(bits);
    let r = field_range(bits);
    let a = field_ai_condition(bits);
    let u = field_unused(bits);
    assert(t < 16 && r < 16 && a < 16 && u < 16 && u & 0xF == u && pack_fields(t, r, a, u) == bits)
        by (bit_vector)
        requires
            t == bits & 0xF,
            r == (bits >> 4u16) & 0xF,
            a == (bits >> 8u16) & 0xF,
            u == bits >> 12u16,
    ;
}

/// Decodes each field on its own and copies the uninterpreted one: the
/// result is `decode_target_and_range(tr.bits)`.
impl From<PackedTargetAndRange> for MoveTargetAndRange {
    fn from(tr: PackedTargetAndRange) -> (r: MoveTargetAndRange) {
        MoveTargetAndRange {
            target: MoveTarget::from_raw(tr.target() as u32),
            range: MoveRange::from_raw(tr.range() as u32),
            ai_condition: MoveAiCondition::from_raw(tr.ai_condition() as u32),
            unused: tr.unused(),
        }
    }
}

impl vstd::std_specs::convert::FromSpecImpl<PackedTargetAndRange> for MoveTargetAndRange {
    open spec fn obeys_from_spec() -> bool {
        true
    }

    open spec fn from_spec(v: PackedTargetAndRange) -> MoveTargetAndRange {
        decode_target_and_range(v.bits)
    }
}

/// Fails where any of the three fields is `None`; otherwise the word is
/// `encode_target_and_range(value)`.
impl TryFrom<MoveTargetAndRange> for PackedTargetAndRange {
    type Error = ();

    fn try_from(value: MoveTargetAndRange) -> (r: Result<PackedTargetAndRange, ()>) {
        match (value.target, value.range, value.ai_condition) {
            (Some(t), Some(rg), Some(a)) => {
                let raw_unused: u16 = value.unused;
                let unused = raw_unused & FIELD_MASK;
                assert(unused < 16) by (bit_vector)
                    requires
                        unused == raw_unused & 0xF,
                ;
                Ok(PackedTargetAndRange::new(t.to_raw() as u16, rg.to_raw() as u16, a.to_raw() as u16, unused))
            },
            _ => Err(()),
        }
    }
}

impl vstd::std_specs::convert::TryFromSpecImpl<MoveTargetAndRange> for PackedTargetAndRange {
    open spec fn obeys_try_from_spec() -> bool {
        true
    }

    open spec fn try_from_spec(v: MoveTargetAndRange) -> Result<PackedTargetAndRange, ()> {
        match encode_target_and_range(v) {
            Some(bits) => Ok(PackedTargetAndRange { bits }),
            None => Err(()),
        }
    }
}

} // verus!
