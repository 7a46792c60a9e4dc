//! Typed accessors over the fixed-layout move records of the dungeon runtime:
//! closed enumerations and their raw codes, the packed target-and-range word,
//! identifiers and the move record itself.
pub mod codec;
pub mod target_range;
pub mod ids;
pub mod moves;
