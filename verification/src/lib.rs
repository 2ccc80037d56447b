//! A tile-map core for a grid-based arcade game: a text-map loader with a
//! bounds-safe lookup, and a boundary-tile classifier that picks the
//! decorative sprite for each corner of a wall cell from the occupancy of its
//! three neighboring cells.

pub mod ascii;
pub mod map;
