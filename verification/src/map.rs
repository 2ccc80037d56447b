//! The map: tiles, the grid they are stored in, and the wall-corner
//! classifier that decides the decoration of each corner of a wall cell.

pub mod tile;
pub mod tilemap;
pub mod wall_part;

pub use tile::Tile;
pub use tilemap::Column;
pub use tilemap::MapError;
pub use tilemap::TileMap;
pub use wall_part::Rotation;
pub use wall_part::WallDecoration;
pub use wall_part::WallPart;
