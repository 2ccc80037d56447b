use std::f32::consts::FRAC_PI_2;

use pacman_map::ascii::SpriteIndices;
use pacman_map::map::wall_part::sprites_for_wall;
use pacman_map::map::MapError;
use pacman_map::map::Rotation;
use pacman_map::map::Tile;
use pacman_map::map::TileMap;
use pacman_map::map::WallPart;

#[test]
fn test_round_trip() {
    // The source text holds the bottom row last; stored rows grow upward.
    let map = TileMap::from_string("# #\n#.#").unwrap();
    assert_eq!(map.at(0, 0), Some(Tile::Wall));
    assert_eq!(map.at(1, 0), Some(Tile::Coin));
    assert_eq!(map.at(2, 0), Some(Tile::Wall));
    assert_eq!(map.at(0, 1), Some(Tile::Wall));
    assert_eq!(map.at(1, 1), Some(Tile::Empty));
    assert_eq!(map.at(2, 1), Some(Tile::Wall));
}

#[test]
fn test_ragged_map_fails() {
    assert_eq!(TileMap::from_string("##\n#"), Err(MapError::Ragged));
    assert_eq!(TileMap::from_string("#\n##\n#"), Err(MapError::Ragged));
}

#[test]
fn test_empty_map_fails() {
    assert_eq!(TileMap::from_string(""), Err(MapError::Empty));
    assert_eq!(TileMap::from_string("\n\n"), Err(MapError::Empty));
}

#[test]
fn test_unknown_character_fails() {
    assert_eq!(
        TileMap::from_string("#x"),
        Err(MapError::UnknownCharacter('x'))
    );
    // The first offending character in storage order wins: the bottom source
    // line is scanned first.
    assert_eq!(
        TileMap::from_string("#a\n#b"),
        Err(MapError::UnknownCharacter('b'))
    );
    // A character that names no tile is reported even on a ragged map.
    assert_eq!(
        TileMap::from_string("q\n##"),
        Err(MapError::UnknownCharacter('q'))
    );
    // A carriage return belongs to the line unless a newline follows it.
    assert_eq!(
        TileMap::from_string("#\r"),
        Err(MapError::UnknownCharacter('\r'))
    );
}

#[test]
fn test_lookup_outside_is_none() {
    let map = TileMap::from_string("##\n##").unwrap();
    assert_eq!(map.at(-1, 0), None);
    assert_eq!(map.at(0, -1), None);
    assert_eq!(map.at(2, 0), None);
    assert_eq!(map.at(0, 2), None);
    assert_eq!(map.at(i32::MIN, i32::MIN), None);
    assert_eq!(map.at(i32::MAX, 0), None);
}

#[test]
fn test_columns_layout() {
    let map = TileMap::from_string("#.\n# ").unwrap();
    let columns = map.columns();
    assert_eq!(columns.len(), 2);
    assert_eq!(columns[0], vec![Tile::Wall, Tile::Wall]);
    assert_eq!(columns[1], vec![Tile::Empty, Tile::Coin]);
}

#[test]
fn test_crlf_line_endings() {
    let map = TileMap::from_string("# #\r\n#.#\r\n").unwrap();
    assert_eq!(map.at(1, 0), Some(Tile::Coin));
    assert_eq!(map.at(1, 1), Some(Tile::Empty));
    assert_eq!(map.at(2, 1), Some(Tile::Wall));
}

#[test]
fn test_blank_lines_are_skipped() {
    let map = TileMap::from_string("##\n\n..").unwrap();
    assert_eq!(map.columns().len(), 2);
    assert_eq!(map.at(0, 0), Some(Tile::Coin));
    assert_eq!(map.at(0, 1), Some(Tile::Wall));
    assert_eq!(map.at(0, 2), None);
}

#[test]
fn test_single_cell_map() {
    let map = TileMap::from_string("#\n").unwrap();
    assert_eq!(map.at(0, 0), Some(Tile::Wall));
    assert_eq!(map.at(0, 1), None);
    assert_eq!(map.at(1, 0), None);
}

#[test]
fn test_edge_wall_top_left_corner() {
    // A wall on the left edge of the map with an empty cell above it: the
    // left and upper-left neighbors are off the map, the cell above is open,
    // so the top-left corner gets a straight wall turned a quarter turn.
    let map = TileMap::from_string(" \n#").unwrap();
    assert_eq!(map.at(0, 0), Some(Tile::Wall));
    assert_eq!(map.at(0, 1), Some(Tile::Empty));
    let sprite = WallPart::TopLeft
        .sprite_for_corner(&map, 0, 0)
        .map(|(sprite, rotation)| (sprite, (rotation.quarter_turns() as f32) * FRAC_PI_2));
    assert_eq!(sprite, Some((SpriteIndices::WallStraight, FRAC_PI_2)));
}

#[test]
fn test_sprites_for_wall_cell() {
    // The wall sits in the top-left corner of the map, with coins to its
    // right and below.
    let map = TileMap::from_string("#.\n..").unwrap();
    assert_eq!(map.at(0, 1), Some(Tile::Wall));
    let sprites = sprites_for_wall(&map, 0, 1);
    assert_eq!(
        sprites,
        vec![
            (WallPart::TopRight, SpriteIndices::WallStraight, 0),
            (WallPart::BottomRight, SpriteIndices::WallCorner, 2),
            (WallPart::BottomLeft, SpriteIndices::WallStraight, 1),
        ]
    );
}

#[test]
fn test_lone_wall_has_no_sprites() {
    let map = TileMap::from_string("#").unwrap();
    assert_eq!(sprites_for_wall(&map, 0, 0), vec![]);
}

#[test]
fn test_corner_rotations_differ_per_corner() {
    // A wall cell enclosed by coins on all sides: every corner is an
    // unturned corner cap on top of its own base rotation.
    let map = TileMap::from_string("...\n.#.\n...").unwrap();
    assert_eq!(map.at(1, 1), Some(Tile::Wall));
    let sprites = sprites_for_wall(&map, 1, 1);
    assert_eq!(
        sprites,
        vec![
            (WallPart::TopLeft, SpriteIndices::WallCorner, 0),
            (WallPart::TopRight, SpriteIndices::WallCorner, -1),
            (WallPart::BottomRight, SpriteIndices::WallCorner, 2),
            (WallPart::BottomLeft, SpriteIndices::WallCorner, 1),
        ]
    );
}

#[test]
fn test_tile_from_char() {
    assert_eq!(Tile::from_char(' '), Some(Tile::Empty));
    assert_eq!(Tile::from_char('#'), Some(Tile::Wall));
    assert_eq!(Tile::from_char('.'), Some(Tile::Coin));
    assert_eq!(Tile::from_char('x'), None);
    assert_eq!(Tile::from_char('\t'), None);
}

#[test]
fn test_sprite_sheet_indices() {
    assert_eq!(SpriteIndices::PacmanClosed.index(), 0);
    assert_eq!(SpriteIndices::WallCorner.index(), 10);
    assert_eq!(SpriteIndices::WallStraight.index(), 11);
    assert_eq!(SpriteIndices::SmallCoin.index(), 12);
    assert_eq!(SpriteIndices::Empty.index(), 14);
}

#[test]
fn test_rotation_enum_values() {
    assert_eq!(Rotation::Quarter, Rotation::Quarter);
    assert_ne!(Rotation::Quarter, Rotation::Half);
}
