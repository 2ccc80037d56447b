use vstd::prelude::*;

verus! {

/// A tile within the game.
#[derive(Debug, Clone, Copy, PartialEq, Eq, Structural)]
pub enum Tile {
    Empty,
    Wall,
    Coin,
}

impl Tile {
    /// The tile a map character stands for: a space is an empty cell, `#` a
    /// wall, `.` a coin; every other character names no tile.
    pub open spec fn from_char_spec(character: char) -> Option<Tile> {
        if character == ' ' {
            Some(Tile::Empty)
        } else if character == '#' {
            Some(Tile::Wall)
        } else if character == '.' {
            Some(Tile::Coin)
        } else {
            None
        }
    }

    /// Read one map character; an unrecognized character is reported rather
    /// than mapped to a default tile.
    pub fn from_char(character: char) -> (tile: Option<Tile>)
        ensures
            tile == Tile::from_char_spec(character),
    {
        match character {
            ' ' => Some(Tile::Empty),
            '#' => Some(Tile::Wall),
            '.' => Some(Tile::Coin),
            _ => None,
        }
    }
}

} // verus!
