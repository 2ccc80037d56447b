use vstd::prelude::*;

verus! {

/// The sprites on the sprite sheet, named after what they show.
#[derive(Debug, Clone, Copy, PartialEq, Eq, Structural)]
pub enum SpriteIndices {
    PacmanClosed,
    PacmanOpen,
    Blinky1,
    Blinky2,
    Inky1,
    Inky2,
    Pinky1,
    Pinky2,
    Clyde1,
    Clyde2,
    WallCorner,
    WallStraight,
    SmallCoin,
    LargeCoin,
    Empty,
}

impl SpriteIndices {
    /// Where each sprite sits on the sheet, counted row-major from its
    /// top-left corner.
    pub open spec fn index_spec(self) -> int {
        match self {
            SpriteIndices::PacmanClosed => 0,
            SpriteIndices::PacmanOpen => 1,
            SpriteIndices::Blinky1 => 2,
            SpriteIndices::Blinky2 => 3,
            SpriteIndices::Inky1 => 4,
            SpriteIndices::Inky2 => 5,
            SpriteIndices::Pinky1 => 6,
            SpriteIndices::Pinky2 => 7,
            SpriteIndices::Clyde1 => 8,
            SpriteIndices::Clyde2 => 9,
            SpriteIndices::WallCorner => 10,
            SpriteIndices::WallStraight => 11,
            SpriteIndices::SmallCoin => 12,
            SpriteIndices::LargeCoin => 13,
            SpriteIndices::Empty => 14,
        }
    }

    /// The sprite's index on the sheet, for whoever slices the sheet into
    /// individual images.
    pub fn index(&self) -> (i: usize)
        ensures
            i as int == self.index_spec(),
    {
        match self {
            SpriteIndices::PacmanClosed => 0,
            SpriteIndices::PacmanOpen => 1,
            SpriteIndices::Blinky1 => 2,
            SpriteIndices::Blinky2 => 3,
            SpriteIndices::Inky1 => 4,
            SpriteIndices::Inky2 => 5,
            SpriteIndices::Pinky1 => 6,
            SpriteIndices::Pinky2 => 7,
            SpriteIndices::Clyde1 => 8,
            SpriteIndices::Clyde2 => 9,
            SpriteIndices::WallCorner => 10,
            SpriteIndices::WallStraight => 11,
            SpriteIndices::SmallCoin => 12,
            SpriteIndices::LargeCoin => 13,
            SpriteIndices::Empty => 14,
        }
    }
}

} // verus!
