use vstd::prelude::*;

use crate::ascii::SpriteIndices;
use crate::map::tile::Tile;
use crate::map::tilemap::TileMap;

verus! {

/// One of the four corners of a wall cell.
#[derive(Debug, Clone, Copy, PartialEq, Eq, Structural)]
pub enum WallPart {
    TopLeft,
    TopRight,
    BottomRight,
    BottomLeft,
}

/// The extra rotation the classifier asks for on top of a corner's base
/// rotation, in counterclockwise quarter turns: one quarter turn is pi/2
/// radians, a half turn is pi radians.
#[derive(Debug, Clone, Copy, PartialEq, Eq, Structural)]
pub enum Rotation {
    Zero,
    Quarter,
    Half,
}

impl Rotation {
    /// The rotation counted in quarter turns.
    pub open spec fn quarter_turns_spec(self) -> int {
        match self {
            Rotation::Zero => 0,
            Rotation::Quarter => 1,
            Rotation::Half => 2,
        }
    }

    /// The rotation counted in quarter turns; multiply by pi/2 for radians.
    pub fn quarter_turns(&self) -> (turns: i32)
        ensures
            turns as int == self.quarter_turns_spec(),
    {
        match self {
            Rotation::Zero => 0,
            Rotation::Quarter => 1,
            Rotation::Half => 2,
        }
    }
}

/// What the classifier decides for one corner of a wall cell.
#[derive(Debug, Clone, Copy, PartialEq, Eq, Structural)]
pub enum WallDecoration {
    /// Draw this sprite, turned by the given rotation beyond the corner's
    /// base rotation.
    Sprite(SpriteIndices, Rotation),
    /// The corner is deliberately left bare: enclosed by walls, or fully off
    /// the map.
    Bare,
    /// No rule covers this neighbor pattern; the corner is left bare and the
    /// caller may report it.
    Unhandled,
}

/// Whether a neighbor is on the map but not a wall.
pub open spec fn present_not_wall(tile: Option<Tile>) -> bool {
    tile is Some && tile != Some(Tile::Wall)
}

/// The decision table for one corner of a wall cell. The three neighbors
/// `one`, `two`, `three` surround the corner in a fixed rotational order (for
/// the top-left corner: left, upper-left, up); `None` is a neighbor that lies
/// off the map.
pub open spec fn classify_spec(
    one: Option<Tile>,
    two: Option<Tile>,
    three: Option<Tile>,
) -> WallDecoration {
    match (one, two, three) {
        (Some(Tile::Wall), Some(Tile::Wall), Some(Tile::Wall)) => WallDecoration::Bare,
        (Some(Tile::Wall), Some(Tile::Wall), Some(_)) => WallDecoration::Sprite(
            SpriteIndices::WallStraight,
            Rotation::Quarter,
        ),
        (Some(Tile::Wall), Some(_), Some(Tile::Wall)) => WallDecoration::Sprite(
            SpriteIndices::WallCorner,
            Rotation::Half,
        ),
        (Some(Tile::Wall), Some(_), Some(_)) => WallDecoration::Sprite(
            SpriteIndices::WallStraight,
            Rotation::Quarter,
        ),
        (Some(Tile::Wall), _, _) => WallDecoration::Unhandled,
        (Some(_), Some(Tile::Wall), Some(Tile::Wall)) => WallDecoration::Sprite(
            SpriteIndices::WallStraight,
            Rotation::Zero,
        ),
        (Some(_), Some(Tile::Wall), Some(_)) => WallDecoration::Sprite(
            SpriteIndices::WallCorner,
            Rotation::Zero,
        ),
        (Some(_), Some(_), Some(Tile::Wall)) => WallDecoration::Sprite(
            SpriteIndices::WallStraight,
            Rotation::Zero,
        ),
        (Some(_), Some(_), Some(_)) => WallDecoration::Sprite(
            SpriteIndices::WallCorner,
            Rotation::Zero,
        ),
        (Some(_), Some(_), None) => WallDecoration::Unhandled,
        (Some(_), None, _) => WallDecoration::Sprite(SpriteIndices::WallStraight, Rotation::Zero),
        (None, None, Some(Tile::Wall)) => WallDecoration::Bare,
        (None, None, Some(_)) => WallDecoration::Sprite(
            SpriteIndices::WallStraight,
            Rotation::Quarter,
        ),
        (None, None, None) => WallDecoration::Bare,
        (None, Some(_), _) => WallDecoration::Unhandled,
    }
}

/// The sprite the decision table puts on the corner, if any: its choice with
/// the bare and the unhandled outcomes folded into `None`.
pub open spec fn sprite_spec(
    one: Option<Tile>,
    two: Option<Tile>,
    three: Option<Tile>,
) -> Option<(SpriteIndices, Rotation)> {
    match classify_spec(one, two, three) {
        WallDecoration::Sprite(sprite, rotation) => Some((sprite, rotation)),
        _ => None,
    }
}

impl WallPart {
    /// Decide the decoration of one corner from its three neighbors,
    /// distinguishing a corner left bare by rule from a neighbor pattern no
    /// rule covers.
    pub fn classify(
        one: Option<Tile>,
        two: Option<Tile>,
        three: Option<Tile>,
    ) -> (decoration: WallDecoration)
        ensures
            decoration == classify_spec(one, two, three),
    {
        match one {
            Some(Tile::Wall) => match two {
                Some(Tile::Wall) => match three {
                    Some(Tile::Wall) => WallDecoration::Bare,
                    Some(_) => WallDecoration::Sprite(
                        SpriteIndices::WallStraight,
                        Rotation::Quarter,
                    ),
                    None => WallDecoration::Unhandled,
                },
                Some(_) => match three {
                    Some(Tile::Wall) => WallDecoration::Sprite(
                        SpriteIndices::WallCorner,
                        Rotation::Half,
                    ),
                    Some(_) => WallDecoration::Sprite(
                        SpriteIndices::WallStraight,
                        Rotation::Quarter,
                    ),
                    None => WallDecoration::Unhandled,
                },
                None => WallDecoration::Unhandled,
            },
            Some(_) => match two {
                Some(Tile::Wall) => match three {
                    Some(Tile::Wall) => WallDecoration::Sprite(
                        SpriteIndices::WallStraight,
                        Rotation::Zero,
                    ),
                    Some(_) => WallDecoration::Sprite(SpriteIndices::WallCorner, Rotation::Zero),
                    None => WallDecoration::Unhandled,
                },
                Some(_) => match three {
                    Some(Tile::Wall) => WallDecoration::Sprite(
                        SpriteIndices::WallStraight,
                        Rotation::Zero,
                    ),
                    Some(_) => WallDecoration::Sprite(SpriteIndices::WallCorner, Rotation::Zero),
                    None => WallDecoration::Unhandled,
                },
                None => WallDecoration::Sprite(SpriteIndices::WallStraight, Rotation::Zero),
            },
            None => match two {
                None => match three {
                    Some(Tile::Wall) => WallDecoration::Bare,
                    Some(_) => WallDecoration::Sprite(
                        SpriteIndices::WallStraight,
                        Rotation::Quarter,
                    ),
                    None => WallDecoration::Bare,
                },
                Some(_) => WallDecoration::Unhandled,
            },
        }
    }

    /// Determine the correct sprite for a given wall part.
    /// The orientation is supposed to be the following (here for the top-left part):
    ///
    /// 2 3
    /// 1 X
    ///
    /// This allows you to "rotate" over all 4 corners of a wall part, e.g., for the top-right part:
    ///
    /// 1 2
    /// X 3
    ///
    /// The result is either `None`, if no sprite should be displayed in this
    /// sub part of the tile, or `Some((spriteIndex, rotation))`, where
    /// `spriteIndex` is the index of the sprite on the sprite sheet and
    /// `rotation` is the _additional_ rotation for this sheet to correctly
    /// align it.
    pub fn determine_sprite_for_wall_part(
        one: Option<Tile>,
        two: Option<Tile>,
        three: Option<Tile>,
    ) -> (sprite: Option<(SpriteIndices, Rotation)>)
        ensures
            sprite == sprite_spec(one, two, three),
    {
        match Self::classify(one, two, three) {
            WallDecoration::Sprite(sprite, rotation) => Some((sprite, rotation)),
            _ => None,
        }
    }

    /// The corner's base rotation, in counterclockwise quarter turns; the
    /// classifier's extra rotation is added on top of it.
    pub open spec fn base_quarter_turns_spec(self) -> int {
        match self {
            WallPart::TopLeft => 0,
            WallPart::TopRight => -1,
            WallPart::BottomRight => 2,
            WallPart::BottomLeft => 1,
        }
    }

    /// The corner's base rotation in quarter turns; multiply by pi/2 for
    /// radians.
    pub fn base_quarter_turns(&self) -> (turns: i32)
        ensures
            turns as int == self.base_quarter_turns_spec(),
    {
        match self {
            WallPart::TopLeft => 0,
            WallPart::TopRight => -1,
            WallPart::BottomRight => 2,
            WallPart::BottomLeft => 1,
        }
    }

    /// The coordinates of the three neighbor cells this corner of the wall
    /// cell at `(x, y)` samples, in its fixed rotational order.
    pub open spec fn neighbors_spec(self, x: int, y: int) -> ((int, int), (int, int), (int, int)) {
        match self {
            WallPart::TopLeft => ((x - 1, y), (x - 1, y + 1), (x, y + 1)),
            WallPart::TopRight => ((x, y + 1), (x + 1, y + 1), (x + 1, y)),
            WallPart::BottomRight => ((x + 1, y), (x + 1, y - 1), (x, y - 1)),
            WallPart::BottomLeft => ((x, y - 1), (x - 1, y - 1), (x - 1, y)),
        }
    }

    /// The sprite the decision table puts on this corner of the wall cell at
    /// `(x, y)`, with the corner's neighbors looked up on the map.
    pub open spec fn corner_sprite_spec(self, map: TileMap, x: int, y: int) -> Option<
        (SpriteIndices, Rotation),
    > {
        let neighbors = self.neighbors_spec(x, y);
        sprite_spec(
            map.at_spec(neighbors.0.0, neighbors.0.1),
            map.at_spec(neighbors.1.0, neighbors.1.1),
            map.at_spec(neighbors.2.0, neighbors.2.1),
        )
    }

    /// The sprite for this corner of the wall cell at `(x, y)`: sample the
    /// corner's three neighbors on the map — off-map neighbors count as
    /// absent — and classify them.
    pub fn sprite_for_corner(&self, tiles: &TileMap, x: i32, y: i32) -> (sprite: Option<
        (SpriteIndices, Rotation),
    >)
        requires
            i32::MIN < x < i32::MAX,
            i32::MIN < y < i32::MAX,
        ensures
            sprite == self.corner_sprite_spec(*tiles, x as int, y as int),
    {
        let (one, two, three) = match self {
            WallPart::TopLeft => (tiles.at(x - 1, y), tiles.at(x - 1, y + 1), tiles.at(x, y + 1)),
            WallPart::TopRight => (tiles.at(x, y + 1), tiles.at(x + 1, y + 1), tiles.at(x + 1, y)),
            WallPart::BottomRight => (
                tiles.at(x + 1, y),
                tiles.at(x + 1, y - 1),
                tiles.at(x, y - 1),
            ),
            WallPart::BottomLeft => (tiles.at(x, y - 1), tiles.at(x - 1, y - 1), tiles.at(x - 1, y)),
        };
        Self::determine_sprite_for_wall_part(one, two, three)
    }
}

/// What one corner contributes to a wall cell's decorations: nothing, or the
/// corner, its sprite, and the sprite's whole rotation in counterclockwise
/// quarter turns — the corner's base rotation plus the classifier's extra
/// turn.
pub open spec fn corner_sprites_spec(map: TileMap, x: int, y: int, part: WallPart) -> Seq<
    (WallPart, SpriteIndices, i32),
> {
    match part.corner_sprite_spec(map, x, y) {
        Some((sprite, rotation)) => seq![
            (
                part,
                sprite,
                (part.base_quarter_turns_spec() + rotation.quarter_turns_spec()) as i32,
            ),
        ],
        None => Seq::empty(),
    }
}

/// Everything to draw on the wall cell at `(x, y)`: the decorated corners in
/// the order top-left, top-right, bottom-right, bottom-left, each with its
/// sprite and the sprite's whole rotation in quarter turns.
pub open spec fn sprites_for_wall_spec(map: TileMap, x: int, y: int) -> Seq<
    (WallPart, SpriteIndices, i32),
> {
    corner_sprites_spec(map, x, y, WallPart::TopLeft) + corner_sprites_spec(
        map,
        x,
        y,
        WallPart::TopRight,
    ) + corner_sprites_spec(map, x, y, WallPart::BottomRight) + corner_sprites_spec(
        map,
        x,
        y,
        WallPart::BottomLeft,
    )
}

/// Determine the sprites for a wall depending on the tiles around it: each
/// corner of the wall cell at `(x, y)` is classified from its three
/// neighbors, and every decorated corner is listed with its sprite and the
/// sprite's whole rotation in counterclockwise quarter turns.
pub fn sprites_for_wall(tiles: &TileMap, x: i32, y: i32) -> (sprites: Vec<
    (WallPart, SpriteIndices, i32),
>)
    requires
        i32::MIN < x < i32::MAX,
        i32::MIN < y < i32::MAX,
    ensures
        sprites@ == sprites_for_wall_spec(*tiles, x as int, y as int),
{
    let mut sprites: Vec<(WallPart, SpriteIndices, i32)> = Vec::new();
    if let Some((sprite, rotation)) = WallPart::TopLeft.sprite_for_corner(tiles, x, y) {
        let turns = WallPart::TopLeft.base_quarter_turns() + rotation.quarter_turns();
        sprites.push((WallPart::TopLeft, sprite, turns));
    }
    if let Some((sprite, rotation)) = WallPart::TopRight.sprite_for_corner(tiles, x, y) {
        let turns = WallPart::TopRight.base_quarter_turns() + rotation.quarter_turns();
        sprites.push((WallPart::TopRight, sprite, turns));
    }
    if let Some((sprite, rotation)) = WallPart::BottomRight.sprite_for_corner(tiles, x, y) {
        let turns = WallPart::BottomRight.base_quarter_turns() + rotation.quarter_turns();
        sprites.push((WallPart::BottomRight, sprite, turns));
    }
    if let Some((sprite, rotation)) = WallPart::BottomLeft.sprite_for_corner(tiles, x, y) {
        let turns = WallPart::BottomLeft.base_quarter_turns() + rotation.quarter_turns();
        sprites.push((WallPart::BottomLeft, sprite, turns));
    }
    proof {
        assert(sprites@ =~= sprites_for_wall_spec(*tiles, x as int, y as int));
    }
    sprites
}

/// A corner walled in on all three sides is never decorated.
pub proof fn lemma_enclosed_corner_undecorated(
    one: Option<Tile>,
    two: Option<Tile>,
    three: Option<Tile>,
)
    requires
        one == Some(Tile::Wall),
        two == Some(Tile::Wall),
        three == Some(Tile::Wall),
    ensures
        sprite_spec(one, two, three) is None,
{
}

/// With a wall to the side, the far corner cell present, and the cell
/// across present and open, the corner carries a straight wall turned a
/// quarter turn (pi/2 radians).
pub proof fn lemma_side_wall_straight_quarter(
    one: Option<Tile>,
    two: Option<Tile>,
    three: Option<Tile>,
)
    requires
        one == Some(Tile::Wall),
        two is Some,
        present_not_wall(three),
    ensures
        sprite_spec(one, two, three) == Some((SpriteIndices::WallStraight, Rotation::Quarter)),
{
}

/// With walls to the side and across but the far corner cell open, the
/// corner carries a corner wall turned a half turn (pi radians).
pub proof fn lemma_opposed_walls_corner_half(
    one: Option<Tile>,
    two: Option<Tile>,
    three: Option<Tile>,
)
    requires
        one == Some(Tile::Wall),
        present_not_wall(two),
        three == Some(Tile::Wall),
    ensures
        sprite_spec(one, two, three) == Some((SpriteIndices::WallCorner, Rotation::Half)),
{
}

/// With the side open, the far corner cell present, and a wall across, the
/// corner carries an unturned straight wall.
pub proof fn lemma_far_wall_straight(one: Option<Tile>, two: Option<Tile>, three: Option<Tile>)
    requires
        present_not_wall(one),
        two is Some,
        three == Some(Tile::Wall),
    ensures
        sprite_spec(one, two, three) == Some((SpriteIndices::WallStraight, Rotation::Zero)),
{
}

/// With only the far corner cell a wall, the corner carries an unturned
/// corner wall.
pub proof fn lemma_diagonal_wall_corner(one: Option<Tile>, two: Option<Tile>, three: Option<Tile>)
    requires
        present_not_wall(one),
        two == Some(Tile::Wall),
        present_not_wall(three),
    ensures
        sprite_spec(one, two, three) == Some((SpriteIndices::WallCorner, Rotation::Zero)),
{
}

/// With all three neighbors present and open, the corner carries an
/// unturned corner wall.
pub proof fn lemma_open_corner(one: Option<Tile>, two: Option<Tile>, three: Option<Tile>)
    requires
        present_not_wall(one),
        present_not_wall(two),
        present_not_wall(three),
    ensures
        sprite_spec(one, two, three) == Some((SpriteIndices::WallCorner, Rotation::Zero)),
{
}

/// Classification has no hidden state: two results taken from equal inputs
/// are always equal.
pub proof fn lemma_classify_deterministic(
    one: Option<Tile>,
    two: Option<Tile>,
    three: Option<Tile>,
    first: Option<(SpriteIndices, Rotation)>,
    second: Option<(SpriteIndices, Rotation)>,
)
    requires
        first == sprite_spec(one, two, three),
        second == sprite_spec(one, two, three),
    ensures
        first == second,
{
}

} // verus!
