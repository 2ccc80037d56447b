use std::f32::consts::FRAC_PI_2;
use std::f32::consts::PI;

use pacman_map::ascii::SpriteIndices;
use pacman_map::map::Rotation;
use pacman_map::map::Tile;
use pacman_map::map::WallPart;

/// The rotation in radians, as a renderer would apply it.
fn radians(rotation: Rotation) -> f32 {
    (rotation.quarter_turns() as f32) * FRAC_PI_2
}

/// Classify a corner and give the extra rotation in radians.
fn classified(
    one: Option<Tile>,
    two: Option<Tile>,
    three: Option<Tile>,
) -> Option<(SpriteIndices, f32)> {
    WallPart::determine_sprite_for_wall_part(one, two, three)
        .map(|(sprite, rotation)| (sprite, radians(rotation)))
}

#[test]
fn wall_test_empty_corner() {
    assert_eq!(
        classified(Some(Tile::Wall), Some(Tile::Wall), Some(Tile::Wall)),
        None
    );
}

#[test]
fn wall_test_horizontal_wall() {
    assert_eq!(
        classified(Some(Tile::Wall), Some(Tile::Wall), Some(Tile::Empty)),
        Some((SpriteIndices::WallStraight, FRAC_PI_2))
    );
    assert_eq!(
        classified(Some(Tile::Wall), Some(Tile::Empty), Some(Tile::Empty)),
        Some((SpriteIndices::WallStraight, FRAC_PI_2))
    );
}

#[test]
fn wall_test_vertical_wall() {
    assert_eq!(
        classified(Some(Tile::Empty), Some(Tile::Empty), Some(Tile::Wall)),
        Some((SpriteIndices::WallStraight, 0.0))
    );
    assert_eq!(
        classified(Some(Tile::Empty), Some(Tile::Wall), Some(Tile::Wall)),
        Some((SpriteIndices::WallStraight, 0.0))
    );
}

#[test]
fn wall_test_bottom_to_right_corner_wall() {
    assert_eq!(
        classified(Some(Tile::Empty), Some(Tile::Wall), Some(Tile::Empty)),
        Some((SpriteIndices::WallCorner, 0.0))
    );
    assert_eq!(
        classified(Some(Tile::Empty), Some(Tile::Empty), Some(Tile::Empty)),
        Some((SpriteIndices::WallCorner, 0.0))
    );
}

#[test]
fn wall_test_left_to_top_corner_wall() {
    assert_eq!(
        classified(Some(Tile::Wall), Some(Tile::Empty), Some(Tile::Wall)),
        Some((SpriteIndices::WallCorner, PI))
    );
}

#[test]
fn wall_test_left_empty() {
    assert_eq!(
        classified(None, None, Some(Tile::Empty)),
        Some((SpriteIndices::WallStraight, FRAC_PI_2))
    );
    assert_eq!(classified(None, None, Some(Tile::Wall)), None);
}

#[test]
fn wall_test_top_empty() {
    assert_eq!(
        classified(Some(Tile::Empty), None, None),
        Some((SpriteIndices::WallStraight, 0.0))
    );
    assert_eq!(classified(Some(Tile::Wall), None, None), None);
}

#[test]
fn wall_part_test_empty_corner() {
    assert_eq!(
        classified(Some(Tile::Wall), Some(Tile::Wall), Some(Tile::Wall)),
        None
    );
}

#[test]
fn wall_part_test_horizontal_wall() {
    assert_eq!(
        classified(Some(Tile::Wall), Some(Tile::Wall), Some(Tile::Empty)),
        Some((SpriteIndices::WallStraight, FRAC_PI_2))
    );
    assert_eq!(
        classified(Some(Tile::Wall), Some(Tile::Empty), Some(Tile::Empty)),
        Some((SpriteIndices::WallStraight, FRAC_PI_2))
    );
}

#[test]
fn wall_part_test_vertical_wall() {
    assert_eq!(
        classified(Some(Tile::Empty), Some(Tile::Empty), Some(Tile::Wall)),
        Some((SpriteIndices::WallStraight, 0.0))
    );
    assert_eq!(
        classified(Some(Tile::Empty), Some(Tile::Wall), Some(Tile::Wall)),
        Some((SpriteIndices::WallStraight, 0.0))
    );
}

#[test]
fn wall_part_test_bottom_to_right_corner_wall() {
    assert_eq!(
        classified(Some(Tile::Empty), Some(Tile::Wall), Some(Tile::Empty)),
        Some((SpriteIndices::WallCorner, 0.0))
    );
    assert_eq!(
        classified(Some(Tile::Empty), Some(Tile::Empty), Some(Tile::Empty)),
        Some((SpriteIndices::WallCorner, 0.0))
    );
}

#[test]
fn wall_part_test_left_to_top_corner_wall() {
    assert_eq!(
        classified(Some(Tile::Wall), Some(Tile::Empty), Some(Tile::Wall)),
        Some((SpriteIndices::WallCorner, PI))
    );
}

#[test]
fn wall_part_test_left_empty() {
    assert_eq!(
        classified(None, None, Some(Tile::Empty)),
        Some((SpriteIndices::WallStraight, FRAC_PI_2))
    );
    assert_eq!(classified(None, None, Some(Tile::Wall)), None);
}

#[test]
fn wall_part_test_top_empty() {
    assert_eq!(
        classified(Some(Tile::Empty), None, None),
        Some((SpriteIndices::WallStraight, 0.0))
    );
    assert_eq!(classified(Some(Tile::Wall), None, None), None);
}

#[test]
fn test_coin_counts_as_present_not_wall() {
    assert_eq!(
        classified(Some(Tile::Wall), Some(Tile::Coin), Some(Tile::Coin)),
        Some((SpriteIndices::WallStraight, FRAC_PI_2))
    );
    assert_eq!(
        classified(Some(Tile::Coin), Some(Tile::Wall), Some(Tile::Coin)),
        Some((SpriteIndices::WallCorner, 0.0))
    );
    assert_eq!(
        classified(Some(Tile::Coin), Some(Tile::Coin), Some(Tile::Wall)),
        Some((SpriteIndices::WallStraight, 0.0))
    );
}

#[test]
fn test_unhandled_patterns_get_no_sprite() {
    assert_eq!(classified(Some(Tile::Wall), Some(Tile::Wall), None), None);
    assert_eq!(classified(Some(Tile::Wall), Some(Tile::Empty), None), None);
    assert_eq!(classified(Some(Tile::Wall), None, Some(Tile::Empty)), None);
    assert_eq!(classified(Some(Tile::Empty), Some(Tile::Wall), None), None);
    assert_eq!(classified(None, Some(Tile::Empty), Some(Tile::Empty)), None);
    assert_eq!(classified(None, Some(Tile::Wall), None), None);
}

#[test]
fn test_classify_twice_same_result() {
    let inputs = [
        (Some(Tile::Wall), Some(Tile::Wall), Some(Tile::Empty)),
        (Some(Tile::Coin), Some(Tile::Wall), Some(Tile::Coin)),
        (None, None, Some(Tile::Empty)),
        (Some(Tile::Wall), None, None),
    ];
    for (one, two, three) in inputs {
        assert_eq!(
            WallPart::determine_sprite_for_wall_part(one, two, three),
            WallPart::determine_sprite_for_wall_part(one, two, three)
        );
    }
}

#[test]
fn test_rotation_quarter_turns() {
    assert_eq!(Rotation::Zero.quarter_turns(), 0);
    assert_eq!(Rotation::Quarter.quarter_turns(), 1);
    assert_eq!(Rotation::Half.quarter_turns(), 2);
    assert_eq!(radians(Rotation::Half), PI);
}

#[test]
fn test_base_quarter_turns() {
    assert_eq!(WallPart::TopLeft.base_quarter_turns(), 0);
    assert_eq!(WallPart::TopRight.base_quarter_turns(), -1);
    assert_eq!(WallPart::BottomRight.base_quarter_turns(), 2);
    assert_eq!(WallPart::BottomLeft.base_quarter_turns(), 1);
}
