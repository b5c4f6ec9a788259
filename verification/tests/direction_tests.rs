use atc_core::direction::Direction;
use atc_core::point::Point;

fn all_directions() -> Vec<Direction> {
    vec![
        Direction::North,
        Direction::NorthEast,
        Direction::East,
        Direction::SouthEast,
        Direction::South,
        Direction::SouthWest,
        Direction::West,
        Direction::NorthWest,
    ]
}

#[test]
fn add_full_turn_is_identity() {
    for d in all_directions() {
        assert_eq!(d.add_heading(360), Some(d));
    }
}

#[test]
fn opposite_twice_is_identity() {
    for d in all_directions() {
        assert_eq!(d.opposite().opposite(), d);
    }
}

#[test]
fn opposite_is_180_away() {
    for d in all_directions() {
        assert_eq!(d.opposite().to_heading(), (d.to_heading() + 180) % 360);
    }
}

#[test]
fn angle_to_lies_in_half_open_range() {
    for a in all_directions() {
        for b in all_directions() {
            let angle = a.angle_to(&b);
            assert!(-180 < angle && angle <= 180);
        }
    }
}

#[test]
fn angle_to_is_antisymmetric_off_180() {
    for a in all_directions() {
        for b in all_directions() {
            let ab = a.angle_to(&b);
            let ba = b.angle_to(&a);
            if ab != 180 {
                assert_eq!(ab, -ba);
            }
        }
    }
}

#[test]
fn angle_to_exact_values() {
    assert_eq!(Direction::North.angle_to(&Direction::East), 90);
    assert_eq!(Direction::East.angle_to(&Direction::North), -90);
    assert_eq!(Direction::North.angle_to(&Direction::NorthWest), -45);
    assert_eq!(Direction::North.angle_to(&Direction::South), 180);
    assert_eq!(Direction::South.angle_to(&Direction::North), 180);
    assert_eq!(Direction::West.angle_to(&Direction::West), 0);
}

#[test]
fn compare_to_gives_sign_of_angle() {
    assert_eq!(Direction::North.compare_to(&Direction::East), 1);
    assert_eq!(Direction::East.compare_to(&Direction::North), -1);
    assert_eq!(Direction::South.compare_to(&Direction::South), 0);
}

#[test]
fn limited_rotate_reaches_target_within_two_steps() {
    for a in all_directions() {
        for b in all_directions() {
            let once = Direction::limited_rotate(&a, &b);
            let twice = Direction::limited_rotate(&once, &b);
            assert_eq!(twice, b);
        }
    }
}

#[test]
fn limited_rotate_clamps_to_90_degrees() {
    assert_eq!(Direction::limited_rotate(&Direction::North, &Direction::East), Direction::East);
    assert_eq!(
        Direction::limited_rotate(&Direction::North, &Direction::SouthEast),
        Direction::East
    );
    assert_eq!(
        Direction::limited_rotate(&Direction::North, &Direction::South),
        Direction::East
    );
    assert_eq!(
        Direction::limited_rotate(&Direction::North, &Direction::SouthWest),
        Direction::West
    );
}

#[test]
fn from_heading_accepts_multiples_of_45_only() {
    assert_eq!(Direction::from_heading(0), Some(Direction::North));
    assert_eq!(Direction::from_heading(135), Some(Direction::SouthEast));
    assert_eq!(Direction::from_heading(360), Some(Direction::North));
    assert_eq!(Direction::from_heading(-45), Some(Direction::NorthWest));
    assert_eq!(Direction::from_heading(-720), Some(Direction::North));
    assert_eq!(Direction::from_heading(30), None);
    assert_eq!(Direction::from_heading(100), None);
}

#[test]
fn to_heading_round_trips() {
    for d in all_directions() {
        assert_eq!(Direction::from_heading(d.to_heading()), Some(d));
    }
}

#[test]
fn keyboard_chars_map_to_directions() {
    assert_eq!(Direction::from_keyboard_char('w'), Some(Direction::North));
    assert_eq!(Direction::from_keyboard_char('q'), Some(Direction::NorthWest));
    assert_eq!(Direction::from_keyboard_char('e'), Some(Direction::NorthEast));
    assert_eq!(Direction::from_keyboard_char('a'), Some(Direction::West));
    assert_eq!(Direction::from_keyboard_char('d'), Some(Direction::East));
    assert_eq!(Direction::from_keyboard_char('z'), Some(Direction::SouthWest));
    assert_eq!(Direction::from_keyboard_char('x'), Some(Direction::South));
    assert_eq!(Direction::from_keyboard_char('c'), Some(Direction::SouthEast));
    assert_eq!(Direction::from_keyboard_char('k'), None);
}

#[test]
fn point_offsets_are_unit_steps() {
    assert_eq!(Direction::North.to_point_offset(), Point::new(0, -1));
    assert_eq!(Direction::SouthWest.to_point_offset(), Point::new(-1, 1));
    assert_eq!(Direction::East.to_point_offset(), Point::new(1, 0));
}

#[test]
fn nearest_direction_snaps_bearing_to_octant() {
    assert_eq!(Direction::from_point_delta(&Point::new(0, -5)), Direction::North);
    assert_eq!(Direction::from_point_delta(&Point::new(1, -1)), Direction::NorthEast);
    assert_eq!(Direction::from_point_delta(&Point::new(7, 0)), Direction::East);
    assert_eq!(Direction::from_point_delta(&Point::new(3, 3)), Direction::SouthEast);
    assert_eq!(Direction::from_point_delta(&Point::new(0, 2)), Direction::South);
    assert_eq!(Direction::from_point_delta(&Point::new(-4, 4)), Direction::SouthWest);
    assert_eq!(Direction::from_point_delta(&Point::new(-9, 0)), Direction::West);
    assert_eq!(Direction::from_point_delta(&Point::new(-2, -2)), Direction::NorthWest);
    // Bearings off the exact axes snap to the nearest of the eight.
    assert_eq!(Direction::from_point_delta(&Point::new(5, 1)), Direction::East);
    assert_eq!(Direction::from_point_delta(&Point::new(2, 1)), Direction::SouthEast);
    assert_eq!(Direction::from_point_delta(&Point::new(-2, -3)), Direction::NorthWest);
    assert_eq!(Direction::from_point_delta(&Point::new(1, -5)), Direction::North);
    // The zero vector is treated as bearing 90 degrees.
    assert_eq!(Direction::from_point_delta(&Point::new(0, 0)), Direction::East);
}

#[test]
fn point_arithmetic() {
    let p = Point::new(3, -2);
    let q = Point::new(-1, 5);
    assert_eq!(p.add(&q), Point::new(2, 3));
    assert_eq!(p.sub(&q), Point::new(4, -7));
    assert!(p.equals(&Point::new(3, -2)));
    assert!(!p.equals(&q));
    assert_eq!(Point::zero(), Point::new(0, 0));
}
