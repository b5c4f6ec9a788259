use atc_core::command::ChangeAltitudeCommand;
use atc_core::command::Command;
use atc_core::command::CommandTemporality;
use atc_core::command::CommandType;
use atc_core::command::CommandValue;
use atc_core::command::ChangeVisibilityCommand;
use atc_core::command::DirectionalCommandValue;
use atc_core::direction::Direction;
use atc_core::level::Level;
use atc_core::locations::Airport;
use atc_core::locations::Beacon;
use atc_core::locations::Exit;
use atc_core::locations::LocationId;
use atc_core::plane::Plane;
use atc_core::plane::PlaneState;
use atc_core::plane::PlaneType;
use atc_core::plane::PlaneVisibility;
use atc_core::point::Point;

fn test_level() -> Level {
    Level {
        description: String::from("aircraft test scenario"),
        plane_spawn_chance: 0,
        move_interval_millis: 1000,
        size: Point::new(30, 21),
        airports: vec![Airport {
            position: Point::new(20, 15),
            flight_direction: Direction::North,
            number: 0,
        }],
        beacons: vec![Beacon { position: Point::new(12, 7), number: 0 }],
        exits: vec![Exit {
            position: Point::new(12, 0),
            number: 0,
            entry_direction: Direction::South,
        }],
        airways: vec![],
    }
}

fn test_plane() -> Plane {
    Plane {
        name: 'a',
        plane_type: PlaneType::Jet,
        altitude: 7,
        target_altitude: 7,
        direction: Direction::North,
        position: Point::new(10, 10),
        state: PlaneState::Flying,
        visibility: PlaneVisibility::Marked,
        ticks_since_created: 2,
        remaining_fuel: 50,
        destination: LocationId::Exit(0),
        directional_command: None,
        visibility_command: None,
        altitude_command: None,
    }
}

fn immediate(value: CommandValue) -> Command {
    Command { value, temporality: CommandTemporality::Immediate }
}

#[test]
fn move_intervals() {
    assert_eq!(PlaneType::Propeller.get_move_interval(), 2);
    assert_eq!(PlaneType::Jet.get_move_interval(), 1);
}

#[test]
fn absolute_turn_of_90_completes_in_one_tick() {
    let level = test_level();
    let mut p = test_plane();
    p.add_command(immediate(CommandValue::Directional(
        DirectionalCommandValue::AbsoluteTurn(Direction::East),
    )));
    p.fly(&level);
    assert_eq!(p.direction, Direction::East);
    assert!(p.directional_command.is_none());
}

#[test]
fn absolute_turn_of_180_takes_two_ticks() {
    let level = test_level();
    let mut p = test_plane();
    p.add_command(immediate(CommandValue::Directional(
        DirectionalCommandValue::AbsoluteTurn(Direction::South),
    )));
    p.fly(&level);
    assert_eq!(p.direction, Direction::East);
    assert!(p.directional_command.is_some());
    p.fly(&level);
    assert_eq!(p.direction, Direction::South);
    assert!(p.directional_command.is_none());
}

#[test]
fn soft_and_hard_turns_are_one_shot_45_degree_steps() {
    let level = test_level();
    let mut p = test_plane();
    p.add_command(immediate(CommandValue::Directional(
        DirectionalCommandValue::SoftTurn { to_right: true },
    )));
    p.fly(&level);
    assert_eq!(p.direction, Direction::NorthEast);
    assert!(p.directional_command.is_none());

    let mut q = test_plane();
    q.add_command(immediate(CommandValue::Directional(
        DirectionalCommandValue::HardTurn { to_right: false },
    )));
    q.fly(&level);
    assert_eq!(q.direction, Direction::NorthWest);
    assert!(q.directional_command.is_none());
}

#[test]
fn circle_advances_90_degrees_every_tick_and_persists() {
    let level = test_level();
    let mut p = test_plane();
    p.add_command(immediate(CommandValue::Directional(
        DirectionalCommandValue::Circle { to_right: true },
    )));
    let expected = [
        Direction::East,
        Direction::South,
        Direction::West,
        Direction::North,
        Direction::East,
    ];
    for d in expected {
        p.fly(&level);
        assert_eq!(p.direction, d);
        assert!(p.directional_command.is_some());
    }
}

#[test]
fn circle_slot_is_cleared_only_by_a_new_directional_command() {
    let level = test_level();
    let mut p = test_plane();
    p.add_command(immediate(CommandValue::Directional(
        DirectionalCommandValue::Circle { to_right: false },
    )));
    p.fly(&level);
    assert!(p.directional_command.is_some());
    p.add_command(immediate(CommandValue::Directional(
        DirectionalCommandValue::AbsoluteTurn(Direction::West),
    )));
    assert!(matches!(
        p.get_command(CommandType::Directional).unwrap().value,
        CommandValue::Directional(DirectionalCommandValue::AbsoluteTurn(Direction::West))
    ));
    p.fly(&level);
    assert_eq!(p.direction, Direction::West);
    assert!(p.directional_command.is_none());
}

#[test]
fn turn_towards_rotates_toward_location_bearing() {
    let level = test_level();
    let mut p = test_plane();
    // The beacon at (12, 7) lies up and to the right of (10, 10):
    // bearing closest to northeast.
    p.position = Point::new(10, 10);
    p.direction = Direction::North;
    p.add_command(immediate(CommandValue::Directional(
        DirectionalCommandValue::TurnTowards(LocationId::Beacon(0)),
    )));
    p.fly(&level);
    assert_eq!(p.direction, Direction::NorthEast);
    assert!(p.directional_command.is_none());
}

#[test]
fn delayed_command_is_inert_until_the_beacon_then_applies() {
    let level = test_level();
    let mut p = test_plane();
    p.position = Point::new(11, 7);
    p.direction = Direction::East;
    p.add_command(Command {
        value: CommandValue::Directional(DirectionalCommandValue::AbsoluteTurn(
            Direction::West,
        )),
        temporality: CommandTemporality::Delayed(0),
    });

    // Not yet at beacon 0 (12, 7): nothing may change but the position.
    p.fly(&level);
    assert_eq!(p.direction, Direction::East);
    assert_eq!(p.altitude, 7);
    assert_eq!(p.visibility, PlaneVisibility::Marked);
    let kept = p.directional_command.unwrap();
    assert!(matches!(kept.temporality, CommandTemporality::Delayed(0)));
    assert_eq!(p.position, Point::new(12, 7));

    // Standing on the beacon now: the very next resolution applies the
    // turn, and the command survives (rewritten as immediate) only
    // because the full 180 degree reversal needs two steps.
    p.fly(&level);
    assert_eq!(p.direction, Direction::South);
    let kept = p.directional_command.unwrap();
    assert!(matches!(kept.temporality, CommandTemporality::Immediate));
    p.fly(&level);
    assert_eq!(p.direction, Direction::West);
    assert!(p.directional_command.is_none());
}

#[test]
fn delayed_command_applies_visibility_at_beacon() {
    let level = test_level();
    let mut p = test_plane();
    p.position = Point::new(12, 7);
    p.add_command(Command {
        value: CommandValue::ChangeVisibility(ChangeVisibilityCommand {
            new_visibility: PlaneVisibility::Ignored,
        }),
        temporality: CommandTemporality::Delayed(0),
    });
    p.fly(&level);
    assert_eq!(p.visibility, PlaneVisibility::Ignored);
    assert!(p.visibility_command.is_none());
}

#[test]
fn directional_command_marks_an_unmarked_plane() {
    let level = test_level();
    let mut p = test_plane();
    p.visibility = PlaneVisibility::Unmarked;
    p.add_command(immediate(CommandValue::Directional(
        DirectionalCommandValue::SoftTurn { to_right: true },
    )));
    p.fly(&level);
    assert_eq!(p.visibility, PlaneVisibility::Marked);
}

#[test]
fn grounded_plane_discards_directional_commands_unapplied() {
    let level = test_level();
    let mut p = test_plane();
    p.state = PlaneState::AtAirport(0);
    p.position = Point::new(20, 15);
    p.altitude = 0;
    p.target_altitude = 0;
    p.add_command(immediate(CommandValue::Directional(
        DirectionalCommandValue::SoftTurn { to_right: true },
    )));
    p.fly(&level);
    assert_eq!(p.direction, Direction::North);
    assert!(p.directional_command.is_none());
    // Grounded aircraft neither move nor burn fuel.
    assert_eq!(p.position, Point::new(20, 15));
    assert_eq!(p.remaining_fuel, 50);
}

#[test]
fn altitude_command_sets_target_and_makes_airborne() {
    let level = test_level();
    let mut p = test_plane();
    p.state = PlaneState::AtAirport(0);
    p.position = Point::new(20, 15);
    p.altitude = 0;
    p.target_altitude = 0;
    p.add_command(immediate(CommandValue::ChangeAltitude(
        ChangeAltitudeCommand::Absolute(3),
    )));
    p.fly(&level);
    assert!(matches!(p.state, PlaneState::Flying));
    assert_eq!(p.target_altitude, 3);
    assert_eq!(p.altitude, 1);
    assert!(p.altitude_command.is_none());
}

#[test]
fn climb_and_descend_are_relative_to_current_altitude() {
    let level = test_level();
    let mut p = test_plane();
    p.add_command(immediate(CommandValue::ChangeAltitude(ChangeAltitudeCommand::Climb(2))));
    p.fly(&level);
    assert_eq!(p.target_altitude, 9);
    assert_eq!(p.altitude, 8);

    let mut q = test_plane();
    q.add_command(immediate(CommandValue::ChangeAltitude(
        ChangeAltitudeCommand::Descend(4),
    )));
    q.fly(&level);
    assert_eq!(q.target_altitude, 3);
    assert_eq!(q.altitude, 6);
}

#[test]
fn altitude_moves_one_unit_per_resolved_tick() {
    let level = test_level();
    let mut p = test_plane();
    p.target_altitude = 9;
    p.fly(&level);
    assert_eq!(p.altitude, 8);
    p.fly(&level);
    assert_eq!(p.altitude, 9);
    p.fly(&level);
    assert_eq!(p.altitude, 9);
}

#[test]
fn propeller_planes_move_every_other_tick() {
    let level = test_level();
    let mut p = test_plane();
    p.plane_type = PlaneType::Propeller;
    p.ticks_since_created = 0;
    p.direction = Direction::East;
    p.fly(&level);
    assert_eq!(p.position, Point::new(11, 10));
    assert_eq!(p.remaining_fuel, 49);
    p.fly(&level);
    // An odd tick count is off cadence: no movement, no fuel burned.
    assert_eq!(p.position, Point::new(11, 10));
    assert_eq!(p.remaining_fuel, 49);
    assert_eq!(p.ticks_since_created, 2);
    p.fly(&level);
    assert_eq!(p.position, Point::new(12, 10));
    assert_eq!(p.remaining_fuel, 48);
}

#[test]
fn colliding_planes_are_within_one_unit_on_every_axis() {
    let mut a = test_plane();
    let mut b = test_plane();
    b.name = 'b';
    a.position = Point::new(5, 5);
    b.position = Point::new(6, 6);
    a.altitude = 5;
    b.altitude = 5;
    assert!(a.is_colliding_with(&b));
    b.altitude = 7;
    assert!(!a.is_colliding_with(&b));
    b.altitude = 5;
    b.position = Point::new(7, 5);
    assert!(!a.is_colliding_with(&b));
}

#[test]
fn at_destination_needs_position_heading_and_altitude() {
    let level = test_level();
    let mut p = test_plane();
    p.destination = LocationId::Exit(0);
    p.position = Point::new(12, 0);
    p.direction = Direction::North;
    p.altitude = 9;
    assert!(p.is_at_destination(&level));
    // The exit also accepts its own entry heading.
    p.direction = Direction::South;
    assert!(p.is_at_destination(&level));
    // Wrong heading, wrong altitude, or wrong position each disqualify.
    p.direction = Direction::East;
    assert!(!p.is_at_destination(&level));
    p.direction = Direction::North;
    p.altitude = 8;
    assert!(!p.is_at_destination(&level));
    p.altitude = 9;
    p.position = Point::new(12, 1);
    assert!(!p.is_at_destination(&level));
}

#[test]
fn add_command_replaces_only_its_own_kind() {
    let mut p = test_plane();
    p.add_command(immediate(CommandValue::Directional(
        DirectionalCommandValue::Circle { to_right: true },
    )));
    p.add_command(immediate(CommandValue::ChangeAltitude(
        ChangeAltitudeCommand::Absolute(2),
    )));
    p.add_command(immediate(CommandValue::Directional(
        DirectionalCommandValue::SoftTurn { to_right: false },
    )));
    assert!(matches!(
        p.get_command(CommandType::Directional).unwrap().value,
        CommandValue::Directional(DirectionalCommandValue::SoftTurn { to_right: false })
    ));
    assert!(matches!(
        p.get_command(CommandType::ChangeAltitude).unwrap().value,
        CommandValue::ChangeAltitude(ChangeAltitudeCommand::Absolute(2))
    ));
    assert!(p.get_command(CommandType::ChangeVisibility).is_none());
}
