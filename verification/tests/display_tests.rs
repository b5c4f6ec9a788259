use atc_core::command::Command;
use atc_core::command::CommandTemporality;
use atc_core::command::CommandValue;
use atc_core::command::DirectionalCommandValue;
use atc_core::direction::Direction;
use atc_core::display::format_plane_directional_command;
use atc_core::display::format_plane_label;
use atc_core::display::world_point_to_screen_position;
use atc_core::level::Level;
use atc_core::locations::Airport;
use atc_core::locations::Beacon;
use atc_core::locations::Exit;
use atc_core::locations::Location;
use atc_core::locations::LocationId;
use atc_core::plane::Plane;
use atc_core::plane::PlaneState;
use atc_core::plane::PlaneType;
use atc_core::plane::PlaneVisibility;
use atc_core::point::Point;
use atc_core::text::i32_to_string;

fn test_level() -> Level {
    Level {
        description: String::from("display test scenario"),
        plane_spawn_chance: 0,
        move_interval_millis: 1000,
        size: Point::new(30, 21),
        airports: vec![Airport {
            position: Point::new(20, 15),
            flight_direction: Direction::North,
            number: 4,
        }],
        beacons: vec![Beacon { position: Point::new(12, 7), number: 3 }],
        exits: vec![Exit {
            position: Point::new(12, 0),
            number: 7,
            entry_direction: Direction::South,
        }],
        airways: vec![],
    }
}

fn test_plane() -> Plane {
    Plane {
        name: 'a',
        plane_type: PlaneType::Propeller,
        altitude: 7,
        target_altitude: 7,
        direction: Direction::North,
        position: Point::new(10, 10),
        state: PlaneState::Flying,
        visibility: PlaneVisibility::Marked,
        ticks_since_created: 2,
        remaining_fuel: 50,
        destination: LocationId::Exit(0),
        directional_command: None,
        visibility_command: None,
        altitude_command: None,
    }
}

#[test]
fn plane_labels_encode_type_in_case() {
    let mut p = test_plane();
    assert_eq!(format_plane_label(&p), "A7");
    p.plane_type = PlaneType::Jet;
    p.altitude = 3;
    assert_eq!(format_plane_label(&p), "a3");
}

#[test]
fn destination_tags() {
    let level = test_level();
    assert_eq!(level.airports[0].to_destination_string(), "A4");
    assert_eq!(level.beacons[0].to_destination_string(), "B3");
    assert_eq!(level.exits[0].to_destination_string(), "E7");
}

#[test]
fn location_queries_dispatch_by_kind() {
    let level = test_level();
    assert_eq!(level.location_position(LocationId::Beacon(0)), Point::new(12, 7));
    assert!(level.location_accessible_from(LocationId::Beacon(0), &Direction::SouthWest));
    assert!(level.location_accessible_from(LocationId::Airport(0), &Direction::North));
    assert!(!level.location_accessible_from(LocationId::Airport(0), &Direction::South));
    assert!(level.location_accessible_from(LocationId::Exit(0), &Direction::South));
    assert!(level.location_accessible_from(LocationId::Exit(0), &Direction::North));
    assert!(!level.location_accessible_from(LocationId::Exit(0), &Direction::East));
    assert!(level.location_can_exit_at_alt(LocationId::Airport(0), 0));
    assert!(!level.location_can_exit_at_alt(LocationId::Airport(0), 5));
    assert!(level.location_can_exit_at_alt(LocationId::Exit(0), 9));
    assert!(!level.location_can_exit_at_alt(LocationId::Beacon(0), 0));
    assert!(!level.location_can_exit_at_alt(LocationId::Beacon(0), 9));
    assert_eq!(level.location_tag(LocationId::Airport(0)), "A4");
}

#[test]
fn directional_command_display() {
    let level = test_level();
    let mut p = test_plane();
    assert_eq!(format_plane_directional_command(&p, &level), "");

    p.directional_command = Some(Command {
        value: CommandValue::Directional(DirectionalCommandValue::AbsoluteTurn(
            Direction::SouthWest,
        )),
        temporality: CommandTemporality::Immediate,
    });
    assert_eq!(format_plane_directional_command(&p, &level), "225");

    p.directional_command = Some(Command {
        value: CommandValue::Directional(DirectionalCommandValue::Circle { to_right: false }),
        temporality: CommandTemporality::Immediate,
    });
    assert_eq!(format_plane_directional_command(&p, &level), "Circ L");

    p.directional_command = Some(Command {
        value: CommandValue::Directional(DirectionalCommandValue::SoftTurn { to_right: true }),
        temporality: CommandTemporality::Immediate,
    });
    assert_eq!(format_plane_directional_command(&p, &level), "Soft R");

    p.directional_command = Some(Command {
        value: CommandValue::Directional(DirectionalCommandValue::HardTurn { to_right: false }),
        temporality: CommandTemporality::Immediate,
    });
    assert_eq!(format_plane_directional_command(&p, &level), "Hard L");

    p.directional_command = Some(Command {
        value: CommandValue::Directional(DirectionalCommandValue::TurnTowards(
            LocationId::Beacon(0),
        )),
        temporality: CommandTemporality::Immediate,
    });
    assert_eq!(format_plane_directional_command(&p, &level), "B3");

    p.directional_command = Some(Command {
        value: CommandValue::Directional(DirectionalCommandValue::AbsoluteTurn(
            Direction::East,
        )),
        temporality: CommandTemporality::Delayed(0),
    });
    assert_eq!(format_plane_directional_command(&p, &level), "90 @ B3");
}

#[test]
fn unmarked_and_ignored_planes_show_dashes() {
    let level = test_level();
    let mut p = test_plane();
    p.visibility = PlaneVisibility::Ignored;
    assert_eq!(format_plane_directional_command(&p, &level), "----------");
    p.visibility = PlaneVisibility::Unmarked;
    assert_eq!(format_plane_directional_command(&p, &level), "----------");
}

#[test]
fn screen_positions_double_the_column() {
    assert_eq!(world_point_to_screen_position(&Point::new(12, 7)), (24, 7));
    assert_eq!(world_point_to_screen_position(&Point::new(0, 0)), (0, 0));
}

#[test]
fn decimal_rendering() {
    assert_eq!(i32_to_string(0), "0");
    assert_eq!(i32_to_string(9), "9");
    assert_eq!(i32_to_string(10), "10");
    assert_eq!(i32_to_string(315), "315");
    assert_eq!(i32_to_string(-7), "-7");
    assert_eq!(i32_to_string(-120), "-120");
}
