use atc_core::command::ChangeAltitudeCommand;
use atc_core::command::Command;
use atc_core::command::CommandTemporality;
use atc_core::command::CommandType;
use atc_core::command::CommandValue;
use atc_core::command::DirectionalCommandValue;
use atc_core::direction::Direction;
use atc_core::game::Game;
use atc_core::game::LoseCondition;
use atc_core::level::Level;
use atc_core::locations::Airport;
use atc_core::locations::Beacon;
use atc_core::locations::Exit;
use atc_core::locations::LocationId;
use atc_core::plane::Plane;
use atc_core::plane::PlaneState;
use atc_core::plane::PlaneType;
use atc_core::plane::PlaneVisibility;
use atc_core::point::Point;

fn test_level(spawn_chance: u32) -> Level {
    Level {
        description: String::from("engine test scenario"),
        plane_spawn_chance: spawn_chance,
        move_interval_millis: 1000,
        size: Point::new(30, 21),
        airports: vec![Airport {
            position: Point::new(20, 15),
            flight_direction: Direction::North,
            number: 0,
        }],
        beacons: vec![Beacon { position: Point::new(12, 7), number: 0 }],
        exits: vec![
            Exit { position: Point::new(12, 0), number: 0, entry_direction: Direction::South },
            Exit { position: Point::new(0, 7), number: 1, entry_direction: Direction::East },
            Exit { position: Point::new(29, 7), number: 2, entry_direction: Direction::West },
        ],
        airways: vec![],
    }
}

fn test_plane(name: char) -> Plane {
    Plane {
        name,
        plane_type: PlaneType::Jet,
        altitude: 7,
        target_altitude: 7,
        direction: Direction::North,
        position: Point::new(10, 10),
        state: PlaneState::Flying,
        visibility: PlaneVisibility::Marked,
        ticks_since_created: 2,
        remaining_fuel: 50,
        destination: LocationId::Exit(0),
        directional_command: None,
        visibility_command: None,
        altitude_command: None,
    }
}

fn quiet_game() -> Game {
    let mut game = Game::new(test_level(0));
    game.planes.clear();
    game
}

#[test]
fn new_game_spawns_one_plane_at_an_entry_point() {
    let game = Game::new(test_level(0));
    assert_eq!(game.ticks, 0);
    assert_eq!(game.planes_safe, 0);
    assert_eq!(game.planes.len(), 1);
    let p = &game.planes[0];
    assert_eq!(p.name, 'a');
    assert_eq!(p.ticks_since_created, 0);
    assert_eq!(p.visibility, PlaneVisibility::Marked);
    assert_eq!(p.remaining_fuel, 30 + 21);
    assert!(p.directional_command.is_none());
    assert!(p.visibility_command.is_none());
    assert!(p.altitude_command.is_none());
    let at_airport = p.position == Point::new(20, 15);
    let at_exit = p.position == Point::new(12, 0) || p.position == Point::new(0, 7)
        || p.position == Point::new(29, 7);
    assert!(at_airport || at_exit);
    match p.state {
        PlaneState::AtAirport(i) => {
            assert_eq!(i, 0);
            assert_eq!(p.altitude, 0);
        }
        PlaneState::Flying => {
            assert!(at_exit);
            assert_eq!(p.altitude, 7);
        }
    }
    assert!(!matches!(p.destination, LocationId::Beacon(_)));
}

#[test]
fn roster_never_exceeds_the_cap() {
    // Spawn chance 1000 out of 1000: a plane spawns on every tick that
    // has room. The roster must still never exceed the cap.
    let mut game = Game::new(test_level(1000));
    for _ in 0..60 {
        let before = game.planes.len();
        let result = game.tick();
        assert!(game.planes.len() <= 20);
        assert!(game.planes.len() <= before + 1);
        if result.is_err() {
            break;
        }
    }
}

#[test]
fn spawned_planes_get_distinct_names() {
    let mut game = Game::new(test_level(1000));
    for _ in 0..10 {
        let _ = game.tick();
        for i in 0..game.planes.len() {
            for j in 0..i {
                assert_ne!(game.planes[i].name, game.planes[j].name);
            }
        }
    }
}

#[test]
fn plane_reaching_destination_safely_is_removed_and_counted() {
    let mut game = quiet_game();
    let mut p = test_plane('a');
    // One step south of exit 0, flying the exit's reverse heading at
    // ceiling altitude: next tick it arrives exactly.
    p.destination = LocationId::Exit(0);
    p.position = Point::new(12, 1);
    p.direction = Direction::North;
    p.altitude = 9;
    p.target_altitude = 9;
    game.planes.push(p);

    let result = game.tick();
    assert!(result.is_ok());
    assert_eq!(game.planes.len(), 0);
    assert_eq!(game.planes_safe, 1);
}

#[test]
fn wrong_heading_at_destination_is_not_a_safe_arrival() {
    let mut game = quiet_game();
    let mut p = test_plane('a');
    // Arrives at the airport's cell at landing altitude, but heading
    // east instead of the required north: it must stay in the roster,
    // and (being at altitude zero while airborne) trigger a ground
    // strike rather than count as safe.
    p.destination = LocationId::Airport(0);
    p.position = Point::new(19, 15);
    p.direction = Direction::East;
    p.altitude = 0;
    p.target_altitude = 0;
    game.planes.push(p);

    let result = game.tick();
    assert_eq!(game.planes.len(), 1);
    assert_eq!(game.planes_safe, 0);
    assert!(matches!(result, Err(LoseCondition::PlaneHitGround { plane: 'a' })));
}

#[test]
fn correct_heading_at_airport_lands_safely() {
    let mut game = quiet_game();
    let mut p = test_plane('a');
    p.destination = LocationId::Airport(0);
    p.position = Point::new(20, 16);
    p.direction = Direction::North;
    p.altitude = 1;
    p.target_altitude = 0;
    game.planes.push(p);

    let result = game.tick();
    assert!(result.is_ok());
    assert_eq!(game.planes.len(), 0);
    assert_eq!(game.planes_safe, 1);
}

#[test]
fn ground_strike_loses_the_game() {
    let mut game = quiet_game();
    let mut p = test_plane('a');
    p.altitude = 1;
    p.target_altitude = 0;
    game.planes.push(p);
    let result = game.tick();
    assert!(matches!(result, Err(LoseCondition::PlaneHitGround { plane: 'a' })));
}

#[test]
fn illegal_exit_loses_the_game() {
    let mut game = quiet_game();
    let mut p = test_plane('a');
    p.position = Point::new(1, 5);
    p.direction = Direction::West;
    game.planes.push(p);
    let result = game.tick();
    assert!(matches!(result, Err(LoseCondition::PlaneIllegallyExited { plane: 'a' })));
}

#[test]
fn newly_entered_plane_is_exempt_from_illegal_exit() {
    let mut game = quiet_game();
    let mut p = test_plane('a');
    // Just spawned at an edge, flying along it: still out of bounds
    // after its first move, but within the grace tick.
    p.position = Point::new(12, 0);
    p.direction = Direction::East;
    p.ticks_since_created = 0;
    game.planes.push(p);
    let result = game.tick();
    assert!(result.is_ok());
}

#[test]
fn fuel_exhaustion_loses_the_game() {
    let mut game = quiet_game();
    let mut p = test_plane('a');
    p.remaining_fuel = 1;
    game.planes.push(p);
    let result = game.tick();
    assert!(matches!(result, Err(LoseCondition::PlaneRanOutOfFuel { plane: 'a' })));
}

#[test]
fn collision_loses_the_game() {
    let mut game = quiet_game();
    let mut a = test_plane('a');
    let mut b = test_plane('b');
    a.position = Point::new(5, 5);
    b.position = Point::new(6, 6);
    a.direction = Direction::South;
    b.direction = Direction::North;
    game.planes.push(a);
    game.planes.push(b);
    let result = game.tick();
    match result {
        Err(LoseCondition::PlaneCollision { plane_a, plane_b }) => {
            assert!(plane_a == 'a' || plane_a == 'b');
            assert!(plane_b == 'a' || plane_b == 'b');
            assert_ne!(plane_a, plane_b);
        }
        other => panic!("expected a collision, got {:?}", other),
    }
}

#[test]
fn planes_parked_at_airports_do_not_collide() {
    let mut game = quiet_game();
    let mut a = test_plane('a');
    let mut b = test_plane('b');
    a.state = PlaneState::AtAirport(0);
    a.position = Point::new(20, 15);
    a.altitude = 0;
    a.target_altitude = 0;
    b.state = PlaneState::AtAirport(0);
    b.position = Point::new(20, 15);
    b.altitude = 0;
    b.target_altitude = 0;
    game.planes.push(a);
    game.planes.push(b);
    let result = game.check_lose_conditions();
    assert!(result.is_ok());
}

#[test]
fn check_lose_conditions_reports_in_documented_order() {
    let mut game = quiet_game();
    // One plane both out of fuel and out of bounds: the illegal exit is
    // checked before fuel exhaustion.
    let mut p = test_plane('a');
    p.position = Point::new(0, 5);
    p.remaining_fuel = 0;
    game.planes.push(p);
    let result = game.check_lose_conditions();
    assert!(matches!(result, Err(LoseCondition::PlaneIllegallyExited { plane: 'a' })));
}

#[test]
fn add_command_targets_the_named_plane() {
    let mut game = quiet_game();
    game.planes.push(test_plane('a'));
    game.planes.push(test_plane('b'));
    game.planes[1].position = Point::new(3, 3);

    let command = Command {
        value: CommandValue::ChangeAltitude(ChangeAltitudeCommand::Absolute(2)),
        temporality: CommandTemporality::Immediate,
    };
    assert!(game.add_command('b', command));
    assert!(game.planes[0].altitude_command.is_none());
    assert!(game.planes[1].altitude_command.is_some());
    assert!(!game.add_command('z', command));
}

#[test]
fn get_plane_by_name_finds_live_planes() {
    let mut game = quiet_game();
    game.planes.push(test_plane('a'));
    game.planes.push(test_plane('c'));
    game.planes[1].position = Point::new(3, 3);
    assert_eq!(game.get_plane_by_name('c').unwrap().name, 'c');
    assert!(game.get_plane_by_name('b').is_none());
}

#[test]
fn spawner_picks_the_lowest_free_name() {
    // With 'a', 'b' and 'd' taken, the gap 'c' must be reused before 'e'.
    // An exits-only scenario: an aircraft entering at altitude 7 can
    // never be a safe arrival on its first tick, so the spawn stays put.
    let level = Level {
        description: String::from("exits-only scenario"),
        plane_spawn_chance: 1000,
        move_interval_millis: 1000,
        size: Point::new(30, 21),
        airports: vec![],
        beacons: vec![],
        exits: vec![
            Exit { position: Point::new(12, 0), number: 0, entry_direction: Direction::South },
            Exit { position: Point::new(0, 7), number: 1, entry_direction: Direction::East },
            Exit { position: Point::new(29, 12), number: 2, entry_direction: Direction::West },
        ],
        airways: vec![],
    };
    let mut game = Game::new(level);
    game.planes.clear();
    let mut a = test_plane('a');
    a.position = Point::new(10, 18);
    let mut b = test_plane('b');
    b.position = Point::new(16, 15);
    let mut d = test_plane('d');
    d.position = Point::new(24, 17);
    game.planes.push(a);
    game.planes.push(b);
    game.planes.push(d);

    let result = game.tick();
    assert!(result.is_ok());
    assert_eq!(game.planes.len(), 4);
    assert!(game.planes.iter().any(|p| p.name == 'c'));
    assert!(!game.planes.iter().any(|p| p.name == 'e'));
}

#[test]
fn lose_condition_messages() {
    assert_eq!(
        LoseCondition::PlaneCollision { plane_a: 'a', plane_b: 'b' }.to_message(),
        "Plane a hit plane b"
    );
    assert_eq!(
        LoseCondition::PlaneIllegallyExited { plane: 'c' }.to_message(),
        "Plane c exited illegally"
    );
    assert_eq!(
        LoseCondition::PlaneHitGround { plane: 'd' }.to_message(),
        "Plane d hit the ground"
    );
    assert_eq!(
        LoseCondition::PlaneRanOutOfFuel { plane: 'e' }.to_message(),
        "Plane e ran out of fuel"
    );
}

#[test]
fn circling_plane_survives_many_ticks_in_open_sky() {
    let mut game = quiet_game();
    let mut p = test_plane('a');
    p.position = Point::new(14, 10);
    p.add_command(Command {
        value: CommandValue::Directional(DirectionalCommandValue::Circle { to_right: true }),
        temporality: CommandTemporality::Immediate,
    });
    game.planes.push(p);
    for _ in 0..20 {
        let result = game.tick();
        assert!(result.is_ok());
        assert_eq!(game.planes.len(), 1);
        assert!(game.planes[0].get_command(CommandType::Directional).is_some());
    }
}
