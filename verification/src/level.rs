//! The immutable scenario data: map size, the entity lists, and the spawn
//! and pacing constants. A `Level` is shared read-only by the engine, every
//! aircraft and the parser for the lifetime of a simulation run.

use vstd::prelude::*;
use crate::direction::Direction;
use crate::locations::Airport;
use crate::locations::Airway;
use crate::locations::Beacon;
use crate::locations::Exit;
use crate::locations::Location;
use crate::locations::LocationId;
use crate::point::Point;

verus! {

/// Largest coordinate a map may have on either axis. Keeping coordinates
/// this small keeps every position and distance computed by the simulation
/// far away from the `i32` limits.
pub const COORDINATE_LIMIT: i32 = 1000000;

/// Largest number of entities a scenario may hold in any one list.
pub const ENTITY_LIMIT: usize = 1000;

/// An immutable scenario.
pub struct Level {
    /// Human-readable description of the scenario.
    pub description: String,
    /// Chance, in thousandths, that a new aircraft spawns on a given tick.
    pub plane_spawn_chance: u32,
    /// Milliseconds of real time between ticks; a pacing hint for the
    /// interactive loop around the engine.
    pub move_interval_millis: u32,
    /// Width (`x`) and height (`y`) of the map.
    pub size: Point,
    pub airports: Vec<Airport>,
    pub beacons: Vec<Beacon>,
    pub exits: Vec<Exit>,
    pub airways: Vec<Airway>,
}

impl Level {
    /// Whether `id` names an entity that this scenario actually holds.
    pub open spec fn valid_location(self, id: LocationId) -> bool {
        match id {
            LocationId::Airport(i) => i < self.airports@.len(),
            LocationId::Beacon(i) => i < self.beacons@.len(),
            LocationId::Exit(i) => i < self.exits@.len(),
        }
    }

    /// Whether `id` may serve as a final destination: beacons cannot.
    pub open spec fn valid_destination(self, id: LocationId) -> bool {
        self.valid_location(id) && !(id is Beacon)
    }

    /// The position of the entity `id` names.
    pub open spec fn location_position_spec(self, id: LocationId) -> Point {
        match id {
            LocationId::Airport(i) => self.airports@[i as int].position,
            LocationId::Beacon(i) => self.beacons@[i as int].position,
            LocationId::Exit(i) => self.exits@[i as int].position,
        }
    }

    /// Whether the entity `id` names accepts an aircraft heading `d`.
    pub open spec fn location_accessible_spec(self, id: LocationId, d: Direction) -> bool {
        match id {
            LocationId::Airport(i) => self.airports@[i as int].accessible_spec(d),
            LocationId::Beacon(i) => self.beacons@[i as int].accessible_spec(d),
            LocationId::Exit(i) => self.exits@[i as int].accessible_spec(d),
        }
    }

    /// Whether an aircraft at altitude `alt` may leave the simulation at the
    /// entity `id` names.
    pub open spec fn location_exit_altitude_spec(self, id: LocationId, alt: int) -> bool {
        match id {
            LocationId::Airport(i) => self.airports@[i as int].exit_altitude_spec(alt),
            LocationId::Beacon(i) => self.beacons@[i as int].exit_altitude_spec(alt),
            LocationId::Exit(i) => self.exits@[i as int].exit_altitude_spec(alt),
        }
    }

    /// The display tag of the entity `id` names.
    pub open spec fn location_tag_spec(self, id: LocationId) -> Seq<char> {
        match id {
            LocationId::Airport(i) => self.airports@[i as int].tag_spec(),
            LocationId::Beacon(i) => self.beacons@[i as int].tag_spec(),
            LocationId::Exit(i) => self.exits@[i as int].tag_spec(),
        }
    }

    /// How many entry points (exits and airports) the scenario has.
    pub open spec fn entry_count(self) -> int {
        self.exits@.len() + self.airports@.len() as int
    }

    /// Whether a point lies on the map at all.
    pub open spec fn on_map(self, p: Point) -> bool {
        0 <= p.x < self.size.x && 0 <= p.y < self.size.y
    }

    /// Well-formedness of a scenario: a sane map size, bounded entity
    /// lists, at least one entry point, every entity on the map, and a
    /// spawn chance that is a probability.
    pub open spec fn wf(self) -> bool {
        &&& 1 <= self.size.x <= COORDINATE_LIMIT
        &&& 1 <= self.size.y <= COORDINATE_LIMIT
        &&& self.airports@.len() <= ENTITY_LIMIT
        &&& self.beacons@.len() <= ENTITY_LIMIT
        &&& self.exits@.len() <= ENTITY_LIMIT
        &&& self.entry_count() >= 1
        &&& self.plane_spawn_chance <= 1000
        &&& forall|i: int|
            0 <= i < self.airports@.len() ==> self.on_map(#[trigger] self.airports@[i].position)
        &&& forall|i: int|
            0 <= i < self.beacons@.len() ==> self.on_map(#[trigger] self.beacons@[i].position)
        &&& forall|i: int|
            0 <= i < self.exits@.len() ==> self.on_map(#[trigger] self.exits@[i].position)
    }

    /// The index of the first airport numbered `n`, scanning from `i`.
    pub open spec fn find_airport_from(s: Seq<Airport>, n: int, i: int) -> Option<int>
        decreases s.len() - i,
    {
        if i < 0 || i >= s.len() {
            None
        } else if s[i].number == n {
            Some(i)
        } else {
            Self::find_airport_from(s, n, i + 1)
        }
    }

    /// The index of the first beacon numbered `n`, scanning from `i`.
    pub open spec fn find_beacon_from(s: Seq<Beacon>, n: int, i: int) -> Option<int>
        decreases s.len() - i,
    {
        if i < 0 || i >= s.len() {
            None
        } else if s[i].number == n {
            Some(i)
        } else {
            Self::find_beacon_from(s, n, i + 1)
        }
    }

    /// The index of the first exit numbered `n`, scanning from `i`.
    pub open spec fn find_exit_from(s: Seq<Exit>, n: int, i: int) -> Option<int>
        decreases s.len() - i,
    {
        if i < 0 || i >= s.len() {
            None
        } else if s[i].number == n {
            Some(i)
        } else {
            Self::find_exit_from(s, n, i + 1)
        }
    }

    pub fn location_position(&self, id: LocationId) -> (r: Point)
        requires
            self.valid_location(id),
        ensures
            r == self.location_position_spec(id),
    {
        match id {
            LocationId::Airport(i) => self.airports[i].position,
            LocationId::Beacon(i) => self.beacons[i].position,
            LocationId::Exit(i) => self.exits[i].position,
        }
    }

    pub fn location_accessible_from(&self, id: LocationId, d: &Direction) -> (r: bool)
        requires
            self.valid_location(id),
        ensures
            r == self.location_accessible_spec(id, *d),
    {
        match id {
            LocationId::Airport(i) => self.airports[i].accessible_from_direction(d),
            LocationId::Beacon(i) => self.beacons[i].accessible_from_direction(d),
            LocationId::Exit(i) => self.exits[i].accessible_from_direction(d),
        }
    }

    pub fn location_can_exit_at_alt(&self, id: LocationId, alt: i32) -> (r: bool)
        requires
            self.valid_location(id),
        ensures
            r == self.location_exit_altitude_spec(id, alt as int),
    {
        match id {
            LocationId::Airport(i) => self.airports[i].can_exit_at_alt(alt),
            LocationId::Beacon(i) => self.beacons[i].can_exit_at_alt(alt),
            LocationId::Exit(i) => self.exits[i].can_exit_at_alt(alt),
        }
    }

    pub fn location_tag(&self, id: LocationId) -> (r: String)
        requires
            self.valid_location(id),
        ensures
            r@ == self.location_tag_spec(id),
    {
        match id {
            LocationId::Airport(i) => self.airports[i].to_destination_string(),
            LocationId::Beacon(i) => self.beacons[i].to_destination_string(),
            LocationId::Exit(i) => self.exits[i].to_destination_string(),
        }
    }

    /// Finds the first airport with the given number.
    pub fn find_airport(&self, n: i32) -> (r: Option<usize>)
        ensures
            match r {
                Some(i) => Self::find_airport_from(self.airports@, n as int, 0) == Some(i as int) && i
                    < self.airports@.len(),
                None => Self::find_airport_from(self.airports@, n as int, 0) is None,
            },
    {
        let mut i: usize = 0;
        while i < self.airports.len()
            invariant
                0 <= i <= self.airports@.len(),
                Self::find_airport_from(self.airports@, n as int, 0) == Self::find_airport_from(
                    self.airports@,
                    n as int,
                    i as int,
                ),
            decreases self.airports@.len() - i,
        {
            if self.airports[i].number == n {
                return Some(i);
            }
            i += 1;
        }
        None
    }

    /// Finds the first beacon with the given number.
    pub fn find_beacon(&self, n: i32) -> (r: Option<usize>)
        ensures
            match r {
                Some(i) => Self::find_beacon_from(self.beacons@, n as int, 0) == Some(i as int) && i
                    < self.beacons@.len(),
                None => Self::find_beacon_from(self.beacons@, n as int, 0) is None,
            },
    {
        let mut i: usize = 0;
        while i < self.beacons.len()
            invariant
                0 <= i <= self.beacons@.len(),
                Self::find_beacon_from(self.beacons@, n as int, 0) == Self::find_beacon_from(
                    self.beacons@,
                    n as int,
                    i as int,
                ),
            decreases self.beacons@.len() - i,
        {
            if self.beacons[i].number == n {
                return Some(i);
            }
            i += 1;
        }
        None
    }

    /// Finds the first exit with the given number.
    pub fn find_exit(&self, n: i32) -> (r: Option<usize>)
        ensures
            match r {
                Some(i) => Self::find_exit_from(self.exits@, n as int, 0) == Some(i as int) && i
                    < self.exits@.len(),
                None => Self::find_exit_from(self.exits@, n as int, 0) is None,
            },
    {
        let mut i: usize = 0;
        while i < self.exits.len()
            invariant
                0 <= i <= self.exits@.len(),
                Self::find_exit_from(self.exits@, n as int, 0) == Self::find_exit_from(
                    self.exits@,
                    n as int,
                    i as int,
                ),
            decreases self.exits@.len() - i,
        {
            if self.exits[i].number == n {
                return Some(i);
            }
            i += 1;
        }
        None
    }
}

} // verus!
