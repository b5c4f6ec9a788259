//! The mutable aircraft entity and its per-tick behaviour: command
//! resolution (one pending command per kind, delayed commands gated on
//! beacon position), rate-limited turning, altitude stepping and movement.

use vstd::prelude::*;
use crate::command::ChangeAltitudeCommand;
use crate::command::Command;
use crate::command::CommandTemporality;
use crate::command::CommandType;
use crate::command::CommandValue;
use crate::command::DirectionalCommandValue;
use crate::direction::Direction;
use crate::level::COORDINATE_LIMIT;
use crate::level::Level;
use crate::locations::LocationId;
use crate::point::Point;

verus! {

/// Heading change, in degrees, of a one-shot soft turn.
pub const SOFT_TURN_DEGREES: i32 = 45;

/// Heading change, in degrees, of a one-shot hard turn. The observed game
/// behaviour gives hard turns the same 45-degree step as soft turns, despite
/// the name; the step is kept as its own named constant so the magnitude is
/// easy to revisit.
pub const HARD_TURN_DEGREES: i32 = 45;

/// Heading change, in degrees, applied by a circling aircraft on every
/// eligible tick.
pub const CIRCLE_TURN_DEGREES: i32 = 90;

/// Largest tick count up to which an aircraft may be advanced. A plane
/// changes each coordinate, its altitude and its fuel by at most one unit
/// per tick, so this cap keeps all of them comfortably inside `i32`.
pub const TICK_LIMIT: i32 = 1000000000;

/// Radar visibility of an aircraft.
#[derive(Debug, Clone, Copy, PartialEq, Eq, Structural)]
pub enum PlaneVisibility {
    /// Fully visible.
    Marked,
    /// Less visible, by explicit request.
    Ignored,
    /// Less visible, but promoted back to `Marked` when a directional
    /// command is applied.
    Unmarked,
}

/// The kind of aircraft, which governs its move cadence.
#[derive(Debug, Clone, Copy, PartialEq, Eq, Structural)]
pub enum PlaneType {
    Propeller,
    Jet,
}

impl PlaneType {
    /// Ticks between two moves of this kind of aircraft.
    pub open spec fn move_interval_spec(self) -> int {
        match self {
            PlaneType::Propeller => 2,
            PlaneType::Jet => 1,
        }
    }

    pub fn get_move_interval(&self) -> (r: i32)
        ensures
            r == self.move_interval_spec(),
            1 <= r <= 2,
    {
        match self {
            PlaneType::Propeller => 2,
            PlaneType::Jet => 1,
        }
    }
}

/// Lifecycle state: airborne, or waiting on the ground at the airport with
/// the given index.
#[derive(Debug, Clone, Copy, PartialEq, Eq, Structural)]
pub enum PlaneState {
    Flying,
    AtAirport(usize),
}

/// A live aircraft.
#[derive(Debug, Clone, Copy, PartialEq, Eq, Structural)]
pub struct Plane {
    /// Single-letter name, unique among live aircraft.
    pub name: char,
    pub plane_type: PlaneType,
    pub altitude: i32,
    pub target_altitude: i32,
    pub direction: Direction,
    pub position: Point,
    pub state: PlaneState,
    pub visibility: PlaneVisibility,
    /// Ticks since this aircraft spawned; increments every tick whether or
    /// not the aircraft moved.
    pub ticks_since_created: i32,
    pub remaining_fuel: i32,
    /// Where this aircraft must go; never a beacon.
    pub destination: LocationId,
    /// Pending-command store: at most one command per kind, the newest
    /// replacing any older one of that kind.
    pub directional_command: Option<Command>,
    pub visibility_command: Option<Command>,
    pub altitude_command: Option<Command>,
}

/// Whether a command is eligible to run for an aircraft at `pos`: immediate
/// commands always are, delayed ones only once `pos` equals their beacon's
/// position.
pub open spec fn temporality_met(c: Command, pos: Point, level: Level) -> bool {
    match c.temporality {
        CommandTemporality::Immediate => true,
        CommandTemporality::Delayed(b) => level.beacons@[b as int].position == pos,
    }
}

/// A command's references stay inside the scenario, and altitude amounts
/// are single digits.
pub open spec fn command_refs_valid(c: Command, level: Level) -> bool {
    &&& match c.temporality {
        CommandTemporality::Immediate => true,
        CommandTemporality::Delayed(b) => b < level.beacons@.len(),
    }
    &&& match c.value {
        CommandValue::Directional(DirectionalCommandValue::TurnTowards(id)) => level.valid_location(
            id,
        ),
        CommandValue::ChangeAltitude(a) => match a {
            ChangeAltitudeCommand::Absolute(n) => 0 <= n <= 9,
            ChangeAltitudeCommand::Climb(n) => 0 <= n <= 9,
            ChangeAltitudeCommand::Descend(n) => 0 <= n <= 9,
        },
        _ => true,
    }
}

/// Turning `d` by `degrees`; the identity when the result would not be
/// canonical (which cannot happen for the multiples of 45 the simulation
/// uses).
pub open spec fn turned_by(d: Direction, degrees: int) -> Direction {
    match d.add_heading_spec(degrees) {
        Some(nd) => nd,
        None => d,
    }
}

impl Plane {
    pub open spec fn is_at_airport_spec(self) -> bool {
        self.state is AtAirport
    }

    /// The pending command of the given kind, if any.
    pub open spec fn get_command_spec(self, t: CommandType) -> Option<Command> {
        match t {
            CommandType::Directional => self.directional_command,
            CommandType::ChangeVisibility => self.visibility_command,
            CommandType::ChangeAltitude => self.altitude_command,
        }
    }

    /// This plane with `command` stored in the slot of its kind.
    pub open spec fn with_command_spec(self, command: Command) -> Plane {
        match command.kind_spec() {
            CommandType::Directional => Plane { directional_command: Some(command), ..self },
            CommandType::ChangeVisibility => Plane { visibility_command: Some(command), ..self },
            CommandType::ChangeAltitude => Plane { altitude_command: Some(command), ..self },
        }
    }

    /// Proximity-box collision: altitudes within one unit and both position
    /// axes within one cell.
    pub open spec fn colliding_spec(self, other: Plane) -> bool {
        &&& -1 <= self.altitude - other.altitude <= 1
        &&& -1 <= self.position.x - other.position.x <= 1
        &&& -1 <= self.position.y - other.position.y <= 1
    }

    /// Safe arrival: exact destination position, a heading the destination
    /// accepts, and the altitude at which one may leave there.
    pub open spec fn at_destination_spec(self, level: Level) -> bool {
        &&& self.position == level.location_position_spec(self.destination)
        &&& level.location_accessible_spec(self.destination, self.direction)
        &&& level.location_exit_altitude_spec(self.destination, self.altitude as int)
    }

    /// The pending commands are well-formed for their slots and scenario.
    pub open spec fn commands_wf(self, level: Level) -> bool {
        &&& match self.directional_command {
            Some(c) => c.kind_spec() == CommandType::Directional && command_refs_valid(c, level),
            None => true,
        }
        &&& match self.visibility_command {
            Some(c) => c.kind_spec() == CommandType::ChangeVisibility && command_refs_valid(
                c,
                level,
            ),
            None => true,
        }
        &&& match self.altitude_command {
            Some(c) => c.kind_spec() == CommandType::ChangeAltitude && command_refs_valid(c, level),
            None => true,
        }
    }

    /// Well-formedness of an aircraft against its scenario. The numeric
    /// bounds express that a plane starts on the map with single-digit
    /// altitudes and changes position, altitude and fuel by at most one
    /// unit per tick, so each stays within a window that widens with the
    /// tick count.
    pub open spec fn wf(self, level: Level) -> bool {
        &&& level.valid_destination(self.destination)
        &&& match self.state {
            PlaneState::AtAirport(i) => i < level.airports@.len(),
            PlaneState::Flying => true,
        }
        &&& 0 <= self.ticks_since_created
        &&& -9 - self.ticks_since_created <= self.altitude <= 9 + self.ticks_since_created
        &&& -18 - self.ticks_since_created <= self.target_altitude <= 18
            + self.ticks_since_created
        &&& -COORDINATE_LIMIT - self.ticks_since_created <= self.position.x <= COORDINATE_LIMIT
            + self.ticks_since_created
        &&& -COORDINATE_LIMIT - self.ticks_since_created <= self.position.y <= COORDINATE_LIMIT
            + self.ticks_since_created
        &&& -self.ticks_since_created <= self.remaining_fuel <= 2 * COORDINATE_LIMIT
        &&& self.commands_wf(level)
    }

    /// Resolving the directional slot, as one complete step: a delayed
    /// command whose beacon is not yet reached is left untouched; a grounded
    /// aircraft discards the command unapplied; otherwise the turn is
    /// applied (promoting an unmarked aircraft to marked), and the command
    /// is removed exactly when its goal is complete — immediately for soft
    /// and hard turns, on reaching the target heading for absolute and
    /// turn-towards commands, and never for circling.
    pub open spec fn resolve_directional_spec(self, level: Level) -> Plane {
        match self.directional_command {
            None => self,
            Some(c) => {
                if !temporality_met(c, self.position, level) {
                    self
                } else if self.is_at_airport_spec() {
                    Plane { directional_command: None, ..self }
                } else {
                    let kept = Command { temporality: CommandTemporality::Immediate, ..c };
                    let vis = if self.visibility == PlaneVisibility::Unmarked {
                        PlaneVisibility::Marked
                    } else {
                        self.visibility
                    };
                    match c.value {
                        CommandValue::Directional(v) => match v {
                            DirectionalCommandValue::AbsoluteTurn(d) => {
                                let nd = Direction::limited_rotate_spec(self.direction, d);
                                Plane {
                                    direction: nd,
                                    visibility: vis,
                                    directional_command: if nd == d {
                                        None
                                    } else {
                                        Some(kept)
                                    },
                                    ..self
                                }
                            },
                            DirectionalCommandValue::SoftTurn { to_right } => Plane {
                                direction: turned_by(
                                    self.direction,
                                    if to_right {
                                        SOFT_TURN_DEGREES as int
                                    } else {
                                        -SOFT_TURN_DEGREES as int
                                    },
                                ),
                                visibility: vis,
                                directional_command: None,
                                ..self
                            },
                            DirectionalCommandValue::HardTurn { to_right } => Plane {
                                direction: turned_by(
                                    self.direction,
                                    if to_right {
                                        HARD_TURN_DEGREES as int
                                    } else {
                                        -HARD_TURN_DEGREES as int
                                    },
                                ),
                                visibility: vis,
                                directional_command: None,
                                ..self
                            },
                            DirectionalCommandValue::TurnTowards(id) => {
                                let lp = level.location_position_spec(id);
                                let t = Direction::nearest_direction_spec(
                                    lp.x - self.position.x,
                                    lp.y - self.position.y,
                                );
                                let nd = Direction::limited_rotate_spec(self.direction, t);
                                Plane {
                                    direction: nd,
                                    visibility: vis,
                                    directional_command: if nd == t {
                                        None
                                    } else {
                                        Some(kept)
                                    },
                                    ..self
                                }
                            },
                            DirectionalCommandValue::Circle { to_right } => Plane {
                                direction: turned_by(
                                    self.direction,
                                    if to_right {
                                        CIRCLE_TURN_DEGREES as int
                                    } else {
                                        -CIRCLE_TURN_DEGREES as int
                                    },
                                ),
                                visibility: vis,
                                directional_command: Some(kept),
                                ..self
                            },
                        },
                        _ => Plane { directional_command: None, ..self },
                    }
                }
            },
        }
    }

    /// Resolving the visibility slot: once eligible, the commanded
    /// visibility is set unconditionally and the command is removed.
    pub open spec fn resolve_visibility_spec(self, level: Level) -> Plane {
        match self.visibility_command {
            None => self,
            Some(c) => {
                if !temporality_met(c, self.position, level) {
                    self
                } else {
                    match c.value {
                        CommandValue::ChangeVisibility(v) => Plane {
                            visibility: v.new_visibility,
                            visibility_command: None,
                            ..self
                        },
                        _ => Plane { visibility_command: None, ..self },
                    }
                }
            },
        }
    }

    /// Resolving the altitude slot: once eligible, the target altitude is
    /// set (absolutely, or relative to the current altitude), the aircraft
    /// is made airborne, and the command is removed.
    pub open spec fn resolve_altitude_spec(self, level: Level) -> Plane {
        match self.altitude_command {
            None => self,
            Some(c) => {
                if !temporality_met(c, self.position, level) {
                    self
                } else {
                    match c.value {
                        CommandValue::ChangeAltitude(a) => {
                            let t: int = match a {
                                ChangeAltitudeCommand::Absolute(n) => n as int,
                                ChangeAltitudeCommand::Climb(n) => self.altitude + n,
                                ChangeAltitudeCommand::Descend(n) => self.altitude - n,
                            };
                            Plane {
                                state: PlaneState::Flying,
                                target_altitude: t as i32,
                                altitude_command: None,
                                ..self
                            }
                        },
                        _ => Plane { altitude_command: None, ..self },
                    }
                }
            },
        }
    }

    /// One altitude step toward the target: at most one unit per resolved
    /// tick.
    pub open spec fn step_altitude_spec(self) -> Plane {
        if self.target_altitude < self.altitude {
            Plane { altitude: (self.altitude - 1) as i32, ..self }
        } else if self.altitude < self.target_altitude {
            Plane { altitude: (self.altitude + 1) as i32, ..self }
        } else {
            self
        }
    }

    /// One move along the current heading, costing one unit of fuel.
    pub open spec fn advance_spec(self) -> Plane {
        let o = self.direction.offset_spec();
        Plane {
            position: Point {
                x: (self.position.x + o.x) as i32,
                y: (self.position.y + o.y) as i32,
            },
            remaining_fuel: (self.remaining_fuel - 1) as i32,
            ..self
        }
    }

    /// One whole tick of an aircraft: on ticks at its cadence it resolves
    /// its three slots (directional, then visibility, then altitude), steps
    /// its altitude, and — unless grounded — moves one cell and burns one
    /// unit of fuel; the tick counter always increments.
    pub open spec fn fly_spec(self, level: Level) -> Plane {
        let q = if self.ticks_since_created as int % self.plane_type.move_interval_spec() == 0 {
            let q1 = self.resolve_directional_spec(level);
            let q2 = q1.resolve_visibility_spec(level);
            let q3 = q2.resolve_altitude_spec(level);
            let q4 = q3.step_altitude_spec();
            if q4.is_at_airport_spec() {
                q4
            } else {
                q4.advance_spec()
            }
        } else {
            self
        };
        Plane { ticks_since_created: (q.ticks_since_created + 1) as i32, ..q }
    }

    pub fn is_at_airport(&self) -> (r: bool)
        ensures
            r == self.is_at_airport_spec(),
    {
        match self.state {
            PlaneState::AtAirport(_) => true,
            _ => false,
        }
    }

    /// The pending command of the given kind, if any.
    pub fn get_command(&self, command_type: CommandType) -> (r: Option<Command>)
        ensures
            r == self.get_command_spec(command_type),
    {
        match command_type {
            CommandType::Directional => self.directional_command,
            CommandType::ChangeVisibility => self.visibility_command,
            CommandType::ChangeAltitude => self.altitude_command,
        }
    }

    /// Stores `command` in the slot of its kind, replacing any unresolved
    /// command of that kind.
    pub fn add_command(&mut self, command: Command)
        ensures
            *final(self) == old(self).with_command_spec(command),
    {
        match command.kind() {
            CommandType::Directional => {
                self.directional_command = Some(command);
            },
            CommandType::ChangeVisibility => {
                self.visibility_command = Some(command);
            },
            CommandType::ChangeAltitude => {
                self.altitude_command = Some(command);
            },
        }
    }

    /// Whether the proximity boxes of two aircraft touch: altitudes within
    /// one unit and both position axes within one cell.
    pub fn is_colliding_with(&self, other: &Plane) -> (r: bool)
        ensures
            r == self.colliding_spec(*other),
    {
        let da: i64 = self.altitude as i64 - other.altitude as i64;
        let dx: i64 = self.position.x as i64 - other.position.x as i64;
        let dy: i64 = self.position.y as i64 - other.position.y as i64;
        -1 <= da && da <= 1 && -1 <= dx && dx <= 1 && -1 <= dy && dy <= 1
    }

    /// Whether this aircraft has reached its destination safely.
    pub fn is_at_destination(&self, level: &Level) -> (r: bool)
        requires
            level.valid_location(self.destination),
        ensures
            r == self.at_destination_spec(*level),
    {
        let dest_pos = level.location_position(self.destination);
        self.position.equals(&dest_pos) && level.location_accessible_from(
            self.destination,
            &self.direction,
        ) && level.location_can_exit_at_alt(self.destination, self.altitude)
    }

    /// One altitude step toward the target altitude.
    pub fn update_altitude(&mut self)
        requires
            i32::MIN < old(self).altitude < i32::MAX,
        ensures
            *final(self) == old(self).step_altitude_spec(),
    {
        if self.target_altitude < self.altitude {
            self.altitude = self.altitude - 1;
        } else if self.altitude < self.target_altitude {
            self.altitude = self.altitude + 1;
        }
    }

    /// One move along the current heading.
    pub fn update_position(&mut self)
        requires
            i32::MIN < old(self).position.x < i32::MAX,
            i32::MIN < old(self).position.y < i32::MAX,
        ensures
            *final(self) == (Plane {
                position: Point {
                    x: (old(self).position.x + old(self).direction.offset_spec().x) as i32,
                    y: (old(self).position.y + old(self).direction.offset_spec().y) as i32,
                },
                ..*old(self)
            }),
    {
        self.position = self.position.add(&self.direction.to_point_offset());
    }

    /// Resolves the pending command slot of the given kind, and reports
    /// whether a command completed and left its slot this call.
    pub fn parse_command(&mut self, command_type: CommandType, level: &Level) -> (completed: bool)
        requires
            old(self).wf(*level),
            level.wf(),
            old(self).ticks_since_created <= TICK_LIMIT,
        ensures
            *final(self) == match command_type {
                CommandType::Directional => old(self).resolve_directional_spec(*level),
                CommandType::ChangeVisibility => old(self).resolve_visibility_spec(*level),
                CommandType::ChangeAltitude => old(self).resolve_altitude_spec(*level),
            },
            completed == (old(self).get_command_spec(command_type) is Some
                && final(self).get_command_spec(command_type) is None),
            final(self).wf(*level),
    {
        match command_type {
            CommandType::Directional => self.resolve_directional(level),
            CommandType::ChangeVisibility => self.resolve_visibility(level),
            CommandType::ChangeAltitude => self.resolve_altitude(level),
        }
    }

    /// Resolves all three pending-command slots in the fixed order:
    /// directional, then visibility, then altitude.
    pub fn parse_all_commands(&mut self, level: &Level)
        requires
            old(self).wf(*level),
            level.wf(),
            old(self).ticks_since_created <= TICK_LIMIT,
        ensures
            *final(self) == old(self).resolve_directional_spec(*level).resolve_visibility_spec(
                *level,
            ).resolve_altitude_spec(*level),
            final(self).wf(*level),
    {
        self.parse_command(CommandType::Directional, level);
        self.parse_command(CommandType::ChangeVisibility, level);
        self.parse_command(CommandType::ChangeAltitude, level);
    }

    /// One whole tick: at this aircraft's cadence, resolve commands, step
    /// altitude, and move (burning fuel) unless grounded; always advance
    /// the tick counter.
    #[verifier::rlimit(50)]
    pub fn fly(&mut self, level: &Level)
        requires
            old(self).wf(*level),
            level.wf(),
            old(self).ticks_since_created < TICK_LIMIT,
        ensures
            *final(self) == old(self).fly_spec(*level),
            final(self).wf(*level),
            final(self).ticks_since_created == old(self).ticks_since_created + 1,
            final(self).name == old(self).name,
            final(self).plane_type == old(self).plane_type,
            final(self).destination == old(self).destination,
    {
        if self.ticks_since_created % self.plane_type.get_move_interval() == 0 {
            self.parse_all_commands(level);
            self.update_altitude();
            if !self.is_at_airport() {
                self.update_position();
                self.remaining_fuel = self.remaining_fuel - 1;
            }
        }
        self.ticks_since_created = self.ticks_since_created + 1;
    }

    fn resolve_directional(&mut self, level: &Level) -> (completed: bool)
        requires
            old(self).wf(*level),
            level.wf(),
            old(self).ticks_since_created <= TICK_LIMIT,
        ensures
            *final(self) == old(self).resolve_directional_spec(*level),
            completed == (old(self).directional_command is Some
                && final(self).directional_command is None),
            final(self).wf(*level),
    {
        let c = match self.directional_command {
            Some(c) => c,
            None => {
                return false;
            },
        };
        let met = match c.temporality {
            CommandTemporality::Immediate => true,
            CommandTemporality::Delayed(b) => {
                let beacon_pos = level.beacons[b].position;
                beacon_pos.equals(&self.position)
            },
        };
        if !met {
            return false;
        }
        if self.is_at_airport() {
            self.directional_command = None;
            return true;
        }
        let kept = Command { temporality: CommandTemporality::Immediate, ..c };
        if matches!(self.visibility, PlaneVisibility::Unmarked) {
            self.visibility = PlaneVisibility::Marked;
        }
        match c.value {
            CommandValue::Directional(v) => match v {
                DirectionalCommandValue::AbsoluteTurn(d) => {
                    self.direction = Direction::limited_rotate(&self.direction, &d);
                    if self.direction == d {
                        self.directional_command = None;
                        true
                    } else {
                        self.directional_command = Some(kept);
                        false
                    }
                },
                DirectionalCommandValue::SoftTurn { to_right } => {
                    self.direction = turn_exec(
                        &self.direction,
                        if to_right {
                            SOFT_TURN_DEGREES
                        } else {
                            -SOFT_TURN_DEGREES
                        },
                    );
                    self.directional_command = None;
                    true
                },
                DirectionalCommandValue::HardTurn { to_right } => {
                    self.direction = turn_exec(
                        &self.direction,
                        if to_right {
                            HARD_TURN_DEGREES
                        } else {
                            -HARD_TURN_DEGREES
                        },
                    );
                    self.directional_command = None;
                    true
                },
                DirectionalCommandValue::TurnTowards(id) => {
                    let lp = level.location_position(id);
                    let delta = lp.sub(&self.position);
                    let t = Direction::from_point_delta(&delta);
                    self.direction = Direction::limited_rotate(&self.direction, &t);
                    if self.direction == t {
                        self.directional_command = None;
                        true
                    } else {
                        self.directional_command = Some(kept);
                        false
                    }
                },
                DirectionalCommandValue::Circle { to_right } => {
                    self.direction = turn_exec(
                        &self.direction,
                        if to_right {
                            CIRCLE_TURN_DEGREES
                        } else {
                            -CIRCLE_TURN_DEGREES
                        },
                    );
                    self.directional_command = Some(kept);
                    false
                },
            },
            _ => {
                self.directional_command = None;
                true
            },
        }
    }

    fn resolve_visibility(&mut self, level: &Level) -> (completed: bool)
        requires
            old(self).wf(*level),
            level.wf(),
        ensures
            *final(self) == old(self).resolve_visibility_spec(*level),
            completed == (old(self).visibility_command is Some
                && final(self).visibility_command is None),
            final(self).wf(*level),
    {
        let c = match self.visibility_command {
            Some(c) => c,
            None => {
                return false;
            },
        };
        let met = match c.temporality {
            CommandTemporality::Immediate => true,
            CommandTemporality::Delayed(b) => {
                let beacon_pos = level.beacons[b].position;
                beacon_pos.equals(&self.position)
            },
        };
        if !met {
            return false;
        }
        match c.value {
            CommandValue::ChangeVisibility(v) => {
                self.visibility = v.new_visibility;
                self.visibility_command = None;
                true
            },
            _ => {
                self.visibility_command = None;
                true
            },
        }
    }

    fn resolve_altitude(&mut self, level: &Level) -> (completed: bool)
        requires
            old(self).wf(*level),
            level.wf(),
            old(self).ticks_since_created <= TICK_LIMIT,
        ensures
            *final(self) == old(self).resolve_altitude_spec(*level),
            completed == (old(self).altitude_command is Some
                && final(self).altitude_command is None),
            final(self).wf(*level),
    {
        let c = match self.altitude_command {
            Some(c) => c,
            None => {
                return false;
            },
        };
        let met = match c.temporality {
            CommandTemporality::Immediate => true,
            CommandTemporality::Delayed(b) => {
                let beacon_pos = level.beacons[b].position;
                beacon_pos.equals(&self.position)
            },
        };
        if !met {
            return false;
        }
        match c.value {
            CommandValue::ChangeAltitude(a) => {
                self.state = PlaneState::Flying;
                match a {
                    ChangeAltitudeCommand::Absolute(n) => {
                        self.target_altitude = n;
                    },
                    ChangeAltitudeCommand::Climb(n) => {
                        self.target_altitude = self.altitude + n;
                    },
                    ChangeAltitudeCommand::Descend(n) => {
                        self.target_altitude = self.altitude - n;
                    },
                }
                self.altitude_command = None;
                true
            },
            _ => {
                self.altitude_command = None;
                true
            },
        }
    }
}

/// Turns `d` by `degrees`, a multiple of 45: such a turn always lands on a
/// canonical heading.
fn turn_exec(d: &Direction, degrees: i32) -> (r: Direction)
    requires
        degrees == 45 || degrees == -45 || degrees == 90 || degrees == -90,
    ensures
        r == turned_by(*d, degrees as int),
{
    proof {
        lemma_turn_total(*d, degrees as int);
    }
    match d.add_heading(degrees) {
        Some(nd) => nd,
        None => vstd::pervasive::unreached(),
    }
}

/// A circling aircraft turns by the circle step on every eligible
/// resolution, and the command is never removed by resolution itself: the
/// slot keeps the command (now immediate) indefinitely, and only a newly
/// stored directional command replaces it.
pub proof fn lemma_circle_persists(p: Plane, level: Level, c: Command, to_right: bool)
    requires
        p.directional_command == Some(c),
        c.value == CommandValue::Directional(DirectionalCommandValue::Circle { to_right }),
        temporality_met(c, p.position, level),
        !p.is_at_airport_spec(),
    ensures
        ({
            let q = p.resolve_directional_spec(level);
            &&& q.directional_command == Some(
                Command { temporality: CommandTemporality::Immediate, ..c },
            )
            &&& q.direction == turned_by(
                p.direction,
                if to_right {
                    CIRCLE_TURN_DEGREES as int
                } else {
                    -CIRCLE_TURN_DEGREES as int
                },
            )
            &&& q.direction != p.direction
        }),
{
    lemma_turn_total(
        p.direction,
        if to_right {
            CIRCLE_TURN_DEGREES as int
        } else {
            -CIRCLE_TURN_DEGREES as int
        },
    );
}

/// A pending absolute turn converges within two eligible resolutions:
/// each step turns at most 90 degrees and no two canonical headings are
/// more than 180 degrees apart, so after at most two applications the
/// aircraft flies the target heading and the slot is empty.
pub proof fn lemma_absolute_turn_converges(p: Plane, level: Level, c: Command, target: Direction)
    requires
        p.directional_command == Some(c),
        c.value == CommandValue::Directional(DirectionalCommandValue::AbsoluteTurn(target)),
        temporality_met(c, p.position, level),
        !p.is_at_airport_spec(),
    ensures
        ({
            let q = p.resolve_directional_spec(level).resolve_directional_spec(level);
            q.direction == target && q.directional_command is None
        }),
{
    Direction::lemma_limited_rotate_reaches(p.direction, target);
}

/// A delayed command on an aircraft that is not at its trigger beacon is
/// completely inert: resolving the slot changes nothing — not the
/// heading, altitude or visibility, and not the slot itself.
pub proof fn lemma_delayed_command_inert(p: Plane, level: Level, c: Command, b: usize)
    requires
        c.temporality == CommandTemporality::Delayed(b),
        b < level.beacons@.len(),
        level.beacons@[b as int].position != p.position,
    ensures
        p.directional_command == Some(c) ==> p.resolve_directional_spec(level) == p,
        p.visibility_command == Some(c) ==> p.resolve_visibility_spec(level) == p,
        p.altitude_command == Some(c) ==> p.resolve_altitude_spec(level) == p,
{
}

/// Once the aircraft stands on the trigger beacon, resolving a delayed
/// command has exactly the effect of resolving the same command issued
/// immediately.
pub proof fn lemma_delayed_command_applies(p: Plane, level: Level, c: Command, b: usize)
    requires
        c.temporality == CommandTemporality::Delayed(b),
        b < level.beacons@.len(),
        level.beacons@[b as int].position == p.position,
    ensures
        p.directional_command == Some(c) ==> p.resolve_directional_spec(level) == (Plane {
            directional_command: Some(Command { temporality: CommandTemporality::Immediate, ..c }),
            ..p
        }).resolve_directional_spec(level),
        p.visibility_command == Some(c) ==> p.resolve_visibility_spec(level) == (Plane {
            visibility_command: Some(Command { temporality: CommandTemporality::Immediate, ..c }),
            ..p
        }).resolve_visibility_spec(level),
        p.altitude_command == Some(c) ==> p.resolve_altitude_spec(level) == (Plane {
            altitude_command: Some(Command { temporality: CommandTemporality::Immediate, ..c }),
            ..p
        }).resolve_altitude_spec(level),
{
}

/// Adding a quarter- or eighth-turn to a canonical heading gives a
/// canonical heading.
proof fn lemma_turn_total(d: Direction, degrees: int)
    requires
        degrees == 45 || degrees == -45 || degrees == 90 || degrees == -90,
    ensures
        d.add_heading_spec(degrees) is Some,
{
}

} // verus!
