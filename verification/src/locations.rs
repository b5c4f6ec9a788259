//! The fixed entities of a scenario that aircraft navigate to or through:
//! airports, beacons and exits, plus the purely decorative airways.

use vstd::prelude::*;
use crate::direction::Direction;
use crate::point::Point;
use crate::text::decimal_int;
use crate::text::i32_to_string;
use crate::text::push_char;

verus! {

/// Altitude (in thousands of feet over ten) at which an aircraft may leave
/// the map through an exit.
pub const EXIT_ALTITUDE: i32 = 9;

/// Altitude at which an aircraft may land at an airport.
pub const LANDING_ALTITUDE: i32 = 0;

/// A fixed entity on the map that an aircraft can navigate to or through.
/// Every such entity has a position, a rule for which headings may reach it,
/// a rule for the altitude at which an aircraft may leave the simulation
/// there, and a short display tag.
pub trait Location: Sized {
    /// The fixed map position.
    spec fn position_spec(&self) -> Point;

    /// Whether an aircraft heading `d` is accepted here.
    spec fn accessible_spec(&self, d: Direction) -> bool;

    /// Whether an aircraft at altitude `alt` may leave the simulation here.
    spec fn exit_altitude_spec(&self, alt: int) -> bool;

    /// The characters of the display tag.
    spec fn tag_spec(&self) -> Seq<char>;

    fn get_position(&self) -> (r: Point)
        ensures
            r == self.position_spec(),
    ;

    fn accessible_from_direction(&self, direction: &Direction) -> (r: bool)
        ensures
            r == self.accessible_spec(*direction),
    ;

    fn can_exit_at_alt(&self, alt: i32) -> (r: bool)
        ensures
            r == self.exit_altitude_spec(alt as int),
    ;

    fn to_destination_string(&self) -> (r: String)
        ensures
            r@ == self.tag_spec(),
    ;
}

/// An airport: aircraft may land there or take off from there, in both cases
/// heading exactly along its flight direction, and only at ground altitude.
pub struct Airport {
    pub position: Point,
    pub flight_direction: Direction,
    pub number: i32,
}

impl Location for Airport {
    open spec fn position_spec(&self) -> Point {
        self.position
    }

    open spec fn accessible_spec(&self, d: Direction) -> bool {
        d == self.flight_direction
    }

    open spec fn exit_altitude_spec(&self, alt: int) -> bool {
        alt == LANDING_ALTITUDE as int
    }

    open spec fn tag_spec(&self) -> Seq<char> {
        seq!['A'] + decimal_int(self.number as int)
    }

    fn get_position(&self) -> (r: Point) {
        self.position
    }

    fn accessible_from_direction(&self, direction: &Direction) -> (r: bool) {
        *direction == self.flight_direction
    }

    fn can_exit_at_alt(&self, alt: i32) -> (r: bool) {
        alt == LANDING_ALTITUDE
    }

    fn to_destination_string(&self) -> (r: String) {
        let mut s = String::new();
        push_char(&mut s, 'A');
        let digits = i32_to_string(self.number);
        s.append(digits.as_str());
        proof {
            assert(s@ =~= self.tag_spec());
        }
        s
    }
}

/// A beacon: an omnidirectional waypoint. It can trigger delayed commands
/// and serve as a turn target, but is never a final destination, so no
/// altitude permits leaving the simulation there.
pub struct Beacon {
    pub position: Point,
    pub number: i32,
}

impl Location for Beacon {
    open spec fn position_spec(&self) -> Point {
        self.position
    }

    open spec fn accessible_spec(&self, d: Direction) -> bool {
        true
    }

    open spec fn exit_altitude_spec(&self, alt: int) -> bool {
        false
    }

    open spec fn tag_spec(&self) -> Seq<char> {
        seq!['B'] + decimal_int(self.number as int)
    }

    fn get_position(&self) -> (r: Point) {
        self.position
    }

    fn accessible_from_direction(&self, direction: &Direction) -> (r: bool) {
        true
    }

    fn can_exit_at_alt(&self, alt: i32) -> (r: bool) {
        false
    }

    fn to_destination_string(&self) -> (r: String) {
        let mut s = String::new();
        push_char(&mut s, 'B');
        let digits = i32_to_string(self.number);
        s.append(digits.as_str());
        proof {
            assert(s@ =~= self.tag_spec());
        }
        s
    }
}

/// An exit: a door at the map border. Aircraft enter the map through it
/// heading `entry_direction` and may leave through it flying either that
/// heading or its opposite, at ceiling altitude only.
pub struct Exit {
    pub position: Point,
    pub number: i32,
    pub entry_direction: Direction,
}

impl Location for Exit {
    open spec fn position_spec(&self) -> Point {
        self.position
    }

    open spec fn accessible_spec(&self, d: Direction) -> bool {
        d == self.entry_direction || d == self.entry_direction.opposite_spec()
    }

    open spec fn exit_altitude_spec(&self, alt: int) -> bool {
        alt == EXIT_ALTITUDE as int
    }

    open spec fn tag_spec(&self) -> Seq<char> {
        seq!['E'] + decimal_int(self.number as int)
    }

    fn get_position(&self) -> (r: Point) {
        self.position
    }

    fn accessible_from_direction(&self, direction: &Direction) -> (r: bool) {
        *direction == self.entry_direction || *direction == self.entry_direction.opposite()
    }

    fn can_exit_at_alt(&self, alt: i32) -> (r: bool) {
        alt == EXIT_ALTITUDE
    }

    fn to_destination_string(&self) -> (r: String) {
        let mut s = String::new();
        push_char(&mut s, 'E');
        let digits = i32_to_string(self.number);
        s.append(digits.as_str());
        proof {
            assert(s@ =~= self.tag_spec());
        }
        s
    }
}

/// A decorative advisory path drawn on the map; never consulted by the
/// simulation logic.
pub struct Airway {
    pub start: Point,
    pub length: i32,
    pub direction: Direction,
}

/// A reference to one location of a scenario, by kind and index into the
/// scenario's entity list of that kind. Commands and destinations refer to
/// locations this way, so they stay valid for the whole immutable scenario.
#[derive(Debug, Clone, Copy, PartialEq, Eq, Structural)]
pub enum LocationId {
    Airport(usize),
    Beacon(usize),
    Exit(usize),
}

} // verus!
