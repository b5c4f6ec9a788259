//! Compass-direction arithmetic: the eight discrete headings, conversion
//! between directions and headings in degrees, signed angles between
//! headings, and rate-limited rotation.

use vstd::prelude::*;
use crate::point::Point;

verus! {

/// Greatest heading change, in degrees, that a single rotation step may apply.
pub const MAX_ROTATION_DEGREES: i32 = 90;

/// One of the eight compass headings. Each maps bijectively to a heading in
/// degrees (multiples of 45, measured clockwise from north) and to a unit
/// offset on the map grid.
#[derive(Debug, Clone, Copy, PartialEq, Eq, Structural)]
pub enum Direction {
    North,
    NorthEast,
    East,
    SouthEast,
    South,
    SouthWest,
    West,
    NorthWest,
}

impl Direction {
    /// The heading of this direction in degrees: 0 is north, 90 east,
    /// 180 south, 270 west.
    pub open spec fn heading_deg(self) -> int {
        match self {
            Direction::North => 0,
            Direction::NorthEast => 45,
            Direction::East => 90,
            Direction::SouthEast => 135,
            Direction::South => 180,
            Direction::SouthWest => 225,
            Direction::West => 270,
            Direction::NorthWest => 315,
        }
    }

    /// The direction whose heading is `h` degrees, after normalizing `h`
    /// into [0, 360); `None` when the normalized heading is not a multiple
    /// of 45.
    pub open spec fn from_heading_spec(h: int) -> Option<Direction> {
        let m = h % 360;
        if m == 0 {
            Some(Direction::North)
        } else if m == 45 {
            Some(Direction::NorthEast)
        } else if m == 90 {
            Some(Direction::East)
        } else if m == 135 {
            Some(Direction::SouthEast)
        } else if m == 180 {
            Some(Direction::South)
        } else if m == 225 {
            Some(Direction::SouthWest)
        } else if m == 270 {
            Some(Direction::West)
        } else if m == 315 {
            Some(Direction::NorthWest)
        } else {
            None
        }
    }

    /// The direction 180 degrees away.
    pub open spec fn opposite_spec(self) -> Direction {
        match self {
            Direction::North => Direction::South,
            Direction::NorthEast => Direction::SouthWest,
            Direction::East => Direction::West,
            Direction::SouthEast => Direction::NorthWest,
            Direction::South => Direction::North,
            Direction::SouthWest => Direction::NorthEast,
            Direction::West => Direction::East,
            Direction::NorthWest => Direction::SouthEast,
        }
    }

    /// The unit grid offset of one move along this direction; north is
    /// negative `y`.
    pub open spec fn offset_spec(self) -> Point {
        match self {
            Direction::North => Point { x: 0i32, y: -1i32 },
            Direction::NorthEast => Point { x: 1i32, y: -1i32 },
            Direction::East => Point { x: 1i32, y: 0i32 },
            Direction::SouthEast => Point { x: 1i32, y: 1i32 },
            Direction::South => Point { x: 0i32, y: 1i32 },
            Direction::SouthWest => Point { x: -1i32, y: 1i32 },
            Direction::West => Point { x: -1i32, y: 0i32 },
            Direction::NorthWest => Point { x: -1i32, y: -1i32 },
        }
    }

    /// The signed angle from this direction to the heading `other` (in
    /// degrees), choosing the shorter rotation: the result lies in
    /// (-180, 180], positive when `other` is clockwise from here.
    pub open spec fn angle_to_heading_spec(self, other: int) -> int {
        let d = (other - self.heading_deg()) % 360;
        if d > 180 {
            d - 360
        } else {
            d
        }
    }

    /// The signed angle from this direction to another, in (-180, 180].
    pub open spec fn angle_to_spec(self, other: Direction) -> int {
        self.angle_to_heading_spec(other.heading_deg())
    }

    /// Sign of the angle to the heading `other`: 1 when `other` is to the
    /// right (clockwise), -1 to the left, 0 on an exact match.
    pub open spec fn compare_to_heading_spec(self, other: int) -> int {
        let d = self.angle_to_heading_spec(other);
        if d > 0 {
            1
        } else if d < 0 {
            -1
        } else {
            0
        }
    }

    /// Adding `delta` degrees to this heading, when the result is canonical.
    pub open spec fn add_heading_spec(self, delta: int) -> Option<Direction> {
        Direction::from_heading_spec(self.heading_deg() + delta)
    }

    /// One step of rate-limited rotation: the signed angle toward `target`
    /// is clamped to at most `MAX_ROTATION_DEGREES` in magnitude and applied
    /// to `current`.
    pub open spec fn limited_rotate_spec(current: Direction, target: Direction) -> Direction {
        let a = current.angle_to_spec(target);
        let clamped = if a > MAX_ROTATION_DEGREES as int {
            MAX_ROTATION_DEGREES as int
        } else if a < -(MAX_ROTATION_DEGREES as int) {
            -(MAX_ROTATION_DEGREES as int)
        } else {
            a
        };
        match current.add_heading_spec(clamped) {
            Some(d) => d,
            None => current,
        }
    }

    /// The direction assigned to the keyboard key `c` (the keys surround `s`
    /// on a QWERTY layout), if any.
    pub open spec fn keyboard_char_spec(c: char) -> Option<Direction> {
        match c {
            'q' => Some(Direction::NorthWest),
            'w' => Some(Direction::North),
            'e' => Some(Direction::NorthEast),
            'a' => Some(Direction::West),
            'd' => Some(Direction::East),
            'z' => Some(Direction::SouthWest),
            'x' => Some(Direction::South),
            'c' => Some(Direction::SouthEast),
            _ => None,
        }
    }

    pub fn opposite(&self) -> (r: Direction)
        ensures
            r == self.opposite_spec(),
    {
        match self {
            Direction::North => Direction::South,
            Direction::NorthEast => Direction::SouthWest,
            Direction::East => Direction::West,
            Direction::SouthEast => Direction::NorthWest,
            Direction::South => Direction::North,
            Direction::SouthWest => Direction::NorthEast,
            Direction::West => Direction::East,
            Direction::NorthWest => Direction::SouthEast,
        }
    }

    pub fn from_keyboard_char(c: char) -> (r: Option<Direction>)
        ensures
            r == Direction::keyboard_char_spec(c),
    {
        match c {
            'q' => Some(Direction::NorthWest),
            'w' => Some(Direction::North),
            'e' => Some(Direction::NorthEast),
            'a' => Some(Direction::West),
            'd' => Some(Direction::East),
            'z' => Some(Direction::SouthWest),
            'x' => Some(Direction::South),
            'c' => Some(Direction::SouthEast),
            _ => None,
        }
    }

    /// The glyph used to draw an aircraft flying this direction.
    pub fn to_char(&self) -> (r: char)
        ensures
            r == self.glyph_spec(),
    {
        match self {
            Direction::North => '^',
            Direction::NorthEast => '/',
            Direction::East => '>',
            Direction::SouthEast => '\\',
            Direction::South => 'v',
            Direction::SouthWest => '/',
            Direction::West => '<',
            Direction::NorthWest => '\\',
        }
    }

    /// The glyph for each direction.
    pub open spec fn glyph_spec(self) -> char {
        match self {
            Direction::North => '^',
            Direction::NorthEast => '/',
            Direction::East => '>',
            Direction::SouthEast => '\\',
            Direction::South => 'v',
            Direction::SouthWest => '/',
            Direction::West => '<',
            Direction::NorthWest => '\\',
        }
    }

    pub fn to_point_offset(&self) -> (r: Point)
        ensures
            r == self.offset_spec(),
            -1 <= r.x <= 1,
            -1 <= r.y <= 1,
    {
        match self {
            Direction::North => Point::new(0, -1),
            Direction::NorthEast => Point::new(1, -1),
            Direction::East => Point::new(1, 0),
            Direction::SouthEast => Point::new(1, 1),
            Direction::South => Point::new(0, 1),
            Direction::SouthWest => Point::new(-1, 1),
            Direction::West => Point::new(-1, 0),
            Direction::NorthWest => Point::new(-1, -1),
        }
    }

    pub fn to_heading(&self) -> (h: i32)
        ensures
            h == self.heading_deg(),
            0 <= h < 360,
            h % 45 == 0,
    {
        match self {
            Direction::North => 0,
            Direction::NorthEast => 45,
            Direction::East => 90,
            Direction::SouthEast => 135,
            Direction::South => 180,
            Direction::SouthWest => 225,
            Direction::West => 270,
            Direction::NorthWest => 315,
        }
    }

    /// Converts a heading in degrees into a direction; `None` when the
    /// heading, normalized into [0, 360), is not a multiple of 45.
    pub fn from_heading(heading: i32) -> (r: Option<Direction>)
        ensures
            r == Direction::from_heading_spec(heading as int),
    {
        let m: i32 = ((heading % 360) + 360) % 360;
        proof {
            lemma_rust_mod_360(heading as int);
        }
        match m {
            0 => Some(Direction::North),
            45 => Some(Direction::NorthEast),
            90 => Some(Direction::East),
            135 => Some(Direction::SouthEast),
            180 => Some(Direction::South),
            225 => Some(Direction::SouthWest),
            270 => Some(Direction::West),
            315 => Some(Direction::NorthWest),
            _ => None,
        }
    }

    pub fn angle_to(&self, other: &Direction) -> (r: i32)
        ensures
            r == self.angle_to_spec(*other),
            -180 < r <= 180,
    {
        self.angle_to_heading(other.to_heading())
    }

    /// Signed angle to the heading `other`, given in degrees in [0, 360).
    pub fn angle_to_heading(&self, other: i32) -> (r: i32)
        requires
            0 <= other < 360,
        ensures
            r == self.angle_to_heading_spec(other as int),
            -180 < r <= 180,
    {
        let mut difference = other - self.to_heading();
        if difference <= -180 {
            difference += 360;
        } else if difference > 180 {
            difference -= 360;
        }
        proof {
            lemma_small_mod_360((other - self.heading_deg()) as int);
        }
        difference
    }

    /// Sign of the angle to `other`: 1 when `other` is to the right of this
    /// direction, -1 when to the left, 0 when equal.
    pub fn compare_to(&self, other: &Direction) -> (r: i32)
        ensures
            r == self.compare_to_heading_spec(other.heading_deg()),
    {
        self.compare_to_heading(other.to_heading())
    }

    /// As `compare_to`, for a heading in degrees in [0, 360).
    pub fn compare_to_heading(&self, other: i32) -> (r: i32)
        requires
            0 <= other < 360,
        ensures
            r == self.compare_to_heading_spec(other as int),
    {
        let difference = self.angle_to_heading(other);
        if difference > 0 {
            1
        } else if difference < 0 {
            -1
        } else {
            0
        }
    }

    /// Turns this heading by `heading` degrees; `None` when the result is
    /// not one of the eight canonical headings.
    pub fn add_heading(&self, heading: i32) -> (r: Option<Direction>)
        requires
            heading <= i32::MAX - 315,
        ensures
            r == self.add_heading_spec(heading as int),
    {
        Direction::from_heading(self.to_heading() + heading)
    }

    /// One tick's worth of turning: rotates `current` toward `target` by at
    /// most `MAX_ROTATION_DEGREES`; reaches `target` exactly whenever the
    /// angle between the two is within that limit.
    pub fn limited_rotate(current: &Direction, target: &Direction) -> (r: Direction)
        ensures
            r == Direction::limited_rotate_spec(*current, *target),
    {
        let angle = current.angle_to(target);
        let clamped = if angle > MAX_ROTATION_DEGREES {
            MAX_ROTATION_DEGREES
        } else if angle < -MAX_ROTATION_DEGREES {
            -MAX_ROTATION_DEGREES
        } else {
            angle
        };
        proof {
            Direction::lemma_limited_rotate_total(*current, *target);
        }
        match current.add_heading(clamped) {
            Some(d) => d,
            None => vstd::pervasive::unreached(),
        }
    }

    /// The clamped rotation step always lands on a canonical heading, so
    /// `limited_rotate` never fails.
    pub proof fn lemma_limited_rotate_total(current: Direction, target: Direction)
        ensures
            ({
                let a = current.angle_to_spec(target);
                let clamped = if a > 90 { 90int } else if a < -90 { -90int } else { a };
                current.add_heading_spec(clamped) is Some
            }),
    {
    }

    /// The compass direction nearest to the bearing of the grid vector
    /// `(dx, dy)`, with `y` growing southward. The bearing lies within
    /// 22.5 degrees of the east-west axis exactly when
    /// `(|dx| + |dy|)^2 < 2 dx^2`, and of the north-south axis exactly when
    /// `(|dx| + |dy|)^2 < 2 dy^2` (both say the minor component is smaller
    /// than `tan(22.5) = sqrt(2) - 1` times the major one); otherwise it is
    /// diagonal. Exact ties cannot occur on integer vectors. The zero
    /// vector is treated as bearing 90 degrees, east.
    pub open spec fn nearest_direction_spec(dx: int, dy: int) -> Direction {
        let ax = if dx >= 0 {
            dx
        } else {
            -dx
        };
        let ay = if dy >= 0 {
            dy
        } else {
            -dy
        };
        if ax == 0 && ay == 0 {
            Direction::East
        } else if (ax + ay) * (ax + ay) < 2 * (ax * ax) {
            if dx > 0 {
                Direction::East
            } else {
                Direction::West
            }
        } else if (ax + ay) * (ax + ay) < 2 * (ay * ay) {
            if dy > 0 {
                Direction::South
            } else {
                Direction::North
            }
        } else {
            if dx > 0 {
                if dy > 0 {
                    Direction::SouthEast
                } else {
                    Direction::NorthEast
                }
            } else {
                if dy > 0 {
                    Direction::SouthWest
                } else {
                    Direction::NorthWest
                }
            }
        }
    }

    /// The compass direction nearest to the bearing from the origin to
    /// `delta`, used to aim an aircraft at a location.
    pub fn from_point_delta(delta: &Point) -> (r: Direction)
        ensures
            r == Direction::nearest_direction_spec(delta.x as int, delta.y as int),
    {
        let dx: i128 = delta.x as i128;
        let dy: i128 = delta.y as i128;
        let ax: i128 = if dx >= 0 {
            dx
        } else {
            -dx
        };
        let ay: i128 = if dy >= 0 {
            dy
        } else {
            -dy
        };
        let s: i128 = ax + ay;
        proof {
            assert(ax * ax <= 0x10000000000000000 && ay * ay <= 0x10000000000000000 && s * s
                <= 0x10000000000000000) by (nonlinear_arith)
                requires
                    0 <= ax <= 0x80000000,
                    0 <= ay <= 0x80000000,
                    s == ax + ay,
            ;
        }
        if ax == 0 && ay == 0 {
            Direction::East
        } else if s * s < 2 * (ax * ax) {
            if dx > 0 {
                Direction::East
            } else {
                Direction::West
            }
        } else if s * s < 2 * (ay * ay) {
            if dy > 0 {
                Direction::South
            } else {
                Direction::North
            }
        } else {
            if dx > 0 {
                if dy > 0 {
                    Direction::SouthEast
                } else {
                    Direction::NorthEast
                }
            } else {
                if dy > 0 {
                    Direction::SouthWest
                } else {
                    Direction::NorthWest
                }
            }
        }
    }

    /// A full turn is the identity: adding 360 degrees to any direction
    /// yields that direction again.
    pub proof fn lemma_add_full_turn(d: Direction)
        ensures
            d.add_heading_spec(360) == Some(d),
    {
    }

    /// Taking the opposite twice yields the original direction.
    pub proof fn lemma_opposite_involution(d: Direction)
        ensures
            d.opposite_spec().opposite_spec() == d,
    {
    }

    /// The signed angle is antisymmetric whenever the two directions are not
    /// exactly opposed (where both angles are 180), and always lies in
    /// (-180, 180].
    pub proof fn lemma_angle_to_antisymmetric(a: Direction, b: Direction)
        ensures
            -180 < a.angle_to_spec(b) <= 180,
            a.angle_to_spec(b) != 180 ==> a.angle_to_spec(b) == -b.angle_to_spec(a),
    {
    }

    /// Rate-limited rotation reaches any target within two steps: the angle
    /// between two canonical headings is at most 180 degrees and each step
    /// covers up to 90.
    #[verifier::rlimit(100)]
    pub proof fn lemma_limited_rotate_reaches(current: Direction, target: Direction)
        ensures
            Direction::limited_rotate_spec(
                Direction::limited_rotate_spec(current, target),
                target,
            ) == target,
    {
    }
}

/// Rust's truncating remainder, corrected into [0, 360), equals the
/// mathematical remainder modulo 360.
proof fn lemma_rust_mod_360(h: int)
    ensures
        0 <= h % 360 < 360,
{
    vstd::arithmetic::div_mod::lemma_mod_bound(h, 360);
}

/// For differences already in (-360, 360), one wraparound correction gives
/// the mathematical remainder modulo 360.
proof fn lemma_small_mod_360(d: int)
    requires
        -360 < d < 360,
    ensures
        d >= 0 ==> d % 360 == d,
        d < 0 ==> d % 360 == d + 360,
{
    if d >= 0 {
        vstd::arithmetic::div_mod::lemma_small_mod(d as nat, 360);
    } else {
        vstd::arithmetic::div_mod::lemma_small_mod((d + 360) as nat, 360);
        vstd::arithmetic::div_mod::lemma_mod_sub_multiples_vanish(d + 360, 360);
    }
}

} // verus!
