//! Pure formatting of simulation state for the status panels: these
//! functions compute text and coordinates only, and never touch the
//! simulation.

use vstd::prelude::*;
use crate::command::Command;
use crate::command::CommandTemporality;
use crate::command::CommandValue;
use crate::command::DirectionalCommandValue;
use crate::level::Level;
use crate::locations::Location;
use crate::plane::Plane;
use crate::plane::PlaneType;
use crate::plane::PlaneVisibility;
use crate::point::Point;
use crate::text::decimal_int;
use crate::text::i32_to_string;
use crate::text::push_char;

verus! {

/// An ASCII letter folded to upper case; other characters unchanged.
pub open spec fn ascii_upper_spec(c: char) -> char {
    if 97 <= c as int <= 122 {
        ((c as u8) - 32) as char
    } else {
        c
    }
}

/// An ASCII letter folded to lower case; other characters unchanged.
pub open spec fn ascii_lower_spec(c: char) -> char {
    if 65 <= c as int <= 90 {
        ((c as u8) + 32) as char
    } else {
        c
    }
}

pub fn ascii_upper(c: char) -> (r: char)
    ensures
        r == ascii_upper_spec(c),
{
    let v = c as u32;
    if 97 <= v && v <= 122 {
        ((c as u8) - 32) as char
    } else {
        c
    }
}

pub fn ascii_lower(c: char) -> (r: char)
    ensures
        r == ascii_lower_spec(c),
{
    let v = c as u32;
    if 65 <= v && v <= 90 {
        ((c as u8) + 32) as char
    } else {
        c
    }
}

/// The roster label of an aircraft: its name — upper case for propeller
/// aircraft, lower case for jets — followed by its altitude.
pub open spec fn plane_label_spec(p: Plane) -> Seq<char> {
    let cased = match p.plane_type {
        PlaneType::Propeller => ascii_upper_spec(p.name),
        PlaneType::Jet => ascii_lower_spec(p.name),
    };
    seq![cased] + decimal_int(p.altitude as int)
}

/// Formats the roster label of an aircraft.
pub fn format_plane_label(plane: &Plane) -> (r: String)
    ensures
        r@ == plane_label_spec(*plane),
{
    let cased = match plane.plane_type {
        PlaneType::Propeller => ascii_upper(plane.name),
        PlaneType::Jet => ascii_lower(plane.name),
    };
    let mut s = String::new();
    push_char(&mut s, cased);
    let digits = i32_to_string(plane.altitude);
    s.append(digits.as_str());
    proof {
        assert(s@ =~= plane_label_spec(*plane));
    }
    s
}

/// The status-panel summary of an aircraft's pending directional command:
/// dashes for an aircraft that is not marked; otherwise the command's
/// value (target heading in degrees, `Soft`/`Hard`/`Circ` with a side, or
/// a location tag) and, for delayed commands, the trigger beacon's tag.
pub open spec fn directional_display_spec(p: Plane, level: Level) -> Seq<char> {
    if p.visibility != PlaneVisibility::Marked {
        "----------"@
    } else {
        match p.directional_command {
            None => Seq::empty(),
            Some(c) => {
                let value_part = match c.value {
                    CommandValue::Directional(v) => match v {
                        DirectionalCommandValue::AbsoluteTurn(d) => decimal_int(d.heading_deg()),
                        DirectionalCommandValue::SoftTurn { to_right } => "Soft "@ + seq![
                            side_letter(to_right),
                        ],
                        DirectionalCommandValue::HardTurn { to_right } => "Hard "@ + seq![
                            side_letter(to_right),
                        ],
                        DirectionalCommandValue::TurnTowards(id) => level.location_tag_spec(id),
                        DirectionalCommandValue::Circle { to_right } => "Circ "@ + seq![
                            side_letter(to_right),
                        ],
                    },
                    _ => Seq::empty(),
                };
                let temporality_part = match c.temporality {
                    CommandTemporality::Immediate => Seq::<char>::empty(),
                    CommandTemporality::Delayed(b) => " @ "@ + level.beacons@[
                        b as int
                    ].tag_spec(),
                };
                value_part + temporality_part
            },
        }
    }
}

/// `R` for a right-hand turn, `L` for a left-hand one.
pub open spec fn side_letter(to_right: bool) -> char {
    if to_right {
        'R'
    } else {
        'L'
    }
}

/// Formats the pending-directional-command summary of an aircraft.
pub fn format_plane_directional_command(plane: &Plane, level: &Level) -> (r: String)
    requires
        plane.commands_wf(*level),
    ensures
        r@ == directional_display_spec(*plane, *level),
{
    if !matches!(plane.visibility, PlaneVisibility::Marked) {
        return String::from_str("----------");
    }
    let c = match plane.directional_command {
        None => {
            return String::new();
        },
        Some(c) => c,
    };
    let mut s = match c.value {
        CommandValue::Directional(v) => match v {
            DirectionalCommandValue::AbsoluteTurn(d) => i32_to_string(d.to_heading()),
            DirectionalCommandValue::SoftTurn { to_right } => {
                let mut s = String::from_str("Soft ");
                push_char(&mut s, if to_right { 'R' } else { 'L' });
                s
            },
            DirectionalCommandValue::HardTurn { to_right } => {
                let mut s = String::from_str("Hard ");
                push_char(&mut s, if to_right { 'R' } else { 'L' });
                s
            },
            DirectionalCommandValue::TurnTowards(id) => level.location_tag(id),
            DirectionalCommandValue::Circle { to_right } => {
                let mut s = String::from_str("Circ ");
                push_char(&mut s, if to_right { 'R' } else { 'L' });
                s
            },
        },
        _ => String::new(),
    };
    match c.temporality {
        CommandTemporality::Immediate => {},
        CommandTemporality::Delayed(b) => {
            s.append(" @ ");
            let tag = beacon_tag(level, b);
            s.append(tag.as_str());
        },
    }
    proof {
        assert(s@ =~= directional_display_spec(*plane, *level));
    }
    s
}

/// The display tag of the beacon with the given index.
fn beacon_tag(level: &Level, b: usize) -> (r: String)
    requires
        b < level.beacons@.len(),
    ensures
        r@ == level.beacons@[b as int].tag_spec(),
{
    level.beacons[b].to_destination_string()
}

/// Where on the radar window a map point is drawn: columns are doubled so
/// the grid looks square in a terminal.
pub fn world_point_to_screen_position(point: &Point) -> (r: (i32, i32))
    requires
        -0x20000000 <= point.x <= 0x20000000,
    ensures
        r.0 == 2 * point.x,
        r.1 == point.y,
{
    (point.x * 2, point.y)
}

} // verus!
