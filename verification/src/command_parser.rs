//! The command parser: translates a short text token such as `"atd"` or
//! `"ba5"` into a command for a named aircraft, resolving beacon, airport
//! and exit references against the scenario.
//!
//! Conventions: parsing never mutates anything, and every failure is a
//! short human-readable message.

use vstd::prelude::*;
use crate::command::ChangeAltitudeCommand;
use crate::command::Command;
use crate::command::CommandTemporality;
use crate::command::CommandValue;
use crate::command::DirectionalCommandValue;
use crate::direction::Direction;
use crate::game::Game;
use crate::level::Level;
use crate::locations::LocationId;
use crate::plane::PlaneVisibility;
use crate::text::decimal_int;

verus! {

/// The numeric value of a decimal digit character.
pub open spec fn char_to_int_spec(c: char) -> Option<i32> {
    if 48 <= c as int <= 57 {
        Some((c as int - 48) as i32)
    } else {
        None
    }
}

/// The temporality suffix: absent means immediate; otherwise two
/// characters, a separator (never inspected) and a digit naming a beacon.
/// A missing digit, a non-digit, or an unknown beacon id is a failure.
pub open spec fn temporality_spec(t: Seq<char>, level: Level) -> Result<
    CommandTemporality,
    Seq<char>,
> {
    if t.len() == 0 {
        Ok(CommandTemporality::Immediate)
    } else if t.len() < 2 {
        Err("Unexpected end of command"@)
    } else {
        let c = t[1];
        match char_to_int_spec(c) {
            None => Err("Beacon "@ + seq![c] + " does not exist"@),
            Some(n) => match Level::find_beacon_from(level.beacons@, n as int, 0) {
                Some(i) => Ok(CommandTemporality::Delayed(i as usize)),
                None => Err("Beacon "@ + seq![c] + " does not exist"@),
            },
        }
    }
}

/// A location reference: a kind letter (`a`, `b` or `e`) and a digit,
/// resolved against the scenario's entity lists.
pub open spec fn location_spec(u: Seq<char>, level: Level) -> Result<LocationId, Seq<char>> {
    if u.len() < 2 {
        Err("Unexpected end of command"@)
    } else {
        match char_to_int_spec(u[1]) {
            None => Err("Invalid location num "@ + seq![u[1]]),
            Some(n) => {
                if u[0] == 'a' {
                    match Level::find_airport_from(level.airports@, n as int, 0) {
                        Some(i) => Ok(LocationId::Airport(i as usize)),
                        None => Err("Airport "@ + decimal_int(n as int) + " does not exist"@),
                    }
                } else if u[0] == 'b' {
                    match Level::find_beacon_from(level.beacons@, n as int, 0) {
                        Some(i) => Ok(LocationId::Beacon(i as usize)),
                        None => Err("Beacon "@ + decimal_int(n as int) + " does not exist"@),
                    }
                } else if u[0] == 'e' {
                    match Level::find_exit_from(level.exits@, n as int, 0) {
                        Some(i) => Ok(LocationId::Exit(i as usize)),
                        None => Err("Exit "@ + decimal_int(n as int) + " does not exist"@),
                    }
                } else {
                    Err("Unexpected location type "@ + seq![u[0]])
                }
            },
        }
    }
}

/// A directional command body: an absolute-direction key, a soft or hard
/// turn, a turn toward a location, each followed by the temporality
/// suffix.
pub open spec fn turn_spec(rest: Seq<char>, level: Level) -> Result<Command, Seq<char>> {
    if rest.len() == 0 {
        Err("Unexpected end of command"@)
    } else {
        let c = rest[0];
        match Direction::keyboard_char_spec(c) {
            Some(dir) => turn_with_temporality(
                DirectionalCommandValue::AbsoluteTurn(dir),
                rest.subrange(1, rest.len() as int),
                level,
            ),
            None => {
                if c == 'l' || c == '-' {
                    turn_with_temporality(
                        DirectionalCommandValue::SoftTurn { to_right: false },
                        rest.subrange(1, rest.len() as int),
                        level,
                    )
                } else if c == 'r' || c == '+' {
                    turn_with_temporality(
                        DirectionalCommandValue::SoftTurn { to_right: true },
                        rest.subrange(1, rest.len() as int),
                        level,
                    )
                } else if c == 'L' {
                    turn_with_temporality(
                        DirectionalCommandValue::HardTurn { to_right: false },
                        rest.subrange(1, rest.len() as int),
                        level,
                    )
                } else if c == 'R' {
                    turn_with_temporality(
                        DirectionalCommandValue::HardTurn { to_right: true },
                        rest.subrange(1, rest.len() as int),
                        level,
                    )
                } else if c == 't' {
                    match location_spec(rest.subrange(1, rest.len() as int), level) {
                        Ok(id) => turn_with_temporality(
                            DirectionalCommandValue::TurnTowards(id),
                            rest.subrange(3, rest.len() as int),
                            level,
                        ),
                        Err(e) => Err(e),
                    }
                } else {
                    Err("You stuffed up!"@)
                }
            },
        }
    }
}

/// Attaches the temporality suffix to a directional command body.
pub open spec fn turn_with_temporality(
    v: DirectionalCommandValue,
    t: Seq<char>,
    level: Level,
) -> Result<Command, Seq<char>> {
    match temporality_spec(t, level) {
        Ok(temporality) => Ok(
            Command { value: CommandValue::Directional(v), temporality },
        ),
        Err(e) => Err(e),
    }
}

/// A circle command body: an optional direction letter (right by
/// default), then the temporality suffix.
pub open spec fn circle_spec(rest: Seq<char>, level: Level) -> Result<Command, Seq<char>> {
    if rest.len() == 0 {
        turn_with_temporality(DirectionalCommandValue::Circle { to_right: true }, rest, level)
    } else if rest[0] == 'l' {
        turn_with_temporality(
            DirectionalCommandValue::Circle { to_right: false },
            rest.subrange(1, rest.len() as int),
            level,
        )
    } else if rest[0] == 'r' {
        turn_with_temporality(
            DirectionalCommandValue::Circle { to_right: true },
            rest.subrange(1, rest.len() as int),
            level,
        )
    } else {
        Err("Unexpected direction: "@ + seq![rest[0]])
    }
}

/// An altitude command body: a bare digit sets the target absolutely;
/// `c`/`+` and `d`/`-` followed by a digit climb or descend by that much;
/// then the temporality suffix.
pub open spec fn altitude_spec(rest: Seq<char>, level: Level) -> Result<Command, Seq<char>> {
    if rest.len() == 0 {
        Err("Unexpected end of command"@)
    } else {
        let c = rest[0];
        match char_to_int_spec(c) {
            Some(d) => altitude_with_temporality(
                ChangeAltitudeCommand::Absolute(d),
                rest.subrange(1, rest.len() as int),
                level,
            ),
            None => {
                if c == 'c' || c == '+' {
                    altitude_change_spec(rest, level, true)
                } else if c == 'd' || c == '-' {
                    altitude_change_spec(rest, level, false)
                } else {
                    Err("You messed up!"@)
                }
            },
        }
    }
}

/// The digit and suffix of a climb or descend command.
pub open spec fn altitude_change_spec(rest: Seq<char>, level: Level, climb: bool) -> Result<
    Command,
    Seq<char>,
> {
    if rest.len() < 2 {
        Err("Unexpected end of command"@)
    } else {
        match char_to_int_spec(rest[1]) {
            None => Err("Invalid altitude "@ + seq![rest[1]]),
            Some(d) => altitude_with_temporality(
                if climb {
                    ChangeAltitudeCommand::Climb(d)
                } else {
                    ChangeAltitudeCommand::Descend(d)
                },
                rest.subrange(2, rest.len() as int),
                level,
            ),
        }
    }
}

/// Attaches the temporality suffix to an altitude command body.
pub open spec fn altitude_with_temporality(
    a: ChangeAltitudeCommand,
    t: Seq<char>,
    level: Level,
) -> Result<Command, Seq<char>> {
    match temporality_spec(t, level) {
        Ok(temporality) => Ok(
            Command { value: CommandValue::ChangeAltitude(a), temporality },
        ),
        Err(e) => Err(e),
    }
}

/// A visibility command body: no payload, just the temporality suffix.
pub open spec fn visibility_spec(
    vis: PlaneVisibility,
    rest: Seq<char>,
    level: Level,
) -> Result<Command, Seq<char>> {
    match temporality_spec(rest, level) {
        Ok(temporality) => Ok(
            Command {
                value: CommandValue::ChangeVisibility(
                    crate::command::ChangeVisibilityCommand { new_visibility: vis },
                ),
                temporality,
            },
        ),
        Err(e) => Err(e),
    }
}

/// The whole grammar: an aircraft letter, a command-kind letter, the
/// kind's payload, and an optional temporality suffix.
pub open spec fn parse_spec(s: Seq<char>, level: Level) -> Result<(Command, char), Seq<char>> {
    if s.len() == 0 {
        Err("Empty command"@)
    } else if s.len() == 1 {
        Err("Unexpected end of command"@)
    } else {
        let plane = s[0];
        let kind = s[1];
        let rest = s.subrange(2, s.len() as int);
        let command: Result<Command, Seq<char>> = if kind == 't' {
            turn_spec(rest, level)
        } else if kind == 'c' {
            circle_spec(rest, level)
        } else if kind == 'a' {
            altitude_spec(rest, level)
        } else if kind == 'm' {
            visibility_spec(PlaneVisibility::Marked, rest, level)
        } else if kind == 'u' {
            visibility_spec(PlaneVisibility::Unmarked, rest, level)
        } else if kind == 'i' {
            visibility_spec(PlaneVisibility::Ignored, rest, level)
        } else {
            Err("Unknown command '"@ + seq![kind] + "'"@)
        };
        match command {
            Ok(c) => Ok((c, plane)),
            Err(e) => Err(e),
        }
    }
}

/// Parses a command string against the live game, returning the command
/// and the addressed aircraft's letter, or a descriptive failure. Nothing
/// is modified either way, and a returned command only references
/// entities the scenario holds.
pub fn parse_command(raw_command: &str, game: &Game) -> (r: Result<(Command, char), String>)
    ensures
        match r {
            Ok(p) => parse_spec(raw_command@, game.level) == Result::<
                (Command, char),
                Seq<char>,
            >::Ok(p),
            Err(e) => parse_spec(raw_command@, game.level) == Result::<
                (Command, char),
                Seq<char>,
            >::Err(e@),
        },
        match r {
            Ok(p) => crate::plane::command_refs_valid(p.0, game.level),
            Err(e) => true,
        },
{
    let n = raw_command.unicode_len();
    if n == 0 {
        return Err(String::from_str("Empty command"));
    }
    if n == 1 {
        return unexpected_end_of_command_err();
    }
    let plane_name = raw_command.get_char(0);
    let kind = raw_command.get_char(1);
    let rest = raw_command.substring_char(2, n);

    let command: Result<Command, String> = if kind == 't' {
        create_turn_command(rest, game)
    } else if kind == 'c' {
        create_circle_command(rest, game)
    } else if kind == 'a' {
        create_change_altitude_command(rest, game)
    } else if kind == 'm' {
        create_change_visiblity_command(PlaneVisibility::Marked, rest, game)
    } else if kind == 'u' {
        create_change_visiblity_command(PlaneVisibility::Unmarked, rest, game)
    } else if kind == 'i' {
        create_change_visiblity_command(PlaneVisibility::Ignored, rest, game)
    } else {
        let mut e = String::new();
        e.append("Unknown command '");
        crate::text::push_char(&mut e, kind);
        e.append("'");
        proof {
            assert(e@ =~= "Unknown command '"@ + seq![kind] + "'"@);
        }
        Err(e)
    };

    match command {
        Ok(c) => Ok((c, plane_name)),
        Err(e) => Err(e),
    }
}

/// A visibility command for the given visibility, with its suffix.
pub fn create_change_visiblity_command(
    new_visibility: PlaneVisibility,
    rest: &str,
    game: &Game,
) -> (r: Result<Command, String>)
    ensures
        result_matches(r, visibility_spec(new_visibility, rest@, game.level)),
        valid_if_ok(r, game.level),
{
    match determine_command_temporality(rest, 0, game) {
        Ok(temporality) => Ok(
            Command {
                value: CommandValue::ChangeVisibility(
                    crate::command::ChangeVisibilityCommand { new_visibility },
                ),
                temporality,
            },
        ),
        Err(e) => Err(e),
    }
}

/// A directional command parsed from its body.
pub fn create_turn_command(rest: &str, game: &Game) -> (r: Result<Command, String>)
    ensures
        result_matches(r, turn_spec(rest@, game.level)),
        valid_if_ok(r, game.level),
{
    let n = rest.unicode_len();
    if n == 0 {
        return unexpected_end_of_command_err();
    }
    let c = rest.get_char(0);
    let value_and_index: (DirectionalCommandValue, usize) = match Direction::from_keyboard_char(
        c,
    ) {
        Some(dir) => (DirectionalCommandValue::AbsoluteTurn(dir), 1),
        None => {
            if c == 'l' || c == '-' {
                (DirectionalCommandValue::SoftTurn { to_right: false }, 1)
            } else if c == 'r' || c == '+' {
                (DirectionalCommandValue::SoftTurn { to_right: true }, 1)
            } else if c == 'L' {
                (DirectionalCommandValue::HardTurn { to_right: false }, 1)
            } else if c == 'R' {
                (DirectionalCommandValue::HardTurn { to_right: true }, 1)
            } else if c == 't' {
                match parse_location_subcommand(rest, 1, game) {
                    Ok(id) => (DirectionalCommandValue::TurnTowards(id), 3),
                    Err(e) => {
                        return Err(e);
                    },
                }
            } else {
                return Err(String::from_str("You stuffed up!"));
            }
        },
    };
    let (value, next_index) = value_and_index;
    match determine_command_temporality(rest, next_index, game) {
        Ok(temporality) => Ok(Command { value: CommandValue::Directional(value), temporality }),
        Err(e) => Err(e),
    }
}

/// A circle command parsed from its body.
pub fn create_circle_command(rest: &str, game: &Game) -> (r: Result<Command, String>)
    ensures
        result_matches(r, circle_spec(rest@, game.level)),
        valid_if_ok(r, game.level),
{
    let n = rest.unicode_len();
    let to_right_and_index: (bool, usize) = if n == 0 {
        (true, 0)
    } else {
        let c = rest.get_char(0);
        if c == 'l' {
            (false, 1)
        } else if c == 'r' {
            (true, 1)
        } else {
            let mut e = String::new();
            e.append("Unexpected direction: ");
            crate::text::push_char(&mut e, c);
            proof {
                assert(e@ =~= "Unexpected direction: "@ + seq![c]);
            }
            return Err(e);
        }
    };
    let (to_right, next_index) = to_right_and_index;
    match determine_command_temporality(rest, next_index, game) {
        Ok(temporality) => Ok(
            Command {
                value: CommandValue::Directional(DirectionalCommandValue::Circle { to_right }),
                temporality,
            },
        ),
        Err(e) => Err(e),
    }
}

/// An altitude command parsed from its body.
pub fn create_change_altitude_command(rest: &str, game: &Game) -> (r: Result<Command, String>)
    ensures
        result_matches(r, altitude_spec(rest@, game.level)),
        valid_if_ok(r, game.level),
{
    let n = rest.unicode_len();
    if n == 0 {
        return unexpected_end_of_command_err();
    }
    let c = rest.get_char(0);
    let cmd_and_index: (ChangeAltitudeCommand, usize) = match char_to_int(c) {
        Some(d) => (ChangeAltitudeCommand::Absolute(d), 1),
        None => {
            if c == 'c' || c == '+' || c == 'd' || c == '-' {
                let climb = c == 'c' || c == '+';
                if n < 2 {
                    return unexpected_end_of_command_err();
                }
                let digit = rest.get_char(1);
                match char_to_altitude(digit) {
                    Ok(d) => (
                        if climb {
                            ChangeAltitudeCommand::Climb(d)
                        } else {
                            ChangeAltitudeCommand::Descend(d)
                        },
                        2,
                    ),
                    Err(e) => {
                        return Err(e);
                    },
                }
            } else {
                return Err(String::from_str("You messed up!"));
            }
        },
    };
    let (cmd, next_index) = cmd_and_index;
    match determine_command_temporality(rest, next_index, game) {
        Ok(temporality) => Ok(
            Command { value: CommandValue::ChangeAltitude(cmd), temporality },
        ),
        Err(e) => Err(e),
    }
}

/// A location reference such as `b1`, read at `start` in `rest`.
pub fn parse_location_subcommand(rest: &str, start: usize, game: &Game) -> (r: Result<
    LocationId,
    String,
>)
    requires
        start <= rest@.len(),
    ensures
        ({
            let spec_r = location_spec(rest@.subrange(start as int, rest@.len() as int), game.level);
            match r {
                Ok(id) => spec_r == Result::<LocationId, Seq<char>>::Ok(id)
                    && game.level.valid_location(id),
                Err(e) => spec_r == Result::<LocationId, Seq<char>>::Err(e@),
            }
        }),
{
    let n = rest.unicode_len();
    if n - start < 2 {
        return unexpected_end_of_command_err();
    }
    let location_type = rest.get_char(start);
    let x = rest.get_char(start + 1);
    let location_number = match char_to_location_number(x) {
        Ok(v) => v,
        Err(e) => {
            return Err(e);
        },
    };
    if location_type == 'a' {
        match game.level.find_airport(location_number) {
            Some(i) => Ok(LocationId::Airport(i)),
            None => Err(location_missing_message("Airport ", location_number)),
        }
    } else if location_type == 'b' {
        match game.level.find_beacon(location_number) {
            Some(i) => Ok(LocationId::Beacon(i)),
            None => Err(location_missing_message("Beacon ", location_number)),
        }
    } else if location_type == 'e' {
        match game.level.find_exit(location_number) {
            Some(i) => Ok(LocationId::Exit(i)),
            None => Err(location_missing_message("Exit ", location_number)),
        }
    } else {
        let mut e = String::new();
        e.append("Unexpected location type ");
        crate::text::push_char(&mut e, location_type);
        proof {
            assert(e@ =~= "Unexpected location type "@ + seq![location_type]);
        }
        Err(e)
    }
}

/// The "... does not exist" failure for a missing entity.
fn location_missing_message(kind: &str, number: i32) -> (r: String)
    ensures
        r@ == kind@ + decimal_int(number as int) + " does not exist"@,
{
    let mut e = String::from_str(kind);
    crate::text::push_decimal_i32(&mut e, number);
    e.append(" does not exist");
    proof {
        assert(e@ =~= kind@ + decimal_int(number as int) + " does not exist"@);
    }
    e
}

/// The temporality suffix, read at `start` in `rest`.
pub fn determine_command_temporality(rest: &str, start: usize, game: &Game) -> (r: Result<
    CommandTemporality,
    String,
>)
    requires
        start <= rest@.len(),
    ensures
        ({
            let spec_r = temporality_spec(
                rest@.subrange(start as int, rest@.len() as int),
                game.level,
            );
            match r {
                Ok(t) => spec_r == Result::<CommandTemporality, Seq<char>>::Ok(t) && match t {
                    CommandTemporality::Delayed(b) => b < game.level.beacons@.len(),
                    CommandTemporality::Immediate => true,
                },
                Err(e) => spec_r == Result::<CommandTemporality, Seq<char>>::Err(e@),
            }
        }),
{
    let n = rest.unicode_len();
    if n == start {
        return Ok(CommandTemporality::Immediate);
    }
    if n - start < 2 {
        return unexpected_end_of_command_err();
    }
    let c = rest.get_char(start + 1);
    let beacon = match char_to_int(c) {
        Some(num) => game.level.find_beacon(num),
        None => None,
    };
    match beacon {
        Some(i) => Ok(CommandTemporality::Delayed(i)),
        None => {
            let mut e = String::new();
            e.append("Beacon ");
            crate::text::push_char(&mut e, c);
            e.append(" does not exist");
            proof {
                assert(e@ =~= "Beacon "@ + seq![c] + " does not exist"@);
            }
            Err(e)
        },
    }
}

/// The numeric value of a digit character used as an altitude.
pub fn char_to_altitude(c: char) -> (r: Result<i32, String>)
    ensures
        match r {
            Ok(v) => char_to_int_spec(c) == Some(v) && 0 <= v <= 9,
            Err(e) => char_to_int_spec(c) is None && e@ == "Invalid altitude "@ + seq![c],
        },
{
    match char_to_int(c) {
        Some(v) => Ok(v),
        None => {
            let mut e = String::new();
            e.append("Invalid altitude ");
            crate::text::push_char(&mut e, c);
            proof {
                assert(e@ =~= "Invalid altitude "@ + seq![c]);
            }
            Err(e)
        },
    }
}

/// The numeric value of a digit character used as a location id.
pub fn char_to_location_number(c: char) -> (r: Result<i32, String>)
    ensures
        match r {
            Ok(v) => char_to_int_spec(c) == Some(v) && 0 <= v <= 9,
            Err(e) => char_to_int_spec(c) is None && e@ == "Invalid location num "@ + seq![c],
        },
{
    match char_to_int(c) {
        Some(v) => Ok(v),
        None => {
            let mut e = String::new();
            e.append("Invalid location num ");
            crate::text::push_char(&mut e, c);
            proof {
                assert(e@ =~= "Invalid location num "@ + seq![c]);
            }
            Err(e)
        },
    }
}

/// The numeric value of a decimal digit character, `None` for any other
/// character.
pub fn char_to_int(c: char) -> (r: Option<i32>)
    ensures
        r == char_to_int_spec(c),
        r is Some ==> 0 <= r.unwrap() <= 9,
{
    let v = c as u32;
    if 48 <= v && v <= 57 {
        Some((v - 48) as i32)
    } else {
        None
    }
}

/// The generic end-of-input failure text.
pub fn unexpected_end_of_command() -> (r: String)
    ensures
        r@ == "Unexpected end of command"@,
{
    String::from_str("Unexpected end of command")
}

/// The generic end-of-input failure, boxed as an `Err`.
pub fn unexpected_end_of_command_err<T>() -> (r: Result<T, String>)
    ensures
        r matches Err(e) && e@ == "Unexpected end of command"@,
{
    Err(unexpected_end_of_command())
}

/// How an executable parse result relates to its specification: same
/// command, or same failure text.
pub open spec fn result_matches(r: Result<Command, String>, spec_r: Result<
    Command,
    Seq<char>,
>) -> bool {
    match r {
        Ok(c) => spec_r == Result::<Command, Seq<char>>::Ok(c),
        Err(e) => spec_r == Result::<Command, Seq<char>>::Err(e@),
    }
}

/// An `Ok` parse only references entities the scenario holds.
pub open spec fn valid_if_ok(r: Result<Command, String>, level: Level) -> bool {
    match r {
        Ok(c) => crate::plane::command_refs_valid(c, level),
        Err(e) => true,
    }
}

} // verus!
