//! The command data model: what an instruction asks an aircraft to do
//! (altitude, visibility or heading) and when it becomes eligible to run
//! (immediately, or only once the aircraft reaches a beacon).

use vstd::prelude::*;
use crate::direction::Direction;
use crate::locations::LocationId;
use crate::plane::PlaneVisibility;

verus! {

/// The three kinds of command. An aircraft keeps at most one pending
/// command per kind; a newly issued command replaces any unresolved command
/// of the same kind.
#[derive(Debug, Clone, Copy, PartialEq, Eq, Structural)]
pub enum CommandType {
    ChangeAltitude,
    ChangeVisibility,
    Directional,
}

/// An instruction to move toward a new target altitude, either absolutely
/// (in units of thousands of feet over ten) or relative to the current
/// altitude.
#[derive(Debug, Clone, Copy, PartialEq, Eq, Structural)]
pub enum ChangeAltitudeCommand {
    Absolute(i32),
    Climb(i32),
    Descend(i32),
}

/// An instruction to set an aircraft's radar visibility.
#[derive(Debug, Clone, Copy, PartialEq, Eq, Structural)]
pub struct ChangeVisibilityCommand {
    pub new_visibility: PlaneVisibility,
}

/// An instruction to change heading.
#[derive(Debug, Clone, Copy, PartialEq, Eq, Structural)]
pub enum DirectionalCommandValue {
    /// Turn to the given heading, at most 90 degrees per tick, keeping the
    /// command until the heading is reached.
    AbsoluteTurn(Direction),
    /// A one-shot 45 degree turn.
    SoftTurn { to_right: bool },
    /// A one-shot turn by `HARD_TURN_DEGREES`.
    HardTurn { to_right: bool },
    /// Turn toward the bearing of the given location, at most 90 degrees
    /// per tick, keeping the command until that bearing is reached.
    TurnTowards(LocationId),
    /// Turn by `CIRCLE_TURN_DEGREES` every eligible tick, forever; only a
    /// newly issued directional command clears it.
    Circle { to_right: bool },
}

/// When a command becomes eligible to run: immediately, or only once the
/// aircraft's position equals that of the beacon with the given index.
#[derive(Debug, Clone, Copy, PartialEq, Eq, Structural)]
pub enum CommandTemporality {
    Immediate,
    Delayed(usize),
}

/// What a command asks the aircraft to do.
#[derive(Debug, Clone, Copy, PartialEq, Eq, Structural)]
pub enum CommandValue {
    ChangeAltitude(ChangeAltitudeCommand),
    ChangeVisibility(ChangeVisibilityCommand),
    Directional(DirectionalCommandValue),
}

/// A complete command: a value and, orthogonally, a temporality.
#[derive(Debug, Clone, Copy, PartialEq, Eq, Structural)]
pub struct Command {
    pub value: CommandValue,
    pub temporality: CommandTemporality,
}

impl Command {
    /// The kind of slot this command occupies in an aircraft's pending
    /// store.
    pub open spec fn kind_spec(self) -> CommandType {
        match self.value {
            CommandValue::ChangeAltitude(_) => CommandType::ChangeAltitude,
            CommandValue::ChangeVisibility(_) => CommandType::ChangeVisibility,
            CommandValue::Directional(_) => CommandType::Directional,
        }
    }

    pub fn kind(&self) -> (r: CommandType)
        ensures
            r == self.kind_spec(),
    {
        match self.value {
            CommandValue::ChangeAltitude(_) => CommandType::ChangeAltitude,
            CommandValue::ChangeVisibility(_) => CommandType::ChangeVisibility,
            CommandValue::Directional(_) => CommandType::Directional,
        }
    }
}

} // verus!
