//! What a motor controller exchanges with the host: commands, telemetry and
//! the errors the host reports.
use vstd::prelude::*;
use vstd::string::StringExecFns;

use crate::device::spark::config::SparkMaxConfig;
use crate::inventory::InventoryBuilder;
use crate::inventory::Symbol;
use crate::scalar::Scalar;

verus! {

/// The tag of a motor controller command.
#[derive(Clone, Copy, Debug, PartialEq, Eq, Hash, Structural)]
pub enum CommandType {
    SetPosition,
    SetVelocity,
    SetOutput,
    Create,
}

/// A command to a motor controller, with the value it carries.
#[derive(Clone, Copy, Debug, PartialEq, Eq, Structural)]
pub enum Command {
    /// The target position, in revolutions.
    SetPosition(Scalar),
    /// The target velocity, in revolutions per minute.
    SetVelocity(Scalar),
    /// The normalized output, between -1 and 1.
    SetOutput(Scalar),
    /// The configuration to create the controller with.
    Create(SparkMaxConfig),
}

impl Command {
    pub open spec fn spec_kind(self) -> CommandType {
        match self {
            Command::SetPosition(_) => CommandType::SetPosition,
            Command::SetVelocity(_) => CommandType::SetVelocity,
            Command::SetOutput(_) => CommandType::SetOutput,
            Command::Create(_) => CommandType::Create,
        }
    }

    /// The tag of this command.
    pub fn kind(&self) -> (kind: CommandType)
        ensures
            kind == self.spec_kind(),
    {
        match self {
            Command::SetPosition(_) => CommandType::SetPosition,
            Command::SetVelocity(_) => CommandType::SetVelocity,
            Command::SetOutput(_) => CommandType::SetOutput,
            Command::Create(_) => CommandType::Create,
        }
    }

    pub fn set_position(position: Scalar) -> (command: Self)
        ensures
            command == Command::SetPosition(position),
    {
        Command::SetPosition(position)
    }

    pub fn set_velocity(velocity: Scalar) -> (command: Self)
        ensures
            command == Command::SetVelocity(velocity),
    {
        Command::SetVelocity(velocity)
    }

    pub fn set_output(output: Scalar) -> (command: Self)
        ensures
            command == Command::SetOutput(output),
    {
        Command::SetOutput(output)
    }

    pub fn create(config: SparkMaxConfig) -> (command: Self)
        ensures
            command == Command::Create(config),
    {
        Command::Create(config)
    }
}

/// The telemetry of a motor controller as the host reads it.
#[derive(Clone, Copy, Debug, PartialEq, Eq, Structural)]
pub struct Data {
    pub connected: bool,
    /// The applied output, between -1 and 1.
    pub output: Scalar,
    /// The position, in revolutions.
    pub position: Scalar,
    /// The velocity, in revolutions per minute.
    pub velocity: Scalar,
    /// The output current, in ampere.
    pub current: Scalar,
}

/// The ways in which the host turns a motor controller command down.
#[derive(Clone, Copy, Debug, PartialEq, Eq, Structural)]
pub enum ErrorType {
    MotorExists,
    BadConfig,
    BadCommand,
}

impl ErrorType {
    pub open spec fn spec_description(self) -> Seq<char> {
        match self {
            ErrorType::MotorExists => "Tried to create existing motor"@,
            ErrorType::BadConfig => "Invalid motor configuration"@,
            ErrorType::BadCommand => "Invalid motor command"@,
        }
    }

    /// The refusal in words.
    pub fn description(&self) -> (text: &'static str)
        ensures
            text@ == self.spec_description(),
    {
        match self {
            ErrorType::MotorExists => "Tried to create existing motor",
            ErrorType::BadConfig => "Invalid motor configuration",
            ErrorType::BadCommand => "Invalid motor command",
        }
    }
}

/// A failure that the host reports for a command, with the host's own words
/// where it gave any.
#[derive(Debug)]
pub struct Error {
    pub kind: ErrorType,
    pub message: Option<String>,
}

impl Error {
    pub open spec fn spec_to_string(self) -> Seq<char> {
        self.kind.spec_description() + ": "@ + match self.message {
            Some(message) => message@,
            None => "Unknown error"@,
        }
    }

    /// The error in words: what kind of refusal it is, then the host's own
    /// words, or a note that it gave none.
    pub fn to_string(&self) -> (text: String)
        ensures
            text@ == self.spec_to_string(),
    {
        let mut text = String::from_str(self.kind.description());
        text.append(": ");
        match &self.message {
            Some(message) => {
                text.append(message.as_str());
            },
            None => {
                text.append("Unknown error");
            },
        }
        text
    }
}

impl Clone for Error {
    /// A copy that owns its message.
    fn clone(&self) -> (copy: Self)
        ensures
            copy == *self,
    {
        let message = match &self.message {
            Some(message) => Some(message.clone()),
            None => None,
        };
        Error { kind: self.kind, message }
    }
}

/// The items of this module that cross the host boundary.
pub open spec fn boundary_symbols() -> Seq<Symbol> {
    seq![
        Symbol::SparkCommandType,
        Symbol::SparkCommand,
        Symbol::SparkData,
        Symbol::SparkErrorType,
        Symbol::SparkError,
    ]
}

/// Registers the items of this module, behind all that `builder` holds.
pub fn __ffi_inventory(builder: InventoryBuilder) -> (inventory: InventoryBuilder)
    ensures
        inventory@ == builder@ + boundary_symbols(),
{
    builder.register(Symbol::SparkCommandType).register(
        Symbol::SparkCommand,
    ).register(Symbol::SparkData).register(Symbol::SparkErrorType).register(Symbol::SparkError)
}

} // verus!
