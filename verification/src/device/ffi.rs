//! The records that cross the host boundary: a device's identity and the
//! payloads tagged with it.
use vstd::prelude::*;

use crate::device::identity_of;
use crate::device::spark::ffi::Command as SparkMaxCommand;
use crate::device::spark::ffi::Data as SparkMaxData;
use crate::device::Device;
use crate::inventory::InventoryBuilder;
use crate::inventory::Symbol;

verus! {

/// The kinds of hardware device the host can drive.
#[derive(Clone, Copy, Debug, PartialEq, Eq, Hash, Structural)]
pub enum Type {
    SparkMax,
    NavX,
    XboxController,
}

impl Type {
    /// The number that stands for this kind inside a device key.
    pub open spec fn spec_code(self) -> u64 {
        match self {
            Type::SparkMax => 0,
            Type::NavX => 1,
            Type::XboxController => 2,
        }
    }

    pub fn code(&self) -> (code: u64)
        ensures
            code == self.spec_code(),
    {
        match self {
            Type::SparkMax => 0,
            Type::NavX => 1,
            Type::XboxController => 2,
        }
    }

    pub open spec fn spec_name(self) -> Seq<char> {
        match self {
            Type::SparkMax => "SparkMax"@,
            Type::NavX => "NavX"@,
            Type::XboxController => "XboxController"@,
        }
    }

    /// The name of the kind, as messages spell it.
    pub fn name(&self) -> (name: &'static str)
        ensures
            name@ == self.spec_name(),
    {
        match self {
            Type::SparkMax => "SparkMax",
            Type::NavX => "NavX",
            Type::XboxController => "XboxController",
        }
    }
}

/// Names one device instance: its kind and its number within that kind.
/// Two identities are the same device exactly when both fields agree.
#[derive(Clone, Copy, Debug, PartialEq, Eq, Hash, Structural)]
pub struct DeviceIdentity {
    pub kind: Type,
    pub id: u8,
}

impl DeviceIdentity {
    /// The integer under which this identity is stored in hash tables: the
    /// kind's code in the high part, the instance number in the low byte.
    pub open spec fn spec_key(self) -> u64 {
        (self.kind.spec_code() * 256 + self.id) as u64
    }

    pub fn key(&self) -> (key: u64)
        ensures
            key == self.spec_key(),
    {
        self.kind.code() * 256 + self.id as u64
    }

    /// The identity of a device object.
    pub fn of<D: Device>(device: &D) -> (identity: DeviceIdentity)
        ensures
            identity == identity_of(device),
    {
        DeviceIdentity { kind: D::kind(), id: device.id() }
    }

    /// Distinct identities never share a key.
    pub proof fn lemma_key_injective(a: DeviceIdentity, b: DeviceIdentity)
        ensures
            a.spec_key() == b.spec_key() <==> a == b,
    {
    }
}

/// One telemetry record of a snapshot: the payload the host read for `device`.
/// The core never looks inside the payload.
pub struct Data<P> {
    pub device: DeviceIdentity,
    pub data: P,
}

/// The telemetry of one device, by the kind of device that reports it.
#[derive(Clone, Copy, Debug, PartialEq, Eq, Structural)]
pub enum Payload {
    SparkMax(SparkMaxData),
}

impl Payload {
    /// The kind of device that reports such telemetry.
    pub open spec fn spec_kind(self) -> Type {
        match self {
            Payload::SparkMax(_) => Type::SparkMax,
        }
    }

    pub fn kind(&self) -> (kind: Type)
        ensures
            kind == self.spec_kind(),
    {
        match self {
            Payload::SparkMax(_) => Type::SparkMax,
        }
    }
}

/// What a command asks for, by the kind of device that understands it.
#[derive(Clone, Copy, Debug, PartialEq, Eq, Structural)]
pub enum CommandBody {
    SparkMax(SparkMaxCommand),
}

impl CommandBody {
    /// The kind of device that understands such a command.
    pub open spec fn spec_kind(self) -> Type {
        match self {
            CommandBody::SparkMax(_) => Type::SparkMax,
        }
    }

    pub fn kind(&self) -> (kind: Type)
        ensures
            kind == self.spec_kind(),
    {
        match self {
            CommandBody::SparkMax(_) => Type::SparkMax,
        }
    }
}

/// An outbound command: what is asked, and of which device.
#[derive(Clone, Copy, Debug, PartialEq, Eq, Structural)]
pub struct Command {
    pub device: DeviceIdentity,
    pub command: CommandBody,
}

impl Command {
    /// Addresses `command` to `device`.
    pub fn new<D: Device>(device: &D, command: CommandBody) -> (addressed: Self)
        ensures
            addressed.device == identity_of(device),
            addressed.command == command,
    {
        Command { device: DeviceIdentity::of(device), command }
    }

    /// Whether the command is one that its addressee's kind understands.
    pub open spec fn spec_is_consistent(self) -> bool {
        self.command.spec_kind() == self.device.kind
    }

    /// Whether the command is one that its addressee's kind understands. The
    /// host picks the driver by the addressee's kind, so a command that fails
    /// this test must never reach it.
    pub fn is_consistent(&self) -> (consistent: bool)
        ensures
            consistent == self.spec_is_consistent(),
    {
        self.command.kind() == self.device.kind
    }
}

/// The items of this module that cross the host boundary.
pub open spec fn boundary_symbols() -> Seq<Symbol> {
    seq![Symbol::DeviceType, Symbol::DeviceData, Symbol::DeviceCommand, Symbol::CommandFree]
}

/// Registers the items of this module, behind all that `builder` holds.
pub fn __ffi_inventory(builder: InventoryBuilder) -> (inventory: InventoryBuilder)
    ensures
        inventory@ == builder@ + boundary_symbols(),
{
    builder.register(Symbol::DeviceType).register(Symbol::DeviceData).register(
        Symbol::DeviceCommand,
    ).register(Symbol::CommandFree)
}

} // verus!
