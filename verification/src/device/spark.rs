//! The motor controller: a typed handle over the registry, the telemetry
//! cache and the command queue.
use vstd::prelude::*;

pub mod config;
pub mod ffi;

use crate::context::Context;
use crate::context::Error as ContextError;
use crate::device::ffi::Command;
use crate::device::ffi::CommandBody;
use crate::device::ffi::DeviceIdentity;
use crate::device::ffi::Payload;
use crate::device::ffi::Type;
use crate::device::spark::config::SparkMaxConfig;
use crate::device::spark::ffi::Command as SparkMaxCommand;
use crate::device::spark::ffi::Data;
use crate::device::spark::ffi::Error as FFIError;
use crate::device::Device;
use crate::inventory::InventoryBuilder;
use crate::inventory::Symbol;
use crate::queue::CommandQueue;
use crate::scalar::Scalar;

verus! {

/// Why a motor controller call failed.
#[derive(Debug)]
pub enum Error {
    /// The output is not a number between -1 and 1.
    InvalidOutput(Scalar),
    /// The registry turned the call down.
    Context(ContextError),
    /// The host turned the command down.
    FFI(FFIError),
}

/// A handle on one motor controller, named by its number on the CAN bus.
#[derive(Debug)]
pub struct SparkMax {
    can_id: u8,
}

/// A motor controller that is registered but that the host has not created
/// yet. It holds the command that creates it; the handle is to be had for
/// the host's answer to that command.
#[derive(Debug)]
pub struct Pending {
    device: SparkMax,
    command: Command,
}

impl Pending {
    /// The number of the controller that is being created.
    pub closed spec fn spec_can_id(&self) -> u8 {
        self.device.can_id
    }

    pub closed spec fn spec_command(&self) -> Command {
        self.command
    }

    /// The command that the host is to carry out.
    pub fn command(&self) -> (command: Command)
        ensures
            command == self.spec_command(),
    {
        self.command
    }

    /// Hands the handle out where the host created the controller, and the
    /// host's error where it did not.
    pub fn finish(self, response: Result<(), FFIError>) -> (result: Result<SparkMax, Error>)
        ensures
            match response {
                Ok(_) => result matches Ok(device) && device.spec_can_id() == self.spec_can_id(),
                Err(source) => result matches Err(Error::FFI(reported)) && reported == source,
            },
    {
        match response {
            Ok(_) => Ok(self.device),
            Err(source) => Err(Error::FFI(source)),
        }
    }
}

impl SparkMax {
    pub closed spec fn spec_can_id(&self) -> u8 {
        self.can_id
    }

    /// The identity of the controller with the given number.
    pub open spec fn identity(can_id: u8) -> DeviceIdentity {
        DeviceIdentity { kind: Type::SparkMax, id: can_id }
    }

    /// The command that `command` becomes once addressed to the controller
    /// with the given number.
    pub open spec fn addressed(can_id: u8, command: SparkMaxCommand) -> Command {
        Command { device: Self::identity(can_id), command: CommandBody::SparkMax(command) }
    }

    /// The controller's number on the CAN bus.
    pub fn can_id(&self) -> (id: u8)
        ensures
            id == self.spec_can_id(),
    {
        self.can_id
    }

    /// Registers the controller with the given number and prepares the
    /// command that creates it with `config`. A number that is taken is
    /// turned down, and nothing changes.
    pub fn new<P>(context: &mut Context<P>, can_id: u8, config: SparkMaxConfig) -> (result: Result<
        Pending,
        Error,
    >)
        ensures
            final(context).cache() == old(context).cache(),
            old(context).registry().contains(Self::identity(can_id)) ==> {
                &&& result matches Err(Error::Context(source))
                &&& source == ContextError::DeviceAlreadyRegistered(Type::SparkMax, can_id)
                &&& final(context).registry() == old(context).registry()
            },
            !old(context).registry().contains(Self::identity(can_id)) ==> {
                &&& result matches Ok(pending)
                &&& pending.spec_can_id() == can_id
                &&& pending.spec_command() == Self::addressed(
                    can_id,
                    SparkMaxCommand::Create(config),
                )
                &&& final(context).registry() == old(context).registry().insert(
                    Self::identity(can_id),
                )
            },
    {
        let device = SparkMax { can_id };
        let identity = DeviceIdentity::of(&device);
        let command = SparkMaxCommand::create(config);
        match context.add_device(&identity) {
            Ok(_) => {},
            Err(source) => {
                return Err(Error::Context(source));
            },
        }
        match context.command(&identity, CommandBody::SparkMax(command)) {
            Ok(command) => Ok(Pending { device, command }),
            Err(source) => Err(Error::Context(source)),
        }
    }

    /// The latest telemetry the host supplied for this controller, if any.
    pub fn data(&self, context: &Context<Payload>) -> (data: Option<Data>)
        ensures
            match data {
                Some(data) => {
                    &&& context.cache().contains_key(Self::identity(self.spec_can_id()))
                    &&& context.cache()[Self::identity(self.spec_can_id())] == Payload::SparkMax(
                        data,
                    )
                },
                None => !context.cache().contains_key(Self::identity(self.spec_can_id())),
            },
    {
        let identity = DeviceIdentity::of(self);
        match context.data(&identity) {
            Some(Payload::SparkMax(data)) => Some(*data),
            None => None,
        }
    }

    /// What a command of this controller does to the queue: it is appended
    /// where the controller is registered, and turned down where it is not.
    pub open spec fn issued(
        can_id: u8,
        registry: Set<DeviceIdentity>,
        before: Seq<Command>,
        command: SparkMaxCommand,
        result: Result<(), Error>,
        after: Seq<Command>,
    ) -> bool {
        if registry.contains(Self::identity(can_id)) {
            &&& result is Ok
            &&& after == before.push(Self::addressed(can_id, command))
        } else {
            &&& result matches Err(Error::Context(source))
            &&& source == ContextError::DeviceNotFound(Type::SparkMax, can_id)
            &&& after == before
        }
    }

    fn issue<P>(
        &self,
        context: &Context<P>,
        queue: &mut CommandQueue,
        command: SparkMaxCommand,
    ) -> (result: Result<(), Error>)
        ensures
            Self::issued(
                self.spec_can_id(),
                context.registry(),
                old(queue)@,
                command,
                result,
                final(queue)@,
            ),
    {
        let identity = DeviceIdentity::of(self);
        match context.command(&identity, CommandBody::SparkMax(command)) {
            Ok(command) => {
                queue.push(command);
                Ok(())
            },
            Err(source) => Err(Error::Context(source)),
        }
    }

    /// Queues the command that moves the controller to `position`, given in
    /// revolutions.
    pub fn set_position<P>(
        &self,
        context: &Context<P>,
        queue: &mut CommandQueue,
        position: Scalar,
    ) -> (result: Result<(), Error>)
        ensures
            Self::issued(
                self.spec_can_id(),
                context.registry(),
                old(queue)@,
                SparkMaxCommand::SetPosition(position),
                result,
                final(queue)@,
            ),
    {
        self.issue(context, queue, SparkMaxCommand::set_position(position))
    }

    /// Queues the command that brings the controller to `velocity`, given in
    /// revolutions per minute.
    pub fn set_velocity<P>(
        &self,
        context: &Context<P>,
        queue: &mut CommandQueue,
        velocity: Scalar,
    ) -> (result: Result<(), Error>)
        ensures
            Self::issued(
                self.spec_can_id(),
                context.registry(),
                old(queue)@,
                SparkMaxCommand::SetVelocity(velocity),
                result,
                final(queue)@,
            ),
    {
        self.issue(context, queue, SparkMaxCommand::set_velocity(velocity))
    }

    /// Queues the command that sets the normalized output. An output that is
    /// no number between -1 and 1 is turned down before anything else is
    /// looked at, and no command is queued.
    pub fn set_output<P>(
        &self,
        context: &Context<P>,
        queue: &mut CommandQueue,
        output: Scalar,
    ) -> (result: Result<(), Error>)
        ensures
            !output.spec_is_normalized() ==> {
                &&& result matches Err(Error::InvalidOutput(rejected))
                &&& rejected == output
                &&& final(queue)@ == old(queue)@
            },
            output.spec_is_normalized() ==> Self::issued(
                self.spec_can_id(),
                context.registry(),
                old(queue)@,
                SparkMaxCommand::SetOutput(output),
                result,
                final(queue)@,
            ),
    {
        if !output.is_normalized() {
            return Err(Error::InvalidOutput(output));
        }
        self.issue(context, queue, SparkMaxCommand::set_output(output))
    }
}

impl Device for SparkMax {
    open spec fn spec_kind() -> Type {
        Type::SparkMax
    }

    fn kind() -> (kind: Type) {
        Type::SparkMax
    }

    open spec fn spec_id(&self) -> u8 {
        self.spec_can_id()
    }

    fn id(&self) -> (id: u8) {
        self.can_id
    }
}

/// The items of the motor controller that cross the host boundary: what it
/// exchanges with the host, then its configuration.
pub open spec fn boundary_symbols() -> Seq<Symbol> {
    ffi::boundary_symbols() + config::boundary_symbols()
}

/// Registers the items of the motor controller, behind all that `builder`
/// holds.
pub fn __ffi_inventory(builder: InventoryBuilder) -> (inventory: InventoryBuilder)
    ensures
        inventory@ == builder@ + boundary_symbols(),
{
    config::__ffi_inventory(ffi::__ffi_inventory(builder))
}

} // verus!
