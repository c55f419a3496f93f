//! The records of the robot program's periodic loop: what it reads in a tick
//! and the devices it writes to.
use vstd::prelude::*;

verus! {

/// The mode the robot is in.
#[derive(Clone, Copy, Debug, PartialEq, Eq, Structural)]
pub enum RobotMode {
    Teleoperated,
    Autonomous,
    Test,
    Disabled,
}

impl Default for RobotMode {
    /// A robot is disabled until the host says otherwise.
    fn default() -> (mode: Self)
        ensures
            mode == RobotMode::Disabled,
    {
        RobotMode::Disabled
    }
}

/// What the program reads in a tick.
#[derive(Debug)]
pub struct ReadContext {
    pub mode: RobotMode,
}

/// The bus a device hangs on.
#[derive(Clone, Copy, Debug, PartialEq, Eq, Structural)]
pub enum DevicePort {
    Can,
    Pwm,
}

/// The kinds of device the program can write to.
#[derive(Clone, Copy, Debug, PartialEq, Eq, Structural)]
pub enum DeviceType {
    SparkMax,
    SparkFlex,
}

/// A device the program writes to: where it hangs and what it is.
#[derive(Clone, Copy, Debug, PartialEq, Eq, Structural)]
pub struct Device {
    pub port: DevicePort,
    pub id: u32,
    pub kind: DeviceType,
}

/// What the program writes in a tick.
#[derive(Debug)]
pub struct WriteContext {
    pub devices: Vec<Device>,
}

/// Everything a tick of the program works on.
#[derive(Debug)]
pub struct Context {
    pub read: ReadContext,
    pub write: WriteContext,
}

impl Context {
    /// The context of a robot before its first tick: disabled, with no device
    /// written to.
    pub fn new() -> (context: Self)
        ensures
            context.read.mode == RobotMode::Disabled,
            context.write.devices@ == Seq::<Device>::empty(),
    {
        Context {
            read: ReadContext { mode: RobotMode::default() },
            write: WriteContext { devices: Vec::new() },
        }
    }
}

/// A robot program: the host calls `periodic` once per tick. A program that
/// does not say what a tick does, does nothing.
pub trait Robot: Default {
    fn periodic(&mut self, ctx: &mut Context) {
    }
}

} // verus!
