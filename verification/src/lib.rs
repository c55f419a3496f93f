//! Device-state synchronisation and event dispatch between a fixed-period
//! control loop (the host) and a set of logical hardware devices.
//!
//! The host drives the core through two boundary calls per tick: one hands
//! over a telemetry snapshot, the other collects the queued commands. This
//! crate holds the state those calls work on (the registry of live devices,
//! the cache of their latest telemetry, the outbound command queue and the
//! table of event subscribers) and the rules by which that state changes.
//! Every function is verified against a contract over a mathematical model
//! of the state it touches.
pub mod bridge;
pub mod builder;
pub mod context;
pub mod device;
pub mod event;
pub mod ffi;
pub mod inventory;
pub mod queue;
pub mod scalar;
pub mod scan;
pub mod text;

use vstd::prelude::*;

use crate::context::Context;
use crate::device::ffi::Command;
use crate::device::ffi::DeviceIdentity;
use crate::event::Emitter;
use crate::event::EventKey;
use crate::event::Subscriber;
use crate::ffi::FFIData;
use crate::queue::CommandQueue;

verus! {

/// The state of the core. Its parts change independently of each other, so
/// each can be put behind a lock of its own.
#[verifier::reject_recursive_types(P)]
pub struct Core<P, H, E, F: Fn(&P) -> P> {
    pub context: Context<P>,
    pub queue: CommandQueue,
    pub emitter: Emitter<P, H, E, F>,
}

/// Brings the core into being: no device is registered, no telemetry is
/// cached, no command waits and nobody listens. To be called once, before the
/// host supplies or collects anything.
pub fn start_thread<P, H, E, F: Fn(&P) -> P>() -> (core: Core<P, H, E, F>)
    ensures
        core.context.registry() == Set::<DeviceIdentity>::empty(),
        core.context.cache() == Map::<DeviceIdentity, P>::empty(),
        core.queue@ == Seq::<Command>::empty(),
        core.emitter@ == Map::<EventKey, Seq<Subscriber<H, E, F>>>::empty(),
{
    Core { context: Context::new(), queue: CommandQueue::new(), emitter: Emitter::new() }
}

/// The host hands over the telemetry of a tick. The cache takes it in whole;
/// what is returned are the devices whose subscribers are then to be told,
/// which the caller does without holding the host up. Before the core was
/// started there is no cache: the telemetry is dropped and nobody is told.
pub fn supply<P>(context: Option<&mut Context<P>>, data: FFIData<P>) -> (plan: Vec<DeviceIdentity>)
    ensures
        match context {
            Some(context) => {
                &&& final(context).registry() == context.registry()
                &&& final(context).cache() == crate::context::snapshot_cache(data.devices@)
                &&& plan@ == crate::context::emission_plan(data.devices@, context.registry())
            },
            None => plan@ == Seq::<DeviceIdentity>::empty(),
        },
{
    match context {
        Some(context) => context.replace(data.devices),
        None => Vec::new(),
    }
}

/// The host collects the commands of a tick: all that wait, oldest first.
/// None of them waits any longer. Before the core was started there is no
/// queue, and nothing to collect.
pub fn collect(queue: Option<&mut CommandQueue>) -> (commands: Vec<Command>)
    ensures
        match queue {
            Some(queue) => (commands@, final(queue)@) == crate::queue::drained(queue@),
            None => commands@ == Seq::<Command>::empty(),
        },
{
    match queue {
        Some(queue) => queue.drain_all(),
        None => Vec::new(),
    }
}

} // verus!
