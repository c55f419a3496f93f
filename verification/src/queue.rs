//! The queue of outbound commands, from the application to the host.
use std::collections::VecDeque;
use vstd::prelude::*;

use crate::device::ffi::Command;

verus! {

/// The queue after `commands` were pushed one after the other.
pub open spec fn pushed(queue: Seq<Command>, commands: Seq<Command>) -> Seq<Command>
    decreases commands.len(),
{
    if commands.len() == 0 {
        queue
    } else {
        pushed(queue, commands.drop_last()).push(commands.last())
    }
}

/// What a drain makes of a queue: the commands it hands out, and the queue
/// it leaves behind.
pub open spec fn drained(queue: Seq<Command>) -> (Seq<Command>, Seq<Command>) {
    (queue, Seq::empty())
}

/// First in, first out: a drain hands out what the queue held, then what was
/// pushed since, each in the order of pushing; and a second drain, with
/// nothing pushed in between, hands out nothing.
pub proof fn law_fifo(queue: Seq<Command>, commands: Seq<Command>)
    ensures
        drained(pushed(queue, commands)).0 == queue + commands,
        drained(drained(pushed(queue, commands)).1).0 == Seq::<Command>::empty(),
    decreases commands.len(),
{
    if commands.len() > 0 {
        law_fifo(queue, commands.drop_last());
    }
}

/// Two commands pushed on an empty queue are drained as pushed.
pub proof fn law_two_pushes_drain_in_order(first: Command, second: Command)
    ensures
        drained(Seq::<Command>::empty().push(first).push(second)).0 == seq![first, second],
{
}

/// Commands waiting for the host, oldest first. Nothing bounds its length.
pub struct CommandQueue {
    commands: VecDeque<Command>,
}

impl View for CommandQueue {
    type V = Seq<Command>;

    closed spec fn view(&self) -> Seq<Command> {
        self.commands@
    }
}

impl CommandQueue {
    /// An empty queue.
    pub fn new() -> (queue: Self)
        ensures
            queue@ == Seq::<Command>::empty(),
    {
        CommandQueue { commands: VecDeque::new() }
    }

    /// The number of commands that wait.
    pub fn len(&self) -> (len: usize)
        ensures
            len == self@.len(),
    {
        self.commands.len()
    }

    /// Whether no command waits.
    pub fn is_empty(&self) -> (empty: bool)
        ensures
            empty == (self@.len() == 0),
    {
        self.commands.len() == 0
    }

    /// Appends `command` behind all that wait.
    pub fn push(&mut self, command: Command)
        ensures
            final(self)@ == old(self)@.push(command),
    {
        self.commands.push_back(command);
    }

    /// Takes every waiting command out, oldest first, and leaves the queue
    /// empty.
    pub fn drain_all(&mut self) -> (commands: Vec<Command>)
        ensures
            (commands@, final(self)@) == drained(old(self)@),
    {
        let mut commands: Vec<Command> = Vec::new();
        let ghost all = self@;
        while self.commands.len() > 0
            invariant
                commands@ + self@ == all,
            decreases self@.len(),
        {
            if let Some(command) = self.commands.pop_front() {
                commands.push(command);
            }
        }
        commands
    }
}

} // verus!
