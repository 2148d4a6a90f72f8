//! The command ingress queue: bounded, strictly first-in first-out, and
//! drop-on-full.
//!
//! The dispatcher drains this queue one command at a time, so commands are
//! applied in arrival order.  A full queue rejects the new command instead
//! of blocking, which keeps the user interface responsive at the price of
//! losing a command under rapid clicks.

use vstd::prelude::*;

use crate::command::PlayerCommand;

verus! {

/// A bounded first-in first-out queue of player commands.
pub struct CommandQueue {
    pub items: Vec<PlayerCommand>,
    pub capacity: usize,
}

impl CommandQueue {
    /// The queue never holds more commands than its capacity, and the
    /// capacity is at least one.
    pub open spec fn wf(&self) -> bool {
        &&& self.items@.len() <= self.capacity
        &&& self.capacity >= 1
    }

    /// An empty queue with the given capacity.
    pub fn new(capacity: usize) -> (q: CommandQueue)
        requires
            capacity >= 1,
        ensures
            q.wf(),
            q.items@.len() == 0,
            q.capacity == capacity,
    {
        CommandQueue { items: Vec::new(), capacity }
    }

    /// Non-blocking enqueue: the command is appended at the back when there
    /// is room, and silently dropped otherwise.
    pub fn try_send(&mut self, cmd: PlayerCommand) -> (accepted: bool)
        requires
            old(self).wf(),
        ensures
            final(self).wf(),
            final(self).capacity == old(self).capacity,
            accepted == (old(self).items@.len() < old(self).capacity),
            accepted ==> final(self).items@ == old(self).items@.push(cmd),
            !accepted ==> final(self).items@ == old(self).items@,
    {
        if self.items.len() < self.capacity {
            self.items.push(cmd);
            true
        } else {
            false
        }
    }

    /// Dequeue the oldest accepted command, if any.
    pub fn recv(&mut self) -> (r: Option<PlayerCommand>)
        requires
            old(self).wf(),
        ensures
            final(self).wf(),
            final(self).capacity == old(self).capacity,
            old(self).items@.len() == 0 ==> r is None && final(self).items@ == old(
                self,
            ).items@,
            old(self).items@.len() > 0 ==> {
                &&& r matches Some(c) && c == old(self).items@[0]
                &&& final(self).items@ == old(self).items@.subrange(
                    1,
                    old(self).items@.len() as int,
                )
            },
    {
        if self.items.len() == 0 {
            None
        } else {
            let c = self.items.remove(0);
            Some(c)
        }
    }

    /// Number of commands waiting in the queue.
    pub fn len(&self) -> (n: usize)
        ensures
            n == self.items@.len(),
    {
        self.items.len()
    }
}

} // verus!
