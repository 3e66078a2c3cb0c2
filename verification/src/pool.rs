//! Command pools: they own the backing storage of command buffers and
//! hand out typed recording handles.

use vstd::prelude::*;
use crate::capability::Capability;
use crate::command::{CommandBuffer, Level, Shot};

verus! {

/// A pool of command-buffer storage, typed by the capability of the queue
/// it was created for.  Only buffers acquired from a pool record; resetting
/// the pool retires them all.
///
/// The caller must not reset the pool while a buffer acquired from it is
/// still referenced by an in-flight submission; that is the one place the
/// protocol trusts the caller rather than a contract.
#[derive(Clone, Copy, Debug, PartialEq, Eq, Structural, Hash)]
pub struct CommandPool {
    /// Capability of the buffers the pool hands out.
    pub capability: Capability,
    /// Number of native buffers the pool has storage for.
    pub allocated: usize,
    /// Next storage slot to hand out.
    pub next_buffer: usize,
}

impl CommandPool {
    /// Handed-out slots never pass the allocated storage.
    pub open spec fn wf(&self) -> bool {
        self.next_buffer <= self.allocated
    }

    /// A pool with storage reserved for `capacity` buffers.
    pub fn new(capability: Capability, capacity: usize) -> (r: CommandPool)
        ensures
            r.wf(),
            r.capability == capability,
            r.allocated == capacity,
            r.next_buffer == 0,
    {
        CommandPool { capability, allocated: capacity, next_buffer: 0 }
    }

    /// Retires every buffer handed out and makes the whole pool available
    /// again.
    pub fn reset(&mut self)
        requires
            old(self).wf(),
        ensures
            final(self).wf(),
            final(self).capability == old(self).capability,
            final(self).allocated == old(self).allocated,
            final(self).next_buffer == 0,
    {
        self.next_buffer = 0;
    }

    /// Reserves storage for `additional` more buffers beyond those already
    /// handed out, growing the backing allocation only when exhausted.
    pub fn reserve(&mut self, additional: usize)
        requires
            old(self).wf(),
            old(self).next_buffer + additional <= usize::MAX,
        ensures
            final(self).wf(),
            final(self).capability == old(self).capability,
            final(self).next_buffer == old(self).next_buffer,
            final(self).allocated == if old(self).next_buffer + additional > old(self).allocated {
                old(self).next_buffer + additional
            } else {
                old(self).allocated as int
            },
    {
        let available = self.allocated - self.next_buffer;
        if additional > available {
            self.allocated = self.allocated + (additional - available);
        }
    }

    /// Hands out a single-use buffer in the recording state, growing the
    /// pool if it is exhausted.
    pub fn acquire_command_buffer(&mut self) -> (r: CommandBuffer)
        requires
            old(self).wf(),
            old(self).next_buffer < usize::MAX,
        ensures
            final(self).wf(),
            final(self).capability == old(self).capability,
            final(self).next_buffer == old(self).next_buffer + 1,
            r.wf(),
            r.capability == old(self).capability,
            r.view == old(self).capability,
            r.shot == Shot::OneShot,
            r.level == Level::Primary,
            r.commands@.len() == 0,
    {
        self.reserve(1);
        self.next_buffer = self.next_buffer + 1;
        CommandBuffer::new(self.capability, Shot::OneShot, Level::Primary)
    }

    /// Hands out a reusable buffer in the recording state: once finished
    /// it may back any number of submissions.
    pub fn acquire_reusable_command_buffer(&mut self) -> (r: CommandBuffer)
        requires
            old(self).wf(),
            old(self).next_buffer < usize::MAX,
        ensures
            final(self).wf(),
            final(self).capability == old(self).capability,
            final(self).next_buffer == old(self).next_buffer + 1,
            r.wf(),
            r.capability == old(self).capability,
            r.view == old(self).capability,
            r.shot == Shot::MultiShot,
            r.level == Level::Primary,
            r.commands@.len() == 0,
    {
        self.reserve(1);
        self.next_buffer = self.next_buffer + 1;
        CommandBuffer::new(self.capability, Shot::MultiShot, Level::Primary)
    }
}

} // verus!
