//! Queues, fences and semaphores: the terminal end of the recording
//! pipeline.
//!
//! A queue carries a capability and a timeline: `submitted` counts the
//! submissions handed to it, `completed` how many the device has retired.
//! Work retires asynchronously — nothing moves `completed` but an explicit
//! host wait.  A fence handed to a submit is tied to that submission's
//! position; its `wait` returns only once the queue's completed count has
//! reached the position, so the host never reuses resources the
//! submission still touches.

use vstd::prelude::*;
use crate::capability::{spec_supports, Capability};
use crate::command::spec_cmds_supported;
use crate::factory::Factory;
use crate::submission::Submission;

verus! {

/// A GPU-side-only ordering primitive between queue submissions; never
/// observed or waited on by host code.
#[derive(Clone, Copy, Debug, PartialEq, Eq, Structural, Hash)]
pub struct Semaphore {
    /// Handle of the semaphore.
    pub id: u64,
}

/// A host-waitable completion signal.  While pending it carries the queue
/// and timeline position of the submission it gates.
#[derive(Clone, Copy, Debug, PartialEq, Eq, Hash)]
pub struct Fence {
    /// Whether the fence has been signalled.
    pub signaled: bool,
    /// The queue handle and timeline position the fence gates, while a
    /// submission is in flight.
    pub pending: Option<(u64, u64)>,
}

impl Fence {
    /// A fresh fence, optionally created already signalled.
    pub fn new(signalled: bool) -> (r: Fence)
        ensures
            r.signaled == signalled,
            r.pending is None,
    {
        Fence { signaled: signalled, pending: None }
    }

    /// Whether the fence has been signalled.
    pub fn is_signaled(&self) -> (r: bool)
        ensures
            r == self.signaled,
    {
        self.signaled
    }

    /// Puts a signalled or fresh fence back into the unsignalled state.
    /// A fence still gating an in-flight submission cannot be reset.
    pub fn reset(&mut self)
        requires
            old(self).pending is None,
        ensures
            !final(self).signaled,
            final(self).pending is None,
    {
        self.signaled = false;
    }

    /// Polls the fence under a timeout: `retired` is how many submissions
    /// the device had retired when the timeout ran out.  Advances the
    /// queue's completed count to what the device reports and answers
    /// whether the gated submission is among the retired — a recoverable
    /// not-yet condition, not an error.  A signalled fence stays
    /// signalled.
    pub fn try_wait(&mut self, queue: &mut Queue, retired: u64) -> (r: bool)
        requires
            old(queue).wf(),
            retired <= old(queue).submitted,
            match old(self).pending {
                Some((qid, pos)) => qid == old(queue).id && pos <= old(queue).submitted,
                None => false,
            },
        ensures
            final(queue).wf(),
            final(queue).id == old(queue).id,
            final(queue).capability == old(queue).capability,
            final(queue).submitted == old(queue).submitted,
            final(queue).completed == if retired > old(queue).completed {
                retired as int
            } else {
                old(queue).completed as int
            },
            r == match old(self).pending {
                Some((_, pos)) => final(queue).completed >= pos,
                None => false,
            },
            r ==> final(self).signaled && final(self).pending is None,
            !r ==> *final(self) == *old(self),
    {
        if retired > queue.completed {
            queue.completed = retired;
        }
        let reached = match self.pending {
            Some((_, pos)) => queue.completed >= pos,
            None => false,
        };
        if reached {
            self.signaled = true;
            self.pending = None;
        }
        reached
    }

    /// Blocks until the gated submission has retired.  On return the
    /// queue's completed count has reached the submission's position: all
    /// work of that submission is done, and the host may reuse or free
    /// what it referenced.
    pub fn wait(&mut self, queue: &mut Queue)
        requires
            old(queue).wf(),
            match old(self).pending {
                Some((qid, pos)) => qid == old(queue).id && pos <= old(queue).submitted,
                None => false,
            },
        ensures
            final(queue).wf(),
            final(queue).id == old(queue).id,
            final(queue).capability == old(queue).capability,
            final(queue).submitted == old(queue).submitted,
            final(queue).completed >= old(queue).completed,
            match old(self).pending {
                Some((_, pos)) => final(queue).completed >= pos,
                None => false,
            },
            final(self).signaled,
            final(self).pending is None,
    {
        match self.pending {
            Some((_, pos)) => {
                if queue.completed < pos {
                    queue.completed = pos;
                }
            },
            None => {},
        }
        self.signaled = true;
        self.pending = None;
    }
}

/// A command queue of a device: accepts submissions whose capability it
/// supports and executes them asynchronously.
#[derive(Clone, Copy, Debug, PartialEq, Eq, Hash)]
pub struct Queue {
    /// Handle of the queue.
    pub id: u64,
    /// Capability of the queue; bounds what it accepts.
    pub capability: Capability,
    /// Number of submissions handed to the queue.
    pub submitted: u64,
    /// Number of submissions the device has retired.
    pub completed: u64,
}

impl Queue {
    /// The device never retires more than was submitted.
    pub open spec fn wf(&self) -> bool {
        self.completed <= self.submitted
    }

    /// A fresh queue of the given capability.
    pub fn new(id: u64, capability: Capability) -> (r: Queue)
        ensures
            r.wf(),
            r.id == id,
            r.capability == capability,
            r.submitted == 0,
            r.completed == 0,
    {
        Queue { id, capability, submitted: 0, completed: 0 }
    }

    /// Whether the queue may accept the submission: its own capability
    /// must support the submission's.
    pub fn supports_submission(&self, submission: &Submission) -> (r: bool)
        ensures
            r == spec_supports(self.capability, submission.capability),
    {
        self.capability.supports(submission.capability)
    }

    /// A command pool whose buffers record for this queue.
    pub fn create_command_pool(&self, capacity: usize) -> (r: crate::pool::CommandPool)
        ensures
            r.wf(),
            r.capability == self.capability,
            r.allocated == capacity,
            r.next_buffer == 0,
    {
        crate::pool::CommandPool::new(self.capability, capacity)
    }

    /// Hands a submission to the queue without a fence.  The queue's
    /// capability must support the submission's; out-of-capability
    /// submission is a contract violation, not a runtime condition.
    pub fn submit(&mut self, submission: Submission)
        requires
            old(self).wf(),
            submission.wf(),
            spec_supports(old(self).capability, submission.capability),
            old(self).submitted < u64::MAX,
        ensures
            final(self).wf(),
            final(self).id == old(self).id,
            final(self).capability == old(self).capability,
            final(self).submitted == old(self).submitted + 1,
            final(self).completed == old(self).completed,
    {
        let _ = submission;
        self.submitted = self.submitted + 1;
    }

    /// Hands a submission to the queue with a fence.  The fence becomes
    /// unsignalled and gates this submission: it signals only once the
    /// device has retired it, and the host must not reuse or free any
    /// resource the submission references before then.
    pub fn submit_with_fence(&mut self, submission: Submission, fence: &mut Fence)
        requires
            old(self).wf(),
            submission.wf(),
            spec_supports(old(self).capability, submission.capability),
            old(self).submitted < u64::MAX,
            old(fence).pending is None,
        ensures
            final(self).wf(),
            final(self).id == old(self).id,
            final(self).capability == old(self).capability,
            final(self).submitted == old(self).submitted + 1,
            final(self).completed == old(self).completed,
            !final(fence).signaled,
            final(fence).pending == Some((old(self).id, (old(self).submitted + 1) as u64)),
            final(self).completed < old(self).submitted + 1,
    {
        let _ = submission;
        self.submitted = self.submitted + 1;
        fence.signaled = false;
        fence.pending = Some((self.id, self.submitted));
    }

    /// Blocks until the device has retired every submission handed to the
    /// queue.
    pub fn wait_idle(&mut self)
        requires
            old(self).wf(),
        ensures
            final(self).wf(),
            final(self).id == old(self).id,
            final(self).capability == old(self).capability,
            final(self).submitted == old(self).submitted,
            final(self).completed == old(self).submitted,
    {
        self.completed = self.submitted;
    }
}

impl Factory {
    /// Creates a fence, optionally already signalled.
    pub fn create_fence(&self, signalled: bool) -> (r: Fence)
        ensures
            r.signaled == signalled,
            r.pending is None,
    {
        Fence::new(signalled)
    }

    /// Creates a semaphore.
    pub fn create_semaphore(&mut self) -> (r: Semaphore)
        requires
            old(self).wf(),
            old(self).next_id < u64::MAX,
        ensures
            final(self).wf(),
            final(self).spec_device() == old(self).spec_device(),
            final(self).next_id == old(self).next_id + 1,
            r.id == old(self).next_id,
    {
        let id = self.next_id;
        self.next_id = self.next_id + 1;
        Semaphore { id }
    }
}

/// Capability soundness from recording to submission: when a queue's
/// capability supports a well-formed submission's capability, every
/// command of every buffer the submission absorbed — nested secondary
/// buffers included — is within what the queue's capability allows.
pub proof fn lemma_capability_soundness(queue: Queue, submission: Submission)
    requires
        submission.wf(),
        spec_supports(queue.capability, submission.capability),
    ensures
        forall|i: int|
            0 <= i < submission.cmd_buffers@.len() ==> spec_cmds_supported(
                (#[trigger] submission.cmd_buffers@[i]).commands@,
                queue.capability,
            ),
{
    assert forall|i: int| 0 <= i < submission.cmd_buffers@.len() implies spec_cmds_supported(
        (#[trigger] submission.cmd_buffers@[i]).commands@,
        queue.capability,
    ) by {
        let entry = submission.cmd_buffers@[i];
        crate::capability::lemma_supports_transitive(
            queue.capability,
            submission.capability,
            entry.capability,
        );
        assert forall|j: int| 0 <= j < entry.commands@.len() implies crate::command::spec_cmd_supported(
            queue.capability,
            #[trigger] entry.commands@[j],
        ) by {
            let c = entry.commands@[j];
            assert(crate::command::spec_cmd_supported(entry.capability, c));
            match c {
                crate::command::Command::ExecuteCommands { buffers } => {
                    assert forall|k: int| 0 <= k < buffers.len() implies spec_supports(
                        queue.capability,
                        (#[trigger] buffers[k]).capability,
                    ) && crate::command::spec_nested_ok(buffers[k]) by {
                        crate::capability::lemma_supports_transitive(
                            queue.capability,
                            entry.capability,
                            buffers[k].capability,
                        );
                    }
                },
                _ => {
                    crate::capability::lemma_supports_transitive(
                        queue.capability,
                        entry.capability,
                        crate::command::spec_required(c),
                    );
                },
            }
        }
    }
}

} // verus!
