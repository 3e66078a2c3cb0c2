//! Queue submissions: an accumulator of finished command buffers with the
//! semaphores that order them, its capability promoted to the join of
//! everything appended.

use vstd::prelude::*;
use crate::capability::{spec_join, spec_supports, Capability};
use crate::command::{
    spec_begin_count, spec_cmds_supported, spec_end_count, Command, Level, Shot, Submit,
};
use crate::pso::PipelineStage;
use crate::queue::Semaphore;

verus! {

/// The semaphore wait list of a submission: pairs of a semaphore handle
/// and the pipeline-stage bits the wait happens at, held in the outside
/// small-vector container.  The container's own declaration is beyond the
/// verifier, so it stands in a hidden field, reached only through the
/// trusted accessors below, whose contracts speak of `wait_list_entries`.
#[verifier::external_body]
pub struct WaitList {
    inner: smallvec::SmallVec<[(u64, u32); 16]>,
}

/// The semaphore signal list of a submission: semaphore handles held in
/// the outside small-vector container, as for `WaitList`.
#[verifier::external_body]
pub struct SignalList {
    inner: smallvec::SmallVec<[u64; 16]>,
}

/// What a wait list holds: semaphore handles with stage bits, in order.
pub uninterp spec fn wait_list_entries(v: WaitList) -> Seq<(u64, u32)>;

/// What a signal list holds: semaphore handles, in order.
pub uninterp spec fn signal_list_entries(v: SignalList) -> Seq<u64>;

/// Relies on smallvec's `SmallVec::new`: an empty vector.
#[verifier::external_body]
fn wait_list_new() -> (r: WaitList)
    ensures
        wait_list_entries(r) == Seq::<(u64, u32)>::empty(),
{
    WaitList { inner: smallvec::SmallVec::new() }
}

/// Relies on smallvec's `SmallVec::push`: appends one item at the end.
#[verifier::external_body]
fn wait_list_push(v: &mut WaitList, entry: (u64, u32))
    ensures
        wait_list_entries(*final(v)) == wait_list_entries(*old(v)).push(entry),
{
    v.inner.push(entry);
}

/// Relies on smallvec's `SmallVec::as_slice`: the items in order.
#[verifier::external_body]
fn wait_list_to_vec(v: &WaitList) -> (r: Vec<(u64, u32)>)
    ensures
        r@ == wait_list_entries(*v),
{
    v.inner.as_slice().to_vec()
}

/// Relies on smallvec's `SmallVec::new`: an empty vector.
#[verifier::external_body]
fn signal_list_new() -> (r: SignalList)
    ensures
        signal_list_entries(r) == Seq::<u64>::empty(),
{
    SignalList { inner: smallvec::SmallVec::new() }
}

/// Relies on smallvec's `SmallVec::push`: appends one item at the end.
#[verifier::external_body]
fn signal_list_push(v: &mut SignalList, entry: u64)
    ensures
        signal_list_entries(*final(v)) == signal_list_entries(*old(v)).push(entry),
{
    v.inner.push(entry);
}

/// Relies on smallvec's `SmallVec::as_slice`: the items in order.
#[verifier::external_body]
fn signal_list_to_vec(v: &SignalList) -> (r: Vec<u64>)
    ensures
        r@ == signal_list_entries(*v),
{
    v.inner.as_slice().to_vec()
}

/// One command buffer absorbed into a submission: the capability it was
/// recorded under and its trace.
pub struct SubmitEntry {
    /// Capability the buffer was recorded under.
    pub capability: Capability,
    /// The buffer's trace.
    pub commands: Ghost<Seq<Command>>,
}

impl SubmitEntry {
    /// The absorbed buffer was soundly recorded.
    pub open spec fn wf(&self) -> bool {
        &&& spec_cmds_supported(self.commands@, self.capability)
        &&& spec_begin_count(self.commands@) == spec_end_count(self.commands@)
    }
}

/// The join of a base capability with each of a sequence of capabilities.
pub open spec fn spec_join_all(base: Capability, caps: Seq<Capability>) -> Capability
    decreases caps.len(),
{
    if caps.len() == 0 {
        base
    } else {
        spec_join(spec_join_all(base, caps.drop_last()), caps.last())
    }
}

/// The join of a base with a sequence supports the base and every element
/// of the sequence.
pub proof fn lemma_join_all_upper_bound(base: Capability, caps: Seq<Capability>)
    ensures
        spec_supports(spec_join_all(base, caps), base),
        forall|i: int| 0 <= i < caps.len() ==> spec_supports(spec_join_all(base, caps), #[trigger] caps[i]),
    decreases caps.len(),
{
    if caps.len() == 0 {
    } else {
        let prev = spec_join_all(base, caps.drop_last());
        lemma_join_all_upper_bound(base, caps.drop_last());
        crate::capability::lemma_join_upper_bound(prev, caps.last());
        assert forall|i: int| 0 <= i < caps.len() implies spec_supports(
            spec_join_all(base, caps),
            #[trigger] caps[i],
        ) by {
            if i < caps.len() - 1 {
                assert(caps.drop_last()[i] == caps[i]);
                crate::capability::lemma_supports_transitive(
                    spec_join_all(base, caps),
                    prev,
                    caps[i],
                );
            }
        }
        crate::capability::lemma_supports_transitive(spec_join_all(base, caps), prev, base);
    }
}

/// The join of a base with a sequence is the least capability above them:
/// any capability supporting the base and every element supports the join.
pub proof fn lemma_join_all_least_upper_bound(
    base: Capability,
    caps: Seq<Capability>,
    c: Capability,
)
    requires
        spec_supports(c, base),
        forall|i: int| 0 <= i < caps.len() ==> spec_supports(c, #[trigger] caps[i]),
    ensures
        spec_supports(c, spec_join_all(base, caps)),
    decreases caps.len(),
{
    if caps.len() > 0 {
        assert forall|i: int| 0 <= i < caps.drop_last().len() implies spec_supports(
            c,
            #[trigger] caps.drop_last()[i],
        ) by {
            assert(caps.drop_last()[i] == caps[i]);
        }
        lemma_join_all_least_upper_bound(base, caps.drop_last(), c);
        crate::capability::lemma_join_least_upper_bound(
            spec_join_all(base, caps.drop_last()),
            caps.last(),
            c,
        );
    }
}

/// Submission information for one queue-submit call: finished command
/// buffers plus the semaphores ordering them.  Its capability is promoted
/// automatically to the join of everything appended; a queue accepts the
/// submission only if it supports that capability.
pub struct Submission {
    /// Join of the capabilities of every absorbed buffer.
    pub capability: Capability,
    /// The absorbed buffers, in order.
    pub cmd_buffers: Vec<SubmitEntry>,
    /// Semaphores waited on before execution, with the stages the waits
    /// happen at.
    pub wait_semaphores: WaitList,
    /// Semaphores signalled once execution finishes.
    pub signal_semaphores: SignalList,
}

impl Submission {
    /// Every absorbed buffer was soundly recorded and is within the
    /// submission's capability.
    pub open spec fn wf(&self) -> bool {
        forall|i: int|
            0 <= i < self.cmd_buffers@.len() ==> (#[trigger] self.cmd_buffers@[i]).wf()
                && spec_supports(self.capability, self.cmd_buffers@[i].capability)
    }

    /// The wait-semaphore entries, in order.
    pub open spec fn spec_waits(&self) -> Seq<(u64, u32)> {
        wait_list_entries(self.wait_semaphores)
    }

    /// The signal-semaphore handles, in order.
    pub open spec fn spec_signals(&self) -> Seq<u64> {
        signal_list_entries(self.signal_semaphores)
    }

    /// A new empty submission.  Its capability is `Transfer`, the
    /// capability every queue supports.
    pub fn new() -> (r: Submission)
        ensures
            r.wf(),
            r.capability == Capability::Transfer,
            r.cmd_buffers@.len() == 0,
            r.spec_waits().len() == 0,
            r.spec_signals().len() == 0,
    {
        Submission {
            capability: Capability::Transfer,
            cmd_buffers: Vec::new(),
            wait_semaphores: wait_list_new(),
            signal_semaphores: signal_list_new(),
        }
    }

    /// Appends semaphores the submission will wait on, each at the given
    /// pipeline stage.  Waits accumulate across calls.
    pub fn wait_on(self, semaphores: &[(Semaphore, PipelineStage)]) -> (r: Submission)
        ensures
            r.capability == self.capability,
            r.cmd_buffers@ == self.cmd_buffers@,
            r.spec_signals() == self.spec_signals(),
            r.spec_waits() == self.spec_waits() + semaphores@.map(
                |i: int, e: (Semaphore, PipelineStage)| (e.0.id, e.1.bits),
            ),
            self.wf() ==> r.wf(),
    {
        let ghost mapped = semaphores@.map(
            |i: int, e: (Semaphore, PipelineStage)| (e.0.id, e.1.bits),
        );
        let mut out = self;
        let mut i: usize = 0;
        proof {
            assert(out.spec_waits() =~= out.spec_waits() + mapped.take(0));
        }
        while i < semaphores.len()
            invariant
                i <= semaphores@.len(),
                mapped == semaphores@.map(
                    |i: int, e: (Semaphore, PipelineStage)| (e.0.id, e.1.bits),
                ),
                out.capability == self.capability,
                out.cmd_buffers@ == self.cmd_buffers@,
                out.spec_signals() == self.spec_signals(),
                out.spec_waits() == self.spec_waits() + mapped.take(i as int),
            decreases semaphores@.len() - i,
        {
            let entry = semaphores[i];
            wait_list_push(&mut out.wait_semaphores, (entry.0.id, entry.1.bits));
            proof {
                assert(mapped.take(i + 1int) =~= mapped.take(i as int).push(mapped[i as int]));
                assert(out.spec_waits() =~= self.spec_waits() + mapped.take(i + 1int));
            }
            i = i + 1;
        }
        proof {
            assert(mapped.take(semaphores@.len() as int) =~= mapped);
        }
        out
    }

    /// Appends semaphores signalled once the submission has executed.
    /// Signals accumulate across calls.
    pub fn signal(self, semaphores: &[Semaphore]) -> (r: Submission)
        ensures
            r.capability == self.capability,
            r.cmd_buffers@ == self.cmd_buffers@,
            r.spec_waits() == self.spec_waits(),
            r.spec_signals() == self.spec_signals() + semaphores@.map(
                |i: int, s: Semaphore| s.id,
            ),
            self.wf() ==> r.wf(),
    {
        let ghost mapped = semaphores@.map(|i: int, s: Semaphore| s.id);
        let mut out = self;
        let mut i: usize = 0;
        proof {
            assert(out.spec_signals() =~= out.spec_signals() + mapped.take(0));
        }
        while i < semaphores.len()
            invariant
                i <= semaphores@.len(),
                mapped == semaphores@.map(|i: int, s: Semaphore| s.id),
                out.capability == self.capability,
                out.cmd_buffers@ == self.cmd_buffers@,
                out.spec_waits() == self.spec_waits(),
                out.spec_signals() == self.spec_signals() + mapped.take(i as int),
            decreases semaphores@.len() - i,
        {
            let entry = semaphores[i];
            signal_list_push(&mut out.signal_semaphores, entry.id);
            proof {
                assert(mapped.take(i + 1int) =~= mapped.take(i as int).push(mapped[i as int]));
                assert(out.spec_signals() =~= self.spec_signals() + mapped.take(i + 1int));
            }
            i = i + 1;
        }
        proof {
            assert(mapped.take(semaphores@.len() as int) =~= mapped);
        }
        out
    }

    /// Appends finished one-shot primary buffers, consuming them.  The
    /// submission's capability is promoted to the join of its old
    /// capability and every appended buffer's capability — mixing a
    /// transfer-only copy into a graphics submission yields a graphics
    /// submission, never a silent downgrade.
    pub fn submit(self, submits: Vec<Submit>) -> (r: Submission)
        requires
            self.wf(),
            forall|i: int|
                0 <= i < submits@.len() ==> {
                    let s = #[trigger] submits@[i];
                    &&& s.wf()
                    &&& s.shot == Shot::OneShot
                    &&& s.level == Level::Primary
                    &&& !s.subpass_scope
                },
        ensures
            r.wf(),
            r.capability == spec_join_all(
                self.capability,
                submits@.map(|i: int, s: Submit| s.capability),
            ),
            spec_supports(r.capability, self.capability),
            r.cmd_buffers@.len() == self.cmd_buffers@.len() + submits@.len(),
            forall|i: int|
                0 <= i < self.cmd_buffers@.len() ==> #[trigger] r.cmd_buffers@[i].capability
                    == self.cmd_buffers@[i].capability && r.cmd_buffers@[i].commands@
                    == self.cmd_buffers@[i].commands@,
            forall|i: int|
                0 <= i < submits@.len() ==> {
                    let e = #[trigger] r.cmd_buffers@[self.cmd_buffers@.len() + i];
                    e.capability == submits@[i].capability && e.commands@ == submits@[i].buffer@
                },
            r.spec_waits() == self.spec_waits(),
            r.spec_signals() == self.spec_signals(),
    {
        self.absorb(submits)
    }

    /// Appends finished reusable primary buffers, borrowing them: the same
    /// multi-shot buffer may appear in many submissions.  The capability
    /// is promoted exactly as for `submit`.
    pub fn submit_reusables(self, submits: &Vec<Submit>) -> (r: Submission)
        requires
            self.wf(),
            forall|i: int|
                0 <= i < submits@.len() ==> {
                    let s = #[trigger] submits@[i];
                    &&& s.wf()
                    &&& s.shot == Shot::MultiShot
                    &&& s.level == Level::Primary
                    &&& !s.subpass_scope
                },
        ensures
            r.wf(),
            r.capability == spec_join_all(
                self.capability,
                submits@.map(|i: int, s: Submit| s.capability),
            ),
            spec_supports(r.capability, self.capability),
            r.cmd_buffers@.len() == self.cmd_buffers@.len() + submits@.len(),
            forall|i: int|
                0 <= i < self.cmd_buffers@.len() ==> #[trigger] r.cmd_buffers@[i].capability
                    == self.cmd_buffers@[i].capability && r.cmd_buffers@[i].commands@
                    == self.cmd_buffers@[i].commands@,
            forall|i: int|
                0 <= i < submits@.len() ==> {
                    let e = #[trigger] r.cmd_buffers@[self.cmd_buffers@.len() + i];
                    e.capability == submits@[i].capability && e.commands@ == submits@[i].buffer@
                },
            r.spec_waits() == self.spec_waits(),
            r.spec_signals() == self.spec_signals(),
    {
        let mut duplicated: Vec<Submit> = Vec::new();
        let mut i: usize = 0;
        while i < submits.len()
            invariant
                i <= submits@.len(),
                duplicated@.len() == i,
                forall|j: int|
                    0 <= j < submits@.len() ==> {
                        let s = #[trigger] submits@[j];
                        &&& s.wf()
                        &&& s.shot == Shot::MultiShot
                        &&& s.level == Level::Primary
                        &&& !s.subpass_scope
                    },
                forall|j: int|
                    0 <= j < i ==> {
                        let d = #[trigger] duplicated@[j];
                        &&& d.wf()
                        &&& d.level == Level::Primary
                        &&& !d.subpass_scope
                        &&& d.capability == submits@[j].capability
                        &&& d.buffer@ == submits@[j].buffer@
                    },
            decreases submits@.len() - i,
        {
            duplicated.push(submits[i].duplicate());
            i = i + 1;
        }
        proof {
            assert(duplicated@.map(|i: int, s: Submit| s.capability) =~= submits@.map(
                |i: int, s: Submit| s.capability,
            ));
        }
        self.absorb(duplicated)
    }

    /// Absorbs finished primary buffers, joining their capabilities in.
    fn absorb(self, submits: Vec<Submit>) -> (r: Submission)
        requires
            self.wf(),
            forall|i: int|
                0 <= i < submits@.len() ==> {
                    let s = #[trigger] submits@[i];
                    &&& s.wf()
                    &&& s.level == Level::Primary
                    &&& !s.subpass_scope
                },
        ensures
            r.wf(),
            r.capability == spec_join_all(
                self.capability,
                submits@.map(|i: int, s: Submit| s.capability),
            ),
            spec_supports(r.capability, self.capability),
            r.cmd_buffers@.len() == self.cmd_buffers@.len() + submits@.len(),
            forall|i: int|
                0 <= i < self.cmd_buffers@.len() ==> #[trigger] r.cmd_buffers@[i].capability
                    == self.cmd_buffers@[i].capability && r.cmd_buffers@[i].commands@
                    == self.cmd_buffers@[i].commands@,
            forall|i: int|
                0 <= i < submits@.len() ==> {
                    let e = #[trigger] r.cmd_buffers@[self.cmd_buffers@.len() + i];
                    e.capability == submits@[i].capability && e.commands@ == submits@[i].buffer@
                },
            r.spec_waits() == self.spec_waits(),
            r.spec_signals() == self.spec_signals(),
    {
        let ghost caps = submits@.map(|i: int, s: Submit| s.capability);
        let ghost base_len = self.cmd_buffers@.len() as int;
        let mut out = self;
        let mut i: usize = 0;
        proof {
            assert(caps.take(0) =~= Seq::<Capability>::empty());
        }
        let n = submits.len();
        while i < n
            invariant
                i <= n,
                n == submits@.len(),
                submits@.map(|i: int, s: Submit| s.capability) == caps,
                forall|j: int|
                    0 <= j < submits@.len() ==> {
                        let s = #[trigger] submits@[j];
                        &&& s.wf()
                        &&& s.level == Level::Primary
                        &&& !s.subpass_scope
                    },
                base_len == self.cmd_buffers@.len(),
                out.capability == spec_join_all(self.capability, caps.take(i as int)),
                spec_supports(out.capability, self.capability),
                out.wf(),
                out.cmd_buffers@.len() == base_len + i,
                forall|j: int|
                    0 <= j < base_len ==> #[trigger] out.cmd_buffers@[j].capability
                        == self.cmd_buffers@[j].capability && out.cmd_buffers@[j].commands@
                        == self.cmd_buffers@[j].commands@,
                forall|j: int|
                    0 <= j < i ==> {
                        let e = #[trigger] out.cmd_buffers@[base_len + j];
                        e.capability == submits@[j].capability && e.commands@
                            == submits@[j].buffer@
                    },
                out.spec_waits() == self.spec_waits(),
                out.spec_signals() == self.spec_signals(),
            decreases n - i,
        {
            let s = &submits[i];
            let new_cap = out.capability.join(s.capability);
            proof {
                crate::capability::lemma_join_upper_bound(out.capability, s.capability);
                assert forall|j: int| 0 <= j < out.cmd_buffers@.len() implies spec_supports(
                    new_cap,
                    (#[trigger] out.cmd_buffers@[j]).capability,
                ) by {
                    crate::capability::lemma_supports_transitive(
                        new_cap,
                        out.capability,
                        out.cmd_buffers@[j].capability,
                    );
                }
                crate::capability::lemma_supports_transitive(
                    new_cap,
                    out.capability,
                    self.capability,
                );
                assert(caps.take(i + 1int) =~= caps.take(i as int).push(caps[i as int]));
                assert(caps.take(i + 1int).drop_last() =~= caps.take(i as int));
            }
            let entry = SubmitEntry { capability: s.capability, commands: Ghost(s.buffer@) };
            let ghost prev = out.cmd_buffers@;
            out.capability = new_cap;
            out.cmd_buffers.push(entry);
            proof {
                let ge = SubmitEntry {
                    capability: submits@[i as int].capability,
                    commands: Ghost(submits@[i as int].buffer@),
                };
                assert(prev.len() == base_len + i);
                assert(out.cmd_buffers@ == prev.push(ge));
                assert forall|j: int| 0 <= j < i + 1 implies {
                    let e = #[trigger] out.cmd_buffers@[base_len + j];
                    e.capability == submits@[j].capability && e.commands@ == submits@[j].buffer@
                } by {
                    if j < i {
                        assert(prev.push(ge)[base_len + j] == prev[base_len + j]);
                    } else {
                        assert(prev.push(ge)[base_len + j] == ge);
                    }
                }
            }
            i = i + 1;
        }
        proof {
            assert(caps.take(n as int) =~= caps);
        }
        out
    }

    /// Promotes the submission to a higher capability, for merging
    /// submissions of different minimum capability before one submit call.
    pub fn promote(self, target: Capability) -> (r: Submission)
        requires
            self.wf(),
            spec_supports(target, self.capability),
        ensures
            r.wf(),
            r.capability == target,
            r.cmd_buffers@ == self.cmd_buffers@,
            r.spec_waits() == self.spec_waits(),
            r.spec_signals() == self.spec_signals(),
    {
        proof {
            assert forall|j: int| 0 <= j < self.cmd_buffers@.len() implies spec_supports(
                target,
                (#[trigger] self.cmd_buffers@[j]).capability,
            ) by {
                crate::capability::lemma_supports_transitive(
                    target,
                    self.capability,
                    self.cmd_buffers@[j].capability,
                );
            }
        }
        Submission {
            capability: target,
            cmd_buffers: self.cmd_buffers,
            wait_semaphores: self.wait_semaphores,
            signal_semaphores: self.signal_semaphores,
        }
    }

    /// The wait-semaphore entries as a plain vector.
    pub fn waits(&self) -> (r: Vec<(u64, u32)>)
        ensures
            r@ == self.spec_waits(),
    {
        wait_list_to_vec(&self.wait_semaphores)
    }

    /// The signal-semaphore handles as a plain vector.
    pub fn signals(&self) -> (r: Vec<u64>)
        ensures
            r@ == self.spec_signals(),
    {
        signal_list_to_vec(&self.signal_semaphores)
    }

    /// Number of absorbed command buffers.
    pub fn buffer_count(&self) -> (r: usize)
        ensures
            r == self.cmd_buffers@.len(),
    {
        self.cmd_buffers.len()
    }

    /// Converts the strong-typed submission into the untyped form a
    /// backend consumes: the capabilities of the buffers in submission
    /// order, and the semaphore lists as plain vectors.
    pub fn as_raw(&self) -> (r: RawSubmission)
        ensures
            r.cmd_buffers@ == self.cmd_buffers@.map(|i: int, e: SubmitEntry| e.capability),
            r.wait_semaphores@ == self.spec_waits(),
            r.signal_semaphores@ == self.spec_signals(),
    {
        let mut caps: Vec<Capability> = Vec::new();
        let mut i: usize = 0;
        while i < self.cmd_buffers.len()
            invariant
                i <= self.cmd_buffers@.len(),
                caps@ =~= self.cmd_buffers@.map(|i: int, e: SubmitEntry| e.capability).take(
                    i as int,
                ),
            decreases self.cmd_buffers@.len() - i,
        {
            caps.push(self.cmd_buffers[i].capability);
            proof {
                let mapped = self.cmd_buffers@.map(|i: int, e: SubmitEntry| e.capability);
                assert(caps@ =~= mapped.take(i + 1int));
            }
            i = i + 1;
        }
        proof {
            let mapped = self.cmd_buffers@.map(|i: int, e: SubmitEntry| e.capability);
            assert(mapped.take(mapped.len() as int) =~= mapped);
        }
        RawSubmission {
            cmd_buffers: caps,
            wait_semaphores: wait_list_to_vec(&self.wait_semaphores),
            signal_semaphores: signal_list_to_vec(&self.signal_semaphores),
        }
    }
}

/// Raw submission information for a command queue, with the typing gone:
/// what remains of each buffer is the capability it was recorded under.
pub struct RawSubmission {
    /// Capability of each submitted buffer, in order.
    pub cmd_buffers: Vec<Capability>,
    /// Semaphore handles waited on, with stage bits.
    pub wait_semaphores: Vec<(u64, u32)>,
    /// Semaphore handles signalled.
    pub signal_semaphores: Vec<u64>,
}

} // verus!
