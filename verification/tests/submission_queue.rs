//! Submissions, capability promotion, queues and fence gating.

use gfx_hal::capability::Capability;
use gfx_hal::command::{CommandBuffer, Level, Shot};
use gfx_hal::pso::PipelineStage;
use gfx_hal::queue::{Fence, Queue, Semaphore};
use gfx_hal::submission::Submission;

fn finished(capability: Capability, shot: Shot) -> gfx_hal::command::Submit {
    let mut cb = CommandBuffer::new(capability, shot, Level::Primary);
    if capability.supports(Capability::Graphics) {
        cb.set_viewports(&[]);
    }
    cb.finish()
}

#[test]
fn submission_capability_is_promoted_to_the_join() {
    // A transfer submission absorbing a graphics buffer becomes a
    // graphics submission, never a silent downgrade.
    let graphics = finished(Capability::Graphics, Shot::OneShot);
    let submission = Submission::new();
    assert_eq!(submission.capability, Capability::Transfer);
    let submission = submission.submit(vec![graphics]);
    assert_eq!(submission.capability, Capability::Graphics);

    // Mixing compute in promotes to general.
    let compute = finished(Capability::Compute, Shot::OneShot);
    let submission = submission.submit(vec![compute]);
    assert_eq!(submission.capability, Capability::General);
    assert_eq!(submission.buffer_count(), 2);
}

#[test]
fn transfer_queue_rejects_promoted_submission() {
    let graphics = finished(Capability::Graphics, Shot::OneShot);
    let submission = Submission::new().submit(vec![graphics]);

    let transfer_queue = Queue::new(1, Capability::Transfer);
    assert!(!transfer_queue.supports_submission(&submission));

    let graphics_queue = Queue::new(2, Capability::Graphics);
    assert!(graphics_queue.supports_submission(&submission));

    let general_queue = Queue::new(3, Capability::General);
    assert!(general_queue.supports_submission(&submission));
}

#[test]
fn waits_and_signals_accumulate_across_calls() {
    let a = Semaphore { id: 10 };
    let b = Semaphore { id: 11 };
    let c = Semaphore { id: 12 };
    let submission = Submission::new()
        .wait_on(&[(a, PipelineStage::bottom_of_pipe())])
        .signal(&[b])
        .wait_on(&[(c, PipelineStage::transfer())])
        .signal(&[a]);
    assert_eq!(submission.waits(), vec![(10, 0x2000), (12, 0x1000)]);
    assert_eq!(submission.signals(), vec![11, 10]);
}

#[test]
fn promote_upcasts_without_touching_contents() {
    let copy = finished(Capability::Transfer, Shot::OneShot);
    let submission = Submission::new().submit(vec![copy]);
    assert_eq!(submission.capability, Capability::Transfer);
    let promoted = submission.promote(Capability::Graphics);
    assert_eq!(promoted.capability, Capability::Graphics);
    assert_eq!(promoted.buffer_count(), 1);
}

#[test]
fn reusable_submit_backs_many_submissions() {
    let multi = finished(Capability::Graphics, Shot::MultiShot);
    let first = Submission::new().submit_reusables(&vec![multi.duplicate()]);
    let second = Submission::new().submit_reusables(&vec![multi]);
    assert_eq!(first.capability, Capability::Graphics);
    assert_eq!(second.capability, Capability::Graphics);
    assert_eq!(first.buffer_count(), 1);
    assert_eq!(second.buffer_count(), 1);

    let mut queue = Queue::new(4, Capability::General);
    queue.submit(first);
    queue.submit(second);
    assert_eq!(queue.submitted, 2);
}

#[test]
fn fence_gates_host_reuse_until_completion() {
    let mut queue = Queue::new(5, Capability::General);
    let mut fence = Fence::new(false);

    let graphics = finished(Capability::Graphics, Shot::OneShot);
    let submission = Submission::new().submit(vec![graphics]);
    queue.submit_with_fence(submission, &mut fence);

    // The device has not retired the submission yet: the fence is not
    // signalled and the completed count is behind.  Touching resources of
    // the submission now would race the device.
    assert!(!fence.is_signaled());
    assert!(queue.completed < queue.submitted);

    // Waiting returns only once the submission has retired.
    fence.wait(&mut queue);
    assert!(fence.is_signaled());
    assert!(queue.completed >= 1);
    assert_eq!(queue.submitted, 1);
}

#[test]
fn wait_idle_retires_everything() {
    let mut queue = Queue::new(6, Capability::Transfer);
    let copy = finished(Capability::Transfer, Shot::OneShot);
    queue.submit(Submission::new().submit(vec![copy]));
    let copy = finished(Capability::Transfer, Shot::OneShot);
    queue.submit(Submission::new().submit(vec![copy]));
    assert_eq!(queue.submitted, 2);
    assert!(queue.completed < 2);
    queue.wait_idle();
    assert_eq!(queue.completed, 2);
}

#[test]
fn fence_reset_makes_it_reusable() {
    let mut queue = Queue::new(7, Capability::General);
    let mut fence = Fence::new(true);
    assert!(fence.is_signaled());
    fence.reset();
    assert!(!fence.is_signaled());

    let copy = finished(Capability::Transfer, Shot::OneShot);
    queue.submit_with_fence(Submission::new().submit(vec![copy]), &mut fence);
    fence.wait(&mut queue);
    fence.reset();
    assert!(!fence.is_signaled());
}

#[test]
fn raw_submission_carries_capabilities_and_semaphores() {
    let copy = finished(Capability::Transfer, Shot::OneShot);
    let graphics = finished(Capability::Graphics, Shot::OneShot);
    let submission = Submission::new()
        .wait_on(&[(Semaphore { id: 3 }, PipelineStage::top_of_pipe())])
        .signal(&[Semaphore { id: 4 }])
        .submit(vec![copy, graphics]);
    let raw = submission.as_raw();
    assert_eq!(raw.cmd_buffers, vec![Capability::Transfer, Capability::Graphics]);
    assert_eq!(raw.wait_semaphores, vec![(3, 0x1)]);
    assert_eq!(raw.signal_semaphores, vec![4]);
}

#[test]
fn try_wait_reports_not_yet_without_signalling() {
    let mut queue = Queue::new(8, Capability::General);
    let mut fence = Fence::new(false);
    let copy = finished(Capability::Transfer, Shot::OneShot);
    queue.submit_with_fence(Submission::new().submit(vec![copy]), &mut fence);

    // The device has retired nothing: the poll times out and the fence
    // stays unsignalled.
    assert!(!fence.try_wait(&mut queue, 0));
    assert!(!fence.is_signaled());

    // Once the device reports the submission retired, the poll succeeds.
    assert!(fence.try_wait(&mut queue, 1));
    assert!(fence.is_signaled());
    assert_eq!(queue.completed, 1);
}
