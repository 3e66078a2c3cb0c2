//! Physical devices: what an instance reports about the hardware, and the
//! opening of queues from an adapter's queue families.

use vstd::prelude::*;
use crate::capability::{spec_supports, Capability};
use crate::queue::Queue;

verus! {

/// What a device reports about itself.
#[derive(Clone, Debug, PartialEq, Eq, Hash)]
pub struct PhysicalDeviceInfo {
    /// Marketing name of the device.
    pub device_name: String,
    /// Vendor identifier.
    pub vendor_id: usize,
    /// Device identifier.
    pub device_id: usize,
    /// Whether the device is a software implementation.
    pub software: bool,
}

/// What a surface reports about the swapchains it can back.
#[derive(Clone, Copy, Debug, PartialEq, Eq, Hash)]
pub struct SurfaceCapabilities {
    /// Fewest images a swapchain over the surface may have.
    pub min_image_count: u32,
    /// Most images a swapchain over the surface may have, or `None` for
    /// no bound.
    pub max_image_count: Option<u32>,
    /// Present extent the surface is fixed to, or `None` when the
    /// swapchain chooses.
    pub current_extent: Option<(u16, u16)>,
}

/// One queue family of a device: its capability and how many queues it
/// offers.
#[derive(Clone, Copy, Debug, PartialEq, Eq, Structural, Hash)]
pub struct QueueFamily {
    /// Capability of every queue of the family.
    pub capability: Capability,
    /// Number of queues the family offers.
    pub num_queues: u32,
}

/// A physical device as an instance enumerates it: its description and
/// its queue families.
#[derive(Clone, Debug, PartialEq, Eq, Hash)]
pub struct Adapter {
    /// What the device reports about itself.
    pub info: PhysicalDeviceInfo,
    /// The queue families of the device.
    pub queue_families: Vec<QueueFamily>,
    /// Next fresh queue handle.
    pub next_queue_id: u64,
}

impl Adapter {
    /// What the device reports about itself.
    pub fn get_info(&self) -> (r: &PhysicalDeviceInfo)
        ensures
            r == &self.info,
    {
        &self.info
    }

    /// Opens one queue from every family that supports the required
    /// capability, in family order.  Opening from families the work does
    /// not fit would give the native driver undefined behaviour, so only
    /// matching families are considered at all.
    pub fn open(&mut self, required: Capability) -> (r: Vec<Queue>)
        requires
            old(self).next_queue_id + old(self).queue_families@.len() <= u64::MAX,
        ensures
            final(self).info == old(self).info,
            final(self).queue_families == old(self).queue_families,
            r@.len() <= old(self).queue_families@.len(),
            forall|i: int|
                0 <= i < r@.len() ==> (#[trigger] r@[i]).wf() && spec_supports(
                    r@[i].capability,
                    required,
                ) && r@[i].submitted == 0,
            (exists|j: int|
                0 <= j < old(self).queue_families@.len() && spec_supports(
                    (#[trigger] old(self).queue_families@[j]).capability,
                    required,
                ) && old(self).queue_families@[j].num_queues >= 1) ==> r@.len() >= 1,
    {
        let mut queues: Vec<Queue> = Vec::new();
        let mut i: usize = 0;
        while i < self.queue_families.len()
            invariant
                i <= self.queue_families@.len(),
                self.info == old(self).info,
                self.queue_families == old(self).queue_families,
                self.next_queue_id <= old(self).next_queue_id + i,
                old(self).next_queue_id + self.queue_families@.len() <= u64::MAX,
                queues@.len() <= i,
                forall|k: int|
                    0 <= k < queues@.len() ==> (#[trigger] queues@[k]).wf() && spec_supports(
                        queues@[k].capability,
                        required,
                    ) && queues@[k].submitted == 0,
                (exists|j: int|
                    0 <= j < i && spec_supports(
                        (#[trigger] self.queue_families@[j]).capability,
                        required,
                    ) && self.queue_families@[j].num_queues >= 1) ==> queues@.len() >= 1,
            decreases self.queue_families@.len() - i,
        {
            let family = self.queue_families[i];
            if family.capability.supports(required) && family.num_queues >= 1 {
                let queue = Queue::new(self.next_queue_id, family.capability);
                self.next_queue_id = self.next_queue_id + 1;
                queues.push(queue);
            }
            i = i + 1;
        }
        queues
    }
}

} // verus!
