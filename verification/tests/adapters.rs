//! Adapter enumeration and queue opening.

use gfx_hal::capability::Capability;
use gfx_hal::device::{Adapter, PhysicalDeviceInfo, QueueFamily};

fn adapter() -> Adapter {
    Adapter {
        info: PhysicalDeviceInfo {
            device_name: "model device".to_string(),
            vendor_id: 0x1002,
            device_id: 0x67df,
            software: false,
        },
        queue_families: vec![
            QueueFamily { capability: Capability::General, num_queues: 1 },
            QueueFamily { capability: Capability::Transfer, num_queues: 2 },
            QueueFamily { capability: Capability::Compute, num_queues: 4 },
        ],
        next_queue_id: 1,
    }
}

#[test]
fn open_picks_only_supporting_families() {
    let mut adapter = adapter();
    assert_eq!(adapter.get_info().device_name, "model device");

    let graphics_queues = adapter.open(Capability::Graphics);
    assert_eq!(graphics_queues.len(), 1);
    assert_eq!(graphics_queues[0].capability, Capability::General);

    let transfer_queues = adapter.open(Capability::Transfer);
    assert_eq!(transfer_queues.len(), 3);

    let compute_queues = adapter.open(Capability::Compute);
    assert_eq!(compute_queues.len(), 2);
    assert!(compute_queues.iter().all(|q| q.capability.supports(Capability::Compute)));
}
