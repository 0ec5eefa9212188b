//! Queue-family ownership transfer of imported images between the external producer and
//! the importing device.
use vstd::prelude::*;

verus! {

/// `VK_QUEUE_FAMILY_EXTERNAL`: the queue family that stands for every queue outside this
/// Vulkan instance.
pub const QUEUE_FAMILY_EXTERNAL: u32 = 0xFFFF_FFFE;

/// Direction of a transfer.
#[derive(Debug, Clone, Copy, PartialEq, Eq, Structural)]
pub enum ImageQueueTransfer {
    /// Take the image from the external producer before it is read.
    Acquire,
    /// Give the image back to the external producer before it writes again.
    Release,
}

/// Source and destination queue family of an image memory barrier.
#[derive(Debug, Clone, Copy, PartialEq, Eq, Structural)]
pub struct QueueTransfer {
    pub src_queue_family: u32,
    pub dst_queue_family: u32,
}

/// The queue families of the barrier that moves an imported image in `direction`, for a
/// device whose queue family is `own_family`: an acquire comes from the external family, a
/// release goes to it.
pub open spec fn spec_queue_transfer(direction: ImageQueueTransfer, own_family: u32) -> QueueTransfer {
    match direction {
        ImageQueueTransfer::Acquire => QueueTransfer {
            src_queue_family: QUEUE_FAMILY_EXTERNAL,
            dst_queue_family: own_family,
        },
        ImageQueueTransfer::Release => QueueTransfer {
            src_queue_family: own_family,
            dst_queue_family: QUEUE_FAMILY_EXTERNAL,
        },
    }
}

pub fn queue_transfer(direction: ImageQueueTransfer, own_family: u32) -> (r: QueueTransfer)
    ensures
        r == spec_queue_transfer(direction, own_family),
{
    match direction {
        ImageQueueTransfer::Acquire => QueueTransfer {
            src_queue_family: QUEUE_FAMILY_EXTERNAL,
            dst_queue_family: own_family,
        },
        ImageQueueTransfer::Release => QueueTransfer {
            src_queue_family: own_family,
            dst_queue_family: QUEUE_FAMILY_EXTERNAL,
        },
    }
}

/// A release undoes an acquire: it moves the image from the family the acquire moved it to,
/// back to the family it came from, which is the external one.
pub proof fn lemma_acquire_release_inverse(own_family: u32)
    ensures
        spec_queue_transfer(ImageQueueTransfer::Release, own_family).src_queue_family
            == spec_queue_transfer(ImageQueueTransfer::Acquire, own_family).dst_queue_family,
        spec_queue_transfer(ImageQueueTransfer::Release, own_family).dst_queue_family
            == spec_queue_transfer(ImageQueueTransfer::Acquire, own_family).src_queue_family,
        spec_queue_transfer(ImageQueueTransfer::Acquire, own_family).src_queue_family
            == QUEUE_FAMILY_EXTERNAL,
{
}

} // verus!
