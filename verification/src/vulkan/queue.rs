//! Which queue the engine submits graphics work to.

use crate::vk_engine::VkEngineError;
use crate::vulkan::ash_bindings::{error_initialization_failed, initialization_failed_code};
use crate::vulkan::logical_devices::{is_queue_plan_for, requested_families, QueueCreateRequest};
use crate::vulkan::queue_families::QueueFamilyIndices;
use vstd::prelude::*;

verus! {

/// A queue of the logical device: its family and its index within the family.
pub struct QueueLocation {
    pub queue_family_index: u32,
    pub queue_index: u32,
}

/// The graphics queue is the first queue of the graphics family. Without a graphics
/// family there is none, and the answer is `ERROR_INITIALIZATION_FAILED`.
pub fn graphics_queue_location(queue_families: &QueueFamilyIndices) -> (r: Result<
    QueueLocation,
    VkEngineError,
>)
    ensures
        match queue_families.graphics_family {
            Some(family) => r == Ok::<QueueLocation, VkEngineError>(
                QueueLocation { queue_family_index: family, queue_index: 0 },
            ),
            None => r == Err::<QueueLocation, VkEngineError>(
                VkEngineError::VulkanInstance(initialization_failed_code()),
            ),
        },
{
    let graphics_family_index = match queue_families.graphics_family {
        Some(family) => family,
        None => {
            return Err(VkEngineError::VulkanInstance(error_initialization_failed()));
        },
    };
    Ok(QueueLocation { queue_family_index: graphics_family_index, queue_index: 0 })
}

/// The graphics queue that is fetched is one that the logical device was created
/// with: whenever both are decided from the same families, some request names the
/// graphics family and creates more queues in it than the fetched queue's index.
pub proof fn law_graphics_queue_was_requested(
    indices: QueueFamilyIndices,
    requests: Seq<QueueCreateRequest>,
    location: QueueLocation,
)
    requires
        is_queue_plan_for(requests, indices),
        indices.graphics_family == Some(location.queue_family_index),
        location.queue_index == 0,
    ensures
        exists|k: int|
            0 <= k < requests.len() && #[trigger] requests[k].queue_family_index
                == location.queue_family_index && location.queue_index < requests[k].queue_count,
{
    let g = location.queue_family_index;
    assert(indices.unique_families().contains(g));
    assert(requested_families(requests).to_set().contains(g));
    assert(requested_families(requests).contains(g));
    let k = choose|k: int| 0 <= k < requested_families(requests).len() && requested_families(requests)[k] == g;
    assert(requests[k].queue_count == 1);
}

} // verus!
