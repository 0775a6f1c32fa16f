//! Which queues the logical device is created with.

use crate::vk_engine::VkEngineError;
use crate::vulkan::ash_bindings::{error_initialization_failed, initialization_failed_code};
use crate::vulkan::queue_families::{law_unique_families_are_the_chosen_ones, QueueFamilyIndices};
use vstd::prelude::*;
use vstd::std_specs::hash::spec_hash_keys_iter;
use vstd::std_specs::iter::IteratorSpec;

verus! {

broadcast use vstd::std_specs::hash::group_hash_axioms;

/// One `VkDeviceQueueCreateInfo`: the family and how many queues to create in it.
pub struct QueueCreateRequest {
    pub queue_family_index: u32,
    pub queue_count: u32,
}

/// The families named by a list of requests, in order.
pub open spec fn requested_families(requests: Seq<QueueCreateRequest>) -> Seq<u32> {
    requests.map_values(|request: QueueCreateRequest| request.queue_family_index)
}

/// One queue in each chosen family, each family once.
pub open spec fn is_queue_plan_for(requests: Seq<QueueCreateRequest>, indices: QueueFamilyIndices) -> bool {
    &&& requested_families(requests).to_set() == indices.unique_families()
    &&& requested_families(requests).no_duplicates()
    &&& forall|i: int| 0 <= i < requests.len() ==> #[trigger] requests[i].queue_count == 1
}

/// Every request names a chosen family, and every chosen family, graphics or
/// presentation, is named by some request with one queue.
pub proof fn law_requests_name_exactly_the_chosen_families(
    indices: QueueFamilyIndices,
    requests: Seq<QueueCreateRequest>,
)
    requires
        is_queue_plan_for(requests, indices),
    ensures
        forall|k: int|
            0 <= k < requests.len() ==> (indices.graphics_family == Some(
                #[trigger] requests[k].queue_family_index,
            ) || indices.present_family == Some(requests[k].queue_family_index)),
        forall|f: u32|
            (indices.graphics_family == Some(f) || indices.present_family == Some(f)) ==> exists|
                k: int,
            |
                0 <= k < requests.len() && #[trigger] requests[k].queue_family_index == f
                    && requests[k].queue_count == 1,
{
    let families = requested_families(requests);
    law_unique_families_are_the_chosen_ones(indices);
    assert forall|k: int| 0 <= k < requests.len() implies (indices.graphics_family == Some(
        #[trigger] requests[k].queue_family_index,
    ) || indices.present_family == Some(requests[k].queue_family_index)) by {
        assert(families[k] == requests[k].queue_family_index);
        assert(families.to_set().contains(families[k]));
    }
    assert forall|f: u32|
        (indices.graphics_family == Some(f) || indices.present_family == Some(f)) implies exists|
            k: int,
        |
            0 <= k < requests.len() && #[trigger] requests[k].queue_family_index == f
                && requests[k].queue_count == 1 by {
        assert(indices.unique_families().contains(f));
        assert(families.to_set().contains(f));
        assert(families.contains(f));
        let k = choose|k: int| 0 <= k < families.len() && families[k] == f;
        assert(requests[k].queue_family_index == f);
    }
}

/// The queues to create with the logical device: one queue in each distinct chosen
/// family. Without a graphics family the device cannot be made, and the answer is
/// `ERROR_INITIALIZATION_FAILED`. The order of the requests is that in which the set of
/// families is walked, which is not fixed.
pub fn queue_create_requests(indices: &QueueFamilyIndices) -> (r: Result<
    Vec<QueueCreateRequest>,
    VkEngineError,
>)
    ensures
        match indices.graphics_family {
            None => r == Err::<Vec<QueueCreateRequest>, VkEngineError>(
                VkEngineError::VulkanInstance(initialization_failed_code()),
            ),
            Some(_) => r matches Ok(requests) && is_queue_plan_for(requests@, *indices),
        },
        r matches Ok(requests) ==> {
            &&& forall|k: int|
                0 <= k < requests@.len() ==> (indices.graphics_family == Some(
                    #[trigger] requests@[k].queue_family_index,
                ) || indices.present_family == Some(requests@[k].queue_family_index))
            &&& forall|f: u32|
                (indices.graphics_family == Some(f) || indices.present_family == Some(f)) ==> exists|
                    k: int,
                |
                    0 <= k < requests@.len() && #[trigger] requests@[k].queue_family_index == f
                        && requests@[k].queue_count == 1
        },
{
    if indices.graphics_family.is_none() {
        return Err(VkEngineError::VulkanInstance(error_initialization_failed()));
    }
    let mut queue_create_infos: Vec<QueueCreateRequest> = Vec::new();
    let unique_queue_families = indices.get_unique_queue_families();
    let ghost keys = spec_hash_keys_iter(&unique_queue_families).remaining();
    for queue_family in it: unique_queue_families.iter()
        invariant
            it.seq() == keys,
            queue_create_infos.len() == it.index(),
            forall|k: int|
                0 <= k < it.index() ==> #[trigger] queue_create_infos@[k].queue_family_index
                    == *it.seq()[k],
            forall|k: int| 0 <= k < it.index() ==> #[trigger] queue_create_infos@[k].queue_count == 1,
    {
        queue_create_infos.push(QueueCreateRequest { queue_family_index: *queue_family, queue_count: 1 });
    }
    proof {
        let families = requested_families(queue_create_infos@);
        assert(queue_create_infos.len() == keys.len());
        assert(families =~= keys.unref());
        law_requests_name_exactly_the_chosen_families(*indices, queue_create_infos@);
    }
    Ok(queue_create_infos)
}

} // verus!
