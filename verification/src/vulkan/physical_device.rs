//! Picking the physical device to render with.

use crate::vk_engine::VkEngineError;
use crate::vulkan::ash_bindings::{
    error_initialization_failed, has_graphics_bit, initialization_failed_code,
    queue_flags_contain_graphics,
};
use crate::vulkan::search::{
    first_true, lemma_first_true, lemma_first_true_full, lemma_first_true_prefix, lemma_first_true_step,
};
use crate::vulkan::queue_families::{family_index, graphics_marks, QueueFamilyReport};
use vstd::prelude::*;

verus! {

/// A device the driver lists: its raw `VkPhysicalDevice` handle, and the raw
/// `VkQueueFlags` of each of its queue families.
pub struct DeviceCandidate {
    pub handle: u64,
    pub queue_flags: Vec<u32>,
}

/// The physical device that was picked, by its raw handle.
pub struct PhysicalDevice {
    handle: Option<u64>,
}

/// The queue family used for graphics work when judging a device.
pub struct QueueFamilyIndices {
    pub graphics_family: Option<u32>,
}

/// Which queue families can do graphics work.
pub open spec fn graphics_flag_marks(queue_flags: Seq<u32>) -> Seq<bool> {
    Seq::new(queue_flags.len(), |i: int| has_graphics_bit(queue_flags[i]))
}

/// A device is suitable when one of its queue families can do graphics work.
pub open spec fn spec_is_device_suitable(queue_flags: Seq<u32>) -> bool {
    first_true(graphics_flag_marks(queue_flags)) is Some
}

/// Which candidates are suitable.
pub open spec fn suitable_marks(devices: Seq<DeviceCandidate>) -> Seq<bool> {
    Seq::new(devices.len(), |i: int| spec_is_device_suitable(devices[i].queue_flags@))
}

/// Every candidate lists no more queue families than a `u32` counts.
pub open spec fn family_counts_fit(devices: Seq<DeviceCandidate>) -> bool {
    forall|i: int| 0 <= i < devices.len() ==> #[trigger] devices[i].queue_flags@.len() <= u32::MAX
}

/// The raw queue flags of each reported family.
pub open spec fn reported_flags(families: Seq<QueueFamilyReport>) -> Seq<u32> {
    families.map_values(|family: QueueFamilyReport| family.queue_flags)
}

/// Judging a device and choosing its queue families agree: the graphics family that
/// the device check finds is the one the full family search finds, so a device is
/// suitable exactly when that search finds a graphics family.
pub proof fn law_device_check_agrees_with_family_search(families: Seq<QueueFamilyReport>)
    ensures
        first_true(graphics_flag_marks(reported_flags(families))) == first_true(
            graphics_marks(families),
        ),
        spec_is_device_suitable(reported_flags(families)) <==> first_true(
            graphics_marks(families),
        ) is Some,
{
    assert(graphics_flag_marks(reported_flags(families)) =~= graphics_marks(families));
}

/// The graphics family found when judging a device is a position in its family list:
/// the earliest family with the graphics bit, missing only when no family has it.
pub proof fn law_device_graphics_family_is_position(queue_flags: Seq<u32>)
    requires
        queue_flags.len() <= u32::MAX,
    ensures
        match family_index(first_true(graphics_flag_marks(queue_flags))) {
            Some(g) => g < queue_flags.len() && has_graphics_bit(queue_flags[g as int])
                && forall|j: int| 0 <= j < g ==> !has_graphics_bit(#[trigger] queue_flags[j]),
            None => forall|j: int|
                0 <= j < queue_flags.len() ==> !has_graphics_bit(#[trigger] queue_flags[j]),
        },
{
    let marks = graphics_flag_marks(queue_flags);
    lemma_first_true(marks);
    assert forall|j: int| 0 <= j < queue_flags.len() implies marks[j] == has_graphics_bit(
        #[trigger] queue_flags[j],
    ) by {}
}

/// A device is suitable exactly when one of its queue families has the graphics bit.
pub proof fn law_device_suitable_iff_graphics_family_exists(queue_flags: Seq<u32>)
    ensures
        spec_is_device_suitable(queue_flags) <==> exists|j: int|
            0 <= j < queue_flags.len() && has_graphics_bit(#[trigger] queue_flags[j]),
{
    let marks = graphics_flag_marks(queue_flags);
    lemma_first_true(marks);
    if let Some(g) = first_true(marks) {
        assert(has_graphics_bit(queue_flags[g]));
    }
    if exists|j: int| 0 <= j < queue_flags.len() && has_graphics_bit(#[trigger] queue_flags[j]) {
        let j = choose|j: int| 0 <= j < queue_flags.len() && has_graphics_bit(#[trigger] queue_flags[j]);
        assert(marks[j]);
    }
}

/// The device that is picked is suitable and comes before every other suitable
/// device; no device is picked only when none is suitable.
pub proof fn law_picked_device_is_first_suitable(devices: Seq<DeviceCandidate>)
    ensures
        match first_true(suitable_marks(devices)) {
            Some(i) => 0 <= i < devices.len() && spec_is_device_suitable(devices[i].queue_flags@)
                && forall|j: int|
                0 <= j < i ==> !spec_is_device_suitable(#[trigger] devices[j].queue_flags@),
            None => forall|j: int|
                0 <= j < devices.len() ==> !spec_is_device_suitable(
                    #[trigger] devices[j].queue_flags@,
                ),
        },
{
    let marks = suitable_marks(devices);
    lemma_first_true(marks);
    assert forall|j: int| 0 <= j < devices.len() implies marks[j] == spec_is_device_suitable(
        #[trigger] devices[j].queue_flags@,
    ) by {}
}

impl QueueFamilyIndices {
    pub open spec fn spec_is_complete(self) -> bool {
        self.graphics_family is Some
    }

    pub fn is_complete(&self) -> (r: bool)
        ensures
            r == self.spec_is_complete(),
    {
        self.graphics_family.is_some()
    }
}

impl PhysicalDevice {
    pub closed spec fn spec_handle(self) -> Option<u64> {
        self.handle
    }

    /// The device that was picked.
    pub fn handle(&self) -> (r: Option<u64>)
        ensures
            r == self.spec_handle(),
    {
        self.handle
    }

    /// Picks the first listed device that is suitable. A failed enumeration is
    /// reported with its code; no suitable device is `ERROR_INITIALIZATION_FAILED`.
    pub fn new(enumerated: Result<Vec<DeviceCandidate>, i32>) -> (r: Result<Self, VkEngineError>)
        requires
            enumerated matches Ok(devices) ==> family_counts_fit(devices@),
        ensures
            match enumerated {
                Err(code) => r == Err::<Self, VkEngineError>(VkEngineError::VulkanInstance(code)),
                Ok(devices) => match first_true(suitable_marks(devices@)) {
                    Some(i) => r matches Ok(device) && device.spec_handle() == Some(
                        devices@[i].handle,
                    ),
                    None => r == Err::<Self, VkEngineError>(
                        VkEngineError::VulkanInstance(initialization_failed_code()),
                    ),
                },
            },
    {
        match enumerated {
            Err(code) => Err(VkEngineError::VulkanInstance(code)),
            Ok(devices) => {
                let ghost marks = suitable_marks(devices@);
                let n = devices.len();
                let mut index: usize = 0;
                proof {
                    lemma_first_true_full(marks);
                }
                while index < n
                    invariant
                        n == devices.len(),
                        enumerated == Ok::<Vec<DeviceCandidate>, i32>(devices),
                        index <= n,
                        marks == suitable_marks(devices@),
                        family_counts_fit(devices@),
                        first_true(marks.take(n as int)) == first_true(marks),
                        first_true(marks.take(index as int)) is None,
                    decreases n - index,
                {
                    proof {
                        lemma_first_true_step(marks, index as int);
                    }
                    if Self::is_device_suitable(&devices[index].queue_flags) {
                        proof {
                            lemma_first_true_prefix(marks, index + 1);
                        }
                        return Ok(Self { handle: Some(devices[index].handle) });
                    }
                    index = index + 1;
                }
                Err(VkEngineError::VulkanInstance(error_initialization_failed()))
            },
        }
    }

    /// A device is suitable when it has a queue family for graphics work.
    fn is_device_suitable(queue_flags: &Vec<u32>) -> (r: bool)
        requires
            queue_flags.len() <= u32::MAX,
        ensures
            r == spec_is_device_suitable(queue_flags@),
    {
        let queue_family_indices = Self::find_queue_families(queue_flags);
        queue_family_indices.is_complete()
    }

    /// The first queue family that can do graphics work.
    fn find_queue_families(queue_flags: &Vec<u32>) -> (r: QueueFamilyIndices)
        requires
            queue_flags.len() <= u32::MAX,
        ensures
            r.graphics_family == family_index(first_true(graphics_flag_marks(queue_flags@))),
            match r.graphics_family {
                Some(g) => g < queue_flags.len() && has_graphics_bit(queue_flags@[g as int])
                    && forall|j: int| 0 <= j < g ==> !has_graphics_bit(#[trigger] queue_flags@[j]),
                None => forall|j: int|
                    0 <= j < queue_flags.len() ==> !has_graphics_bit(#[trigger] queue_flags@[j]),
            },
    {
        proof {
            law_device_graphics_family_is_position(queue_flags@);
        }
        let ghost marks = graphics_flag_marks(queue_flags@);
        let n = queue_flags.len();
        let mut index: usize = 0;
        proof {
            lemma_first_true_full(marks);
        }
        while index < n
            invariant
                n == queue_flags.len(),
                n <= u32::MAX,
                index <= n,
                marks == graphics_flag_marks(queue_flags@),
                first_true(marks.take(n as int)) == first_true(marks),
                first_true(marks.take(index as int)) is None,
            decreases n - index,
        {
            proof {
                lemma_first_true_step(marks, index as int);
            }
            if queue_flags_contain_graphics(queue_flags[index]) {
                proof {
                    lemma_first_true_prefix(marks, index + 1);
                    law_device_graphics_family_is_position(queue_flags@);
                }
                return QueueFamilyIndices { graphics_family: Some(index as u32) };
            }
            index = index + 1;
        }
        QueueFamilyIndices { graphics_family: None }
    }
}

} // verus!
