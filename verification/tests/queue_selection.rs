use vk_engine::vk_engine::VkEngineError;
use vk_engine::vulkan::logical_devices::queue_create_requests;
use vk_engine::vulkan::physical_device::{DeviceCandidate, PhysicalDevice};
use vk_engine::vulkan::queue::graphics_queue_location;
use vk_engine::vulkan::queue_families::{QueueFamilyIndices, QueueFamilyReport};
use std::collections::HashSet;

fn family(queue_flags: u32, present_support: Result<bool, i32>) -> QueueFamilyReport {
    QueueFamilyReport { queue_flags, present_support }
}

#[test]
fn finds_first_graphics_and_first_present_family() {
    let families = vec![
        family(0b100, Ok(false)),
        family(0b011, Ok(false)),
        family(0b001, Ok(true)),
        family(0b001, Ok(true)),
    ];
    let indices = QueueFamilyIndices::find_queue_families(&families);
    assert_eq!(indices.graphics_family, Some(1));
    assert_eq!(indices.present_family, Some(2));
    assert!(indices.is_complete());
}

#[test]
fn failed_surface_query_counts_as_no_support() {
    let families = vec![family(0b1, Err(-3)), family(0b10, Ok(true))];
    let indices = QueueFamilyIndices::find_queue_families(&families);
    assert_eq!(indices.graphics_family, Some(0));
    assert_eq!(indices.present_family, Some(1));
}

#[test]
fn compute_only_family_is_not_graphics() {
    let families = vec![family(0b10, Ok(true)), family(0b1110, Ok(false))];
    let indices = QueueFamilyIndices::find_queue_families(&families);
    assert_eq!(indices.graphics_family, None);
    assert_eq!(indices.present_family, Some(0));
    assert!(!indices.is_complete());
}

#[test]
fn no_families_finds_nothing() {
    let indices = QueueFamilyIndices::find_queue_families(&Vec::new());
    assert_eq!(indices.graphics_family, None);
    assert_eq!(indices.present_family, None);
    assert!(!indices.is_complete());
}

#[test]
fn unique_families_merge_shared_family() {
    let shared = QueueFamilyIndices { graphics_family: Some(2), present_family: Some(2) };
    assert_eq!(shared.get_unique_queue_families(), HashSet::from([2]));
    let split = QueueFamilyIndices { graphics_family: Some(0), present_family: Some(3) };
    assert_eq!(split.get_unique_queue_families(), HashSet::from([0, 3]));
    let none = QueueFamilyIndices { graphics_family: None, present_family: None };
    assert!(none.get_unique_queue_families().is_empty());
    let present_only = QueueFamilyIndices { graphics_family: None, present_family: Some(1) };
    assert_eq!(present_only.get_unique_queue_families(), HashSet::from([1]));
}

#[test]
fn picks_first_device_with_graphics_family() {
    let devices = vec![
        DeviceCandidate { handle: 10, queue_flags: vec![0b10, 0b100] },
        DeviceCandidate { handle: 20, queue_flags: vec![0b100, 0b111] },
        DeviceCandidate { handle: 30, queue_flags: vec![0b1] },
    ];
    let picked = PhysicalDevice::new(Ok(devices)).unwrap();
    assert_eq!(picked.handle(), Some(20));
}

#[test]
fn no_suitable_device_is_initialization_failure() {
    let devices = vec![
        DeviceCandidate { handle: 10, queue_flags: vec![0b10] },
        DeviceCandidate { handle: 20, queue_flags: vec![] },
    ];
    assert!(matches!(PhysicalDevice::new(Ok(devices)), Err(VkEngineError::VulkanInstance(-3))));
    assert!(matches!(PhysicalDevice::new(Ok(Vec::new())), Err(VkEngineError::VulkanInstance(-3))));
}

#[test]
fn failed_enumeration_keeps_its_code() {
    assert!(matches!(PhysicalDevice::new(Err(-9)), Err(VkEngineError::VulkanInstance(-9))));
}

#[test]
fn queue_requests_need_graphics_family() {
    let indices = QueueFamilyIndices { graphics_family: None, present_family: Some(0) };
    assert!(matches!(queue_create_requests(&indices), Err(VkEngineError::VulkanInstance(-3))));
}

#[test]
fn queue_requests_one_per_distinct_family() {
    let shared = QueueFamilyIndices { graphics_family: Some(1), present_family: Some(1) };
    let requests = queue_create_requests(&shared).unwrap();
    assert_eq!(requests.len(), 1);
    assert_eq!(requests[0].queue_family_index, 1);
    assert_eq!(requests[0].queue_count, 1);

    let split = QueueFamilyIndices { graphics_family: Some(0), present_family: Some(4) };
    let requests = queue_create_requests(&split).unwrap();
    let families: HashSet<u32> = requests.iter().map(|r| r.queue_family_index).collect();
    assert_eq!(requests.len(), 2);
    assert_eq!(families, HashSet::from([0, 4]));
    assert!(requests.iter().all(|r| r.queue_count == 1));

    let graphics_only = QueueFamilyIndices { graphics_family: Some(7), present_family: None };
    let requests = queue_create_requests(&graphics_only).unwrap();
    assert_eq!(requests.len(), 1);
    assert_eq!(requests[0].queue_family_index, 7);
}

#[test]
fn graphics_queue_is_first_queue_of_graphics_family() {
    let indices = QueueFamilyIndices { graphics_family: Some(5), present_family: Some(2) };
    let location = graphics_queue_location(&indices).unwrap();
    assert_eq!(location.queue_family_index, 5);
    assert_eq!(location.queue_index, 0);
    let missing = QueueFamilyIndices { graphics_family: None, present_family: Some(2) };
    assert!(matches!(graphics_queue_location(&missing), Err(VkEngineError::VulkanInstance(-3))));
}

#[test]
fn graphics_queue_lies_in_a_requested_family() {
    let families = vec![family(0b100, Ok(true)), family(0b1, Ok(false))];
    let indices = QueueFamilyIndices::find_queue_families(&families);
    let requests = queue_create_requests(&indices).unwrap();
    let location = graphics_queue_location(&indices).unwrap();
    assert!(requests.iter().any(|r| r.queue_family_index == location.queue_family_index
        && location.queue_index < r.queue_count));
}

#[test]
fn device_check_agrees_with_family_search() {
    let flag_lists: Vec<Vec<u32>> = vec![vec![0b10, 0b100], vec![0b1000, 0b11], vec![]];
    for flags in flag_lists {
        let reports: Vec<QueueFamilyReport> =
            flags.iter().map(|&f| family(f, Ok(false))).collect();
        let found = QueueFamilyIndices::find_queue_families(&reports).graphics_family;
        let picked = PhysicalDevice::new(Ok(vec![DeviceCandidate { handle: 1, queue_flags: flags }]));
        assert_eq!(picked.is_ok(), found.is_some());
    }
}
