use vk_engine::vk_engine::{EngineEvent, FrameAction, VkEngineError, VkEngineState};
use vk_engine::vulkan::instance::{
    check_validation_layer_support, get_required_extensions, validation_layer_name, InstancePlan,
};

fn layer(name: &str) -> [i8; 256] {
    let mut raw = [0i8; 256];
    for (i, b) in name.bytes().enumerate() {
        raw[i] = b as i8;
    }
    raw
}

fn strings(names: &[&str]) -> Vec<String> {
    names.iter().map(|n| n.to_string()).collect()
}

#[test]
fn validation_layer_name_is_khronos_validation() {
    assert_eq!(validation_layer_name(), b"VK_LAYER_KHRONOS_validation".to_vec());
}

#[test]
fn finds_validation_layer_among_others() {
    let layers = vec![layer("VK_LAYER_MESA_overlay"), layer("VK_LAYER_KHRONOS_validation")];
    assert!(matches!(check_validation_layer_support(Ok(layers)), Ok(true)));
}

#[test]
fn prefix_or_longer_names_do_not_match() {
    let layers = vec![layer("VK_LAYER_KHRONOS_valid"), layer("VK_LAYER_KHRONOS_validation2")];
    assert!(matches!(check_validation_layer_support(Ok(layers)), Ok(false)));
    assert!(matches!(check_validation_layer_support(Ok(Vec::new())), Ok(false)));
}

#[test]
fn layer_name_without_nul_matches_nothing() {
    let mut raw = [b'x' as i8; 256];
    for (i, b) in "VK_LAYER_KHRONOS_validation".bytes().enumerate() {
        raw[i] = b as i8;
    }
    assert!(matches!(check_validation_layer_support(Ok(vec![raw])), Ok(false)));
}

#[test]
fn failed_layer_query_keeps_its_code() {
    assert!(matches!(
        check_validation_layer_support(Err(-1)),
        Err(VkEngineError::VulkanInstance(-1))
    ));
}

#[test]
fn extensions_gain_debug_utils_with_validation() {
    let window = strings(&["VK_KHR_surface", "VK_KHR_xlib_surface"]);
    let with = get_required_extensions(Ok(window.clone()), true).unwrap();
    assert_eq!(with, strings(&["VK_KHR_surface", "VK_KHR_xlib_surface", "VK_EXT_debug_utils"]));
    let without = get_required_extensions(Ok(window.clone()), false).unwrap();
    assert_eq!(without, window);
}

#[test]
fn failed_window_extension_query_keeps_its_message() {
    match get_required_extensions(Err("no vulkan".to_string()), true) {
        Err(VkEngineError::VulkanExtension(message)) => assert_eq!(message, "no vulkan"),
        _ => panic!("expected an extension error"),
    }
}

#[test]
fn instance_plan_with_validation() {
    let layers = vec![layer("VK_LAYER_KHRONOS_validation")];
    let plan = InstancePlan::new(true, Ok(layers), Ok(strings(&["VK_KHR_surface"]))).unwrap();
    assert_eq!(plan.layer_names, vec![b"VK_LAYER_KHRONOS_validation".to_vec()]);
    assert_eq!(plan.extension_names, strings(&["VK_KHR_surface", "VK_EXT_debug_utils"]));
    assert!(plan.chain_debug_messenger);
    assert_eq!(plan.application_version, 1 << 22);
    assert_eq!(plan.engine_version, 1 << 22);
    assert_eq!(plan.api_version, (1 << 22) | (3 << 12));
}

#[test]
fn instance_plan_without_validation_ignores_layers() {
    let plan = InstancePlan::new(false, Err(-7), Ok(strings(&["VK_KHR_surface"]))).unwrap();
    assert!(plan.layer_names.is_empty());
    assert_eq!(plan.extension_names, strings(&["VK_KHR_surface"]));
    assert!(!plan.chain_debug_messenger);
}

#[test]
fn instance_plan_errors_in_order() {
    assert!(matches!(
        InstancePlan::new(true, Err(-7), Err("x".to_string())),
        Err(VkEngineError::VulkanInstance(-7))
    ));
    assert!(matches!(
        InstancePlan::new(true, Ok(vec![layer("other")]), Err("x".to_string())),
        Err(VkEngineError::ValidationLayerNotFound())
    ));
    assert!(matches!(
        InstancePlan::new(false, Ok(Vec::new()), Err("x".to_string())),
        Err(VkEngineError::VulkanExtension(_))
    ));
}

#[test]
fn engine_starts_rendering_in_800_by_600_window() {
    let state = VkEngineState::new();
    assert_eq!(state.frame_number, 0);
    assert!(!state.stop_rendering);
    assert_eq!(state.window_extent.width, 800);
    assert_eq!(state.window_extent.height, 600);
    assert!(matches!(state.frame_action(), FrameAction::Draw));
}

#[test]
fn minimize_sleeps_and_restore_draws() {
    let mut state = VkEngineState::new();
    let quit = state.handle_event(false, EngineEvent::Minimized);
    assert!(!quit);
    assert!(state.stop_rendering);
    assert!(matches!(state.frame_action(), FrameAction::Sleep { millis: 100 }));
    let quit = state.handle_event(quit, EngineEvent::Other);
    assert!(!quit && state.stop_rendering);
    let quit = state.handle_event(quit, EngineEvent::Restored);
    assert!(!quit);
    assert!(!state.stop_rendering);
    assert!(matches!(state.frame_action(), FrameAction::Draw));
}

#[test]
fn quit_is_final_across_events() {
    let mut state = VkEngineState::new();
    let mut quit = false;
    for event in [EngineEvent::Other, EngineEvent::Quit, EngineEvent::Minimized, EngineEvent::Restored] {
        quit = state.handle_event(quit, event);
    }
    assert!(quit);
    assert!(!state.stop_rendering);
}

#[test]
fn from_vk_result_wraps_failure_code() {
    assert!(matches!(VkEngineError::from_vk_result(Ok::<u8, i32>(4)), Ok(4)));
    assert!(matches!(
        VkEngineError::from_vk_result(Err::<u8, i32>(-4)),
        Err(VkEngineError::VulkanInstance(-4))
    ));
}
