use ash::vk;
use platform::error::VulkanError;
use platform::surface::{
    check_validation, choose_extent, choose_present_mode, choose_surface_format,
    clamp_image_count, find_queue_family, get_layers, get_required_extensions,
    get_validation_support, pick_physical_device, plan_swapchain, InstanceExtension, PresentMode,
    QueueFamilySupport, VALIDATION_LAYER,
};

fn family(queue_flags: u32, supports_present: bool) -> QueueFamilySupport {
    QueueFamilySupport { queue_flags, supports_present }
}

fn caps(min: u32, max: u32, current: (u32, u32)) -> vk::SurfaceCapabilitiesKHR {
    vk::SurfaceCapabilitiesKHR {
        min_image_count: min,
        max_image_count: max,
        current_extent: vk::Extent2D { width: current.0, height: current.1 },
        min_image_extent: vk::Extent2D { width: 100, height: 100 },
        max_image_extent: vk::Extent2D { width: 2000, height: 1000 },
        ..Default::default()
    }
}

#[test]
fn first_suitable_device_and_family_win() {
    let devices = vec![
        vec![family(0b1, false), family(0b100, true)],
        vec![family(0b110, true), family(0b111, true), family(0b1, true)],
        vec![family(0b1, true)],
    ];
    assert_eq!(pick_physical_device(&devices), Ok((1, 1)));
    assert_eq!(find_queue_family(&devices[0]), None);
    assert_eq!(find_queue_family(&devices[2]), Some(0));
}

#[test]
fn no_suitable_device() {
    let devices = vec![vec![family(0b1, false)], vec![], vec![family(0b10, true)]];
    assert_eq!(pick_physical_device(&devices), Err(VulkanError::NoSuitableDevice));
    assert_eq!(pick_physical_device(&vec![]), Err(VulkanError::NoSuitableDevice));
}

#[test]
fn validation_layer_lookup() {
    let with = vec!["VK_LAYER_other".to_string(), VALIDATION_LAYER.to_string()];
    let without = vec!["VK_LAYER_KHRONOS_validation2".to_string()];
    assert!(get_validation_support(&with));
    assert!(!get_validation_support(&without));
    assert_eq!(check_validation(true, &with), Ok(()));
    assert_eq!(check_validation(true, &without), Err(VulkanError::ValidationNotPresent));
    assert_eq!(check_validation(false, &without), Ok(()));
}

#[test]
fn layers_and_extensions() {
    assert_eq!(get_layers(true), vec!["VK_LAYER_KHRONOS_validation".to_string()]);
    assert!(get_layers(false).is_empty());
    assert_eq!(
        get_required_extensions(true),
        vec![InstanceExtension::Surface, InstanceExtension::Win32Surface, InstanceExtension::DebugUtils]
    );
    assert_eq!(
        get_required_extensions(false),
        vec![InstanceExtension::Surface, InstanceExtension::Win32Surface]
    );
}

#[test]
fn present_mode_prefers_mailbox() {
    assert_eq!(choose_present_mode(&vec![PresentMode::Fifo, PresentMode::Mailbox]), PresentMode::Mailbox);
    assert_eq!(choose_present_mode(&vec![PresentMode::Immediate, PresentMode::FifoRelaxed]), PresentMode::Fifo);
    assert_eq!(choose_present_mode(&vec![]), PresentMode::Fifo);
}

#[test]
fn image_count_is_clamped() {
    assert_eq!(clamp_image_count(&caps(2, 8, (0, 0)), 3), 3);
    assert_eq!(clamp_image_count(&caps(4, 8, (0, 0)), 3), 4);
    assert_eq!(clamp_image_count(&caps(1, 2, (0, 0)), 3), 2);
    assert_eq!(clamp_image_count(&caps(1, 0, (0, 0)), 7), 7);
}

#[test]
fn extent_follows_surface() {
    let drawable = vk::Extent2D { width: 400, height: 4000 };
    let fixed = choose_extent(&caps(2, 8, (640, 480)), drawable);
    assert_eq!((fixed.width, fixed.height), (640, 480));
    let free = choose_extent(&caps(2, 8, (u32::MAX, u32::MAX)), drawable);
    assert_eq!((free.width, free.height), (400, 1000));
    let small = choose_extent(&caps(2, 8, (u32::MAX, u32::MAX)), vk::Extent2D { width: 0, height: 50 });
    assert_eq!((small.width, small.height), (100, 100));
}

#[test]
fn surface_format_is_the_first() {
    let a = vk::SurfaceFormatKHR { format: vk::Format::B8G8R8A8_SRGB, ..Default::default() };
    let b = vk::SurfaceFormatKHR { format: vk::Format::R8G8B8A8_UNORM, ..Default::default() };
    assert_eq!(choose_surface_format(&vec![a, b]).map(|f| f.format), Ok(vk::Format::B8G8R8A8_SRGB));
    assert_eq!(choose_surface_format(&vec![]).map(|f| f.format), Err(VulkanError::ResourceCreationFailed));
}

#[test]
fn swapchain_plan() {
    let formats = vec![vk::SurfaceFormatKHR { format: vk::Format::B8G8R8A8_UNORM, ..Default::default() }];
    let plan = plan_swapchain(
        &formats,
        &caps(2, 0, (u32::MAX, u32::MAX)),
        &vec![PresentMode::Fifo],
        vk::Extent2D { width: 800, height: 600 },
    )
    .unwrap();
    assert_eq!((plan.extent.width, plan.extent.height), (800, 600));
    assert_eq!(plan.image_count, 3);
    assert_eq!(plan.present_mode, PresentMode::Fifo);
    assert_eq!(plan.surface_format.format, vk::Format::B8G8R8A8_UNORM);
    let refused = plan_swapchain(&vec![], &caps(2, 0, (1, 1)), &vec![], vk::Extent2D { width: 1, height: 1 });
    assert!(matches!(refused, Err(VulkanError::ResourceCreationFailed)));
}
