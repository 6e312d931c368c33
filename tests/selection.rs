use vulkan_learning::physical_device::{
    contains_name, pick_physical_device, required_device_extensions, DeviceKind,
    PhysicalDeviceInfo, PickPhysicalDeviceError, SuitabilityIssue,
};
use vulkan_learning::queue_family::{PresentSupport, QueueFamilyInfo, QUEUE_GRAPHICS_BIT};
use vulkan_learning::swap_chain::{
    Extent2D, SurfaceCapabilities, SurfaceFormat, SwapChainSupport, PRESENT_MODE_FIFO,
};

fn support() -> SwapChainSupport {
    SwapChainSupport {
        capabilities: SurfaceCapabilities {
            min_image_count: 2,
            max_image_count: 0,
            min_image_extent: Extent2D { width: 1, height: 1 },
            max_image_extent: Extent2D { width: 4096, height: 4096 },
            current_transform: 1,
        },
        formats: vec![SurfaceFormat { format: 44, color_space: 0 }],
        present_modes: vec![PRESENT_MODE_FIFO],
    }
}

fn good_device(handle: u64) -> PhysicalDeviceInfo {
    PhysicalDeviceInfo {
        device: handle,
        kind: DeviceKind::Discrete,
        geometry_shader: true,
        queue_families: vec![QueueFamilyInfo { flags: QUEUE_GRAPHICS_BIT, present: PresentSupport::Supported }],
        extensions: Some(vec!["VK_KHR_maintenance1".to_string(), "VK_KHR_swapchain".to_string()]),
        swap_chain_support: Some(support()),
    }
}

fn issue(d: &PhysicalDeviceInfo) -> Option<SuitabilityIssue> {
    match d.check() {
        Ok(()) => None,
        Err(PickPhysicalDeviceError::SuitabilityError(i)) => Some(i),
        Err(e) => panic!("unexpected {:?}", e),
    }
}

#[test]
fn only_second_device_suitable_is_picked() {
    let mut first = good_device(10);
    first.kind = DeviceKind::Integrated;
    let devices = vec![first, good_device(20)];
    assert_eq!(pick_physical_device(&devices), Ok(1));
}

#[test]
fn first_of_several_suitable_devices_wins() {
    let devices = vec![good_device(10), good_device(20)];
    assert_eq!(pick_physical_device(&devices), Ok(0));
}

#[test]
fn no_suitable_device_is_an_error() {
    let mut d = good_device(10);
    d.geometry_shader = false;
    assert_eq!(pick_physical_device(&vec![d]), Err(PickPhysicalDeviceError::SuitableDeviceNotFound));
    assert_eq!(pick_physical_device(&Vec::new()), Err(PickPhysicalDeviceError::SuitableDeviceNotFound));
}

#[test]
fn each_check_reports_its_issue() {
    assert_eq!(issue(&good_device(1)), None);

    let mut d = good_device(1);
    d.kind = DeviceKind::Other;
    d.geometry_shader = false;
    assert_eq!(issue(&d), Some(SuitabilityIssue::NotDiscrete));

    let mut d = good_device(1);
    d.geometry_shader = false;
    assert_eq!(issue(&d), Some(SuitabilityIssue::MissingGeometryShader));

    let mut d = good_device(1);
    d.queue_families = vec![QueueFamilyInfo { flags: 2, present: PresentSupport::Supported }];
    assert_eq!(issue(&d), Some(SuitabilityIssue::MissingGraphicsQueue));

    let mut d = good_device(1);
    d.queue_families = vec![QueueFamilyInfo { flags: 1, present: PresentSupport::Unsupported }];
    assert_eq!(issue(&d), Some(SuitabilityIssue::MissingPresentQueue));

    let mut d = good_device(1);
    d.extensions = Some(vec!["VK_KHR_maintenance1".to_string()]);
    assert_eq!(issue(&d), Some(SuitabilityIssue::MissingExtensions));

    let mut d = good_device(1);
    d.extensions = None;
    assert_eq!(issue(&d), Some(SuitabilityIssue::MissingExtensions));

    let mut d = good_device(1);
    d.swap_chain_support = Some(SwapChainSupport { present_modes: Vec::new(), ..support() });
    assert_eq!(issue(&d), Some(SuitabilityIssue::SwapChainUnsupported));

    let mut d = good_device(1);
    d.swap_chain_support = Some(SwapChainSupport { formats: Vec::new(), ..support() });
    assert_eq!(issue(&d), Some(SuitabilityIssue::SwapChainUnsupported));

    let mut d = good_device(1);
    d.swap_chain_support = None;
    assert_eq!(issue(&d), Some(SuitabilityIssue::SwapChainUnsupported));
}

#[test]
fn extension_names_compared_exactly() {
    let required = required_device_extensions();
    assert_eq!(required, vec!["VK_KHR_swapchain".to_string()]);
    assert!(contains_name(&vec!["a".to_string(), "VK_KHR_swapchain".to_string()], &required[0]));
    assert!(!contains_name(&vec!["VK_KHR_swapchain2".to_string()], &required[0]));
}
