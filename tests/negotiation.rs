use vulkan_learning::queue_family::{
    find_present_queue_index, find_queue_index, next_present_query, PresentQuery, PresentSupport,
    QueueFamilyIndices, QueueFamilyInfo, QUEUE_GRAPHICS_BIT,
};
use vulkan_learning::swap_chain::{
    choose_image_count, choose_swap_chain_settings, choose_swap_extent,
    choose_swap_present_mode, choose_swap_surface_format, Extent2D, SurfaceCapabilities,
    SurfaceFormat, SwapChainSupport, COLOR_SPACE_SRGB_NONLINEAR, FORMAT_B8G8R8A8_SRGB,
    PRESENT_MODE_FIFO, PRESENT_MODE_IMMEDIATE, PRESENT_MODE_MAILBOX,
};

fn family(flags: u32, present: PresentSupport) -> QueueFamilyInfo {
    QueueFamilyInfo { flags, present }
}

fn caps(min: u32, max: u32, lo: (u32, u32), hi: (u32, u32)) -> SurfaceCapabilities {
    SurfaceCapabilities {
        min_image_count: min,
        max_image_count: max,
        min_image_extent: Extent2D { width: lo.0, height: lo.1 },
        max_image_extent: Extent2D { width: hi.0, height: hi.1 },
        current_transform: 1,
    }
}

#[test]
fn single_shared_family_gives_one_index() {
    let families = vec![
        family(0, PresentSupport::Unsupported),
        family(4, PresentSupport::Unsupported),
        family(QUEUE_GRAPHICS_BIT | 2, PresentSupport::Supported),
        family(8, PresentSupport::Unsupported),
    ];
    let indices = QueueFamilyIndices::create(&families).unwrap();
    assert_eq!(indices, QueueFamilyIndices { graphics: 2, present: 2 });
    assert_eq!(indices.get_unique_indices(), vec![2]);
}

#[test]
fn distinct_families_keep_graphics_first() {
    let indices = QueueFamilyIndices { graphics: 1, present: 3 };
    assert_eq!(indices.get_unique_indices(), vec![1, 3]);
}

#[test]
fn graphics_and_present_resolved_separately() {
    let families = vec![
        family(0, PresentSupport::Unsupported),
        family(QUEUE_GRAPHICS_BIT, PresentSupport::Unsupported),
        family(QUEUE_GRAPHICS_BIT, PresentSupport::Unsupported),
        family(2, PresentSupport::Supported),
    ];
    let indices = QueueFamilyIndices::create(&families).unwrap();
    assert_eq!(indices, QueueFamilyIndices { graphics: 1, present: 3 });
    assert_eq!(indices.get_unique_indices(), vec![1, 3]);
}

#[test]
fn present_scan_stops_at_failed_query() {
    let families = vec![
        family(QUEUE_GRAPHICS_BIT, PresentSupport::Unsupported),
        family(0, PresentSupport::QueryFailed),
        family(0, PresentSupport::Supported),
    ];
    assert_eq!(find_present_queue_index(&families), None);
    assert_eq!(QueueFamilyIndices::create(&families), None);
}

#[test]
fn missing_graphics_family_is_none() {
    let families = vec![family(2, PresentSupport::Supported), family(4, PresentSupport::Supported)];
    assert_eq!(find_queue_index(&families, QUEUE_GRAPHICS_BIT), None);
    assert_eq!(find_queue_index(&families, 4), Some(1));
    assert_eq!(QueueFamilyIndices::create(&families), None);
    assert_eq!(find_queue_index(&Vec::new(), QUEUE_GRAPHICS_BIT), None);
}

#[test]
fn extent_clamped_down_to_maximum() {
    let c = caps(2, 3, (1, 1), (1024, 768));
    assert_eq!(
        choose_swap_extent(&c, Extent2D { width: 5000, height: 5000 }),
        Extent2D { width: 1024, height: 768 }
    );
}

#[test]
fn extent_clamped_up_to_minimum() {
    let c = caps(2, 3, (100, 100), (1024, 768));
    assert_eq!(
        choose_swap_extent(&c, Extent2D { width: 10, height: 10 }),
        Extent2D { width: 100, height: 100 }
    );
    assert_eq!(
        choose_swap_extent(&c, Extent2D { width: 640, height: 480 }),
        Extent2D { width: 640, height: 480 }
    );
}

#[test]
fn image_count_clamped_to_maximum() {
    assert_eq!(choose_image_count(&caps(2, 2, (1, 1), (1, 1))), 2);
}

#[test]
fn image_count_unbounded_maximum() {
    assert_eq!(choose_image_count(&caps(2, 0, (1, 1), (1, 1))), 3);
    assert_eq!(choose_image_count(&caps(2, 8, (1, 1), (1, 1))), 3);
    assert_eq!(choose_image_count(&caps(u32::MAX, 0, (1, 1), (1, 1))), u32::MAX);
}

#[test]
fn preferred_format_chosen_when_present() {
    let preferred = SurfaceFormat { format: FORMAT_B8G8R8A8_SRGB, color_space: COLOR_SPACE_SRGB_NONLINEAR };
    let formats = vec![
        SurfaceFormat { format: 44, color_space: 0 },
        SurfaceFormat { format: FORMAT_B8G8R8A8_SRGB, color_space: 7 },
        preferred,
    ];
    assert_eq!(choose_swap_surface_format(&formats), preferred);
}

#[test]
fn first_format_chosen_when_preferred_absent() {
    let formats = vec![
        SurfaceFormat { format: 44, color_space: 0 },
        SurfaceFormat { format: FORMAT_B8G8R8A8_SRGB, color_space: 7 },
    ];
    assert_eq!(choose_swap_surface_format(&formats), SurfaceFormat { format: 44, color_space: 0 });
}

#[test]
fn mailbox_preferred_over_fifo() {
    assert_eq!(choose_swap_present_mode(&vec![PRESENT_MODE_FIFO, PRESENT_MODE_MAILBOX]), PRESENT_MODE_MAILBOX);
    assert_eq!(choose_swap_present_mode(&vec![PRESENT_MODE_IMMEDIATE, PRESENT_MODE_FIFO]), PRESENT_MODE_FIFO);
    assert_eq!(choose_swap_present_mode(&Vec::new()), PRESENT_MODE_FIFO);
}

#[test]
fn settings_negotiated_together() {
    let support = SwapChainSupport {
        capabilities: caps(2, 0, (1, 1), (1024, 768)),
        formats: vec![SurfaceFormat { format: 44, color_space: 0 }],
        present_modes: vec![PRESENT_MODE_MAILBOX],
    };
    let s = choose_swap_chain_settings(&support, Extent2D { width: 2000, height: 600 });
    assert_eq!(s.format, SurfaceFormat { format: 44, color_space: 0 });
    assert_eq!(s.present_mode, PRESENT_MODE_MAILBOX);
    assert_eq!(s.extent, Extent2D { width: 1024, height: 600 });
    assert_eq!(s.image_count, 3);
    assert_eq!(s.transform, 1);
}

#[test]
fn present_scan_queries_in_order_and_stops() {
    let (supported, unsupported, failed) =
        (PresentSupport::Supported, PresentSupport::Unsupported, PresentSupport::QueryFailed);
    assert_eq!(next_present_query(&vec![], 3), PresentQuery::Ask(0));
    assert_eq!(next_present_query(&vec![unsupported], 3), PresentQuery::Ask(1));
    assert_eq!(next_present_query(&vec![unsupported, supported], 3), PresentQuery::Found(1));
    assert_eq!(next_present_query(&vec![supported], 3), PresentQuery::Found(0));
    assert_eq!(next_present_query(&vec![unsupported, failed], 3), PresentQuery::NotFound);
    assert_eq!(next_present_query(&vec![unsupported, unsupported, unsupported], 3), PresentQuery::NotFound);
    assert_eq!(next_present_query(&vec![], 0), PresentQuery::NotFound);
}

#[test]
fn unqueried_families_are_not_present() {
    let families = vec![
        family(QUEUE_GRAPHICS_BIT, PresentSupport::Unsupported),
        family(0, PresentSupport::QueryFailed),
        family(0, PresentSupport::NotQueried),
    ];
    assert_eq!(find_present_queue_index(&families), None);
    let families = vec![
        family(QUEUE_GRAPHICS_BIT, PresentSupport::Unsupported),
        family(0, PresentSupport::Supported),
        family(0, PresentSupport::NotQueried),
    ];
    assert_eq!(find_present_queue_index(&families), Some(1));
}
