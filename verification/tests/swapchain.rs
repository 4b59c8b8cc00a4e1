use relsim::swapchain::{
    choose_sharing, choose_swapchain_extent, choose_swapchain_format,
    choose_swapchain_present_mode, plan_swapchain, swapchain_image_count, Extent2D,
    QueueFamilyIndices, SurfaceCapabilities, SurfaceFormat, SwapchainSupport,
};

const B8G8R8A8_SRGB: i32 = 50;
const B8G8R8A8_UNORM: i32 = 44;
const R8G8B8A8_SRGB: i32 = 43;
const SRGB_NONLINEAR: i32 = 0;
const DISPLAY_P3_NONLINEAR: i32 = 1_000_104_001;
const IMMEDIATE: i32 = 0;
const MAILBOX: i32 = 1;
const FIFO: i32 = 2;
const FIFO_RELAXED: i32 = 3;

fn fmt(format: i32, color_space: i32) -> SurfaceFormat {
    SurfaceFormat { format, color_space }
}

fn extent(width: u32, height: u32) -> Extent2D {
    Extent2D { width, height }
}

fn caps(min_count: u32, max_count: u32, current: Extent2D) -> SurfaceCapabilities {
    SurfaceCapabilities {
        min_image_count: min_count,
        max_image_count: max_count,
        current_extent: current,
        min_image_extent: extent(1, 1),
        max_image_extent: extent(4096, 2160),
        current_transform: 1,
    }
}

#[test]
fn preferred_format_is_chosen_wherever_it_stands() {
    let formats = vec![
        fmt(B8G8R8A8_UNORM, SRGB_NONLINEAR),
        fmt(R8G8B8A8_SRGB, SRGB_NONLINEAR),
        fmt(B8G8R8A8_SRGB, SRGB_NONLINEAR),
    ];
    assert_eq!(choose_swapchain_format(&formats), fmt(B8G8R8A8_SRGB, SRGB_NONLINEAR));
}

#[test]
fn first_format_is_chosen_without_the_preferred_one() {
    let formats = vec![fmt(R8G8B8A8_SRGB, SRGB_NONLINEAR), fmt(B8G8R8A8_UNORM, SRGB_NONLINEAR)];
    assert_eq!(choose_swapchain_format(&formats), fmt(R8G8B8A8_SRGB, SRGB_NONLINEAR));
}

#[test]
fn preferred_format_needs_the_nonlinear_srgb_color_space() {
    let formats = vec![fmt(B8G8R8A8_UNORM, SRGB_NONLINEAR), fmt(B8G8R8A8_SRGB, DISPLAY_P3_NONLINEAR)];
    assert_eq!(choose_swapchain_format(&formats), fmt(B8G8R8A8_UNORM, SRGB_NONLINEAR));
}

#[test]
fn single_format_is_chosen() {
    let formats = vec![fmt(B8G8R8A8_SRGB, DISPLAY_P3_NONLINEAR)];
    assert_eq!(choose_swapchain_format(&formats), fmt(B8G8R8A8_SRGB, DISPLAY_P3_NONLINEAR));
}

#[test]
fn mailbox_is_chosen_when_offered() {
    assert_eq!(choose_swapchain_present_mode(&vec![FIFO, IMMEDIATE, MAILBOX]), MAILBOX);
    assert_eq!(choose_swapchain_present_mode(&vec![MAILBOX]), MAILBOX);
}

#[test]
fn fifo_is_the_fallback_present_mode() {
    assert_eq!(choose_swapchain_present_mode(&vec![IMMEDIATE, FIFO_RELAXED]), FIFO);
    assert_eq!(choose_swapchain_present_mode(&vec![]), FIFO);
}

#[test]
fn current_extent_is_used_when_the_surface_sets_it() {
    let c = caps(2, 8, extent(1024, 768));
    assert_eq!(choose_swapchain_extent(&c, extent(800, 600)), extent(1024, 768));
}

#[test]
fn window_size_is_used_when_within_limits() {
    let c = caps(2, 8, extent(u32::MAX, u32::MAX));
    assert_eq!(choose_swapchain_extent(&c, extent(800, 600)), extent(800, 600));
}

#[test]
fn window_size_is_clamped_per_dimension() {
    let c = SurfaceCapabilities {
        min_image_count: 2,
        max_image_count: 0,
        current_extent: extent(u32::MAX, 0),
        min_image_extent: extent(100, 700),
        max_image_extent: extent(640, 1000),
        current_transform: 1,
    };
    assert_eq!(choose_swapchain_extent(&c, extent(800, 600)), extent(640, 700));
    assert_eq!(choose_swapchain_extent(&c, extent(50, 5000)), extent(100, 1000));
}

#[test]
fn image_count_is_one_above_the_minimum() {
    assert_eq!(swapchain_image_count(&caps(2, 8, extent(1, 1))), 3);
    assert_eq!(swapchain_image_count(&caps(0, 0, extent(1, 1))), 1);
}

#[test]
fn image_count_without_maximum_is_not_capped() {
    assert_eq!(swapchain_image_count(&caps(7, 0, extent(1, 1))), 8);
}

#[test]
fn image_count_is_capped_by_the_maximum() {
    assert_eq!(swapchain_image_count(&caps(3, 3, extent(1, 1))), 3);
    assert_eq!(swapchain_image_count(&caps(2, 3, extent(1, 1))), 3);
}

#[test]
fn distinct_families_share_concurrently() {
    let q = QueueFamilyIndices { graphics_family: Some(0), present_family: Some(2) };
    let plan = choose_sharing(&q);
    assert_eq!(plan.mode, 1);
    assert_eq!(plan.queue_family_index_count, 2);
    assert_eq!(plan.queue_family_indices, vec![0, 2]);
}

#[test]
fn one_family_owns_images_exclusively() {
    let q = QueueFamilyIndices { graphics_family: Some(3), present_family: Some(3) };
    let plan = choose_sharing(&q);
    assert_eq!(plan.mode, 0);
    assert_eq!(plan.queue_family_index_count, 0);
    assert!(plan.queue_family_indices.is_empty());
    let none = QueueFamilyIndices { graphics_family: None, present_family: None };
    assert_eq!(choose_sharing(&none).mode, 0);
}

#[test]
fn whole_plan_combines_every_choice() {
    let support = SwapchainSupport {
        capabilities: SurfaceCapabilities {
            min_image_count: 2,
            max_image_count: 0,
            current_extent: extent(u32::MAX, u32::MAX),
            min_image_extent: extent(1, 1),
            max_image_extent: extent(640, 480),
            current_transform: 4,
        },
        formats: vec![fmt(B8G8R8A8_UNORM, SRGB_NONLINEAR), fmt(B8G8R8A8_SRGB, SRGB_NONLINEAR)],
        present_modes: vec![FIFO, MAILBOX],
    };
    let q = QueueFamilyIndices { graphics_family: Some(1), present_family: Some(0) };
    let plan = plan_swapchain(&support, extent(800, 600), &q);
    assert_eq!(plan.surface_format, fmt(B8G8R8A8_SRGB, SRGB_NONLINEAR));
    assert_eq!(plan.present_mode, MAILBOX);
    assert_eq!(plan.extent, extent(640, 480));
    assert_eq!(plan.image_count, 3);
    assert_eq!(plan.sharing.mode, 1);
    assert_eq!(plan.sharing.queue_family_indices, vec![1, 0]);
    assert_eq!(plan.image_array_layers, 1);
    assert_eq!(plan.image_usage, 16);
    assert_eq!(plan.pre_transform, 4);
    assert_eq!(plan.composite_alpha, 1);
    assert_eq!(plan.clipped, 1);
}
