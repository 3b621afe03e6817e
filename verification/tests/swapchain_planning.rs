//! Swapchain parameter selection on concrete surface properties.

use magmacraft::errors::VulkanError;
use magmacraft::physical_device::{QueueFamily, QueueFamilyIndices};
use magmacraft::swapchain::{
    plan_swapchain, select_image_count, select_image_extent, select_present_mode,
    select_surface_format, Extent2d, PresentMode, SharingMode, SurfaceCapabilities,
    SurfaceFormat, SurfaceProperties, UNDEFINED_EXTENT_WIDTH,
};
use magmacraft::window::WindowSize;

fn capabilities(min: u32, max: u32, extent: Extent2d) -> SurfaceCapabilities {
    SurfaceCapabilities {
        min_image_count: min,
        max_image_count: max,
        current_extent: extent,
        current_transform: 1,
    }
}

#[test]
fn undefined_extent_is_substituted_by_framebuffer_size() {
    let current = Extent2d { width: UNDEFINED_EXTENT_WIDTH, height: 600 };
    let framebuffer = WindowSize { width: 800, height: 600 }.as_extent();
    let chosen = select_image_extent(&current, &framebuffer);
    assert_eq!(chosen, Extent2d { width: 800, height: 600 });
}

#[test]
fn defined_extent_is_used_verbatim() {
    let current = Extent2d { width: 1024, height: 768 };
    let framebuffer = Extent2d { width: 800, height: 600 };
    let chosen = select_image_extent(&current, &framebuffer);
    assert_eq!(chosen, current);
}

#[test]
fn present_mode_falls_back_to_fifo() {
    let modes = vec![PresentMode::Fifo];
    assert_eq!(select_present_mode(&modes, true), PresentMode::Fifo);
    assert_eq!(select_present_mode(&modes, false), PresentMode::Fifo);
}

#[test]
fn present_mode_prefers_mailbox_with_vsync() {
    let modes = vec![PresentMode::Mailbox, PresentMode::Fifo];
    assert_eq!(select_present_mode(&modes, true), PresentMode::Mailbox);
}

#[test]
fn present_mode_prefers_immediate_without_vsync() {
    let modes = vec![PresentMode::Mailbox, PresentMode::Immediate, PresentMode::Fifo];
    assert_eq!(select_present_mode(&modes, false), PresentMode::Immediate);
    // The preferred mode is matched exactly; relaxed FIFO is never
    // chosen over the fallback.
    let relaxed_only = vec![PresentMode::FifoRelaxed];
    assert_eq!(select_present_mode(&relaxed_only, false), PresentMode::Fifo);
}

#[test]
fn image_count_is_min_plus_one_clamped_to_max() {
    let extent = Extent2d { width: 100, height: 100 };
    assert_eq!(select_image_count(&capabilities(2, 0, extent)), 3);
    assert_eq!(select_image_count(&capabilities(2, 8, extent)), 3);
    assert_eq!(select_image_count(&capabilities(2, 2, extent)), 2);
}

#[test]
fn first_surface_format_is_taken() {
    let formats = vec![
        SurfaceFormat { format: 44, color_space: 0 },
        SurfaceFormat { format: 50, color_space: 0 },
    ];
    assert_eq!(select_surface_format(&formats), formats[0]);
}

#[test]
fn plan_uses_concurrent_sharing_with_separate_transfer_family() {
    let mut indices = QueueFamilyIndices::empty();
    indices.graphics = Some(0);
    indices.transfer = Some(1);
    indices.weakly_dedicated_transfer = true;
    indices.strongly_dedicated_transfer = true;

    let properties = SurfaceProperties {
        capabilities: capabilities(2, 0, Extent2d { width: 640, height: 480 }),
        formats: vec![SurfaceFormat { format: 44, color_space: 0 }],
        present_modes: vec![PresentMode::Fifo],
    };
    let framebuffer = Extent2d { width: 800, height: 600 };
    let plan = plan_swapchain(&properties, &framebuffer, false, &indices).unwrap();

    assert_eq!(plan.sharing_mode, SharingMode::Concurrent);
    assert_eq!(plan.concurrent_queue_families, vec![0, 1]);
    assert_eq!(plan.extent, Extent2d { width: 640, height: 480 });
    assert_eq!(plan.present_mode, PresentMode::Fifo);
    assert_eq!(plan.image_count, 3);
    assert_eq!(plan.image_array_layers, 1);
    assert_eq!(plan.image_usage, magmacraft::swapchain::IMAGE_USAGE_COLOR_ATTACHMENT);
    assert_eq!(plan.pre_transform, 1);
    assert_eq!(plan.composite_alpha, magmacraft::swapchain::COMPOSITE_ALPHA_OPAQUE);
    assert!(plan.clipped);
    assert!(plan.previous_swapchain.is_none());
}

#[test]
fn sharing_is_concurrent_whenever_the_families_differ() {
    // A weakly dedicated transfer family that is distinct from the
    // graphics family still gets concurrent sharing.
    let mut indices = QueueFamilyIndices::empty();
    indices.graphics = Some(0);
    indices.transfer = Some(1);
    indices.weakly_dedicated_transfer = true;

    let properties = SurfaceProperties {
        capabilities: capabilities(2, 0, Extent2d { width: 640, height: 480 }),
        formats: vec![SurfaceFormat { format: 44, color_space: 0 }],
        present_modes: vec![PresentMode::Fifo],
    };
    let framebuffer = Extent2d { width: 800, height: 600 };
    let plan = plan_swapchain(&properties, &framebuffer, false, &indices).unwrap();

    assert_eq!(plan.sharing_mode, SharingMode::Concurrent);
    assert_eq!(plan.concurrent_queue_families, vec![0, 1]);
}

#[test]
fn plan_uses_exclusive_sharing_when_one_family_serves_both_roles() {
    let mut indices = QueueFamilyIndices::empty();
    indices.graphics = Some(0);
    indices.transfer = Some(0);

    let properties = SurfaceProperties {
        capabilities: capabilities(2, 0, Extent2d { width: 640, height: 480 }),
        formats: vec![SurfaceFormat { format: 44, color_space: 0 }],
        present_modes: vec![PresentMode::Fifo],
    };
    let framebuffer = Extent2d { width: 800, height: 600 };
    let plan = plan_swapchain(&properties, &framebuffer, false, &indices).unwrap();

    assert_eq!(plan.sharing_mode, SharingMode::Exclusive);
    assert!(plan.concurrent_queue_families.is_empty());
}

#[test]
fn plan_reports_missing_queue_family() {
    let indices = QueueFamilyIndices::empty();
    let properties = SurfaceProperties {
        capabilities: capabilities(2, 0, Extent2d { width: 640, height: 480 }),
        formats: vec![SurfaceFormat { format: 44, color_space: 0 }],
        present_modes: vec![PresentMode::Fifo],
    };
    let framebuffer = Extent2d { width: 800, height: 600 };
    let err = plan_swapchain(&properties, &framebuffer, false, &indices).unwrap_err();
    assert_eq!(
        err,
        VulkanError::QueueFamilyNotSupported { queue_family: QueueFamily::Graphics }
    );
}
