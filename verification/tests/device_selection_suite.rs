//! Physical-device selection and the end-to-end setup scenario.

use magmacraft::device_selection::{
    are_extensions_supported, is_extension_supported, select_suitable_device, CandidateDevice,
};
use magmacraft::errors::VulkanError;
use magmacraft::logical_device::{plan_logical_device, unique_queue_family_indices, DeviceQueueMap};
use magmacraft::physical_device::{
    QueueFamily, QueueFamilyProps, QueueFamilySet, QUEUE_FLAG_COMPUTE, QUEUE_FLAG_GRAPHICS,
    QUEUE_FLAG_TRANSFER,
};
use magmacraft::renderer::{
    logical_device_queue_families, physical_device_queue_families, required_device_extensions,
};
use magmacraft::swapchain::{
    plan_swapchain, Extent2d, PresentMode, SharingMode, SurfaceCapabilities, SurfaceFormat,
    SurfaceProperties,
};

fn graphics_candidate(discrete: bool) -> CandidateDevice {
    CandidateDevice {
        queue_families: vec![QueueFamilyProps {
            flags: QUEUE_FLAG_GRAPHICS | QUEUE_FLAG_TRANSFER,
            supports_presentation: true,
        }],
        extensions: vec!["VK_KHR_swapchain".to_string()],
        discrete,
    }
}

fn graphics_only_requirement() -> QueueFamilySet {
    QueueFamilySet::from_families(&[QueueFamily::Graphics])
}

#[test]
fn extension_match_is_exact() {
    let available = vec!["VK_KHR_swapchain".to_string(), "VK_KHR_maintenance1".to_string()];
    assert!(is_extension_supported(&available, &"VK_KHR_swapchain".to_string()));
    assert!(!is_extension_supported(&available, &"VK_KHR_Swapchain".to_string()));
    assert!(are_extensions_supported(&available, &vec!["VK_KHR_maintenance1".to_string()]));
    assert!(!are_extensions_supported(&available, &vec!["VK_EXT_absent".to_string()]));
}

#[test]
fn no_suitable_device_is_an_error() {
    let candidates = vec![CandidateDevice {
        queue_families: vec![QueueFamilyProps {
            flags: QUEUE_FLAG_COMPUTE,
            supports_presentation: false,
        }],
        extensions: vec![],
        discrete: false,
    }];
    let required = graphics_only_requirement();
    let err = select_suitable_device(&candidates, &required, &vec![]).unwrap_err();
    assert_eq!(err, VulkanError::SuitableDeviceNotFound);
}

#[test]
fn missing_extension_disqualifies_a_device() {
    let mut candidate = graphics_candidate(false);
    candidate.extensions = vec![];
    let required = graphics_only_requirement();
    let err =
        select_suitable_device(&vec![candidate], &required, &required_device_extensions())
            .unwrap_err();
    assert_eq!(err, VulkanError::SuitableDeviceNotFound);
}

#[test]
fn suitable_discrete_device_wins_immediately() {
    let candidates = vec![
        graphics_candidate(false),
        graphics_candidate(true),
        graphics_candidate(false),
    ];
    let required = graphics_only_requirement();
    let selected = select_suitable_device(&candidates, &required, &vec![]).unwrap();
    assert_eq!(selected.device_index, 1);
}

#[test]
fn without_discrete_devices_the_last_suitable_wins() {
    let candidates = vec![graphics_candidate(false), graphics_candidate(false)];
    let required = graphics_only_requirement();
    let selected = select_suitable_device(&candidates, &required, &vec![]).unwrap();
    assert_eq!(selected.device_index, 1);
}

#[test]
fn unsuitable_discrete_device_does_not_stop_the_scan() {
    let unsuitable_discrete = CandidateDevice {
        queue_families: vec![QueueFamilyProps {
            flags: QUEUE_FLAG_COMPUTE,
            supports_presentation: false,
        }],
        extensions: vec![],
        discrete: true,
    };
    let candidates = vec![unsuitable_discrete, graphics_candidate(false)];
    let required = graphics_only_requirement();
    let selected = select_suitable_device(&candidates, &required, &vec![]).unwrap();
    assert_eq!(selected.device_index, 1);
}

#[test]
fn unique_indices_deduplicate_roles() {
    let families = vec![QueueFamilyProps {
        flags: QUEUE_FLAG_GRAPHICS | QUEUE_FLAG_TRANSFER,
        supports_presentation: true,
    }];
    let indices = magmacraft::physical_device::QueueFamilyIndices::from_properties(&families);
    let requested = vec![QueueFamily::Graphics, QueueFamily::Transfer, QueueFamily::Presentation];
    let unique = unique_queue_family_indices(&requested, &indices).unwrap();
    assert_eq!(unique, vec![0]);
}

#[test]
fn unique_indices_fail_for_unsupported_role() {
    let families = vec![QueueFamilyProps {
        flags: QUEUE_FLAG_GRAPHICS,
        supports_presentation: false,
    }];
    let indices = magmacraft::physical_device::QueueFamilyIndices::from_properties(&families);
    let requested = vec![QueueFamily::Graphics, QueueFamily::Compute];
    let err = unique_queue_family_indices(&requested, &indices).unwrap_err();
    assert_eq!(err, VulkanError::QueueFamilyNotSupported { queue_family: QueueFamily::Compute });
}

#[test]
fn device_queue_lookup_follows_request_order() {
    let map = DeviceQueueMap {
        roles: vec![QueueFamily::Graphics, QueueFamily::Transfer, QueueFamily::Presentation],
    };
    assert_eq!(map.device_queue(QueueFamily::Graphics), Ok(0));
    assert_eq!(map.device_queue(QueueFamily::Presentation), Ok(2));
    assert_eq!(
        map.device_queue(QueueFamily::Compute),
        Err(VulkanError::LogicalDeviceGetDeviceQueueError)
    );
}

#[test]
fn end_to_end_device_setup() {
    // A stub surface reporting two queue families: one general-purpose
    // family that can present, and one family supporting only transfer.
    let candidate = CandidateDevice {
        queue_families: vec![
            QueueFamilyProps {
                flags: QUEUE_FLAG_GRAPHICS | QUEUE_FLAG_TRANSFER,
                supports_presentation: true,
            },
            QueueFamilyProps { flags: QUEUE_FLAG_TRANSFER, supports_presentation: false },
        ],
        extensions: vec!["VK_KHR_swapchain".to_string()],
        discrete: false,
    };
    let required_families = QueueFamilySet::from_families(&physical_device_queue_families());
    let required_extensions = required_device_extensions();

    let selected =
        select_suitable_device(&vec![candidate], &required_families, &required_extensions)
            .unwrap();
    assert_eq!(selected.device_index, 0);
    // The record carries the extension names it was selected with, for
    // pass-through to device creation.
    assert_eq!(selected.requested_extensions(), &required_extensions);

    // Family 1 is the strongly dedicated transfer family; family 0 does
    // graphics; both together satisfy the requested role set.
    let indices = &selected.queue_family_indices;
    assert_eq!(indices.graphics, Some(0));
    assert_eq!(indices.transfer, Some(1));
    assert!(selected.is_transfer_queue_family_dedicated());
    assert_eq!(indices.presentation, Some(0));
    assert!(indices.does_support_families(&required_families));
    let with_presentation = QueueFamilySet::from_families(&[
        QueueFamily::Graphics,
        QueueFamily::Transfer,
        QueueFamily::Presentation,
    ]);
    assert!(indices.does_support_families(&with_presentation));
    assert_eq!(selected.queue_family_index(QueueFamily::Graphics), Ok(0));
    assert_eq!(
        selected.queue_family_index(QueueFamily::Compute),
        Err(VulkanError::QueueFamilyNotSupported { queue_family: QueueFamily::Compute })
    );

    // The logical device requests graphics, transfer and presentation
    // queues; graphics and presentation share family 0.
    let plan = plan_logical_device(&logical_device_queue_families(), indices).unwrap();
    assert_eq!(plan.unique_queue_family_indices, vec![0, 1]);
    assert_eq!(plan.queue_role_indices, vec![0, 1, 0]);

    // The swapchain is planned against the stub surface: transfer
    // resolved to a family of its own, so image sharing is concurrent
    // across families 0 and 1.
    let properties = SurfaceProperties {
        capabilities: SurfaceCapabilities {
            min_image_count: 2,
            max_image_count: 0,
            current_extent: Extent2d { width: 640, height: 480 },
            current_transform: 1,
        },
        formats: vec![SurfaceFormat { format: 44, color_space: 0 }],
        present_modes: vec![PresentMode::Fifo],
    };
    let framebuffer = Extent2d { width: 800, height: 600 };
    let swapchain = plan_swapchain(&properties, &framebuffer, false, indices).unwrap();
    assert_eq!(swapchain.sharing_mode, SharingMode::Concurrent);
    assert_eq!(swapchain.concurrent_queue_families, vec![0, 1]);
}
