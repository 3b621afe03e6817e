//! Error taxonomy of the engine.
//!
//! Native-call failures carry the raw status code that the driver returned,
//! as a plain `i32`. Capability-negotiation failures are their own variants.

use vstd::prelude::*;
use crate::physical_device::QueueFamily;

verus! {

/// An error from device setup, resource creation, or a synchronization
/// primitive. Variants that end in a `result` field wrap the native status
/// code of the failed call.
#[derive(Clone, Copy, Debug, PartialEq, Eq, Structural)]
pub enum VulkanError {
    LibraryLoadError,
    CreateDebugMessengerError { result: i32 },
    ValidationLayersNotAvailable,
    ValidationLayersError { result: i32 },
    InstanceCreateError { result: i32 },
    EnumeratePhysicalDevicesError { result: i32 },
    PhysicalDevicePropertiesError { result: i32 },
    QueueFamilyNotSupported { queue_family: QueueFamily },
    EnumeratePhysicalDeviceExtensionsError { result: i32 },
    PhysicalDeviceSelectError,
    SuitableDeviceNotFound,
    LogicalDeviceCreateError { result: i32 },
    LogicalDeviceGetDeviceQueueError,
    LogicalDeviceWaitIdleError { result: i32 },
    SwapchainCreateError { result: i32 },
    SwapchainGetImagesError { result: i32 },
    ShaderCreateError { result: i32 },
    ShaderOpenFileError,
    ShaderCodeSizeError,
    RenderPassCreateError { result: i32 },
    PipelineCreateError { result: i32 },
    PipelineLayoutCreateError { result: i32 },
    PipelineCreateVertexAttributeDescriptionError,
    ImageViewCreateError { result: i32 },
    FramebuffersCreateError { result: i32 },
    CommandPoolCreateError { result: i32 },
    CommandBufferAllocateError { result: i32 },
    CommandBufferRecordError { result: i32 },
    SemaphoreCreateError { result: i32 },
    FenceCreateError { result: i32 },
    FenceGetStatusError { result: i32 },
    FenceTimeoutTooLargeError,
    FenceWaitError { result: i32 },
    FenceResetError { result: i32 },
}

pub type VulkanResult<T> = Result<T, VulkanError>;

/// An error from the per-frame render loop. The first variant wraps an
/// error that a lower layer already classified.
#[derive(Clone, Copy, Debug, PartialEq, Eq, Structural)]
pub enum RenderingError {
    VulkanError { source: VulkanError },
    AcquireImageError { result: i32 },
    RenderImageError { result: i32 },
    PresentImageError { result: i32 },
    DeviceWaitIdleError { result: i32 },
}

pub type RenderingResult<T> = Result<T, RenderingError>;

} // verus!
