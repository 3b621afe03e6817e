//! Swapchain planning.
//!
//! Given the surface properties a device reports, the window's framebuffer
//! size, and the derived queue-family indices, these functions pick the
//! format, extent, present mode, image count, and image-sharing mode of
//! the presentable-image chain, and assemble them into one plan that the
//! native shell turns into a creation call.

use vstd::prelude::*;
use crate::errors::{VulkanError, VulkanResult};
use crate::physical_device::{QueueFamily, QueueFamilyIndices};

verus! {

/// Width value by which a surface reports that its current extent is
/// undefined and the window's framebuffer size should be used instead.
pub const UNDEFINED_EXTENT_WIDTH: u32 = 0xFFFF_FFFF;

/// How many images to ask for beyond the surface's reported minimum.
pub const ADDITIONAL_IMAGES_COUNT: u32 = 1;

/// Number of array layers of each swapchain image.
pub const IMAGE_ARRAY_LAYERS: u32 = 1;

/// Native image-usage bit for color-attachment use, the only use the
/// chain's images ever have.
pub const IMAGE_USAGE_COLOR_ATTACHMENT: u32 = 0x10;

/// Native composite-alpha bit for opaque surface composition.
pub const COMPOSITE_ALPHA_OPAQUE: u32 = 0x1;

/// A two-dimensional extent in pixels.
#[derive(Clone, Copy, Debug, PartialEq, Eq, Structural)]
pub struct Extent2d {
    pub width: u32,
    pub height: u32,
}

/// The capabilities a surface reports. A `max_image_count` of zero means
/// the image count is unbounded above. The transform is carried as the
/// native bitset value and passed through untouched.
#[derive(Clone, Copy, Debug, PartialEq, Eq, Structural)]
pub struct SurfaceCapabilities {
    pub min_image_count: u32,
    pub max_image_count: u32,
    pub current_extent: Extent2d,
    pub current_transform: u32,
}

/// One supported (format, color space) pair, carried as the native codes.
#[derive(Clone, Copy, Debug, PartialEq, Eq, Structural)]
pub struct SurfaceFormat {
    pub format: u32,
    pub color_space: u32,
}

/// A presentation mode of the surface.
#[derive(Clone, Copy, Debug, PartialEq, Eq, Structural)]
pub enum PresentMode {
    Immediate,
    Mailbox,
    Fifo,
    FifoRelaxed,
}

/// Everything queried fresh from the surface when a swapchain is built.
#[derive(Debug)]
pub struct SurfaceProperties {
    pub capabilities: SurfaceCapabilities,
    pub formats: Vec<SurfaceFormat>,
    pub present_modes: Vec<PresentMode>,
}

/// How the swapchain images are shared between queue families.
#[derive(Clone, Copy, Debug, PartialEq, Eq, Structural)]
pub enum SharingMode {
    Exclusive,
    Concurrent,
}

/// The fully decided parameters of one swapchain. `previous_swapchain`
/// names the chain being replaced; recreation is unsupported, so it is
/// always absent.
#[derive(Debug)]
pub struct SwapchainPlan {
    pub surface_format: SurfaceFormat,
    pub extent: Extent2d,
    pub present_mode: PresentMode,
    pub image_count: u32,
    pub sharing_mode: SharingMode,
    pub concurrent_queue_families: Vec<u32>,
    pub image_array_layers: u32,
    pub image_usage: u32,
    pub pre_transform: u32,
    pub composite_alpha: u32,
    pub clipped: bool,
    pub previous_swapchain: Option<u64>,
}

/// The first supported format is taken as it stands; no gamma-aware
/// selection is attempted.
pub fn select_surface_format(formats: &Vec<SurfaceFormat>) -> (r: SurfaceFormat)
    requires
        formats@.len() > 0,
    ensures
        r == formats@[0],
{
    formats[0]
}

/// Whether a reported extent is the undefined sentinel.
pub open spec fn spec_extent_undefined(extent: Extent2d) -> bool {
    extent.width == UNDEFINED_EXTENT_WIDTH
}

pub fn is_extent_undefined(extent: &Extent2d) -> (r: bool)
    ensures
        r == spec_extent_undefined(*extent),
{
    extent.width == UNDEFINED_EXTENT_WIDTH
}

/// Extent substitution: an undefined current extent is replaced by the
/// window's framebuffer size; any other reported extent is used verbatim.
pub fn select_image_extent(current_extent: &Extent2d, framebuffer_extent: &Extent2d) -> (r:
    Extent2d)
    ensures
        spec_extent_undefined(*current_extent) ==> r == *framebuffer_extent,
        !spec_extent_undefined(*current_extent) ==> r == *current_extent,
{
    if is_extent_undefined(current_extent) {
        *framebuffer_extent
    } else {
        *current_extent
    }
}

/// The mode looked for before falling back: mailbox when vertical
/// synchronization is wanted, immediate when it is not.
pub open spec fn spec_preferred_present_mode(vsync: bool) -> PresentMode {
    if vsync {
        PresentMode::Mailbox
    } else {
        PresentMode::Immediate
    }
}

/// The mode selected from the first `n` supported modes: the first
/// occurrence of the preferred mode, else FIFO (always supported).
pub open spec fn spec_present_mode_prefix(modes: Seq<PresentMode>, vsync: bool, n: int) -> PresentMode
    decreases n,
{
    if n <= 0 {
        PresentMode::Fifo
    } else {
        if modes[0] == spec_preferred_present_mode(vsync) {
            modes[0]
        } else {
            spec_present_mode_prefix(modes.drop_first(), vsync, n - 1)
        }
    }
}

pub open spec fn spec_present_mode(modes: Seq<PresentMode>, vsync: bool) -> PresentMode {
    spec_present_mode_prefix(modes, vsync, modes.len() as int)
}

/// Present-mode fallback: scan the supported modes for the preferred one
/// and take FIFO when it is absent. No other mode is ever chosen.
pub fn select_present_mode(modes: &Vec<PresentMode>, vsync: bool) -> (r: PresentMode)
    ensures
        r == spec_present_mode(modes@, vsync),
{
    let preferred = if vsync {
        PresentMode::Mailbox
    } else {
        PresentMode::Immediate
    };
    let mut i: usize = 0;
    proof {
        assert(modes@.skip(0) =~= modes@);
    }
    while i < modes.len()
        invariant
            i <= modes@.len(),
            preferred == spec_preferred_present_mode(vsync),
            spec_present_mode(modes@, vsync) == spec_present_mode_prefix(
                modes@.skip(i as int),
                vsync,
                modes@.len() - i,
            ),
        decreases modes@.len() - i,
    {
        if modes[i] == preferred {
            proof {
                assert(modes@.skip(i as int)[0] == modes@[i as int]);
            }
            return modes[i];
        }
        proof {
            assert(modes@.skip(i as int).drop_first() =~= modes@.skip(i + 1));
        }
        i = i + 1;
    }
    PresentMode::Fifo
}

/// The image count asked of the surface: one more than the reported
/// minimum, clamped to the reported maximum when that maximum is nonzero.
pub open spec fn spec_image_count(min_image_count: u32, max_image_count: u32) -> int {
    let optimal = min_image_count + ADDITIONAL_IMAGES_COUNT;
    if max_image_count != 0 && optimal > max_image_count {
        max_image_count as int
    } else {
        optimal
    }
}

pub fn select_image_count(capabilities: &SurfaceCapabilities) -> (r: u32)
    requires
        capabilities.min_image_count < u32::MAX,
    ensures
        r == spec_image_count(capabilities.min_image_count, capabilities.max_image_count),
{
    let mut optimal_image_count: u32 = capabilities.min_image_count + ADDITIONAL_IMAGES_COUNT;
    if capabilities.max_image_count != 0 && optimal_image_count > capabilities.max_image_count {
        optimal_image_count = capabilities.max_image_count;
    }
    optimal_image_count
}

/// Image-sharing selection: when the transfer role resolved to a queue
/// family of its own, distinct from the graphics family, the images are
/// shared concurrently between the two families; when both roles share
/// one family, the images stay exclusive to it. Fails for the first of
/// the two roles that has no recorded index.
pub fn select_image_sharing(indices: &QueueFamilyIndices) -> (r: VulkanResult<
    (SharingMode, Vec<u32>),
>)
    ensures
        match r {
            Ok((mode, families)) => {
                &&& indices.graphics is Some
                &&& indices.transfer is Some
                &&& indices.graphics->0 != indices.transfer->0 ==> {
                    &&& mode == SharingMode::Concurrent
                    &&& families@ == seq![indices.graphics->0, indices.transfer->0]
                }
                &&& indices.graphics->0 == indices.transfer->0 ==> {
                    &&& mode == SharingMode::Exclusive
                    &&& families@ == Seq::<u32>::empty()
                }
            },
            Err(e) => {
                &&& indices.graphics is None || indices.transfer is None
                &&& indices.graphics is None ==> e == (VulkanError::QueueFamilyNotSupported {
                    queue_family: QueueFamily::Graphics,
                })
                &&& indices.graphics is Some ==> e == (VulkanError::QueueFamilyNotSupported {
                    queue_family: QueueFamily::Transfer,
                })
            },
        },
{
    let graphics_index = match indices.index(QueueFamily::Graphics) {
        Some(i) => i,
        None => {
            return Err(VulkanError::QueueFamilyNotSupported { queue_family: QueueFamily::Graphics });
        },
    };
    let transfer_index = match indices.index(QueueFamily::Transfer) {
        Some(i) => i,
        None => {
            return Err(VulkanError::QueueFamilyNotSupported { queue_family: QueueFamily::Transfer });
        },
    };

    if graphics_index != transfer_index {
        let mut families: Vec<u32> = Vec::new();
        families.push(graphics_index);
        families.push(transfer_index);
        proof {
            assert(families@ =~= seq![indices.graphics->0, indices.transfer->0]);
        }
        Ok((SharingMode::Concurrent, families))
    } else {
        let families: Vec<u32> = Vec::new();
        proof {
            assert(families@ =~= Seq::<u32>::empty());
        }
        Ok((SharingMode::Exclusive, families))
    }
}

/// Assemble the full swapchain plan, each choice depending on the ones
/// before it. The format list must be nonempty (a surface always reports
/// at least one pair) and the reported minimum image count must leave room
/// for one more.
pub fn plan_swapchain(
    properties: &SurfaceProperties,
    framebuffer_extent: &Extent2d,
    vsync: bool,
    indices: &QueueFamilyIndices,
) -> (r: VulkanResult<SwapchainPlan>)
    requires
        properties.formats@.len() > 0,
        properties.capabilities.min_image_count < u32::MAX,
    ensures
        match r {
            Ok(plan) => {
                &&& plan.surface_format == properties.formats@[0]
                &&& plan.extent == if spec_extent_undefined(properties.capabilities.current_extent) {
                    *framebuffer_extent
                } else {
                    properties.capabilities.current_extent
                }
                &&& plan.present_mode == spec_present_mode(properties.present_modes@, vsync)
                &&& plan.image_count == spec_image_count(
                    properties.capabilities.min_image_count,
                    properties.capabilities.max_image_count,
                )
                &&& indices.graphics->0 != indices.transfer->0 ==> {
                    &&& plan.sharing_mode == SharingMode::Concurrent
                    &&& plan.concurrent_queue_families@ == seq![
                        indices.graphics->0,
                        indices.transfer->0,
                    ]
                }
                &&& indices.graphics->0 == indices.transfer->0 ==> {
                    &&& plan.sharing_mode == SharingMode::Exclusive
                    &&& plan.concurrent_queue_families@ == Seq::<u32>::empty()
                }
                &&& plan.image_array_layers == IMAGE_ARRAY_LAYERS
                &&& plan.image_usage == IMAGE_USAGE_COLOR_ATTACHMENT
                &&& plan.pre_transform == properties.capabilities.current_transform
                &&& plan.composite_alpha == COMPOSITE_ALPHA_OPAQUE
                &&& plan.clipped
                &&& plan.previous_swapchain is None
                &&& indices.graphics is Some
                &&& indices.transfer is Some
            },
            Err(e) => {
                &&& indices.graphics is None || indices.transfer is None
                &&& indices.graphics is None ==> e == (VulkanError::QueueFamilyNotSupported {
                    queue_family: QueueFamily::Graphics,
                })
                &&& indices.graphics is Some ==> e == (VulkanError::QueueFamilyNotSupported {
                    queue_family: QueueFamily::Transfer,
                })
            },
        },
{
    let surface_format = select_surface_format(&properties.formats);
    let extent = select_image_extent(&properties.capabilities.current_extent, framebuffer_extent);
    let present_mode = select_present_mode(&properties.present_modes, vsync);
    let image_count = select_image_count(&properties.capabilities);
    let (sharing_mode, concurrent_queue_families) = match select_image_sharing(indices) {
        Ok(sharing) => sharing,
        Err(e) => {
            return Err(e);
        },
    };

    Ok(
        SwapchainPlan {
            surface_format,
            extent,
            present_mode,
            image_count,
            sharing_mode,
            concurrent_queue_families,
            image_array_layers: IMAGE_ARRAY_LAYERS,
            image_usage: IMAGE_USAGE_COLOR_ATTACHMENT,
            pre_transform: properties.capabilities.current_transform,
            composite_alpha: COMPOSITE_ALPHA_OPAQUE,
            clipped: true,
            previous_swapchain: None,
        },
    )
}

} // verus!
