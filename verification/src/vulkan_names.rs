//! Names of the native extensions the engine asks for, taken from the
//! graphics bindings so they can never drift from the registry.

use vstd::prelude::*;

verus! {

/// Relies on `ash::vk::KHR_SWAPCHAIN_NAME`: the registered name of the
/// swapchain device extension, the constant "VK_KHR_swapchain".
#[verifier::external_body]
pub(crate) fn swapchain_extension_name() -> (r: String)
    ensures
        r@ == "VK_KHR_swapchain"@,
{
    ash::vk::KHR_SWAPCHAIN_NAME.to_str().unwrap().to_owned()
}

/// Relies on `ash::vk::EXT_DEBUG_UTILS_NAME`: the registered name of the
/// debug-utils instance extension, the constant "VK_EXT_debug_utils".
#[verifier::external_body]
pub(crate) fn debug_utils_extension_name() -> (r: String)
    ensures
        r@ == "VK_EXT_debug_utils"@,
{
    ash::vk::EXT_DEBUG_UTILS_NAME.to_str().unwrap().to_owned()
}

} // verus!
