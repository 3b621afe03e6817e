//! Instance configuration: version encoding, the validation-layer list,
//! and the instance-extension list.
//!
//! In debug mode the engine asks for the Khronos validation layer and the
//! debug-utils extension on top of whatever extensions the windowing
//! collaborator demands; in release mode it asks for nothing extra.

use vstd::prelude::*;
use crate::errors::{VulkanError, VulkanResult};
use crate::vulkan_names;

verus! {

/// Pack a semantic version into the native 10/10/12-bit encoding.
pub fn encode_version(major: u32, minor: u32, patch: u32) -> (r: u32)
    requires
        major < 0x400,
        minor < 0x400,
        patch < 0x1000,
    ensures
        r == major * 0x400000 + minor * 0x1000 + patch,
{
    major * 0x400000 + minor * 0x1000 + patch
}

/// The one validation layer requested in debug mode.
pub fn validation_layer_name() -> (r: String)
    ensures
        r@ == "VK_LAYER_KHRONOS_validation"@,
{
    "VK_LAYER_KHRONOS_validation".to_owned()
}

/// The layer list for the given mode: the validation layer in debug mode,
/// nothing otherwise.
pub fn validation_layers_for(debug_mode: bool) -> (r: Vec<String>)
    ensures
        debug_mode ==> r@.len() == 1 && r@[0]@ == "VK_LAYER_KHRONOS_validation"@,
        !debug_mode ==> r@.len() == 0,
{
    let mut layers: Vec<String> = Vec::new();
    if debug_mode {
        layers.push(validation_layer_name());
    }
    layers
}

/// The layer name appears in the driver's layer-property list.
pub open spec fn spec_layer_available(available: Seq<String>, name: Seq<char>) -> bool {
    exists|j: int| 0 <= j < available.len() && available[j]@ == name
}

pub fn is_validation_layer_in_properties(
    layer_name: &String,
    properties: &Vec<String>,
) -> (r: bool)
    ensures
        r == spec_layer_available(properties@, layer_name@),
{
    let mut i: usize = 0;
    while i < properties.len()
        invariant
            i <= properties@.len(),
            forall|j: int| 0 <= j < i ==> properties@[j]@ != layer_name@,
        decreases properties@.len() - i,
    {
        if properties[i] == *layer_name {
            return true;
        }
        i = i + 1;
    }
    false
}

/// Check that every requested layer is among the driver's layer
/// properties; fails when one is missing.
pub fn check_if_validation_layers_are_available(
    requested: &Vec<String>,
    properties: &Vec<String>,
) -> (r: VulkanResult<()>)
    ensures
        match r {
            Ok(_) => forall|i: int|
                0 <= i < requested@.len() ==> spec_layer_available(
                    properties@,
                    (#[trigger] requested@[i])@,
                ),
            Err(e) => {
                &&& exists|i: int|
                    0 <= i < requested@.len() && !spec_layer_available(
                        properties@,
                        (#[trigger] requested@[i])@,
                    )
                &&& e == VulkanError::ValidationLayersNotAvailable
            },
        },
{
    let mut i: usize = 0;
    while i < requested.len()
        invariant
            i <= requested@.len(),
            forall|j: int|
                0 <= j < i ==> spec_layer_available(properties@, (#[trigger] requested@[j])@),
        decreases requested@.len() - i,
    {
        if !is_validation_layer_in_properties(&requested[i], properties) {
            return Err(VulkanError::ValidationLayersNotAvailable);
        }
        i = i + 1;
    }
    Ok(())
}

/// The instance-extension list: the windowing collaborator's required
/// extensions, with the debug-utils extension added in debug mode.
pub fn instance_extensions_for(base: Vec<String>, debug_mode: bool) -> (r: Vec<String>)
    ensures
        !debug_mode ==> r@ == base@,
        debug_mode ==> {
            &&& r@.len() == base@.len() + 1
            &&& r@.take(base@.len() as int) == base@
            &&& r@[base@.len() as int]@ == "VK_EXT_debug_utils"@
        },
{
    let mut extensions = base;
    if debug_mode {
        let ghost before = extensions@;
        extensions.push(vulkan_names::debug_utils_extension_name());
        proof {
            assert(extensions@.take(before.len() as int) =~= before);
        }
    }
    extensions
}

} // verus!
