//! Physical-device selection.
//!
//! Every enumerated device is reduced to a candidate record: its queue
//! family list, its supported extension names, and whether it is a
//! discrete GPU. A device is suitable when its derived queue-family
//! indices cover every required role and every required extension name
//! appears, byte for byte, in its extension list. The scan prefers
//! discrete GPUs: it stops at the first suitable discrete device, and
//! otherwise keeps the last suitable device seen.

use vstd::prelude::*;
use crate::errors::{VulkanError, VulkanResult};
use crate::physical_device::{
    derived_indices, QueueFamily, QueueFamilyIndex, QueueFamilyIndices, QueueFamilyProps,
    QueueFamilySet,
};

verus! {

/// What the engine knows of one enumerated device.
#[derive(Debug)]
pub struct CandidateDevice {
    pub queue_families: Vec<QueueFamilyProps>,
    pub extensions: Vec<String>,
    pub discrete: bool,
}

/// The device the scan settled on: its position in the candidate list,
/// the queue-family indices derived from its family list, and the
/// extension names it was selected with (passed through to device
/// creation).
#[derive(Debug)]
pub struct SelectedDevice {
    pub device_index: usize,
    pub queue_family_indices: QueueFamilyIndices,
    pub requested_extensions: Vec<String>,
}

impl SelectedDevice {
    /// The extension names the device was selected with.
    pub fn requested_extensions(&self) -> (r: &Vec<String>)
        ensures
            r@ == self.requested_extensions@,
    {
        &self.requested_extensions
    }

    /// The recorded index of one role, or the error naming the role the
    /// device does not support.
    pub fn queue_family_index(&self, family: QueueFamily) -> (r: VulkanResult<QueueFamilyIndex>)
        ensures
            match r {
                Ok(i) => self.queue_family_indices.spec_index(family) == Some(i),
                Err(e) => {
                    &&& self.queue_family_indices.spec_index(family) is None
                    &&& e == (VulkanError::QueueFamilyNotSupported { queue_family: family })
                },
            },
    {
        match self.queue_family_indices.index(family) {
            Some(i) => Ok(i),
            None => Err(VulkanError::QueueFamilyNotSupported { queue_family: family }),
        }
    }

    pub fn is_transfer_queue_family_dedicated(&self) -> (r: bool)
        ensures
            r == self.queue_family_indices.strongly_dedicated_transfer,
    {
        self.queue_family_indices.is_transfer_dedicated()
    }
}

/// The name appears in the device's extension list (case-sensitive exact
/// match).
pub open spec fn spec_extension_supported(available: Seq<String>, name: Seq<char>) -> bool {
    exists|j: int| 0 <= j < available.len() && available[j]@ == name
}

pub fn is_extension_supported(
    device_extensions: &Vec<String>,
    required_extension_name: &String,
) -> (r: bool)
    ensures
        r == spec_extension_supported(device_extensions@, required_extension_name@),
{
    let mut i: usize = 0;
    while i < device_extensions.len()
        invariant
            i <= device_extensions@.len(),
            forall|j: int| 0 <= j < i ==> device_extensions@[j]@ != required_extension_name@,
        decreases device_extensions@.len() - i,
    {
        if device_extensions[i] == *required_extension_name {
            return true;
        }
        i = i + 1;
    }
    false
}

/// Every required name appears in the device's extension list.
pub open spec fn spec_all_extensions_supported(
    available: Seq<String>,
    required: Seq<String>,
) -> bool {
    forall|i: int|
        0 <= i < required.len() ==> spec_extension_supported(available, #[trigger] required[i]@)
}

pub fn are_extensions_supported(
    device_extensions: &Vec<String>,
    required_extensions: &Vec<String>,
) -> (r: bool)
    ensures
        r == spec_all_extensions_supported(device_extensions@, required_extensions@),
{
    let mut i: usize = 0;
    while i < required_extensions.len()
        invariant
            i <= required_extensions@.len(),
            forall|j: int|
                0 <= j < i ==> spec_extension_supported(
                    device_extensions@,
                    #[trigger] required_extensions@[j]@,
                ),
        decreases required_extensions@.len() - i,
    {
        if !is_extension_supported(device_extensions, &required_extensions[i]) {
            return false;
        }
        i = i + 1;
    }
    true
}

/// A candidate is suitable when its derived indices cover the required
/// roles and it supports every required extension.
pub open spec fn spec_device_suitable(
    candidate: CandidateDevice,
    required_families: QueueFamilySet,
    required_extensions: Seq<String>,
) -> bool {
    &&& required_families.subset_of(derived_indices(candidate.queue_families@).spec_family_set())
    &&& spec_all_extensions_supported(candidate.extensions@, required_extensions)
}

pub fn is_device_suitable(
    candidate: &CandidateDevice,
    required_families: &QueueFamilySet,
    required_extensions: &Vec<String>,
) -> (r: bool)
    requires
        candidate.queue_families@.len() <= u32::MAX,
    ensures
        r == spec_device_suitable(*candidate, *required_families, required_extensions@),
{
    let indices = QueueFamilyIndices::from_properties(&candidate.queue_families);
    indices.does_support_families(required_families) && are_extensions_supported(
        &candidate.extensions,
        required_extensions,
    )
}

/// Copy a name list, value for value, so the selected-device record can
/// carry the extension names it was selected with.
fn clone_extension_names(names: &Vec<String>) -> (r: Vec<String>)
    ensures
        r@ == names@,
{
    let mut copy: Vec<String> = Vec::new();
    let mut i: usize = 0;
    while i < names.len()
        invariant
            i <= names@.len(),
            copy@ == names@.take(i as int),
        decreases names@.len() - i,
    {
        copy.push(names[i].clone());
        proof {
            assert(copy@ =~= names@.take(i + 1));
        }
        i = i + 1;
    }
    proof {
        assert(copy@ =~= names@);
    }
    copy
}

/// The scan from position `i` with `best` holding the last suitable
/// device so far: record each suitable device, stop at a suitable
/// discrete one, and end with the record as it stands.
pub open spec fn spec_scan(
    candidates: Seq<CandidateDevice>,
    required_families: QueueFamilySet,
    required_extensions: Seq<String>,
    i: int,
    best: Option<int>,
) -> Option<int>
    decreases candidates.len() - i,
{
    if i < 0 || i >= candidates.len() {
        best
    } else {
        let suitable = spec_device_suitable(candidates[i], required_families, required_extensions);
        let best2 = if suitable {
            Some(i)
        } else {
            best
        };
        if suitable && candidates[i].discrete {
            best2
        } else {
            spec_scan(candidates, required_families, required_extensions, i + 1, best2)
        }
    }
}

/// The index the whole scan settles on, if any device is suitable.
pub open spec fn spec_selected_device(
    candidates: Seq<CandidateDevice>,
    required_families: QueueFamilySet,
    required_extensions: Seq<String>,
) -> Option<int> {
    spec_scan(candidates, required_families, required_extensions, 0, None)
}

/// Maps the running best of the executable scan to its specification
/// counterpart.
pub open spec fn spec_best_index(best: Option<usize>) -> Option<int> {
    match best {
        Some(b) => Some(b as int),
        None => None,
    }
}

/// Scan the candidates and settle on a device, with its derived
/// queue-family indices. Fails exactly when no candidate is suitable.
pub fn select_suitable_device(
    candidates: &Vec<CandidateDevice>,
    required_families: &QueueFamilySet,
    required_extensions: &Vec<String>,
) -> (r: VulkanResult<SelectedDevice>)
    requires
        forall|i: int|
            0 <= i < candidates@.len() ==> (#[trigger] candidates@[i]).queue_families@.len()
                <= u32::MAX,
    ensures
        match r {
            Ok(sel) => {
                &&& spec_selected_device(candidates@, *required_families, required_extensions@)
                    == Some(sel.device_index as int)
                &&& sel.device_index < candidates@.len()
                &&& spec_device_suitable(
                    candidates@[sel.device_index as int],
                    *required_families,
                    required_extensions@,
                )
                &&& sel.queue_family_indices == derived_indices(
                    candidates@[sel.device_index as int].queue_families@,
                )
                &&& sel.requested_extensions@ == required_extensions@
            },
            Err(e) => {
                &&& spec_selected_device(candidates@, *required_families, required_extensions@)
                    is None
                &&& e == VulkanError::SuitableDeviceNotFound
            },
        },
{
    let mut best: Option<usize> = None;
    let mut i: usize = 0;

    while i < candidates.len()
        invariant
            i <= candidates@.len(),
            forall|k: int|
                0 <= k < candidates@.len() ==> (#[trigger] candidates@[k]).queue_families@.len()
                    <= u32::MAX,
            best matches Some(b) ==> b < i && spec_device_suitable(
                candidates@[b as int],
                *required_families,
                required_extensions@,
            ),
            spec_selected_device(candidates@, *required_families, required_extensions@)
                == spec_scan(
                candidates@,
                *required_families,
                required_extensions@,
                i as int,
                spec_best_index(best),
            ),
        decreases candidates@.len() - i,
    {
        let suitable = is_device_suitable(&candidates[i], required_families, required_extensions);
        if suitable {
            if candidates[i].discrete {
                let queue_family_indices = QueueFamilyIndices::from_properties(
                    &candidates[i].queue_families,
                );
                return Ok(
                    SelectedDevice {
                        device_index: i,
                        queue_family_indices,
                        requested_extensions: clone_extension_names(required_extensions),
                    },
                );
            }
            best = Some(i);
        }
        i = i + 1;
    }

    match best {
        Some(b) => {
            let queue_family_indices = QueueFamilyIndices::from_properties(
                &candidates[b].queue_families,
            );
            Ok(
                SelectedDevice {
                    device_index: b,
                    queue_family_indices,
                    requested_extensions: clone_extension_names(required_extensions),
                },
            )
        },
        None => Err(VulkanError::SuitableDeviceNotFound),
    }
}

} // verus!
