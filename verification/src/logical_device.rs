//! Logical-device planning.
//!
//! The engine requests one queue per role it needs. Two roles may resolve
//! to the same queue family, so the family indices are deduplicated
//! before queues are requested (one queue per unique family), and after
//! creation every originally requested role gets a queue handle, possibly
//! shared. Asking the finished device for a role that was never requested
//! is an error.

use vstd::prelude::*;
use crate::errors::{VulkanError, VulkanResult};
use crate::physical_device::{QueueFamily, QueueFamilyIndex, QueueFamilyIndices};

verus! {

/// No index occurs twice.
pub open spec fn spec_no_duplicates(indices: Seq<QueueFamilyIndex>) -> bool {
    forall|a: int, b: int| 0 <= a < b < indices.len() ==> indices[a] != indices[b]
}

/// The family indices of the first `n` requested roles, first occurrence
/// kept, duplicates dropped.
pub open spec fn spec_dedup_indices(
    requested: Seq<QueueFamily>,
    indices: QueueFamilyIndices,
    n: int,
) -> Seq<QueueFamilyIndex>
    decreases n,
{
    if n <= 0 {
        Seq::empty()
    } else {
        let prev = spec_dedup_indices(requested, indices, n - 1);
        let v = indices.spec_index(requested[n - 1])->0;
        if prev.contains(v) {
            prev
        } else {
            prev.push(v)
        }
    }
}

/// Deduplication never records an index twice.
pub proof fn lemma_dedup_no_duplicates(
    requested: Seq<QueueFamily>,
    indices: QueueFamilyIndices,
    n: int,
)
    ensures
        spec_no_duplicates(spec_dedup_indices(requested, indices, n)),
    decreases n,
{
    if n > 0 {
        lemma_dedup_no_duplicates(requested, indices, n - 1);
        let prev = spec_dedup_indices(requested, indices, n - 1);
        let v = indices.spec_index(requested[n - 1])->0;
        if !prev.contains(v) {
            let cur = prev.push(v);
            assert forall|a: int, b: int| 0 <= a < b < cur.len() implies cur[a] != cur[b] by {
                if b == cur.len() - 1 {
                    assert(cur[a] == prev[a]);
                    assert(!prev.contains(v));
                    assert(prev[a] != v);
                }
            }
        }
    }
}

/// Every requested role's index is present after deduplication.
pub proof fn lemma_dedup_complete(
    requested: Seq<QueueFamily>,
    indices: QueueFamilyIndices,
    n: int,
    j: int,
)
    requires
        0 <= j < n,
    ensures
        spec_dedup_indices(requested, indices, n).contains(
            indices.spec_index(requested[j])->0,
        ),
    decreases n,
{
    let prev = spec_dedup_indices(requested, indices, n - 1);
    let v = indices.spec_index(requested[n - 1])->0;
    let cur = spec_dedup_indices(requested, indices, n);
    if j == n - 1 {
        if prev.contains(v) {
            assert(cur.contains(v));
        } else {
            assert(cur[cur.len() - 1] == v);
        }
    } else {
        lemma_dedup_complete(requested, indices, n - 1, j);
        let w = indices.spec_index(requested[j])->0;
        let i = choose|i: int| 0 <= i < prev.len() && prev[i] == w;
        assert(cur[i] == w);
    }
}

/// Nothing but requested roles' indices is present after deduplication.
pub proof fn lemma_dedup_only_requested(
    requested: Seq<QueueFamily>,
    indices: QueueFamilyIndices,
    n: int,
    m: int,
)
    requires
        0 <= m < spec_dedup_indices(requested, indices, n).len(),
    ensures
        exists|j: int|
            0 <= j < n && indices.spec_index(requested[j])->0 == spec_dedup_indices(
                requested,
                indices,
                n,
            )[m],
    decreases n,
{
    let prev = spec_dedup_indices(requested, indices, n - 1);
    let cur = spec_dedup_indices(requested, indices, n);
    let v = indices.spec_index(requested[n - 1])->0;
    if m < prev.len() {
        lemma_dedup_only_requested(requested, indices, n - 1, m);
        let j0 = choose|j: int|
            0 <= j < n - 1 && indices.spec_index(requested[j])->0 == prev[m];
        assert(cur[m] == prev[m]);
        assert(0 <= j0 < n && indices.spec_index(requested[j0])->0 == cur[m]);
    } else {
        assert(cur[m] == v);
        assert(indices.spec_index(requested[n - 1])->0 == cur[m]);
    }
}

pub fn contains_index(indices: &Vec<QueueFamilyIndex>, index: QueueFamilyIndex) -> (r: bool)
    ensures
        r == indices@.contains(index),
{
    let mut i: usize = 0;
    while i < indices.len()
        invariant
            i <= indices@.len(),
            forall|j: int| 0 <= j < i ==> indices@[j] != index,
        decreases indices@.len() - i,
    {
        if indices[i] == index {
            return true;
        }
        i = i + 1;
    }
    false
}

/// The family indices of the requested roles, first occurrence kept,
/// duplicates dropped. Fails with a role that has no recorded index.
pub fn unique_queue_family_indices(
    requested: &Vec<QueueFamily>,
    indices: &QueueFamilyIndices,
) -> (r: VulkanResult<Vec<QueueFamilyIndex>>)
    ensures
        match r {
            Ok(unique) => {
                &&& forall|j: int|
                    0 <= j < requested@.len() ==> indices.spec_index(#[trigger] requested@[j])
                        is Some
                &&& unique@ == spec_dedup_indices(requested@, *indices, requested@.len() as int)
            },
            Err(e) => exists|j: int|
                {
                    &&& 0 <= j < requested@.len()
                    &&& indices.spec_index(#[trigger] requested@[j]) is None
                    &&& e == (VulkanError::QueueFamilyNotSupported { queue_family: requested@[j] })
                },
        },
{
    let mut unique: Vec<QueueFamilyIndex> = Vec::new();
    let mut j: usize = 0;
    while j < requested.len()
        invariant
            j <= requested@.len(),
            forall|k: int|
                0 <= k < j ==> indices.spec_index(#[trigger] requested@[k]) is Some,
            unique@ == spec_dedup_indices(requested@, *indices, j as int),
        decreases requested@.len() - j,
    {
        let family = requested[j];
        match indices.index(family) {
            None => {
                return Err(VulkanError::QueueFamilyNotSupported { queue_family: family });
            },
            Some(index) => {
                if !contains_index(&unique, index) {
                    unique.push(index);
                }
                proof {
                    assert(unique@ == spec_dedup_indices(requested@, *indices, j + 1));
                }
            },
        }
        j = j + 1;
    }
    Ok(unique)
}

/// The queue handles of a finished logical device, one slot per
/// originally requested role, in request order.
#[derive(Debug)]
pub struct DeviceQueueMap {
    pub roles: Vec<QueueFamily>,
}

impl DeviceQueueMap {
    /// The slot that holds `queue_family`'s queue handle: the first
    /// request of that role. Asking for a role that was never requested
    /// is reported as an error.
    pub fn device_queue(&self, queue_family: QueueFamily) -> (r: VulkanResult<usize>)
        ensures
            match r {
                Ok(i) => {
                    &&& i < self.roles@.len()
                    &&& self.roles@[i as int] == queue_family
                    &&& forall|k: int| 0 <= k < i ==> self.roles@[k] != queue_family
                },
                Err(e) => {
                    &&& !self.roles@.contains(queue_family)
                    &&& e == VulkanError::LogicalDeviceGetDeviceQueueError
                },
            },
    {
        let mut i: usize = 0;
        while i < self.roles.len()
            invariant
                i <= self.roles@.len(),
                forall|k: int| 0 <= k < i ==> self.roles@[k] != queue_family,
            decreases self.roles@.len() - i,
        {
            if self.roles[i] == queue_family {
                return Ok(i);
            }
            i = i + 1;
        }
        Err(VulkanError::LogicalDeviceGetDeviceQueueError)
    }
}

/// Everything decided before the native device-creation call: one queue
/// request per unique family, and the family index of every requested
/// role, in request order.
#[derive(Debug)]
pub struct LogicalDevicePlan {
    pub unique_queue_family_indices: Vec<QueueFamilyIndex>,
    pub queue_roles: Vec<QueueFamily>,
    pub queue_role_indices: Vec<QueueFamilyIndex>,
}

/// Plan device creation for the requested roles. Fails with a role the
/// selected device has no family for.
pub fn plan_logical_device(
    requested: &Vec<QueueFamily>,
    indices: &QueueFamilyIndices,
) -> (r: VulkanResult<LogicalDevicePlan>)
    ensures
        match r {
            Ok(plan) => {
                &&& plan.queue_roles@ == requested@
                &&& plan.queue_role_indices@.len() == requested@.len()
                &&& forall|j: int|
                    0 <= j < requested@.len() ==> indices.spec_index(#[trigger] requested@[j])
                        == Some(plan.queue_role_indices@[j])
                &&& plan.unique_queue_family_indices@ == spec_dedup_indices(
                    requested@,
                    *indices,
                    requested@.len() as int,
                )
            },
            Err(e) => exists|j: int|
                {
                    &&& 0 <= j < requested@.len()
                    &&& indices.spec_index(#[trigger] requested@[j]) is None
                    &&& e == (VulkanError::QueueFamilyNotSupported { queue_family: requested@[j] })
                },
        },
{
    let unique = match unique_queue_family_indices(requested, indices) {
        Ok(u) => u,
        Err(e) => {
            return Err(e);
        },
    };

    let mut queue_roles: Vec<QueueFamily> = Vec::new();
    let mut queue_role_indices: Vec<QueueFamilyIndex> = Vec::new();
    let mut j: usize = 0;
    while j < requested.len()
        invariant
            j <= requested@.len(),
            forall|k: int|
                0 <= k < requested@.len() ==> indices.spec_index(#[trigger] requested@[k]) is Some,
            queue_roles@ == requested@.take(j as int),
            queue_role_indices@.len() == j,
            forall|k: int|
                0 <= k < j ==> indices.spec_index(#[trigger] requested@[k]) == Some(
                    queue_role_indices@[k],
                ),
        decreases requested@.len() - j,
    {
        let family = requested[j];
        let index = match indices.index(family) {
            Some(i) => i,
            None => {
                return Err(VulkanError::QueueFamilyNotSupported { queue_family: family });
            },
        };
        queue_roles.push(family);
        queue_role_indices.push(index);
        proof {
            assert(queue_roles@ =~= requested@.take(j + 1));
        }
        j = j + 1;
    }
    proof {
        assert(queue_roles@ =~= requested@);
    }

    Ok(
        LogicalDevicePlan {
            unique_queue_family_indices: unique,
            queue_roles,
            queue_role_indices,
        },
    )
}

} // verus!
