//! Queue-family capability derivation.
//!
//! A device exposes a list of queue families, each with a capability
//! bitset. The engine walks that list once, in order, and records one
//! family index per role it cares about. A family whose only capability is
//! transfer is preferred for the transfer role (it is likely a dedicated
//! copy engine); once such a family is recorded, the choice is final.

use vstd::prelude::*;

verus! {

/// Capability bit of a family that can run graphics work.
pub const QUEUE_FLAG_GRAPHICS: u32 = 0x1;
/// Capability bit of a family that can run compute work.
pub const QUEUE_FLAG_COMPUTE: u32 = 0x2;
/// Capability bit of a family that can run transfer work.
pub const QUEUE_FLAG_TRANSFER: u32 = 0x4;
/// Capability bit of a family that can bind sparse memory.
pub const QUEUE_FLAG_SPARSE_BINDING: u32 = 0x8;

pub type QueueFamilyIndex = u32;

/// A role the engine requests a queue for.
#[derive(Clone, Copy, Debug, PartialEq, Eq, Hash, Structural)]
pub enum QueueFamily {
    Graphics,
    Compute,
    Transfer,
    SparseBinding,
    Presentation,
}

/// What one queue family of a candidate device reports: its capability
/// bitset and whether it can present to the surface under consideration
/// (`false` everywhere when no surface was supplied).
#[derive(Clone, Copy, Debug, PartialEq, Eq, Structural)]
pub struct QueueFamilyProps {
    pub flags: u32,
    pub supports_presentation: bool,
}

/// The per-role family indices derived for one device, with the two
/// dedication marks for the transfer role: `weakly_dedicated_transfer`
/// records that some family with an explicit transfer bit was taken, and
/// `strongly_dedicated_transfer` that a family with *exactly* the transfer
/// bit was taken, which later families can never override.
#[derive(Clone, Copy, Debug, PartialEq, Eq, Structural)]
pub struct QueueFamilyIndices {
    pub weakly_dedicated_transfer: bool,
    pub strongly_dedicated_transfer: bool,
    pub graphics: Option<QueueFamilyIndex>,
    pub compute: Option<QueueFamilyIndex>,
    pub transfer: Option<QueueFamilyIndex>,
    pub sparse_binding: Option<QueueFamilyIndex>,
    pub presentation: Option<QueueFamilyIndex>,
}

/// A set of queue-family roles, one flag per role.
#[derive(Clone, Copy, Debug, PartialEq, Eq, Structural)]
pub struct QueueFamilySet {
    pub graphics: bool,
    pub compute: bool,
    pub transfer: bool,
    pub sparse_binding: bool,
    pub presentation: bool,
}

impl QueueFamilySet {
    pub open spec fn spec_contains(&self, family: QueueFamily) -> bool {
        match family {
            QueueFamily::Graphics => self.graphics,
            QueueFamily::Compute => self.compute,
            QueueFamily::Transfer => self.transfer,
            QueueFamily::SparseBinding => self.sparse_binding,
            QueueFamily::Presentation => self.presentation,
        }
    }

    /// Every role of `self` is also in `other`.
    pub open spec fn subset_of(&self, other: QueueFamilySet) -> bool {
        &&& self.graphics ==> other.graphics
        &&& self.compute ==> other.compute
        &&& self.transfer ==> other.transfer
        &&& self.sparse_binding ==> other.sparse_binding
        &&& self.presentation ==> other.presentation
    }

    pub fn empty() -> (r: Self)
        ensures
            forall|f: QueueFamily| !r.spec_contains(f),
    {
        QueueFamilySet {
            graphics: false,
            compute: false,
            transfer: false,
            sparse_binding: false,
            presentation: false,
        }
    }

    pub fn insert(&mut self, family: QueueFamily)
        ensures
            forall|f: QueueFamily|
                final(self).spec_contains(f) == (old(self).spec_contains(f) || f == family),
    {
        match family {
            QueueFamily::Graphics => {
                self.graphics = true;
            },
            QueueFamily::Compute => {
                self.compute = true;
            },
            QueueFamily::Transfer => {
                self.transfer = true;
            },
            QueueFamily::SparseBinding => {
                self.sparse_binding = true;
            },
            QueueFamily::Presentation => {
                self.presentation = true;
            },
        }
    }

    /// The set holding exactly the roles listed in `families`.
    pub fn from_families(families: &[QueueFamily]) -> (r: Self)
        ensures
            forall|f: QueueFamily| r.spec_contains(f) == families@.contains(f),
    {
        let mut set = QueueFamilySet::empty();
        let mut i: usize = 0;
        while i < families.len()
            invariant
                i <= families@.len(),
                forall|f: QueueFamily|
                    set.spec_contains(f) == (exists|j: int| 0 <= j < i && families@[j] == f),
            decreases families@.len() - i,
        {
            set.insert(families[i]);
            i = i + 1;
        }
        proof {
            assert forall|f: QueueFamily|
                set.spec_contains(f) == families@.contains(f) by {
                if families@.contains(f) {
                    let j = choose|j: int| 0 <= j < families@.len() && families@[j] == f;
                    assert(set.spec_contains(f));
                }
            }
        }
        set
    }
}

/// The state before any family has been inspected.
pub open spec fn no_family_indices() -> QueueFamilyIndices {
    QueueFamilyIndices {
        weakly_dedicated_transfer: false,
        strongly_dedicated_transfer: false,
        graphics: None,
        compute: None,
        transfer: None,
        sparse_binding: None,
        presentation: None,
    }
}

/// Transfer rule: a family with the transfer bit takes the transfer role
/// unless a strongly dedicated family already holds it; a family with
/// exactly the transfer bit makes the choice final.
pub open spec fn step_transfer(s: QueueFamilyIndices, flags: u32, index: u32) -> QueueFamilyIndices {
    if flags & QUEUE_FLAG_TRANSFER != 0 && !s.strongly_dedicated_transfer {
        QueueFamilyIndices {
            transfer: Some(index),
            weakly_dedicated_transfer: true,
            strongly_dedicated_transfer: flags == QUEUE_FLAG_TRANSFER,
            ..s
        }
    } else {
        s
    }
}

/// Graphics rule: a graphics-capable family takes the graphics role, and
/// also stands in for transfer while no family with an explicit transfer
/// bit has been seen.
pub open spec fn step_graphics(s: QueueFamilyIndices, flags: u32, index: u32) -> QueueFamilyIndices {
    if flags & QUEUE_FLAG_GRAPHICS != 0 {
        if !s.weakly_dedicated_transfer {
            QueueFamilyIndices { graphics: Some(index), transfer: Some(index), ..s }
        } else {
            QueueFamilyIndices { graphics: Some(index), ..s }
        }
    } else {
        s
    }
}

/// Compute rule: like the graphics rule, for the compute role.
pub open spec fn step_compute(s: QueueFamilyIndices, flags: u32, index: u32) -> QueueFamilyIndices {
    if flags & QUEUE_FLAG_COMPUTE != 0 {
        if !s.weakly_dedicated_transfer {
            QueueFamilyIndices { compute: Some(index), transfer: Some(index), ..s }
        } else {
            QueueFamilyIndices { compute: Some(index), ..s }
        }
    } else {
        s
    }
}

/// Sparse-binding rule.
pub open spec fn step_sparse_binding(s: QueueFamilyIndices, flags: u32, index: u32) -> QueueFamilyIndices {
    if flags & QUEUE_FLAG_SPARSE_BINDING != 0 {
        QueueFamilyIndices { sparse_binding: Some(index), ..s }
    } else {
        s
    }
}

/// Presentation rule: a family that can present takes the presentation
/// role; a later capable family overrides an earlier one.
pub open spec fn step_presentation(
    s: QueueFamilyIndices,
    supports_presentation: bool,
    index: u32,
) -> QueueFamilyIndices {
    if supports_presentation {
        QueueFamilyIndices { presentation: Some(index), ..s }
    } else {
        s
    }
}

/// One family's full effect on the derived indices, rules applied in the
/// fixed order transfer, graphics, compute, sparse binding, presentation.
pub open spec fn updated_with(
    s: QueueFamilyIndices,
    flags: u32,
    supports_presentation: bool,
    index: u32,
) -> QueueFamilyIndices {
    step_presentation(
        step_sparse_binding(
            step_compute(step_graphics(step_transfer(s, flags, index), flags, index), flags, index),
            flags,
            index,
        ),
        supports_presentation,
        index,
    )
}

/// The indices derived from the first `n` families of the list.
pub open spec fn derived_indices_prefix(families: Seq<QueueFamilyProps>, n: int) -> QueueFamilyIndices
    decreases n,
{
    if n <= 0 {
        no_family_indices()
    } else {
        updated_with(
            derived_indices_prefix(families, n - 1),
            families[n - 1].flags,
            families[n - 1].supports_presentation,
            (n - 1) as u32,
        )
    }
}

/// The indices derived from the whole family list.
pub open spec fn derived_indices(families: Seq<QueueFamilyProps>) -> QueueFamilyIndices {
    derived_indices_prefix(families, families.len() as int)
}

impl QueueFamilyIndices {
    /// The recorded index of one role.
    pub open spec fn spec_index(&self, family: QueueFamily) -> Option<QueueFamilyIndex> {
        match family {
            QueueFamily::Graphics => self.graphics,
            QueueFamily::Compute => self.compute,
            QueueFamily::Transfer => self.transfer,
            QueueFamily::SparseBinding => self.sparse_binding,
            QueueFamily::Presentation => self.presentation,
        }
    }

    /// The roles that have a recorded index.
    pub open spec fn spec_family_set(&self) -> QueueFamilySet {
        QueueFamilySet {
            graphics: self.graphics is Some,
            compute: self.compute is Some,
            transfer: self.transfer is Some,
            sparse_binding: self.sparse_binding is Some,
            presentation: self.presentation is Some,
        }
    }

    pub fn empty() -> (r: Self)
        ensures
            r == no_family_indices(),
    {
        QueueFamilyIndices {
            weakly_dedicated_transfer: false,
            strongly_dedicated_transfer: false,
            graphics: None,
            compute: None,
            transfer: None,
            sparse_binding: None,
            presentation: None,
        }
    }

    /// Derive the per-role indices from a device's family list.
    pub fn from_properties(families: &Vec<QueueFamilyProps>) -> (r: Self)
        requires
            families@.len() <= u32::MAX,
        ensures
            r == derived_indices(families@),
    {
        let mut indices = QueueFamilyIndices::empty();
        let mut i: usize = 0;
        while i < families.len()
            invariant
                i <= families@.len() <= u32::MAX,
                indices == derived_indices_prefix(families@, i as int),
            decreases families@.len() - i,
        {
            let props = families[i];
            indices.update_family_support(props.flags, i as u32, props.supports_presentation);
            i = i + 1;
        }
        indices
    }

    fn update_family_support(&mut self, flags: u32, index: u32, supports_presentation: bool)
        ensures
            *final(self) == updated_with(*old(self), flags, supports_presentation, index),
    {
        self.update_vulkan_family_support(flags, index);
        self.update_surface_support(supports_presentation, index);
    }

    fn update_vulkan_family_support(&mut self, flags: u32, index: u32)
        ensures
            *final(self) == step_sparse_binding(
                step_compute(
                    step_graphics(step_transfer(*old(self), flags, index), flags, index),
                    flags,
                    index,
                ),
                flags,
                index,
            ),
    {
        self.try_set_transfer(flags, index);
        self.try_set_graphics(flags, index);
        self.try_set_compute(flags, index);
        self.try_set_sparse_binding(flags, index);
    }

    fn try_set_transfer(&mut self, flags: u32, index: u32)
        ensures
            *final(self) == step_transfer(*old(self), flags, index),
    {
        if flags & QUEUE_FLAG_TRANSFER != 0 && !self.strongly_dedicated_transfer {
            self.transfer = Some(index);
            self.weakly_dedicated_transfer = true;

            if flags == QUEUE_FLAG_TRANSFER {
                self.strongly_dedicated_transfer = true;
            }
        }
    }

    fn try_set_graphics(&mut self, flags: u32, index: u32)
        ensures
            *final(self) == step_graphics(*old(self), flags, index),
    {
        if flags & QUEUE_FLAG_GRAPHICS != 0 {
            self.graphics = Some(index);
            self.try_set_not_dedicated_transfer(index);
        }
    }

    fn try_set_compute(&mut self, flags: u32, index: u32)
        ensures
            *final(self) == step_compute(*old(self), flags, index),
    {
        if flags & QUEUE_FLAG_COMPUTE != 0 {
            self.compute = Some(index);
            self.try_set_not_dedicated_transfer(index);
        }
    }

    fn try_set_sparse_binding(&mut self, flags: u32, index: u32)
        ensures
            *final(self) == step_sparse_binding(*old(self), flags, index),
    {
        if flags & QUEUE_FLAG_SPARSE_BINDING != 0 {
            self.sparse_binding = Some(index);
        }
    }

    fn try_set_not_dedicated_transfer(&mut self, index: u32)
        ensures
            *final(self) == if !old(self).weakly_dedicated_transfer {
                (QueueFamilyIndices { transfer: Some(index), ..*old(self) })
            } else {
                *old(self)
            },
    {
        if !self.weakly_dedicated_transfer {
            self.transfer = Some(index);
        }
    }

    fn update_surface_support(&mut self, supports_presentation: bool, index: u32)
        ensures
            *final(self) == step_presentation(*old(self), supports_presentation, index),
    {
        if supports_presentation {
            self.presentation = Some(index);
        }
    }

    pub fn index(&self, family: QueueFamily) -> (r: Option<QueueFamilyIndex>)
        ensures
            r == self.spec_index(family),
    {
        match family {
            QueueFamily::Graphics => self.graphics,
            QueueFamily::Compute => self.compute,
            QueueFamily::Transfer => self.transfer,
            QueueFamily::SparseBinding => self.sparse_binding,
            QueueFamily::Presentation => self.presentation,
        }
    }

    pub fn is_transfer_dedicated(&self) -> (r: bool)
        ensures
            r == self.strongly_dedicated_transfer,
    {
        self.strongly_dedicated_transfer
    }

    /// Whether every required role has a recorded index.
    pub fn does_support_families(&self, required_families: &QueueFamilySet) -> (r: bool)
        ensures
            r == required_families.subset_of(self.spec_family_set()),
    {
        let supported = self.family_hash_set();
        (!required_families.graphics || supported.graphics)
            && (!required_families.compute || supported.compute)
            && (!required_families.transfer || supported.transfer)
            && (!required_families.sparse_binding || supported.sparse_binding)
            && (!required_families.presentation || supported.presentation)
    }

    /// The set of roles with a recorded index.
    pub fn family_hash_set(&self) -> (r: QueueFamilySet)
        ensures
            r == self.spec_family_set(),
    {
        QueueFamilySet {
            graphics: self.graphics.is_some(),
            compute: self.compute.is_some(),
            transfer: self.transfer.is_some(),
            sparse_binding: self.sparse_binding.is_some(),
            presentation: self.presentation.is_some(),
        }
    }
}

/// Deriving queue-family indices is deterministic: it is a pure function
/// of the property list, so equal lists yield equal indices and dedication
/// marks.
pub proof fn lemma_derivation_deterministic(
    families: Seq<QueueFamilyProps>,
    other: Seq<QueueFamilyProps>,
)
    requires
        families == other,
    ensures
        derived_indices(families) == derived_indices(other),
{
}

/// In every derived state, a strong transfer dedication is accompanied by
/// the weak mark: a family with exactly the transfer bit set both.
pub proof fn lemma_strong_implies_weak(families: Seq<QueueFamilyProps>, n: int)
    requires
        n <= families.len(),
    ensures
        derived_indices_prefix(families, n).strongly_dedicated_transfer
            ==> derived_indices_prefix(families, n).weakly_dedicated_transfer,
    decreases n,
{
    if n > 0 {
        lemma_strong_implies_weak(families, n - 1);
    }
}

/// The stand-in the transfer role falls back to among the first `n`
/// families when none of them carries an explicit transfer bit: the last
/// graphics- or compute-capable family seen, if any.
pub open spec fn spec_last_implied_transfer(families: Seq<QueueFamilyProps>, n: int) -> Option<
    QueueFamilyIndex,
>
    decreases n,
{
    if n <= 0 {
        None
    } else if families[n - 1].flags & QUEUE_FLAG_GRAPHICS != 0 || families[n - 1].flags
        & QUEUE_FLAG_COMPUTE != 0 {
        Some((n - 1) as u32)
    } else {
        spec_last_implied_transfer(families, n - 1)
    }
}

/// Graphics/compute transfer fallback: while no family carries an
/// explicit transfer bit, neither dedication mark is set and the transfer
/// role follows the graphics- and compute-capable families, the last one
/// seen standing in. A family with an explicit transfer bit ends this
/// fallback regime by setting the weak dedication mark.
pub proof fn lemma_transfer_fallback(families: Seq<QueueFamilyProps>, n: int)
    requires
        0 <= n <= families.len(),
        forall|k: int|
            0 <= k < n ==> (#[trigger] families[k]).flags & QUEUE_FLAG_TRANSFER == 0,
    ensures
        !derived_indices_prefix(families, n).weakly_dedicated_transfer,
        !derived_indices_prefix(families, n).strongly_dedicated_transfer,
        derived_indices_prefix(families, n).transfer == spec_last_implied_transfer(families, n),
    decreases n,
{
    if n > 0 {
        lemma_transfer_fallback(families, n - 1);
    }
}

/// Strongly-dedicated-transfer stickiness: once a family with exactly the
/// transfer capability is recorded, every later family leaves the transfer
/// index and the dedication mark unchanged.
pub proof fn lemma_strong_transfer_sticky(families: Seq<QueueFamilyProps>, k: int, j: int)
    requires
        0 <= k <= j <= families.len(),
        derived_indices_prefix(families, k).strongly_dedicated_transfer,
    ensures
        derived_indices_prefix(families, j).strongly_dedicated_transfer,
        derived_indices_prefix(families, j).transfer == derived_indices_prefix(
            families,
            k,
        ).transfer,
    decreases j - k,
{
    if j > k {
        lemma_strong_transfer_sticky(families, k, j - 1);
        lemma_strong_implies_weak(families, j - 1);
    }
}

} // verus!
