//! Graphics-pipeline planning: vertex input descriptions and the
//! pipeline layout's push-constant ranges.
//!
//! Fixed-function state is a single hardcoded convention (triangle list,
//! full-surface viewport, no culling, no blending); the only computed
//! parts are the vertex input descriptions and the push-constant ranges,
//! which are derived here. One optional range per attached shader stage,
//! each at offset zero and sized to that stage's payload; zero-sized
//! payloads contribute no range.

use vstd::prelude::*;
use crate::errors::{VulkanError, VulkanResult};
use crate::swapchain::Extent2d;

verus! {

/// At most three shader stages take part in one pipeline.
pub const MAX_SHADER_STAGES: usize = 3;

/// A programmable stage of the pipeline.
#[derive(Clone, Copy, Debug, PartialEq, Eq, Hash, Structural)]
pub enum ShaderStage {
    Geometry,
    Vertex,
    Fragment,
}

/// A vertex attribute's element type with its component count (1 to 4).
#[derive(Clone, Copy, Debug, PartialEq, Eq, Structural)]
pub enum VertexAttributeFormat {
    I32(u8),
    U32(u8),
    F32(u8),
    F64(u8),
}

/// The native vertex-format the attribute maps to. Doubles are narrowed
/// to the single-precision formats.
#[derive(Clone, Copy, Debug, PartialEq, Eq, Structural)]
pub enum VertexFormat {
    R32Sint,
    R32G32Sint,
    R32G32B32Sint,
    R32G32B32A32Sint,
    R32Uint,
    R32G32Uint,
    R32G32B32Uint,
    R32G32B32A32Uint,
    R32Sfloat,
    R32G32Sfloat,
    R32G32B32Sfloat,
    R32G32B32A32Sfloat,
}

/// The format an attribute maps to; `None` when the component count is
/// outside 1 to 4.
pub open spec fn spec_vertex_format(format: VertexAttributeFormat) -> Option<VertexFormat> {
    match format {
        VertexAttributeFormat::I32(n) => if n == 1 {
            Some(VertexFormat::R32Sint)
        } else if n == 2 {
            Some(VertexFormat::R32G32Sint)
        } else if n == 3 {
            Some(VertexFormat::R32G32B32Sint)
        } else if n == 4 {
            Some(VertexFormat::R32G32B32A32Sint)
        } else {
            None
        },
        VertexAttributeFormat::U32(n) => if n == 1 {
            Some(VertexFormat::R32Uint)
        } else if n == 2 {
            Some(VertexFormat::R32G32Uint)
        } else if n == 3 {
            Some(VertexFormat::R32G32B32Uint)
        } else if n == 4 {
            Some(VertexFormat::R32G32B32A32Uint)
        } else {
            None
        },
        VertexAttributeFormat::F32(n) => if n == 1 {
            Some(VertexFormat::R32Sfloat)
        } else if n == 2 {
            Some(VertexFormat::R32G32Sfloat)
        } else if n == 3 {
            Some(VertexFormat::R32G32B32Sfloat)
        } else if n == 4 {
            Some(VertexFormat::R32G32B32A32Sfloat)
        } else {
            None
        },
        VertexAttributeFormat::F64(n) => if n == 1 {
            Some(VertexFormat::R32Sfloat)
        } else if n == 2 {
            Some(VertexFormat::R32G32Sfloat)
        } else if n == 3 {
            Some(VertexFormat::R32G32B32Sfloat)
        } else if n == 4 {
            Some(VertexFormat::R32G32B32A32Sfloat)
        } else {
            None
        },
    }
}

/// Map an attribute format to its native vertex format; fails exactly for
/// component counts outside 1 to 4.
pub fn vertex_format_for(format: VertexAttributeFormat) -> (r: VulkanResult<VertexFormat>)
    ensures
        match r {
            Ok(f) => spec_vertex_format(format) == Some(f),
            Err(e) => {
                &&& spec_vertex_format(format) is None
                &&& e == VulkanError::PipelineCreateVertexAttributeDescriptionError
            },
        },
{
    let n: u8 = match format {
        VertexAttributeFormat::I32(n) => n,
        VertexAttributeFormat::U32(n) => n,
        VertexAttributeFormat::F32(n) => n,
        VertexAttributeFormat::F64(n) => n,
    };
    if n < 1 || n > 4 {
        return Err(VulkanError::PipelineCreateVertexAttributeDescriptionError);
    }
    let f = match format {
        VertexAttributeFormat::I32(_) => {
            if n == 1 {
                VertexFormat::R32Sint
            } else if n == 2 {
                VertexFormat::R32G32Sint
            } else if n == 3 {
                VertexFormat::R32G32B32Sint
            } else {
                VertexFormat::R32G32B32A32Sint
            }
        },
        VertexAttributeFormat::U32(_) => {
            if n == 1 {
                VertexFormat::R32Uint
            } else if n == 2 {
                VertexFormat::R32G32Uint
            } else if n == 3 {
                VertexFormat::R32G32B32Uint
            } else {
                VertexFormat::R32G32B32A32Uint
            }
        },
        VertexAttributeFormat::F32(_) => {
            if n == 1 {
                VertexFormat::R32Sfloat
            } else if n == 2 {
                VertexFormat::R32G32Sfloat
            } else if n == 3 {
                VertexFormat::R32G32B32Sfloat
            } else {
                VertexFormat::R32G32B32A32Sfloat
            }
        },
        VertexAttributeFormat::F64(_) => {
            if n == 1 {
                VertexFormat::R32Sfloat
            } else if n == 2 {
                VertexFormat::R32G32Sfloat
            } else if n == 3 {
                VertexFormat::R32G32B32Sfloat
            } else {
                VertexFormat::R32G32B32A32Sfloat
            }
        },
    };
    Ok(f)
}

/// One push-constant range of the pipeline layout.
#[derive(Clone, Copy, Debug, PartialEq, Eq, Structural)]
pub struct PushConstantRange {
    pub stage: ShaderStage,
    pub offset: u32,
    pub size: u32,
}

/// The declared payload size of each attached stage; `None` for a stage
/// that is not attached.
#[derive(Clone, Copy, Debug, PartialEq, Eq, Structural, Default)]
pub struct StagePushConstantSizes {
    pub geometry: Option<usize>,
    pub vertex: Option<usize>,
    pub fragment: Option<usize>,
}

/// The ranges one stage contributes: one range at offset zero for a
/// nonzero payload, nothing otherwise.
pub open spec fn spec_stage_ranges(stage: ShaderStage, size: Option<usize>) -> Seq<
    PushConstantRange,
> {
    match size {
        Some(s) => if s > 0 {
            seq![PushConstantRange { stage, offset: 0, size: s as u32 }]
        } else {
            Seq::empty()
        },
        None => Seq::empty(),
    }
}

/// All ranges of the layout, in the fixed stage order geometry, vertex,
/// fragment.
pub open spec fn spec_push_constant_ranges(sizes: StagePushConstantSizes) -> Seq<
    PushConstantRange,
> {
    spec_stage_ranges(ShaderStage::Geometry, sizes.geometry) + spec_stage_ranges(
        ShaderStage::Vertex,
        sizes.vertex,
    ) + spec_stage_ranges(ShaderStage::Fragment, sizes.fragment)
}

/// Derive the layout's push-constant ranges. Stages with no payload or a
/// zero-sized payload are silently skipped: that is how a render state
/// opts out of push constants for a stage.
pub fn push_constant_ranges(sizes: &StagePushConstantSizes) -> (r: Vec<PushConstantRange>)
    requires
        sizes.geometry matches Some(s) ==> s <= u32::MAX,
        sizes.vertex matches Some(s) ==> s <= u32::MAX,
        sizes.fragment matches Some(s) ==> s <= u32::MAX,
    ensures
        r@ == spec_push_constant_ranges(*sizes),
{
    let mut ranges: Vec<PushConstantRange> = Vec::new();
    if let Some(s) = sizes.geometry {
        if s > 0 {
            ranges.push(
                PushConstantRange { stage: ShaderStage::Geometry, offset: 0, size: s as u32 },
            );
        }
    }
    if let Some(s) = sizes.vertex {
        if s > 0 {
            ranges.push(PushConstantRange { stage: ShaderStage::Vertex, offset: 0, size: s as u32 });
        }
    }
    if let Some(s) = sizes.fragment {
        if s > 0 {
            ranges.push(
                PushConstantRange { stage: ShaderStage::Fragment, offset: 0, size: s as u32 },
            );
        }
    }
    proof {
        assert(ranges@ =~= spec_push_constant_ranges(*sizes));
    }
    ranges
}

/// One vertex buffer binding: its slot and the stride between elements.
#[derive(Clone, Copy, Debug, PartialEq, Eq, Structural)]
pub struct VertexBindingDescription {
    pub binding: u32,
    pub stride: u32,
}

/// A caller-supplied vertex attribute: the binding it reads from, its
/// element format, and its byte offset inside one element.
#[derive(Clone, Copy, Debug, PartialEq, Eq, Structural)]
pub struct VertexAttributeDescriptionInfo {
    pub binding: usize,
    pub format: VertexAttributeFormat,
    pub offset: usize,
}

/// A fully resolved vertex attribute, its location being its position in
/// the supplied list.
#[derive(Clone, Copy, Debug, PartialEq, Eq, Structural)]
pub struct VertexAttributeDescription {
    pub binding: u32,
    pub location: u32,
    pub format: VertexFormat,
    pub offset: u32,
}

/// One binding description per supplied stride, the slot being the
/// position in the list.
pub fn vertex_binding_descriptions(strides: &Vec<usize>) -> (r: Vec<VertexBindingDescription>)
    requires
        strides@.len() <= u32::MAX,
        forall|i: int| 0 <= i < strides@.len() ==> #[trigger] strides@[i] <= u32::MAX,
    ensures
        r@.len() == strides@.len(),
        forall|i: int|
            0 <= i < r@.len() ==> #[trigger] r@[i] == (VertexBindingDescription {
                binding: i as u32,
                stride: strides@[i] as u32,
            }),
{
    let mut descriptions: Vec<VertexBindingDescription> = Vec::new();
    let mut i: usize = 0;
    while i < strides.len()
        invariant
            i <= strides@.len() <= u32::MAX,
            forall|k: int| 0 <= k < strides@.len() ==> #[trigger] strides@[k] <= u32::MAX,
            descriptions@.len() == i,
            forall|k: int|
                0 <= k < i ==> #[trigger] descriptions@[k] == (VertexBindingDescription {
                    binding: k as u32,
                    stride: strides@[k] as u32,
                }),
        decreases strides@.len() - i,
    {
        descriptions.push(VertexBindingDescription { binding: i as u32, stride: strides[i] as u32 });
        i = i + 1;
    }
    descriptions
}

/// Resolve the supplied attributes, the location of each being its
/// position in the list. Fails exactly when some attribute's format has a
/// component count outside 1 to 4.
pub fn vertex_attribute_descriptions(infos: &Vec<VertexAttributeDescriptionInfo>) -> (r:
    VulkanResult<Vec<VertexAttributeDescription>>)
    requires
        infos@.len() <= u32::MAX,
        forall|i: int|
            0 <= i < infos@.len() ==> (#[trigger] infos@[i]).binding <= u32::MAX
                && infos@[i].offset <= u32::MAX,
    ensures
        match r {
            Ok(descs) => {
                &&& forall|i: int|
                    0 <= i < infos@.len() ==> spec_vertex_format((#[trigger] infos@[i]).format)
                        is Some
                &&& descs@.len() == infos@.len()
                &&& forall|i: int|
                    0 <= i < descs@.len() ==> #[trigger] descs@[i] == (VertexAttributeDescription {
                        binding: infos@[i].binding as u32,
                        location: i as u32,
                        format: spec_vertex_format(infos@[i].format)->0,
                        offset: infos@[i].offset as u32,
                    })
            },
            Err(e) => {
                &&& exists|i: int|
                    0 <= i < infos@.len() && spec_vertex_format((#[trigger] infos@[i]).format)
                        is None
                &&& e == VulkanError::PipelineCreateVertexAttributeDescriptionError
            },
        },
{
    let mut descriptions: Vec<VertexAttributeDescription> = Vec::new();
    let mut i: usize = 0;
    while i < infos.len()
        invariant
            i <= infos@.len() <= u32::MAX,
            forall|k: int|
                0 <= k < infos@.len() ==> (#[trigger] infos@[k]).binding <= u32::MAX
                    && infos@[k].offset <= u32::MAX,
            descriptions@.len() == i,
            forall|k: int|
                0 <= k < i ==> spec_vertex_format((#[trigger] infos@[k]).format) is Some,
            forall|k: int|
                0 <= k < i ==> #[trigger] descriptions@[k] == (VertexAttributeDescription {
                    binding: infos@[k].binding as u32,
                    location: k as u32,
                    format: spec_vertex_format(infos@[k].format)->0,
                    offset: infos@[k].offset as u32,
                }),
        decreases infos@.len() - i,
    {
        let info = infos[i];
        let format = match vertex_format_for(info.format) {
            Ok(f) => f,
            Err(e) => {
                return Err(e);
            },
        };
        descriptions.push(
            VertexAttributeDescription {
                binding: info.binding as u32,
                location: i as u32,
                format,
                offset: info.offset as u32,
            },
        );
        i = i + 1;
    }
    Ok(descriptions)
}

/// The computed parts of one pipeline: vertex input state, push-constant
/// ranges, the viewport extent (the swapchain's), and the subpass the
/// pipeline runs in.
#[derive(Debug)]
pub struct PipelinePlan {
    pub vertex_bindings: Vec<VertexBindingDescription>,
    pub vertex_attributes: Vec<VertexAttributeDescription>,
    pub push_constant_ranges: Vec<PushConstantRange>,
    pub viewport_extent: Extent2d,
    pub subpass: u32,
}

/// Assemble the computed parts of one pipeline build.
pub fn plan_pipeline(
    binding_strides: &Vec<usize>,
    attribute_infos: &Vec<VertexAttributeDescriptionInfo>,
    push_constant_sizes: &StagePushConstantSizes,
    viewport_extent: Extent2d,
    subpass: u32,
) -> (r: VulkanResult<PipelinePlan>)
    requires
        binding_strides@.len() <= u32::MAX,
        forall|i: int| 0 <= i < binding_strides@.len() ==> #[trigger] binding_strides@[i]
            <= u32::MAX,
        attribute_infos@.len() <= u32::MAX,
        forall|i: int|
            0 <= i < attribute_infos@.len() ==> (#[trigger] attribute_infos@[i]).binding
                <= u32::MAX && attribute_infos@[i].offset <= u32::MAX,
        push_constant_sizes.geometry matches Some(s) ==> s <= u32::MAX,
        push_constant_sizes.vertex matches Some(s) ==> s <= u32::MAX,
        push_constant_sizes.fragment matches Some(s) ==> s <= u32::MAX,
    ensures
        match r {
            Ok(plan) => {
                &&& plan.vertex_bindings@.len() == binding_strides@.len()
                &&& forall|i: int|
                    0 <= i < plan.vertex_bindings@.len() ==> #[trigger] plan.vertex_bindings@[i]
                        == (VertexBindingDescription {
                        binding: i as u32,
                        stride: binding_strides@[i] as u32,
                    })
                &&& plan.vertex_attributes@.len() == attribute_infos@.len()
                &&& forall|i: int|
                    0 <= i < plan.vertex_attributes@.len() ==> #[trigger] plan.vertex_attributes@[i]
                        == (VertexAttributeDescription {
                        binding: attribute_infos@[i].binding as u32,
                        location: i as u32,
                        format: spec_vertex_format(attribute_infos@[i].format)->0,
                        offset: attribute_infos@[i].offset as u32,
                    })
                &&& plan.push_constant_ranges@ == spec_push_constant_ranges(*push_constant_sizes)
                &&& plan.viewport_extent == viewport_extent
                &&& plan.subpass == subpass
            },
            Err(e) => {
                &&& exists|i: int|
                    0 <= i < attribute_infos@.len() && spec_vertex_format(
                        (#[trigger] attribute_infos@[i]).format,
                    ) is None
                &&& e == VulkanError::PipelineCreateVertexAttributeDescriptionError
            },
        },
{
    let vertex_bindings = vertex_binding_descriptions(binding_strides);
    let vertex_attributes = match vertex_attribute_descriptions(attribute_infos) {
        Ok(descs) => descs,
        Err(e) => {
            return Err(e);
        },
    };
    let ranges = push_constant_ranges(push_constant_sizes);

    Ok(
        PipelinePlan {
            vertex_bindings,
            vertex_attributes,
            push_constant_ranges: ranges,
            viewport_extent,
            subpass,
        },
    )
}

} // verus!
