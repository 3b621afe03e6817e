//! Render states: one visually distinct draw, bundling a pipeline with
//! the push-constant payload queued for each of its shader stages.
//!
//! The pipeline itself is a native object held by the shell; a render
//! state refers to it by a caller-chosen identifier. Payloads are
//! overwritten between frames and read out when the frame's commands are
//! recorded.

use vstd::prelude::*;

verus! {

/// A value that can be delivered to a shader stage as push constants.
/// Implementations serialize themselves to the bytes that are queued on
/// a render state; the engine's own payload-free marker is the unit
/// type. What the bytes mean is the shader's business, so nothing is
/// promised of them here.
pub trait PushConstants {
    /// Serialize the payload for delivery.
    fn data(&self) -> Vec<u8>;
}

impl PushConstants for () {
    fn data(&self) -> Vec<u8> {
        Vec::new()
    }
}

/// The payload currently queued for each shader stage; `None` for a
/// stage that has no payload queued.
#[derive(Debug)]
pub struct StagePayloads {
    pub geometry: Option<Vec<u8>>,
    pub vertex: Option<Vec<u8>>,
    pub fragment: Option<Vec<u8>>,
}

/// One draw: a pipeline identifier and the per-stage payloads.
#[derive(Debug)]
pub struct RenderState {
    pub pipeline: usize,
    pub payloads: StagePayloads,
}

impl RenderState {
    /// A fresh render state over the given pipeline, with no payloads
    /// queued.
    pub fn new(pipeline: usize) -> (r: Self)
        ensures
            r.pipeline == pipeline,
            r.payloads.geometry is None,
            r.payloads.vertex is None,
            r.payloads.fragment is None,
    {
        RenderState {
            pipeline,
            payloads: StagePayloads { geometry: None, vertex: None, fragment: None },
        }
    }

    /// Queue the geometry stage's payload bytes, replacing any queued
    /// ones.
    pub fn push_geometry_constants(&mut self, constants: Vec<u8>)
        ensures
            final(self).pipeline == old(self).pipeline,
            final(self).payloads.geometry == Some(constants),
            final(self).payloads.vertex == old(self).payloads.vertex,
            final(self).payloads.fragment == old(self).payloads.fragment,
    {
        self.payloads.geometry = Some(constants);
    }

    /// Queue the vertex stage's payload bytes, replacing any queued
    /// ones.
    pub fn push_vertex_constants(&mut self, constants: Vec<u8>)
        ensures
            final(self).pipeline == old(self).pipeline,
            final(self).payloads.vertex == Some(constants),
            final(self).payloads.geometry == old(self).payloads.geometry,
            final(self).payloads.fragment == old(self).payloads.fragment,
    {
        self.payloads.vertex = Some(constants);
    }

    /// Queue the fragment stage's payload bytes, replacing any queued
    /// ones.
    pub fn push_fragment_constants(&mut self, constants: Vec<u8>)
        ensures
            final(self).pipeline == old(self).pipeline,
            final(self).payloads.fragment == Some(constants),
            final(self).payloads.geometry == old(self).payloads.geometry,
            final(self).payloads.vertex == old(self).payloads.vertex,
    {
        self.payloads.fragment = Some(constants);
    }

    pub fn pipeline(&self) -> (r: usize)
        ensures
            r == self.pipeline,
    {
        self.pipeline
    }
}

} // verus!
