//! Command recording, modeled as a script.
//!
//! A command buffer is re-recorded from scratch every frame: begin the
//! render pass against the acquired image's framebuffer, for every
//! render state bind its pipeline, push every queued payload and draw,
//! end the render pass, end recording. The recorded script is the value
//! the native shell replays call by call; the recording protocol itself
//! (what may follow what) is enforced by the phases below, so a buffer
//! can never be left mid-recording.

use vstd::prelude::*;
use crate::pipeline::ShaderStage;
use crate::render_state::RenderState;

verus! {

/// Vertices issued per render state; geometry is generated entirely
/// in-shader.
pub const RENDER_STATE_VERTEX_COUNT: u32 = 3;

/// How the command pool backing the buffers is created: buffers are
/// always individually resettable, and pools whose buffers are
/// re-recorded often are marked transient.
#[derive(Clone, Copy, Debug, PartialEq, Eq, Structural)]
pub struct CommandPoolConfig {
    pub reset_command_buffers: bool,
    pub transient: bool,
}

pub fn command_pool_config(often_rerecorded: bool) -> (r: CommandPoolConfig)
    ensures
        r.reset_command_buffers,
        r.transient == often_rerecorded,
{
    CommandPoolConfig { reset_command_buffers: true, transient: often_rerecorded }
}

/// One command of a recording. A push-constant command names the render
/// state whose queued payload for that stage is delivered.
#[derive(Clone, Copy, Debug, PartialEq, Eq, Structural)]
pub enum RecordedCommand {
    BeginRenderPass { framebuffer_index: usize },
    BindPipeline { pipeline: usize },
    PushConstants { pipeline: usize, stage: ShaderStage, state: usize },
    Draw { vertex_count: u32, instance_count: u32, first_vertex: u32, first_instance: u32 },
    EndRenderPass,
}

/// Where a recording stands.
#[derive(Clone, Copy, Debug, PartialEq, Eq, Structural)]
pub enum RecordingPhase {
    Idle,
    Recording,
    InRenderPass,
}

/// One command buffer: whether it is submitted once per recording, the
/// script recorded so far, the pipelines the current recording
/// references (kept alive while the buffer may still execute), and the
/// recording phase.
#[derive(Debug)]
pub struct CommandBuffer {
    pub submit_once: bool,
    pub phase: RecordingPhase,
    pub commands: Vec<RecordedCommand>,
    pub pipelines_in_use: Vec<usize>,
}

impl CommandBuffer {
    /// A fresh buffer, not recording, with nothing recorded.
    pub fn from_handle(submit_once: bool) -> (r: Self)
        ensures
            r.submit_once == submit_once,
            r.phase is Idle,
            r.commands@ == Seq::<RecordedCommand>::empty(),
            r.pipelines_in_use@ == Seq::<usize>::empty(),
    {
        let r = CommandBuffer {
            submit_once,
            phase: RecordingPhase::Idle,
            commands: Vec::new(),
            pipelines_in_use: Vec::new(),
        };
        proof {
            assert(r.commands@ =~= Seq::<RecordedCommand>::empty());
            assert(r.pipelines_in_use@ =~= Seq::<usize>::empty());
        }
        r
    }

    /// Start a recording from scratch: the script and the
    /// referenced-pipeline set of the previous recording are dropped.
    pub fn record(&mut self)
        requires
            old(self).phase is Idle,
        ensures
            final(self).submit_once == old(self).submit_once,
            final(self).phase is Recording,
            final(self).commands@ == Seq::<RecordedCommand>::empty(),
            final(self).pipelines_in_use@ == Seq::<usize>::empty(),
    {
        self.commands = Vec::new();
        self.pipelines_in_use = Vec::new();
        self.phase = RecordingPhase::Recording;
        proof {
            assert(self.commands@ =~= Seq::<RecordedCommand>::empty());
            assert(self.pipelines_in_use@ =~= Seq::<usize>::empty());
        }
    }

    /// Open the render pass against one framebuffer.
    pub fn begin_render_pass(&mut self, framebuffer_index: usize)
        requires
            old(self).phase is Recording,
        ensures
            final(self).submit_once == old(self).submit_once,
            final(self).phase is InRenderPass,
            final(self).commands@ == old(self).commands@.push(
                RecordedCommand::BeginRenderPass { framebuffer_index },
            ),
            final(self).pipelines_in_use@ == old(self).pipelines_in_use@,
    {
        self.commands.push(RecordedCommand::BeginRenderPass { framebuffer_index });
        self.phase = RecordingPhase::InRenderPass;
    }

    /// Bind a pipeline; the buffer keeps a reference to it for the
    /// lifetime of this recording.
    pub fn bind_pipeline(&mut self, pipeline: usize)
        requires
            old(self).phase is InRenderPass,
        ensures
            final(self).submit_once == old(self).submit_once,
            final(self).phase is InRenderPass,
            final(self).commands@ == old(self).commands@.push(
                RecordedCommand::BindPipeline { pipeline },
            ),
            final(self).pipelines_in_use@ == old(self).pipelines_in_use@.push(pipeline),
    {
        self.commands.push(RecordedCommand::BindPipeline { pipeline });
        self.pipelines_in_use.push(pipeline);
    }

    /// Deliver the payload queued for one stage of one render state.
    pub fn push_constant(&mut self, pipeline: usize, stage: ShaderStage, state: usize)
        requires
            old(self).phase is InRenderPass,
        ensures
            final(self).submit_once == old(self).submit_once,
            final(self).phase is InRenderPass,
            final(self).commands@ == old(self).commands@.push(
                RecordedCommand::PushConstants { pipeline, stage, state },
            ),
            final(self).pipelines_in_use@ == old(self).pipelines_in_use@,
    {
        self.commands.push(RecordedCommand::PushConstants { pipeline, stage, state });
    }

    /// Issue a non-indexed draw of one instance with no offsets.
    pub fn draw(&mut self, vertex_count: u32)
        requires
            old(self).phase is InRenderPass,
        ensures
            final(self).submit_once == old(self).submit_once,
            final(self).phase is InRenderPass,
            final(self).commands@ == old(self).commands@.push(
                RecordedCommand::Draw {
                    vertex_count,
                    instance_count: 1,
                    first_vertex: 0,
                    first_instance: 0,
                },
            ),
            final(self).pipelines_in_use@ == old(self).pipelines_in_use@,
    {
        self.commands.push(
            RecordedCommand::Draw {
                vertex_count,
                instance_count: 1,
                first_vertex: 0,
                first_instance: 0,
            },
        );
    }

    /// Close the render pass.
    pub fn end_render_pass(&mut self)
        requires
            old(self).phase is InRenderPass,
        ensures
            final(self).submit_once == old(self).submit_once,
            final(self).phase is Recording,
            final(self).commands@ == old(self).commands@.push(RecordedCommand::EndRenderPass),
            final(self).pipelines_in_use@ == old(self).pipelines_in_use@,
    {
        self.commands.push(RecordedCommand::EndRenderPass);
        self.phase = RecordingPhase::Recording;
    }

    /// Finish the recording; the script is complete and may be
    /// submitted.
    pub fn end_recording(&mut self)
        requires
            old(self).phase is Recording,
        ensures
            final(self).submit_once == old(self).submit_once,
            final(self).phase is Idle,
            final(self).commands@ == old(self).commands@,
            final(self).pipelines_in_use@ == old(self).pipelines_in_use@,
    {
        self.phase = RecordingPhase::Idle;
    }
}

/// The push-constant commands one render state contributes: one command
/// per stage with a queued payload, in the fixed order geometry, vertex,
/// fragment.
pub open spec fn spec_state_push_commands(state: RenderState, k: int) -> Seq<RecordedCommand> {
    (if state.payloads.geometry is Some {
        seq![
            RecordedCommand::PushConstants {
                pipeline: state.pipeline,
                stage: ShaderStage::Geometry,
                state: k as usize,
            },
        ]
    } else {
        Seq::empty()
    }) + (if state.payloads.vertex is Some {
        seq![
            RecordedCommand::PushConstants {
                pipeline: state.pipeline,
                stage: ShaderStage::Vertex,
                state: k as usize,
            },
        ]
    } else {
        Seq::empty()
    }) + (if state.payloads.fragment is Some {
        seq![
            RecordedCommand::PushConstants {
                pipeline: state.pipeline,
                stage: ShaderStage::Fragment,
                state: k as usize,
            },
        ]
    } else {
        Seq::empty()
    })
}

/// The full contribution of render state `k`: bind its pipeline, push
/// its queued payloads, draw the fixed vertex count.
pub open spec fn spec_state_commands(state: RenderState, k: int) -> Seq<RecordedCommand> {
    seq![RecordedCommand::BindPipeline { pipeline: state.pipeline }] + spec_state_push_commands(
        state,
        k,
    ) + seq![
        RecordedCommand::Draw {
            vertex_count: RENDER_STATE_VERTEX_COUNT,
            instance_count: 1,
            first_vertex: 0,
            first_instance: 0,
        },
    ]
}

/// The contributions of the first `n` render states, in order.
pub open spec fn spec_states_commands(states: Seq<RenderState>, n: int) -> Seq<RecordedCommand>
    decreases n,
{
    if n <= 0 {
        Seq::empty()
    } else {
        spec_states_commands(states, n - 1) + spec_state_commands(states[n - 1], n - 1)
    }
}

/// The whole script of one frame: open the render pass against the
/// acquired image's framebuffer, record every render state, close the
/// pass.
pub open spec fn spec_frame_commands(image_index: usize, states: Seq<RenderState>) -> Seq<
    RecordedCommand,
> {
    seq![RecordedCommand::BeginRenderPass { framebuffer_index: image_index }]
        + spec_states_commands(states, states.len() as int) + seq![RecordedCommand::EndRenderPass]
}

/// Re-record one frame's command buffer from scratch. The buffer ends
/// idle (never mid-recording), holding exactly the frame's script, and
/// referencing exactly the drawn pipelines, in draw order.
pub fn record_render_states(
    buffer: &mut CommandBuffer,
    image_index: usize,
    states: &Vec<RenderState>,
)
    requires
        old(buffer).phase is Idle,
    ensures
        final(buffer).submit_once == old(buffer).submit_once,
        final(buffer).phase is Idle,
        final(buffer).commands@ == spec_frame_commands(image_index, states@),
        final(buffer).pipelines_in_use@.len() == states@.len(),
        forall|k: int|
            0 <= k < states@.len() ==> #[trigger] final(buffer).pipelines_in_use@[k]
                == states@[k].pipeline,
{
    buffer.record();
    buffer.begin_render_pass(image_index);

    let mut k: usize = 0;
    while k < states.len()
        invariant
            k <= states@.len(),
            buffer.submit_once == old(buffer).submit_once,
            buffer.phase is InRenderPass,
            buffer.commands@ == seq![
                RecordedCommand::BeginRenderPass { framebuffer_index: image_index },
            ] + spec_states_commands(states@, k as int),
            buffer.pipelines_in_use@.len() == k,
            forall|m: int|
                0 <= m < k ==> #[trigger] buffer.pipelines_in_use@[m] == states@[m].pipeline,
        decreases states@.len() - k,
    {
        let state = &states[k];
        buffer.bind_pipeline(state.pipeline);
        if state.payloads.geometry.is_some() {
            buffer.push_constant(state.pipeline, ShaderStage::Geometry, k);
        }
        if state.payloads.vertex.is_some() {
            buffer.push_constant(state.pipeline, ShaderStage::Vertex, k);
        }
        if state.payloads.fragment.is_some() {
            buffer.push_constant(state.pipeline, ShaderStage::Fragment, k);
        }
        buffer.draw(RENDER_STATE_VERTEX_COUNT);
        proof {
            assert(buffer.commands@ =~= seq![
                RecordedCommand::BeginRenderPass { framebuffer_index: image_index },
            ] + spec_states_commands(states@, k + 1));
        }
        k = k + 1;
    }

    buffer.end_render_pass();
    buffer.end_recording();
    proof {
        assert(buffer.commands@ =~= spec_frame_commands(image_index, states@));
    }
}

} // verus!
