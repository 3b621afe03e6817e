//! The render loop: frame pacing and the per-frame protocol.
//!
//! The engine keeps `FRAMES_IN_FLIGHT` sets of synchronization
//! primitives, indexed by the current frame slot, and advances the slot
//! round robin after each frame. One frame is a fixed sequence: wait on
//! the slot's fence and reset it, acquire an image (signaling the slot's
//! image-acquired semaphore), re-record the slot's command buffer,
//! submit it (waiting on image-acquired, signaling image-rendered and
//! the fence), and present (waiting on image-rendered). Any native
//! failure aborts the frame with a distinct error; nothing is retried.
//!
//! The shell drives the loop: it asks [`next_action`] what to do, makes
//! the one native call the action names, and feeds the outcome back
//! through [`apply_event`].

use vstd::prelude::*;
use crate::errors::{RenderingError, RenderingResult, VulkanError};
use crate::physical_device::QueueFamily;
use crate::vulkan_names;

verus! {

/// How many frames may be in flight at once: the CPU may record frame
/// N+2 only after frame N's fence has signaled.
pub const FRAMES_IN_FLIGHT: usize = 2;

/// Native pipeline-stage bit for color-attachment output: the stage at
/// which a frame's submit waits on its image-acquired semaphore.
pub const SUBMIT_WAIT_STAGE_COLOR_ATTACHMENT_OUTPUT: u32 = 0x400;

/// The queue-family roles a physical device must offer.
pub fn physical_device_queue_families() -> (r: Vec<QueueFamily>)
    ensures
        r@ == seq![QueueFamily::Graphics, QueueFamily::Transfer],
{
    let mut families: Vec<QueueFamily> = Vec::new();
    families.push(QueueFamily::Graphics);
    families.push(QueueFamily::Transfer);
    proof {
        assert(families@ =~= seq![QueueFamily::Graphics, QueueFamily::Transfer]);
    }
    families
}

/// The roles the logical device is created with.
pub fn logical_device_queue_families() -> (r: Vec<QueueFamily>)
    ensures
        r@ == seq![QueueFamily::Graphics, QueueFamily::Transfer, QueueFamily::Presentation],
{
    let mut families: Vec<QueueFamily> = Vec::new();
    families.push(QueueFamily::Graphics);
    families.push(QueueFamily::Transfer);
    families.push(QueueFamily::Presentation);
    proof {
        assert(families@ =~= seq![
            QueueFamily::Graphics,
            QueueFamily::Transfer,
            QueueFamily::Presentation,
        ]);
    }
    families
}

/// The device extensions a physical device must support: presentation
/// needs the swapchain extension.
pub fn required_device_extensions() -> (r: Vec<String>)
    ensures
        r@.len() == 1,
        r@[0]@ == "VK_KHR_swapchain"@,
{
    let mut extensions: Vec<String> = Vec::new();
    extensions.push(vulkan_names::swapchain_extension_name());
    extensions
}

/// The frame-slot counter. Every synchronization primitive of a frame
/// (both semaphores, the fence, the command buffer) is indexed by the
/// current slot.
#[derive(Clone, Copy, Debug, PartialEq, Eq, Structural)]
pub struct FrameScheduler {
    pub current_frame: usize,
}

/// The slot after `k` advances from `start`.
pub open spec fn spec_frame_after(start: int, k: int) -> int
    decreases k,
{
    if k <= 0 {
        start
    } else {
        (spec_frame_after(start, k - 1) + 1) % (FRAMES_IN_FLIGHT as int)
    }
}

impl FrameScheduler {
    /// The slot is always in range.
    pub open spec fn wf(&self) -> bool {
        self.current_frame < FRAMES_IN_FLIGHT
    }

    pub fn new() -> (r: Self)
        ensures
            r.current_frame == 0,
            r.wf(),
    {
        FrameScheduler { current_frame: 0 }
    }

    /// Advance to the next slot, wrapping around after
    /// `FRAMES_IN_FLIGHT`.
    pub fn advance_frame(&mut self)
        requires
            old(self).wf(),
        ensures
            final(self).wf(),
            final(self).current_frame == (old(self).current_frame + 1) % (
            FRAMES_IN_FLIGHT as int),
    {
        self.current_frame = (self.current_frame + 1) % FRAMES_IN_FLIGHT;
    }
}

/// Frame-slot round robin: after exactly `FRAMES_IN_FLIGHT` advances the
/// slot returns to its starting value, and within one cycle no slot is
/// visited twice.
pub proof fn lemma_frame_slots_cycle(start: int, a: int, b: int)
    requires
        0 <= start < FRAMES_IN_FLIGHT,
        0 <= a < b < FRAMES_IN_FLIGHT,
    ensures
        spec_frame_after(start, FRAMES_IN_FLIGHT as int) == start,
        spec_frame_after(start, a) != spec_frame_after(start, b),
{
    assert(spec_frame_after(start, 0) == start);
    assert(spec_frame_after(start, 1) == (start + 1) % 2);
    assert(spec_frame_after(start, 2) == ((start + 1) % 2 + 1) % 2);
}

/// Where one frame stands. The image index, once acquired, travels with
/// the phase to the steps that need it.
#[derive(Clone, Copy, Debug, PartialEq, Eq, Structural)]
pub enum FramePhase {
    WaitingForFence,
    ResettingFence,
    AcquiringImage,
    RecordingCommands { image_index: usize },
    SubmittingRender { image_index: usize },
    PresentingImage { image_index: usize },
    FrameComplete,
}

/// The one native step the shell is to perform next. All slot-indexed
/// fields name the current frame slot; `SubmitRender` waits on the
/// image-acquired semaphore at the `wait_stage` pipeline stage and
/// signals both the image-rendered semaphore and the frame fence;
/// `PresentImage` waits on the image-rendered semaphore.
#[derive(Clone, Copy, Debug, PartialEq, Eq, Structural)]
pub enum FrameAction {
    WaitForFence { fence: usize },
    ResetFence { fence: usize },
    AcquireImage { signal_semaphore: usize },
    RecordCommands { command_buffer: usize, framebuffer_index: usize },
    SubmitRender {
        command_buffer: usize,
        wait_semaphore: usize,
        wait_stage: u32,
        signal_semaphore: usize,
        fence: usize,
    },
    PresentImage { wait_semaphore: usize, image_index: usize },
    AdvanceFrame,
}

/// What came back from the native step, with the raw status code on
/// failure. An acquired image arrives as the native index.
#[derive(Clone, Copy, Debug)]
pub enum FrameEvent {
    FenceWaited { result: Result<(), i32> },
    FenceReset { result: Result<(), i32> },
    ImageAcquired { result: Result<u32, i32> },
    CommandsRecorded { result: Result<(), i32> },
    RenderSubmitted { result: Result<(), i32> },
    ImagePresented { result: Result<(), i32> },
}

/// The event kind a phase expects; feeding any other back is a
/// programming error of the shell, not a recoverable condition.
pub open spec fn spec_event_matches_phase(phase: FramePhase, event: FrameEvent) -> bool {
    match phase {
        FramePhase::WaitingForFence => event is FenceWaited,
        FramePhase::ResettingFence => event is FenceReset,
        FramePhase::AcquiringImage => event is ImageAcquired,
        FramePhase::RecordingCommands { .. } => event is CommandsRecorded,
        FramePhase::SubmittingRender { .. } => event is RenderSubmitted,
        FramePhase::PresentingImage { .. } => event is ImagePresented,
        FramePhase::FrameComplete => false,
    }
}

/// The action owed in each phase, every index being the current slot.
pub fn next_action(scheduler: &FrameScheduler, phase: &FramePhase) -> (a: FrameAction)
    requires
        scheduler.wf(),
    ensures
        a == match *phase {
            FramePhase::WaitingForFence => FrameAction::WaitForFence {
                fence: scheduler.current_frame,
            },
            FramePhase::ResettingFence => FrameAction::ResetFence {
                fence: scheduler.current_frame,
            },
            FramePhase::AcquiringImage => FrameAction::AcquireImage {
                signal_semaphore: scheduler.current_frame,
            },
            FramePhase::RecordingCommands { image_index } => FrameAction::RecordCommands {
                command_buffer: scheduler.current_frame,
                framebuffer_index: image_index,
            },
            FramePhase::SubmittingRender { .. } => FrameAction::SubmitRender {
                command_buffer: scheduler.current_frame,
                wait_semaphore: scheduler.current_frame,
                wait_stage: SUBMIT_WAIT_STAGE_COLOR_ATTACHMENT_OUTPUT,
                signal_semaphore: scheduler.current_frame,
                fence: scheduler.current_frame,
            },
            FramePhase::PresentingImage { image_index } => FrameAction::PresentImage {
                wait_semaphore: scheduler.current_frame,
                image_index,
            },
            FramePhase::FrameComplete => FrameAction::AdvanceFrame,
        },
{
    match *phase {
        FramePhase::WaitingForFence => FrameAction::WaitForFence {
            fence: scheduler.current_frame,
        },
        FramePhase::ResettingFence => FrameAction::ResetFence { fence: scheduler.current_frame },
        FramePhase::AcquiringImage => FrameAction::AcquireImage {
            signal_semaphore: scheduler.current_frame,
        },
        FramePhase::RecordingCommands { image_index } => FrameAction::RecordCommands {
            command_buffer: scheduler.current_frame,
            framebuffer_index: image_index,
        },
        FramePhase::SubmittingRender { .. } => FrameAction::SubmitRender {
            command_buffer: scheduler.current_frame,
            wait_semaphore: scheduler.current_frame,
            wait_stage: SUBMIT_WAIT_STAGE_COLOR_ATTACHMENT_OUTPUT,
            signal_semaphore: scheduler.current_frame,
            fence: scheduler.current_frame,
        },
        FramePhase::PresentingImage { image_index } => FrameAction::PresentImage {
            wait_semaphore: scheduler.current_frame,
            image_index,
        },
        FramePhase::FrameComplete => FrameAction::AdvanceFrame,
    }
}

/// Step the frame through one event. Success moves to the next phase in
/// the fixed order wait, reset, acquire, record, submit, present; any
/// native failure aborts the frame with the error that names the failed
/// step and carries its status code.
pub fn apply_event(phase: &FramePhase, event: &FrameEvent) -> (r: RenderingResult<FramePhase>)
    requires
        spec_event_matches_phase(*phase, *event),
    ensures
        *event matches FrameEvent::FenceWaited { result } ==> {
            &&& result is Ok ==> r == Ok::<FramePhase, RenderingError>(FramePhase::ResettingFence)
            &&& result matches Err(code) ==> r == Err::<FramePhase, RenderingError>(
                RenderingError::VulkanError {
                    source: VulkanError::FenceWaitError { result: code },
                },
            )
        },
        *event matches FrameEvent::FenceReset { result } ==> {
            &&& result is Ok ==> r == Ok::<FramePhase, RenderingError>(FramePhase::AcquiringImage)
            &&& result matches Err(code) ==> r == Err::<FramePhase, RenderingError>(
                RenderingError::VulkanError {
                    source: VulkanError::FenceResetError { result: code },
                },
            )
        },
        *event matches FrameEvent::ImageAcquired { result } ==> {
            &&& result matches Ok(index) ==> r == Ok::<FramePhase, RenderingError>(
                FramePhase::RecordingCommands { image_index: index as usize },
            )
            &&& result matches Err(code) ==> r == Err::<FramePhase, RenderingError>(
                RenderingError::AcquireImageError { result: code },
            )
        },
        *phase matches FramePhase::RecordingCommands { image_index } ==> (*event matches
            FrameEvent::CommandsRecorded { result } ==> {
            &&& result is Ok ==> r == Ok::<FramePhase, RenderingError>(
                FramePhase::SubmittingRender { image_index },
            )
            &&& result matches Err(code) ==> r == Err::<FramePhase, RenderingError>(
                RenderingError::VulkanError {
                    source: VulkanError::CommandBufferRecordError { result: code },
                },
            )
        }),
        *phase matches FramePhase::SubmittingRender { image_index } ==> (*event matches
            FrameEvent::RenderSubmitted { result } ==> {
            &&& result is Ok ==> r == Ok::<FramePhase, RenderingError>(
                FramePhase::PresentingImage { image_index },
            )
            &&& result matches Err(code) ==> r == Err::<FramePhase, RenderingError>(
                RenderingError::RenderImageError { result: code },
            )
        }),
        *event matches FrameEvent::ImagePresented { result } ==> {
            &&& result is Ok ==> r == Ok::<FramePhase, RenderingError>(FramePhase::FrameComplete)
            &&& result matches Err(code) ==> r == Err::<FramePhase, RenderingError>(
                RenderingError::PresentImageError { result: code },
            )
        },
{
    match (*phase, *event) {
        (FramePhase::WaitingForFence, FrameEvent::FenceWaited { result }) => match result {
            Ok(_) => Ok(FramePhase::ResettingFence),
            Err(code) => Err(
                RenderingError::VulkanError {
                    source: VulkanError::FenceWaitError { result: code },
                },
            ),
        },
        (FramePhase::ResettingFence, FrameEvent::FenceReset { result }) => match result {
            Ok(_) => Ok(FramePhase::AcquiringImage),
            Err(code) => Err(
                RenderingError::VulkanError {
                    source: VulkanError::FenceResetError { result: code },
                },
            ),
        },
        (FramePhase::AcquiringImage, FrameEvent::ImageAcquired { result }) => match result {
            Ok(index) => Ok(FramePhase::RecordingCommands { image_index: index as usize }),
            Err(code) => Err(RenderingError::AcquireImageError { result: code }),
        },
        (
            FramePhase::RecordingCommands { image_index },
            FrameEvent::CommandsRecorded { result },
        ) => match result {
            Ok(_) => Ok(FramePhase::SubmittingRender { image_index }),
            Err(code) => Err(
                RenderingError::VulkanError {
                    source: VulkanError::CommandBufferRecordError { result: code },
                },
            ),
        },
        (FramePhase::SubmittingRender { image_index }, FrameEvent::RenderSubmitted { result }) => {
            match result {
                Ok(_) => Ok(FramePhase::PresentingImage { image_index }),
                Err(code) => Err(RenderingError::RenderImageError { result: code }),
            }
        },
        (FramePhase::PresentingImage { .. }, FrameEvent::ImagePresented { result }) => {
            match result {
                Ok(_) => Ok(FramePhase::FrameComplete),
                Err(code) => Err(RenderingError::PresentImageError { result: code }),
            }
        },
        _ => {
            proof {
                assert(false);
            }
            Ok(FramePhase::FrameComplete)
        },
    }
}

} // verus!
