use vstd::prelude::*;

use crate::geometry::ClearColor;
use crate::geometry::Dimensions;
use crate::device::PipelineDesc;
use crate::swapchain::AcquireErrorKind;
use crate::swapchain::SwapchainErrorKind;

verus! {

/// One entry of the framebuffer cache: the framebuffer built from the shared
/// render pass and one swapchain image. The generation records which swapchain
/// the image belongs to, so a stale cache can never alias a fresh swapchain.
#[derive(Clone, Copy, Debug, PartialEq, Eq)]
pub struct FramebufferDesc {
    pub swapchain_generation: u64,
    pub image_index: usize,
}

/// The pending GPU completion handle for the most recently submitted frame.
/// Exactly one is live at a time: the next frame's work is sequenced after it.
#[derive(Clone, Copy, Debug, PartialEq, Eq)]
pub struct FrameSyncToken {
    pub frame: u64,
}

/// The single draw call a frame records.
#[derive(Clone, Copy, Debug, PartialEq, Eq)]
pub struct DrawCall {
    pub vertex_count: usize,
    pub instance_count: usize,
    pub indexed: bool,
}

/// Everything one recorded command buffer contains: begin the render pass on
/// one framebuffer, clear, bind the pipeline, set the dynamic viewport, draw
/// the fixed triangle, end the render pass.
#[derive(Clone, Copy, Debug, PartialEq, Eq)]
pub struct CommandBufferDesc {
    pub framebuffer: FramebufferDesc,
    pub clear_color: ClearColor,
    pub pipeline: PipelineDesc,
    pub viewport: Dimensions,
    pub draw: DrawCall,
}

/// The dependency chain handed to the queue for one frame: wait for the
/// previous frame's token joined with the image-ready signal, execute the
/// commands, present the image, signal a fence.
#[derive(Clone, Copy, Debug, PartialEq, Eq)]
pub struct SubmissionDesc {
    pub frame: u64,
    pub joins_previous: Option<FrameSyncToken>,
    pub waits_on_acquire: bool,
    pub commands: CommandBufferDesc,
    pub present_image_index: usize,
    pub signals_fence: bool,
}

/// Where within one `render` call the manager stands. `Idle` between frames;
/// the other two await the host's report on an issued action.
#[derive(Clone, Copy, Debug, PartialEq, Eq)]
pub enum FramePhase {
    Idle,
    AwaitRecreate(Dimensions),
    AwaitAcquire,
}

/// What the host must do next. Each variant is the manager's decision; the
/// host performs it against the real graphics API.
#[derive(Clone, Copy, Debug, PartialEq, Eq)]
pub enum FrameAction {
    /// `render` was called before `startup`: print a diagnostic, touch nothing.
    SkipUninitialized,
    /// Recreate the swapchain at the given pixel size and report the outcome.
    RecreateSwapchain(Dimensions),
    /// Acquire the next image with no timeout; first rebuild one framebuffer
    /// per swapchain image when `rebuild_framebuffers` is set.
    AcquireImage { rebuild_framebuffers: bool },
    /// Transient condition: present nothing this frame and return to the host
    /// loop; the retry happens on the next `render` call.
    AbandonFrame,
    /// Fatal recreation failure: terminate with a diagnostic.
    FatalRecreate(SwapchainErrorKind),
    /// Fatal acquisition failure: terminate with a diagnostic.
    FatalAcquire(AcquireErrorKind),
    /// Record, submit and present exactly this frame.
    SubmitFrame(SubmissionDesc),
}

/// What the host reports back after attempting a swapchain recreation.
#[derive(Clone, Copy, Debug, PartialEq, Eq)]
pub enum RecreateOutcome {
    /// The new swapchain exists and holds this many images.
    Success { image_count: usize },
    Failure(SwapchainErrorKind),
}

/// What the host reports back after attempting an image acquisition.
#[derive(Clone, Copy, Debug, PartialEq, Eq)]
pub enum AcquireOutcome {
    /// The image at this index is ready to be rendered to.
    Success { image_index: usize },
    Failure(AcquireErrorKind),
}

} // verus!
