use vstd::prelude::*;

use crate::device::AdapterChoice;
use crate::device::AdapterDesc;
use crate::device::DeviceContextDesc;
use crate::device::adapter_has_suitable;
use crate::device::build_device_context;
use crate::device::device_context_for;
use crate::device::device_wf;
use crate::device::first_suitable_adapter;
use crate::device::first_suitable_family;
use crate::device::select_adapter;
use crate::frame::AcquireOutcome;
use crate::frame::CommandBufferDesc;
use crate::frame::DrawCall;
use crate::frame::FrameAction;
use crate::frame::FramePhase;
use crate::frame::FrameSyncToken;
use crate::frame::FramebufferDesc;
use crate::frame::RecreateOutcome;
use crate::frame::SubmissionDesc;
use crate::geometry::Dimensions;
use crate::geometry::clear_color;
use crate::geometry::clear_color_spec;
use crate::swapchain::StartupError;
use crate::swapchain::SwapchainState;
use crate::swapchain::acquire_is_transient;
use crate::swapchain::choose_surface_config;
use crate::swapchain::config_of;
use crate::swapchain::initial_swapchain;
use crate::swapchain::recreate_is_transient;
use crate::swapchain::recreated_swapchain;

verus! {

/// The resource bundle a Ready manager owns, one frame to the next.
pub struct ReadyComponents {
    pub device: DeviceContextDesc,
    pub swapchain: SwapchainState,
    pub framebuffers: Vec<FramebufferDesc>,
    pub resize_pending: bool,
    pub pending_token: Option<FrameSyncToken>,
    pub frames_submitted: u64,
    pub phase: FramePhase,
}

/// The mathematical value of a Ready manager, with the framebuffer cache as a
/// sequence. All contracts and laws speak over this model.
#[verifier::ext_equal]
pub struct ReadyModel {
    pub device: DeviceContextDesc,
    pub swapchain: SwapchainState,
    pub framebuffers: Seq<FramebufferDesc>,
    pub resize_pending: bool,
    pub pending_token: Option<FrameSyncToken>,
    pub frames_submitted: u64,
    pub phase: FramePhase,
}

impl ReadyComponents {
    pub open spec fn model(self) -> ReadyModel {
        ReadyModel {
            device: self.device,
            swapchain: self.swapchain,
            framebuffers: self.framebuffers@,
            resize_pending: self.resize_pending,
            pending_token: self.pending_token,
            frames_submitted: self.frames_submitted,
            phase: self.phase,
        }
    }
}

/// The fully populated framebuffer cache for a swapchain: one framebuffer per
/// image, index-aligned, each stamped with the swapchain's generation.
pub open spec fn full_cache(sc: SwapchainState) -> Seq<FramebufferDesc> {
    Seq::new(
        sc.image_count as nat,
        |i: int| FramebufferDesc { swapchain_generation: sc.generation, image_index: i as usize },
    )
}

/// Well-formedness of a Ready manager, established by `startup` and preserved
/// by every frame step:
/// - the device context carries the static render pass and pipeline;
/// - the swapchain was created for the device's surface format, FIFO, clipped;
/// - the framebuffer cache is empty or fully populated and index-aligned with
///   the current swapchain's images — never partially populated, never stale;
/// - an acquisition is only ever awaited with a populated cache;
/// - a recreation is only ever awaited while a resize is pending;
/// - the pending token is exactly the last submitted frame's.
pub open spec fn ready_wf(m: ReadyModel) -> bool {
    &&& device_wf(m.device)
    &&& m.swapchain.config.format == m.device.surface_format
    &&& m.swapchain.config.present_mode is Fifo
    &&& m.swapchain.config.clipped
    &&& (m.framebuffers.len() == 0 || m.framebuffers == full_cache(m.swapchain))
    &&& (m.phase is AwaitAcquire ==> m.framebuffers == full_cache(m.swapchain))
    &&& (m.phase is AwaitRecreate ==> m.resize_pending)
    &&& match m.pending_token {
        Some(t) => t.frame == m.frames_submitted && m.frames_submitted >= 1,
        None => m.frames_submitted == 0,
    }
}

/// One call of `render`, from between-frames rest: decide whether the
/// swapchain is stale (resize pending), whether the cache must be rebuilt
/// (empty after startup or recreation), or whether to acquire directly.
/// The previous frame's bookkeeping reclaim has no model effect.
pub open spec fn spec_render(m: ReadyModel, dims: Dimensions) -> (ReadyModel, FrameAction) {
    if m.resize_pending {
        (
            ReadyModel { phase: FramePhase::AwaitRecreate(dims), ..m },
            FrameAction::RecreateSwapchain(dims),
        )
    } else if m.framebuffers.len() == 0 {
        (
            ReadyModel {
                framebuffers: full_cache(m.swapchain),
                phase: FramePhase::AwaitAcquire,
                ..m
            },
            FrameAction::AcquireImage { rebuild_framebuffers: true },
        )
    } else {
        (
            ReadyModel { phase: FramePhase::AwaitAcquire, ..m },
            FrameAction::AcquireImage { rebuild_framebuffers: false },
        )
    }
}

/// The host's recreation report, applied. Success replaces the swapchain
/// wholesale, invalidates and rebuilds the cache, and clears the resize flag.
/// Unsupported dimensions abandon the frame and keep the flag set. Anything
/// else is fatal.
pub open spec fn spec_apply_recreate(m: ReadyModel, outcome: RecreateOutcome) -> (
    ReadyModel,
    FrameAction,
) {
    match (m.phase, outcome) {
        (FramePhase::AwaitRecreate(dims), RecreateOutcome::Success { image_count }) => {
            let sc = recreated_swapchain(m.swapchain, dims, image_count);
            (
                ReadyModel {
                    swapchain: sc,
                    framebuffers: full_cache(sc),
                    resize_pending: false,
                    phase: FramePhase::AwaitAcquire,
                    ..m
                },
                FrameAction::AcquireImage { rebuild_framebuffers: true },
            )
        },
        (FramePhase::AwaitRecreate(_), RecreateOutcome::Failure(k)) => {
            if recreate_is_transient(k) {
                (ReadyModel { phase: FramePhase::Idle, ..m }, FrameAction::AbandonFrame)
            } else {
                (ReadyModel { phase: FramePhase::Idle, ..m }, FrameAction::FatalRecreate(k))
            }
        },
        _ => (m, FrameAction::AbandonFrame),
    }
}

/// The command buffer recorded for one acquired image: the render pass bound
/// to that image's cached framebuffer, the fixed clear colour, the static
/// pipeline, the dynamic viewport at the current dimensions, and one
/// non-indexed draw of the three-vertex buffer.
pub open spec fn spec_command_buffer(m: ReadyModel, image_index: usize) -> CommandBufferDesc {
    CommandBufferDesc {
        framebuffer: m.framebuffers[image_index as int],
        clear_color: clear_color_spec(),
        pipeline: m.device.pipeline,
        viewport: m.swapchain.dimensions,
        draw: DrawCall { vertex_count: m.device.vertex_count, instance_count: 1, indexed: false },
    }
}

/// The dependency chain submitted for one acquired image: joined on the
/// previous frame's token and the image-ready signal, then execute, then
/// present that image, then signal a fence.
pub open spec fn spec_submission(m: ReadyModel, image_index: usize) -> SubmissionDesc {
    SubmissionDesc {
        frame: (m.frames_submitted + 1) as u64,
        joins_previous: m.pending_token,
        waits_on_acquire: true,
        commands: spec_command_buffer(m, image_index),
        present_image_index: image_index,
        signals_fence: true,
    }
}

/// The host's acquisition report, applied. Success yields the full submission
/// for this frame and stores its token as the new pending one. Out-of-date
/// abandons the frame and raises the resize flag so the next call rebuilds.
/// Anything else is fatal.
pub open spec fn spec_apply_acquire(m: ReadyModel, outcome: AcquireOutcome) -> (
    ReadyModel,
    FrameAction,
) {
    match outcome {
        AcquireOutcome::Success { image_index } => {
            let sub = spec_submission(m, image_index);
            (
                ReadyModel {
                    pending_token: Some(FrameSyncToken { frame: sub.frame }),
                    frames_submitted: sub.frame,
                    phase: FramePhase::Idle,
                    ..m
                },
                FrameAction::SubmitFrame(sub),
            )
        },
        AcquireOutcome::Failure(k) => {
            if acquire_is_transient(k) {
                (
                    ReadyModel { resize_pending: true, phase: FramePhase::Idle, ..m },
                    FrameAction::AbandonFrame,
                )
            } else {
                (ReadyModel { phase: FramePhase::Idle, ..m }, FrameAction::FatalAcquire(k))
            }
        },
    }
}

/// Build the fully populated framebuffer cache for a swapchain: one entry per
/// image, index-aligned.
fn build_cache(sc: SwapchainState) -> (v: Vec<FramebufferDesc>)
    ensures
        v@ == full_cache(sc),
{
    let mut v: Vec<FramebufferDesc> = Vec::new();
    let mut i: usize = 0;
    while i < sc.image_count
        invariant
            i <= sc.image_count,
            v@.len() == i,
            forall|j: int| 0 <= j < i ==> v@[j] == (FramebufferDesc {
                swapchain_generation: sc.generation,
                image_index: j as usize,
            }),
        decreases sc.image_count - i,
    {
        v.push(FramebufferDesc { swapchain_generation: sc.generation, image_index: i });
        i = i + 1;
    }
    proof {
        assert(v@ =~= full_cache(sc));
    }
    v
}

/// The frame lifecycle manager. It is Uninitialized until `startup` succeeds,
/// then Ready; `render` runs one frame per call, through the actions it hands
/// back to the host.
pub struct RenderManager {
    pub render_components: Option<ReadyComponents>,
}

/// A snapshot of the manager's observable state, for the host and for tests.
#[derive(Clone, Copy, Debug, PartialEq, Eq)]
pub struct StatusDesc {
    pub ready: bool,
    pub resize_pending: bool,
    pub frames_submitted: u64,
    pub image_count: usize,
    pub framebuffer_count: usize,
    pub swapchain_generation: u64,
    pub dimensions: Dimensions,
    pub pending_frame: Option<u64>,
}

impl RenderManager {
    /// The manager holds GPU resources.
    pub open spec fn is_ready(self) -> bool {
        self.render_components is Some
    }

    /// The model of a Ready manager.
    pub open spec fn ready_model(self) -> ReadyModel {
        self.render_components->0.model()
    }

    /// Well-formedness: a Ready manager's components are well-formed; an
    /// Uninitialized manager holds nothing.
    pub open spec fn wf(self) -> bool {
        self.is_ready() ==> ready_wf(self.ready_model())
    }

    /// At rest between frames: no issued action is awaiting its report.
    pub open spec fn at_rest(self) -> bool {
        self.is_ready() ==> self.ready_model().phase is Idle
    }

    /// A manager that owns no GPU resources yet.
    pub fn new() -> (r: RenderManager)
        ensures
            !r.is_ready(),
            r.wf(),
            r.at_rest(),
    {
        RenderManager { render_components: None }
    }

    /// Transition Uninitialized to Ready, once. The host enumerates the
    /// adapters, queries the surface capabilities, creates the device, the
    /// swapchain (which ends up holding `image_count` images), the shader
    /// stages, the render pass and the pipeline; this call makes and records
    /// the decisions: first-match adapter and queue family, first supported
    /// format and composite-alpha mode, minimum image count, FIFO, clipped.
    /// Every error is fatal to the host. The framebuffer cache starts empty;
    /// the first `render` call populates it.
    pub fn startup(
        &mut self,
        adapters: &Vec<AdapterDesc>,
        caps: &crate::swapchain::SurfaceCapabilities,
        dims: Dimensions,
        image_count: usize,
    ) -> (r: Result<AdapterChoice, StartupError>)
        requires
            !old(self).is_ready(),
        ensures
            final(self).wf(),
            final(self).at_rest(),
            r is Ok <==> ((exists|j: int|
                0 <= j < adapters@.len() && adapter_has_suitable(#[trigger] adapters@[j]))
                && caps.composite_alphas@.len() > 0 && caps.formats@.len() > 0),
            match r {
                Ok(choice) => {
                    &&& final(self).is_ready()
                    &&& first_suitable_adapter(adapters@, choice.adapter_index as int)
                    &&& first_suitable_family(
                        adapters@[choice.adapter_index as int].queue_families@,
                        choice.queue_family_index as int,
                    )
                    &&& final(self).ready_model() == (ReadyModel {
                        device: device_context_for(choice, config_of(*caps).format),
                        swapchain: initial_swapchain(config_of(*caps), dims, image_count),
                        framebuffers: Seq::<FramebufferDesc>::empty(),
                        resize_pending: false,
                        pending_token: None::<FrameSyncToken>,
                        frames_submitted: 0,
                        phase: FramePhase::Idle,
                    })
                },
                Err(e) => {
                    &&& !final(self).is_ready()
                    &&& *final(self) == *old(self)
                    &&& (e == StartupError::NoSuitableAdapter <==> (forall|j: int|
                        0 <= j < adapters@.len() ==> !adapter_has_suitable(
                            #[trigger] adapters@[j],
                        )))
                    &&& (e == StartupError::NoCompositeAlpha ==> caps.composite_alphas@.len()
                        == 0)
                    &&& (e == StartupError::NoSurfaceFormat ==> caps.composite_alphas@.len() > 0
                        && caps.formats@.len() == 0)
                },
            },
    {
        let choice = match select_adapter(adapters) {
            Ok(c) => c,
            Err(e) => {
                return Err(e);
            },
        };
        let config = match choose_surface_config(caps) {
            Ok(c) => c,
            Err(e) => {
                return Err(e);
            },
        };
        let device = build_device_context(choice, config.format);
        self.render_components = Some(
            ReadyComponents {
                device,
                swapchain: SwapchainState { generation: 0, image_count, dimensions: dims, config },
                framebuffers: Vec::new(),
                resize_pending: false,
                pending_token: None,
                frames_submitted: 0,
                phase: FramePhase::Idle,
            },
        );
        proof {
            assert(final(self).ready_model().framebuffers =~= Seq::<FramebufferDesc>::empty());
        }
        Ok(choice)
    }

    /// The host saw a resize event: mark the swapchain stale. The flag stays
    /// raised until a recreation succeeds.
    pub fn notify_resize(&mut self)
        requires
            old(self).wf(),
            old(self).at_rest(),
        ensures
            final(self).wf(),
            final(self).at_rest(),
            !old(self).is_ready() ==> *final(self) == *old(self),
            old(self).is_ready() ==> final(self).is_ready() && final(self).ready_model() == (
            ReadyModel { resize_pending: true, ..old(self).ready_model() }),
    {
        match &mut self.render_components {
            None => {},
            Some(c) => {
                c.resize_pending = true;
            },
        }
    }

    /// Run one frame, called once per host loop iteration with the current
    /// drawable dimensions. Uninitialized: a diagnostic action, and the
    /// manager is untouched. Ready: reclaim the previous frame's bookkeeping,
    /// then either hand back the recreation the pending resize demands, or
    /// rebuild the framebuffer cache if it is empty and move to acquisition.
    /// No staleness means no rebuild: swapchain and cache are left exactly as
    /// they are.
    pub fn render(&mut self, dims: Dimensions) -> (a: FrameAction)
        requires
            old(self).wf(),
            old(self).at_rest(),
        ensures
            final(self).wf(),
            !old(self).is_ready() ==> a == FrameAction::SkipUninitialized && *final(self) == *old(
                self,
            ),
            old(self).is_ready() ==> {
                &&& final(self).is_ready()
                &&& final(self).ready_model() == spec_render(old(self).ready_model(), dims).0
                &&& a == spec_render(old(self).ready_model(), dims).1
            },
    {
        match &mut self.render_components {
            None => FrameAction::SkipUninitialized,
            Some(c) => {
                if c.resize_pending {
                    c.phase = FramePhase::AwaitRecreate(dims);
                    FrameAction::RecreateSwapchain(dims)
                } else if c.framebuffers.len() == 0 {
                    c.framebuffers = build_cache(c.swapchain);
                    c.phase = FramePhase::AwaitAcquire;
                    FrameAction::AcquireImage { rebuild_framebuffers: true }
                } else {
                    c.phase = FramePhase::AwaitAcquire;
                    FrameAction::AcquireImage { rebuild_framebuffers: false }
                }
            },
        }
    }

    /// Apply the host's report on the recreation that `render` requested.
    pub fn apply_recreate(&mut self, outcome: RecreateOutcome) -> (a: FrameAction)
        requires
            old(self).wf(),
            old(self).is_ready(),
            old(self).ready_model().phase is AwaitRecreate,
            old(self).ready_model().swapchain.generation < u64::MAX,
        ensures
            final(self).wf(),
            final(self).is_ready(),
            final(self).at_rest() <==> !(outcome is Success),
            final(self).ready_model() == spec_apply_recreate(old(self).ready_model(), outcome).0,
            a == spec_apply_recreate(old(self).ready_model(), outcome).1,
    {
        match &mut self.render_components {
            None => FrameAction::AbandonFrame,
            Some(c) => {
                match outcome {
                    RecreateOutcome::Success { image_count } => {
                        let dims = match c.phase {
                            FramePhase::AwaitRecreate(d) => d,
                            _ => c.swapchain.dimensions,
                        };
                        let sc = SwapchainState {
                            generation: c.swapchain.generation + 1,
                            image_count,
                            dimensions: dims,
                            config: c.swapchain.config,
                        };
                        c.swapchain = sc;
                        c.framebuffers = build_cache(sc);
                        c.resize_pending = false;
                        c.phase = FramePhase::AwaitAcquire;
                        FrameAction::AcquireImage { rebuild_framebuffers: true }
                    },
                    RecreateOutcome::Failure(k) => {
                        c.phase = FramePhase::Idle;
                        match k {
                            crate::swapchain::SwapchainErrorKind::UnsupportedDimensions => {
                                FrameAction::AbandonFrame
                            },
                            _ => FrameAction::FatalRecreate(k),
                        }
                    },
                }
            },
        }
    }

    /// Apply the host's report on the acquisition that `render` (or a
    /// successful recreation) requested. On success the returned action holds
    /// the complete recording and submission for this frame.
    pub fn apply_acquire(&mut self, outcome: AcquireOutcome) -> (a: FrameAction)
        requires
            old(self).wf(),
            old(self).is_ready(),
            old(self).ready_model().phase is AwaitAcquire,
            old(self).ready_model().frames_submitted < u64::MAX,
            outcome matches AcquireOutcome::Success { image_index } ==> (image_index as int)
                < old(self).ready_model().swapchain.image_count,
        ensures
            final(self).wf(),
            final(self).is_ready(),
            final(self).at_rest(),
            final(self).ready_model() == spec_apply_acquire(old(self).ready_model(), outcome).0,
            a == spec_apply_acquire(old(self).ready_model(), outcome).1,
    {
        match &mut self.render_components {
            None => FrameAction::AbandonFrame,
            Some(c) => {
                match outcome {
                    AcquireOutcome::Success { image_index } => {
                        let frame = c.frames_submitted + 1;
                        let commands = CommandBufferDesc {
                            framebuffer: c.framebuffers[image_index],
                            clear_color: clear_color(),
                            pipeline: c.device.pipeline,
                            viewport: c.swapchain.dimensions,
                            draw: DrawCall {
                                vertex_count: c.device.vertex_count,
                                instance_count: 1,
                                indexed: false,
                            },
                        };
                        let sub = SubmissionDesc {
                            frame,
                            joins_previous: c.pending_token,
                            waits_on_acquire: true,
                            commands,
                            present_image_index: image_index,
                            signals_fence: true,
                        };
                        c.pending_token = Some(FrameSyncToken { frame });
                        c.frames_submitted = frame;
                        c.phase = FramePhase::Idle;
                        FrameAction::SubmitFrame(sub)
                    },
                    AcquireOutcome::Failure(k) => {
                        c.phase = FramePhase::Idle;
                        match k {
                            crate::swapchain::AcquireErrorKind::OutOfDate => {
                                c.resize_pending = true;
                                FrameAction::AbandonFrame
                            },
                            _ => FrameAction::FatalAcquire(k),
                        }
                    },
                }
            },
        }
    }

    /// Observe the manager's state. An Uninitialized manager reports all
    /// fields at rest.
    pub fn status(&self) -> (s: StatusDesc)
        ensures
            s.ready == self.is_ready(),
            self.is_ready() ==> {
                let m = self.ready_model();
                &&& s.resize_pending == m.resize_pending
                &&& s.frames_submitted == m.frames_submitted
                &&& s.image_count == m.swapchain.image_count
                &&& s.framebuffer_count == m.framebuffers.len()
                &&& s.swapchain_generation == m.swapchain.generation
                &&& s.dimensions == m.swapchain.dimensions
                &&& s.pending_frame == match m.pending_token {
                    Some(t) => Some(t.frame),
                    None => None::<u64>,
                }
            },
            !self.is_ready() ==> s == (StatusDesc {
                ready: false,
                resize_pending: false,
                frames_submitted: 0,
                image_count: 0,
                framebuffer_count: 0,
                swapchain_generation: 0,
                dimensions: (Dimensions { width: 0, height: 0 }),
                pending_frame: None::<u64>,
            }),
    {
        match &self.render_components {
            None => StatusDesc {
                ready: false,
                resize_pending: false,
                frames_submitted: 0,
                image_count: 0,
                framebuffer_count: 0,
                swapchain_generation: 0,
                dimensions: Dimensions { width: 0, height: 0 },
                pending_frame: None,
            },
            Some(c) => StatusDesc {
                ready: true,
                resize_pending: c.resize_pending,
                frames_submitted: c.frames_submitted,
                image_count: c.swapchain.image_count,
                framebuffer_count: c.framebuffers.len(),
                swapchain_generation: c.swapchain.generation,
                dimensions: c.swapchain.dimensions,
                pending_frame: match c.pending_token {
                    Some(t) => Some(t.frame),
                    None => None,
                },
            },
        }
    }

    /// The static device context, once Ready.
    pub fn device_context(&self) -> (d: Option<DeviceContextDesc>)
        ensures
            match d {
                Some(dc) => self.is_ready() && dc == self.ready_model().device,
                None => !self.is_ready(),
            },
    {
        match &self.render_components {
            None => None,
            Some(c) => Some(c.device),
        }
    }

    /// One entry of the framebuffer cache.
    pub fn framebuffer_at(&self, i: usize) -> (f: FramebufferDesc)
        requires
            self.is_ready(),
            (i as int) < self.ready_model().framebuffers.len(),
        ensures
            f == self.ready_model().framebuffers[i as int],
    {
        match &self.render_components {
            None => FramebufferDesc { swapchain_generation: 0, image_index: 0 },
            Some(c) => c.framebuffers[i],
        }
    }
}

} // verus!
