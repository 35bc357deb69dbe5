use magician::device::AdapterDesc;
use magician::device::QueueFamilyDesc;
use magician::frame::AcquireOutcome;
use magician::frame::FrameAction;
use magician::frame::RecreateOutcome;
use magician::geometry::Dimensions;
use magician::manager::RenderManager;
use magician::swapchain::AcquireErrorKind;
use magician::swapchain::SurfaceCapabilities;
use magician::swapchain::SwapchainErrorKind;

fn one_good_adapter() -> Vec<AdapterDesc> {
    vec![AdapterDesc {
        queue_families: vec![QueueFamilyDesc { supports_graphics: true, supports_present: true }],
    }]
}

fn basic_caps(min_image_count: u32) -> SurfaceCapabilities {
    SurfaceCapabilities { min_image_count, formats: vec![44, 45], composite_alphas: vec![1, 2] }
}

fn ready_manager(width: u32, height: u32, image_count: usize) -> RenderManager {
    let mut mgr = RenderManager::new();
    let adapters = one_good_adapter();
    let caps = basic_caps(image_count as u32);
    let r = mgr.startup(&adapters, &caps, Dimensions { width, height }, image_count);
    assert!(r.is_ok());
    mgr
}

/// Runs one successful frame and returns its submission.
fn run_quiet_frame(mgr: &mut RenderManager, width: u32, height: u32, image_index: usize)
    -> magician::frame::SubmissionDesc
{
    let a = mgr.render(Dimensions { width, height });
    match a {
        FrameAction::AcquireImage { .. } => {}
        other => panic!("expected an acquire action, got {:?}", other),
    }
    match mgr.apply_acquire(AcquireOutcome::Success { image_index }) {
        FrameAction::SubmitFrame(sub) => sub,
        other => panic!("expected a submission, got {:?}", other),
    }
}

#[test]
fn startup_reaches_ready_with_one_color_attachment() {
    let mgr = ready_manager(640, 480, 2);
    let status = mgr.status();
    assert!(status.ready);
    assert!(status.image_count >= 1);
    assert_eq!(status.image_count, 2);
    assert_eq!(status.framebuffer_count, 0);
    assert_eq!(status.dimensions, Dimensions { width: 640, height: 480 });
    let device = mgr.device_context().unwrap();
    assert_eq!(device.pipeline.render_pass.color_attachment_count, 1);
    assert_eq!(device.render_pass.color_attachment_count, 1);
    assert_eq!(device.surface_format, 44);
    assert_eq!(device.vertex_count, 3);
}

#[test]
fn render_before_startup_is_a_diagnostic_no_op() {
    let mut mgr = RenderManager::new();
    let a = mgr.render(Dimensions { width: 640, height: 480 });
    assert_eq!(a, FrameAction::SkipUninitialized);
    let status = mgr.status();
    assert!(!status.ready);
    assert_eq!(status.frames_submitted, 0);
    // Still usable: the action repeats on every call before startup.
    let again = mgr.render(Dimensions { width: 640, height: 480 });
    assert_eq!(again, FrameAction::SkipUninitialized);
}

#[test]
fn first_frame_rebuilds_cache_to_image_count() {
    let mut mgr = ready_manager(640, 480, 3);
    let a = mgr.render(Dimensions { width: 640, height: 480 });
    assert_eq!(a, FrameAction::AcquireImage { rebuild_framebuffers: true });
    let status = mgr.status();
    assert_eq!(status.framebuffer_count, 3);
    assert_eq!(status.framebuffer_count, status.image_count);
    for i in 0..3 {
        let fb = mgr.framebuffer_at(i);
        assert_eq!(fb.image_index, i);
        assert_eq!(fb.swapchain_generation, 0);
    }
    let a2 = mgr.apply_acquire(AcquireOutcome::Success { image_index: 0 });
    match a2 {
        FrameAction::SubmitFrame(sub) => {
            assert_eq!(sub.frame, 1);
            assert_eq!(sub.joins_previous, None);
            assert!(sub.waits_on_acquire);
            assert!(sub.signals_fence);
            assert_eq!(sub.present_image_index, 0);
            assert_eq!(sub.commands.draw.vertex_count, 3);
            assert_eq!(sub.commands.draw.instance_count, 1);
            assert!(!sub.commands.draw.indexed);
            assert_eq!(sub.commands.viewport, Dimensions { width: 640, height: 480 });
            assert_eq!(sub.commands.clear_color.blue_milli, 1000);
            assert_eq!(sub.commands.clear_color.red_milli, 0);
        }
        other => panic!("expected a submission, got {:?}", other),
    }
}

#[test]
fn quiet_frames_never_rebuild() {
    let mut mgr = ready_manager(640, 480, 2);
    run_quiet_frame(&mut mgr, 640, 480, 0);
    let before = mgr.status();
    // Second frame: no resize happened, acquisition succeeds.
    let a = mgr.render(Dimensions { width: 640, height: 480 });
    assert_eq!(a, FrameAction::AcquireImage { rebuild_framebuffers: false });
    mgr.apply_acquire(AcquireOutcome::Success { image_index: 1 });
    let after = mgr.status();
    assert_eq!(after.swapchain_generation, before.swapchain_generation);
    assert_eq!(after.framebuffer_count, before.framebuffer_count);
    assert_eq!(after.image_count, before.image_count);
    assert!(!after.resize_pending);
}

#[test]
fn consecutive_submissions_are_ordered() {
    let mut mgr = ready_manager(640, 480, 2);
    let first = run_quiet_frame(&mut mgr, 640, 480, 0);
    let second = run_quiet_frame(&mut mgr, 640, 480, 1);
    let third = run_quiet_frame(&mut mgr, 640, 480, 0);
    assert_eq!(first.frame, 1);
    assert_eq!(first.joins_previous, None);
    assert_eq!(second.frame, 2);
    assert_eq!(second.joins_previous.unwrap().frame, first.frame);
    assert_eq!(third.frame, 3);
    assert_eq!(third.joins_previous.unwrap().frame, second.frame);
}

#[test]
fn resize_rebuilds_to_new_count_and_viewport() {
    let mut mgr = ready_manager(640, 480, 2);
    let first = run_quiet_frame(&mut mgr, 640, 480, 0);
    assert_eq!(first.commands.viewport, Dimensions { width: 640, height: 480 });

    mgr.notify_resize();
    assert!(mgr.status().resize_pending);

    let a = mgr.render(Dimensions { width: 800, height: 600 });
    assert_eq!(a, FrameAction::RecreateSwapchain(Dimensions { width: 800, height: 600 }));
    let a2 = mgr.apply_recreate(RecreateOutcome::Success { image_count: 3 });
    assert_eq!(a2, FrameAction::AcquireImage { rebuild_framebuffers: true });

    let status = mgr.status();
    assert!(!status.resize_pending);
    assert_eq!(status.image_count, 3);
    assert_eq!(status.framebuffer_count, 3);
    assert_eq!(status.swapchain_generation, 1);
    assert_eq!(status.dimensions, Dimensions { width: 800, height: 600 });
    for i in 0..3 {
        let fb = mgr.framebuffer_at(i);
        assert_eq!(fb.image_index, i);
        assert_eq!(fb.swapchain_generation, 1);
    }

    let a3 = mgr.apply_acquire(AcquireOutcome::Success { image_index: 1 });
    match a3 {
        FrameAction::SubmitFrame(sub) => {
            assert_eq!(sub.commands.viewport, Dimensions { width: 800, height: 600 });
            assert_eq!(sub.commands.framebuffer.swapchain_generation, 1);
            assert_eq!(sub.commands.framebuffer.image_index, 1);
            assert_eq!(sub.joins_previous.unwrap().frame, first.frame);
        }
        other => panic!("expected a submission, got {:?}", other),
    }
}

#[test]
fn cache_size_tracks_every_successful_rebuild() {
    let mut mgr = ready_manager(640, 480, 2);
    mgr.render(Dimensions { width: 640, height: 480 });
    mgr.apply_acquire(AcquireOutcome::Success { image_index: 0 });
    let counts = [4usize, 1, 6];
    for (round, count) in counts.iter().enumerate() {
        mgr.notify_resize();
        let w = 100 * (round as u32 + 1);
        mgr.render(Dimensions { width: w, height: w });
        mgr.apply_recreate(RecreateOutcome::Success { image_count: *count });
        let status = mgr.status();
        assert_eq!(status.framebuffer_count, *count);
        assert_eq!(status.framebuffer_count, status.image_count);
        assert_eq!(status.swapchain_generation, round as u64 + 1);
        mgr.apply_acquire(AcquireOutcome::Success { image_index: 0 });
    }
}

#[test]
fn out_of_date_acquire_presents_nothing_and_flags_resize() {
    let mut mgr = ready_manager(640, 480, 2);
    run_quiet_frame(&mut mgr, 640, 480, 0);
    let before = mgr.status();

    let a = mgr.render(Dimensions { width: 640, height: 480 });
    assert_eq!(a, FrameAction::AcquireImage { rebuild_framebuffers: false });
    let a2 = mgr.apply_acquire(AcquireOutcome::Failure(AcquireErrorKind::OutOfDate));
    assert_eq!(a2, FrameAction::AbandonFrame);

    let after = mgr.status();
    // Zero images were presented this frame.
    assert_eq!(after.frames_submitted, before.frames_submitted);
    assert_eq!(after.pending_frame, before.pending_frame);
    // The flag is raised for the next call, which starts with a recreation.
    assert!(after.resize_pending);
    let a3 = mgr.render(Dimensions { width: 640, height: 480 });
    assert_eq!(a3, FrameAction::RecreateSwapchain(Dimensions { width: 640, height: 480 }));
}

#[test]
fn transient_resize_converges_after_unsupported_rounds() {
    let mut mgr = ready_manager(640, 480, 2);
    run_quiet_frame(&mut mgr, 640, 480, 0);
    mgr.notify_resize();

    // The window is being dragged: several recreations in a row fail with
    // unsupported dimensions, each frame abandoned without a fatal action.
    for _ in 0..3 {
        let a = mgr.render(Dimensions { width: 800, height: 600 });
        assert_eq!(a, FrameAction::RecreateSwapchain(Dimensions { width: 800, height: 600 }));
        let a2 = mgr.apply_recreate(
            RecreateOutcome::Failure(SwapchainErrorKind::UnsupportedDimensions),
        );
        assert_eq!(a2, FrameAction::AbandonFrame);
        let status = mgr.status();
        assert!(status.resize_pending);
        assert_eq!(status.swapchain_generation, 0);
        assert_eq!(status.framebuffer_count, 2);
    }

    // The drag ends: the very next call succeeds and reaches a fresh swapchain.
    let a = mgr.render(Dimensions { width: 800, height: 600 });
    assert_eq!(a, FrameAction::RecreateSwapchain(Dimensions { width: 800, height: 600 }));
    let a2 = mgr.apply_recreate(RecreateOutcome::Success { image_count: 2 });
    assert_eq!(a2, FrameAction::AcquireImage { rebuild_framebuffers: true });
    let status = mgr.status();
    assert!(!status.resize_pending);
    assert_eq!(status.swapchain_generation, 1);
    assert_eq!(status.dimensions, Dimensions { width: 800, height: 600 });
    assert_eq!(status.framebuffer_count, 2);
}

#[test]
fn every_other_recreate_error_is_fatal() {
    let kinds = [
        SwapchainErrorKind::OutOfHostMemory,
        SwapchainErrorKind::OutOfDeviceMemory,
        SwapchainErrorKind::DeviceLost,
        SwapchainErrorKind::SurfaceLost,
    ];
    for kind in kinds {
        let mut mgr = ready_manager(640, 480, 2);
        mgr.notify_resize();
        mgr.render(Dimensions { width: 640, height: 480 });
        let a = mgr.apply_recreate(RecreateOutcome::Failure(kind));
        assert_eq!(a, FrameAction::FatalRecreate(kind));
    }
}

#[test]
fn every_other_acquire_error_is_fatal() {
    let kinds = [
        AcquireErrorKind::Timeout,
        AcquireErrorKind::OutOfHostMemory,
        AcquireErrorKind::OutOfDeviceMemory,
        AcquireErrorKind::DeviceLost,
        AcquireErrorKind::SurfaceLost,
    ];
    for kind in kinds {
        let mut mgr = ready_manager(640, 480, 2);
        mgr.render(Dimensions { width: 640, height: 480 });
        let a = mgr.apply_acquire(AcquireOutcome::Failure(kind));
        assert_eq!(a, FrameAction::FatalAcquire(kind));
        // The classification decision is the manager's; termination is the
        // host's. A fatal report does not raise the resize flag.
        assert!(!mgr.status().resize_pending);
    }
}
