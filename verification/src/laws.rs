use vstd::prelude::*;

use crate::frame::AcquireOutcome;
use crate::frame::FrameAction;
use crate::frame::FramePhase;
use crate::frame::FrameSyncToken;
use crate::frame::RecreateOutcome;
use crate::frame::SubmissionDesc;
use crate::geometry::Dimensions;
use crate::manager::ReadyModel;
use crate::manager::full_cache;
use crate::manager::ready_wf;
use crate::manager::spec_apply_acquire;
use crate::manager::spec_apply_recreate;
use crate::manager::spec_render;
use crate::swapchain::SwapchainErrorKind;

verus! {

/// However the manager got here, a populated framebuffer cache holds exactly
/// one framebuffer per current swapchain image: every successful rebuild, and
/// every frame that follows one, leaves the cache size equal to the swapchain
/// image count.
pub proof fn lemma_cache_size_matches_image_count(m: ReadyModel)
    requires
        ready_wf(m),
        m.framebuffers.len() != 0,
    ensures
        m.framebuffers.len() == m.swapchain.image_count,
{
}

/// A successful recreation rebuilds the cache to exactly the new swapchain's
/// image count, index-aligned with its images.
pub proof fn lemma_recreate_rebuilds_cache(m: ReadyModel, image_count: usize)
    requires
        ready_wf(m),
        m.phase is AwaitRecreate,
    ensures
        ({
            let m2 = spec_apply_recreate(m, RecreateOutcome::Success { image_count }).0;
            &&& m2.framebuffers.len() == image_count
            &&& m2.framebuffers.len() == m2.swapchain.image_count
            &&& m2.framebuffers == full_cache(m2.swapchain)
        }),
{
}

/// Idempotence of a quiet frame: when no resize is pending, the cache is
/// populated, and acquisition succeeds, a whole `render` round neither
/// replaces the swapchain nor rebuilds the framebuffer cache.
pub proof fn lemma_quiet_frame_rebuilds_nothing(m: ReadyModel, dims: Dimensions, image_index: usize)
    requires
        ready_wf(m),
        m.phase is Idle,
        !m.resize_pending,
        m.framebuffers.len() != 0,
        (image_index as int) < m.swapchain.image_count,
    ensures
        ({
            let (m1, a1) = spec_render(m, dims);
            let (m2, a2) = spec_apply_acquire(
                m1,
                AcquireOutcome::Success { image_index },
            );
            &&& a1 == (FrameAction::AcquireImage { rebuild_framebuffers: false })
            &&& m1.swapchain == m.swapchain
            &&& m1.framebuffers == m.framebuffers
            &&& m2.swapchain == m.swapchain
            &&& m2.framebuffers == m.framebuffers
            &&& m2.resize_pending == m.resize_pending
        }),
{
}

/// Ordering of consecutive frames: a successful submission is sequenced after
/// the manager's pending token — the previous frame's completion handle — and
/// carries the next frame number; its own token becomes the pending one.
pub proof fn lemma_submission_waits_on_previous(m: ReadyModel, image_index: usize)
    requires
        ready_wf(m),
        m.phase is AwaitAcquire,
        m.frames_submitted < u64::MAX,
        (image_index as int) < m.swapchain.image_count,
    ensures
        ({
            let (m2, a) = spec_apply_acquire(m, AcquireOutcome::Success { image_index });
            &&& a matches FrameAction::SubmitFrame(sub) && {
                &&& sub.joins_previous == m.pending_token
                &&& sub.frame == m.frames_submitted + 1
                &&& m2.pending_token == Some(FrameSyncToken { frame: sub.frame })
            }
        }),
{
}

/// Two consecutive successful frames, with no resize between them: the second
/// frame's dependency chain joins exactly the token the first frame's
/// submission produced, and its frame number is the successor — its work
/// cannot reach the queue out of order.
pub proof fn lemma_consecutive_frames_ordered(
    m: ReadyModel,
    first_image: usize,
    dims: Dimensions,
    second_image: usize,
)
    requires
        ready_wf(m),
        m.phase is AwaitAcquire,
        !m.resize_pending,
        m.frames_submitted < u64::MAX - 1,
        (first_image as int) < m.swapchain.image_count,
        (second_image as int) < m.swapchain.image_count,
    ensures
        ({
            let (m1, a1) = spec_apply_acquire(m, AcquireOutcome::Success { image_index: first_image });
            let (m2, a2) = spec_render(m1, dims);
            let (m3, a3) = spec_apply_acquire(m2, AcquireOutcome::Success { image_index: second_image });
            &&& a1 matches FrameAction::SubmitFrame(first_sub) && a3 matches FrameAction::SubmitFrame(
                second_sub,
            ) && {
                &&& second_sub.joins_previous == Some(FrameSyncToken { frame: first_sub.frame })
                &&& second_sub.frame == first_sub.frame + 1
            }
        }),
{
}

/// One round of an interactively resizing window: `render` requests the
/// recreation, the surface reports its extent as momentarily unsupported, the
/// frame is abandoned. The manager is left exactly as it was — resize flag
/// still raised, swapchain and cache untouched — ready to retry.
pub proof fn lemma_unsupported_round_is_harmless(m: ReadyModel, dims: Dimensions)
    requires
        ready_wf(m),
        m.phase is Idle,
        m.resize_pending,
    ensures
        ({
            let (m1, a1) = spec_render(m, dims);
            let (m2, a2) = spec_apply_recreate(
                m1,
                RecreateOutcome::Failure(SwapchainErrorKind::UnsupportedDimensions),
            );
            &&& a1 == FrameAction::RecreateSwapchain(dims)
            &&& a2 == FrameAction::AbandonFrame
            &&& m2 == m
        }),
{
    let (m1, a1) = spec_render(m, dims);
    let (m2, a2) = spec_apply_recreate(
        m1,
        RecreateOutcome::Failure(SwapchainErrorKind::UnsupportedDimensions),
    );
    assert(m2 =~= m);
}

/// Any number of unsupported-dimensions rounds, starting from a resize-pending
/// manager at rest.
pub open spec fn run_unsupported_rounds(m: ReadyModel, dims: Dimensions, rounds: nat) -> ReadyModel
    decreases rounds,
{
    if rounds == 0 {
        m
    } else {
        let prev = run_unsupported_rounds(m, dims, (rounds - 1) as nat);
        spec_apply_recreate(
            spec_render(prev, dims).0,
            RecreateOutcome::Failure(SwapchainErrorKind::UnsupportedDimensions),
        ).0
    }
}

/// Transient-resize convergence: after any synthetic sequence of
/// unsupported-dimensions responses, one supported response suffices — the
/// very next call's recreation succeeds, yielding a well-formed manager with a
/// fresh swapchain at the requested size, a fully rebuilt cache, the resize
/// flag cleared, and no fatal action anywhere along the way.
pub proof fn lemma_transient_resize_converges(
    m: ReadyModel,
    dims: Dimensions,
    rounds: nat,
    image_count: usize,
)
    requires
        ready_wf(m),
        m.phase is Idle,
        m.resize_pending,
        m.swapchain.generation < u64::MAX,
    ensures
        run_unsupported_rounds(m, dims, rounds) == m,
        ({
            let (m1, a1) = spec_render(run_unsupported_rounds(m, dims, rounds), dims);
            let (m2, a2) = spec_apply_recreate(m1, RecreateOutcome::Success { image_count });
            &&& a1 == FrameAction::RecreateSwapchain(dims)
            &&& a2 == (FrameAction::AcquireImage { rebuild_framebuffers: true })
            &&& ready_wf(m2)
            &&& !m2.resize_pending
            &&& m2.swapchain.generation == m.swapchain.generation + 1
            &&& m2.swapchain.dimensions == dims
            &&& m2.swapchain.image_count == image_count
            &&& m2.framebuffers == full_cache(m2.swapchain)
        }),
    decreases rounds,
{
    if rounds == 0 {
    } else {
        lemma_transient_resize_converges(m, dims, (rounds - 1) as nat, image_count);
        lemma_unsupported_round_is_harmless(m, dims);
    }
}

} // verus!
