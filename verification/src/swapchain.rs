use vstd::prelude::*;

use crate::geometry::Dimensions;

verus! {

/// Why startup could not reach the Ready state. Every one of these is fatal:
/// the host prints the cause and terminates.
#[derive(Clone, Copy, Debug, PartialEq, Eq)]
pub enum StartupError {
    /// No enumerated adapter has a queue family that can draw and present.
    NoSuitableAdapter,
    /// The surface reports no supported composite-alpha mode.
    NoCompositeAlpha,
    /// The surface reports no supported format.
    NoSurfaceFormat,
}

/// Presentation modes a surface may offer; this renderer always asks for FIFO.
#[derive(Clone, Copy, Debug, PartialEq, Eq)]
pub enum PresentModeKind {
    Immediate,
    Mailbox,
    Fifo,
    FifoRelaxed,
}

/// What the surface reports about itself, queried once at startup: the least
/// number of swapchain images it accepts and its supported formats and
/// composite-alpha modes, each in the surface's own preference order.
#[derive(Debug, PartialEq, Eq)]
pub struct SurfaceCapabilities {
    pub min_image_count: u32,
    pub formats: Vec<u32>,
    pub composite_alphas: Vec<u32>,
}

/// The parameters a swapchain is created with.
#[derive(Clone, Copy, Debug, PartialEq, Eq)]
pub struct SwapchainConfig {
    pub format: u32,
    pub composite_alpha: u32,
    pub requested_image_count: u32,
    pub present_mode: PresentModeKind,
    pub clipped: bool,
}

/// The configuration startup derives from the surface capabilities: first
/// supported format, first supported composite-alpha mode, the surface's
/// minimum image count, FIFO presentation, clipped.
pub open spec fn config_of(caps: SurfaceCapabilities) -> SwapchainConfig {
    SwapchainConfig {
        format: caps.formats@[0],
        composite_alpha: caps.composite_alphas@[0],
        requested_image_count: caps.min_image_count,
        present_mode: PresentModeKind::Fifo,
        clipped: true,
    }
}

/// Derive the swapchain configuration from the surface capabilities, or say
/// which capability is missing. The missing capability is a fatal condition.
pub fn choose_surface_config(caps: &SurfaceCapabilities) -> (r: Result<
    SwapchainConfig,
    StartupError,
>)
    ensures
        caps.composite_alphas@.len() == 0 ==> r == Err::<SwapchainConfig, StartupError>(
            StartupError::NoCompositeAlpha,
        ),
        caps.composite_alphas@.len() > 0 && caps.formats@.len() == 0 ==> r == Err::<
            SwapchainConfig,
            StartupError,
        >(StartupError::NoSurfaceFormat),
        caps.composite_alphas@.len() > 0 && caps.formats@.len() > 0 ==> r == Ok::<
            SwapchainConfig,
            StartupError,
        >(config_of(*caps)),
{
    if caps.composite_alphas.len() == 0 {
        return Err(StartupError::NoCompositeAlpha);
    }
    if caps.formats.len() == 0 {
        return Err(StartupError::NoSurfaceFormat);
    }
    let format = caps.formats[0];
    let composite_alpha = caps.composite_alphas[0];
    Ok(
        SwapchainConfig {
            format,
            composite_alpha,
            requested_image_count: caps.min_image_count,
            present_mode: PresentModeKind::Fifo,
            clipped: true,
        },
    )
}

/// The live swapchain, as the manager sees it: which generation of the handle
/// this is (bumped on every recreation), how many presentable images it holds
/// (indices `0 .. image_count`), the pixel size it was built for, and the
/// configuration it was created with.
#[derive(Clone, Copy, Debug, PartialEq, Eq)]
pub struct SwapchainState {
    pub generation: u64,
    pub image_count: usize,
    pub dimensions: Dimensions,
    pub config: SwapchainConfig,
}

/// The swapchain startup creates.
pub open spec fn initial_swapchain(
    config: SwapchainConfig,
    dims: Dimensions,
    image_count: usize,
) -> SwapchainState {
    SwapchainState { generation: 0, image_count, dimensions: dims, config }
}

/// The swapchain that replaces `old_sc` after a successful recreation at the
/// given size: a fresh handle generation with the same configuration.
pub open spec fn recreated_swapchain(
    old_sc: SwapchainState,
    dims: Dimensions,
    image_count: usize,
) -> SwapchainState {
    SwapchainState {
        generation: (old_sc.generation + 1) as u64,
        image_count,
        dimensions: dims,
        config: old_sc.config,
    }
}

/// How a swapchain recreation can fail, mirroring the error the graphics API
/// reports. Only `UnsupportedDimensions` is transient; the rest are fatal.
#[derive(Clone, Copy, Debug, PartialEq, Eq)]
pub enum SwapchainErrorKind {
    UnsupportedDimensions,
    OutOfHostMemory,
    OutOfDeviceMemory,
    DeviceLost,
    SurfaceLost,
}

/// How an image acquisition can fail. Only `OutOfDate` is transient; the rest
/// are fatal.
#[derive(Clone, Copy, Debug, PartialEq, Eq)]
pub enum AcquireErrorKind {
    OutOfDate,
    Timeout,
    OutOfHostMemory,
    OutOfDeviceMemory,
    DeviceLost,
    SurfaceLost,
}

/// A recreation failure the next frame may repair: the window is mid-resize
/// and the requested extent is momentarily unsupported.
pub open spec fn recreate_is_transient(k: SwapchainErrorKind) -> bool {
    k is UnsupportedDimensions
}

/// An acquisition failure the next frame may repair: the swapchain no longer
/// matches the surface and must be rebuilt.
pub open spec fn acquire_is_transient(k: AcquireErrorKind) -> bool {
    k is OutOfDate
}

} // verus!
