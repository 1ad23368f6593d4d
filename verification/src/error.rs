//! Error types for the renderer and the windowing side.
//!
//! The renderer reports every failure through one tagged union. Variants
//! that stand for a graphics-API failure carry no payload here: the
//! application shell owns the API error values and maps each of them onto
//! its variant before handing control back to the library.

use vstd::prelude::*;

verus! {

/// The unified error type for all renderer functions.
#[derive(Debug, Clone, Copy, PartialEq, Eq, Structural)]
pub enum RendererError {
    /// The graphics loader could not be initialised.
    VkLoadErr,
    /// A plain graphics-API call failed.
    VkErr,
    /// A validated graphics-API call failed.
    ValidVkErr,
    /// Allocating a buffer failed.
    ValidBufErr,
    /// The native window handle could not be read.
    WindowHandleError,
    /// Device enumeration found no device compatible with the surface.
    NoPhysicalDevices,
    /// The command channel timed out.
    ChannelError,
    /// No queue family of the selected device supports graphics work.
    NoGraphicsQueues,
    /// No queue family of the selected device supports transfer work.
    NoTransferQueues,
    /// The graphics API rejected a call during validation.
    VkValidationErr,
    /// Executing a recorded command buffer failed.
    VkCommandBufExecErr,
    /// A render pass was requested with no subpasses.
    NoSubpassesSpecifiedForRenderpass,
    /// A shader module holds no entry point of the expected name.
    ShaderSourceNotFound,
    /// Deriving a pipeline layout from the shader stages failed.
    PipelineCreateInfoErr,
    /// The command channel's sending side is gone.
    RecvErr,
}

/// The unified error type for the windowing system.
#[derive(Debug, Clone, Copy, PartialEq, Eq, Structural)]
pub enum WindowingError {
    /// The OS event loop failed.
    ELoopErr,
    /// Creating the window failed.
    WinErr,
}

} // verus!
