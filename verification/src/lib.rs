//! Hexil is a pixel-art editor whose renderer drives a low-level graphics
//! API. This library holds the renderer's decision logic: device and queue
//! selection, the swapchain lifecycle state machine, pipeline and command
//! buffer planning, canvas buffer transfers, and the frame loop. The
//! graphics driver and the window system are outside collaborators: the
//! application shell performs their calls and feeds the results back in as
//! plain values.

pub mod canvas;
pub mod device_select;
pub mod error;
pub mod frame;
pub mod instance;
pub mod pipeline_plan;
pub mod project;
pub mod queue_select;
pub mod swapchain;
pub mod window;

pub use error::RendererError;
pub use error::WindowingError;
pub use frame::RenderCommand;
pub use project::CanvasSize;
pub use project::GridType;
pub use project::PaletteIndex;
pub use window::WindowCommand;
