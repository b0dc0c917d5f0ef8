use vstd::prelude::*;

use crate::errors::{GraphicsError, MediaError};

verus! {

/// Window flag: the window is shown.
pub const WINDOW_SHOWN: u32 = 0x4;

/// Window flag: the window can be drawn on with Vulkan.
pub const WINDOW_VULKAN: u32 = 0x10000000;

/// Window flags used without a GPU adapter.
pub const WINDOW_FLAGS: u32 = WINDOW_SHOWN;

/// Window flags used with the Vulkan adapter.
pub const VULKAN_WINDOW_FLAGS: u32 = 0x10000004;

/// A media (window and input) layer that drives a [`GpuAdapter`].
pub trait MediaInterface where Self: Sized {
    /// Initialize the graphical interface with the selected [`GpuAdapter`].
    fn init(app_name: &str, engine_name: &str) -> Result<Self, MediaError>;

    fn is_running(&self) -> bool;

    fn process_io(&mut self);

    fn draw(&mut self);

    fn close(self);
}

/// Interface for Graphic Processing Unit.
pub trait GpuAdapter {
    fn close(self);
}

/// A graphics layer, created on its own.
pub trait GraphicsInterface where Self: Sized {
    /// Initialize the graphical interface.
    fn init() -> Result<Self, GraphicsError>;

    fn is_running(&self) -> bool;

    fn process_io(&mut self);

    fn draw(&mut self);

    fn close(self);
}

/// The adapter used when no GPU backend is selected: it holds nothing and
/// releases nothing.
#[derive(Debug, PartialEq, Eq, Structural)]
pub struct DefaultGpu;

impl GpuAdapter for DefaultGpu {
    fn close(self) {
    }
}

/// Sets up the GPU side of a window when no GPU backend is selected; this
/// never fails. `window` is the handle of the window.
pub fn init_gpu(app_name: &str, engine_name: &str, window: u64) -> (r: Result<DefaultGpu, MediaError>)
    ensures
        r matches Ok(gpu) && gpu == DefaultGpu,
{
    Ok(DefaultGpu)
}

} // verus!
