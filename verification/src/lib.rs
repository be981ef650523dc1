//! Device side of the virtio-gpu protocol: the wire codec and the device state machine.
//!
//! The codec decodes the guest's commands from their fixed layouts and encodes the device's
//! responses. The state machine keeps the guest's resources and what the scanout and the
//! cursor show, asks the renderer, and says what the display is to do.

pub mod bytes;
pub mod command;
pub mod display;
pub mod guest_memory;
pub mod protocol;
pub mod renderer;
pub mod response;
pub mod virtio_gpu;
pub mod virtio_utils;

pub use command::VirtioGpuCommand;
pub use command::VirtioGpuCommandDecodeError;
pub use command::VirtioGpuCommandResult;
pub use response::VirtioGpuResponse;
pub use response::VirtioGpuResponseResult;
pub use virtio_gpu::VirtioGpu;

pub use rutabaga_gfx::RutabagaError;
pub use rutabaga_gfx::RutabagaFence;
pub use rutabaga_gfx::RutabagaIovec;
