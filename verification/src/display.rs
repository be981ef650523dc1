//! The display backend, as the device sees it.
//!
//! The device does not call the display: it says what the display is to do next, and takes
//! what the display answered. Whoever owns the display performs each action and hands the
//! event back, until the device has its response.

use vstd::prelude::*;
use crate::response::VirtioGpuResponseResult;

verus! {

/// One thing that the display is asked to do for the device.
#[derive(Debug, Clone, Copy, PartialEq, Eq)]
pub enum DisplayAction {
    /// Release the surface. Answered by `DisplayEvent::Done`.
    ReleaseSurface { surface_id: u32 },
    /// Create a surface of this size, on the parent surface where there is one. Answered by
    /// `DisplayEvent::SurfaceCreated` or `DisplayEvent::SurfaceFailed`.
    CreateSurface { parent_surface_id: Option<u32>, width: u32, height: u32 },
    /// Move the surface to `(x, y)`. Answered by `DisplayEvent::Done`.
    SetPosition { surface_id: u32, x: u32, y: u32 },
    /// Commit the surface's state. Answered by `DisplayEvent::Done`.
    Commit { surface_id: u32 },
    /// Tell whether the surface's next buffer is still in use. Answered by
    /// `DisplayEvent::BufferInUse`.
    NextBufferInUse { surface_id: u32 },
    /// Hand over the surface's whole framebuffer. Answered by `DisplayEvent::Framebuffer` or
    /// `DisplayEvent::NoFramebuffer`.
    Framebuffer { surface_id: u32 },
    /// Hand over a region of the surface's framebuffer. Answered by
    /// `DisplayEvent::Framebuffer` or `DisplayEvent::NoFramebuffer`.
    FramebufferRegion { surface_id: u32, x: u32, y: u32, width: u32, height: u32 },
    /// Show the surface's next buffer. Answered by `DisplayEvent::Done`.
    Flip { surface_id: u32 },
    /// Show an imported buffer on the surface. Answered by `DisplayEvent::Done`.
    FlipTo { surface_id: u32, import_id: u32 },
}

/// What the display answered to an action.
#[derive(Debug, PartialEq, Eq)]
pub enum DisplayEvent {
    /// The action was performed; it has no answer.
    Done,
    /// The surface was created, under this id.
    SurfaceCreated(u32),
    /// The surface could not be created; the backend's message.
    SurfaceFailed(String),
    /// Whether the surface's next buffer is still in use.
    BufferInUse(bool),
    /// The framebuffer is handed over beside this event; its rows are `stride` bytes apart.
    Framebuffer { stride: u32 },
    /// The surface has no framebuffer.
    NoFramebuffer,
}

/// What is left of a command while the display performs an action.
#[derive(Debug, Clone, Copy, PartialEq, Eq)]
pub enum Continuation {
    /// Nothing is left: the response is `OkNoData`.
    Finish,
    /// The cursor was moved; the scanout's surface is to be committed.
    Commit { surface_id: u32 },
    /// A surface was released; the surface `surface_id` is to be released after it.
    Release { surface_id: u32 },
    /// A surface that nothing can show on was released: the response is
    /// `ErrInvalidResourceId`.
    Refuse,
    /// The scanout's surface is being created; the scanout is to show the resource on it.
    ScanoutSurface { resource_id: u32 },
    /// The cursor's surface is being created; the cursor is to show the resource on it, at
    /// `(x, y)`.
    CursorSurface { resource_id: u32, x: u32, y: u32, width: u32, height: u32 },
    /// The cursor is being moved; its pixels are to be shown.
    CursorPresent { resource_id: u32, surface_id: u32, width: u32, height: u32 },
    /// The cursor's framebuffer was asked for; the pixels are to be copied into it.
    CursorCopy { resource_id: u32, surface_id: u32, width: u32, height: u32 },
    /// The surface's buffer state was asked for; unless the buffer is in use, the resource is
    /// to be copied to the surface, and after it to the surface `next`.
    FlushBuffer { resource_id: u32, surface_id: u32, next: Option<u32> },
    /// The surface's framebuffer was asked for; the resource is to be copied into it.
    FlushCopy { resource_id: u32, surface_id: u32, next: Option<u32> },
    /// The surface shows the resource; the surface `next` is still to be flushed to.
    FlushNext { resource_id: u32, next: Option<u32> },
}

impl Continuation {
    /// A bound on the display actions that are still to come once the pending one is answered.
    pub open spec fn actions_left(self) -> nat {
        match self {
            Continuation::Finish => 0,
            Continuation::Commit { .. } => 1,
            Continuation::Release { .. } => 1,
            Continuation::Refuse => 0,
            Continuation::ScanoutSurface { .. } => 1,
            Continuation::CursorSurface { .. } => 3,
            Continuation::CursorPresent { .. } => 2,
            Continuation::CursorCopy { .. } => 1,
            Continuation::FlushBuffer { next, .. } => if next is Some {
                5
            } else {
                2
            },
            Continuation::FlushCopy { next, .. } => if next is Some {
                4
            } else {
                1
            },
            Continuation::FlushNext { next, .. } => if next is Some {
                3
            } else {
                0
            },
        }
    }
}

/// Where a command stands: answered, or waiting for the display.
#[derive(Debug)]
pub enum Step {
    /// The command is answered.
    Done(VirtioGpuResponseResult),
    /// The display is to perform `action`; its answer and `then` go to `VirtioGpu::resume`.
    Display { action: DisplayAction, then: Continuation },
}

impl Step {
    /// A bound on the display actions that the command still asks for.
    pub open spec fn actions_left(self) -> nat {
        match self {
            Step::Done(_) => 0,
            Step::Display { then, .. } => then.actions_left() + 1,
        }
    }
}

} // verus!
