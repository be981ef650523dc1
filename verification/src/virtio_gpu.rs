//! The device state machine: the resources that the guest created, what the scanout and the
//! cursor show, and what each command does to them.
//!
//! The renderer keeps its own tables of resources and contexts. The device's state names the
//! ids that they hold, and each command says what it does to them; the device's records and
//! the renderer's resources stay in step. What else the renderer answers is its own to decide,
//! so a command that asks it is verified for every answer. The display is not called from
//! here: a command that needs it returns a `Step`, and goes on in `VirtioGpu::resume` with
//! what the display answered.

use vstd::prelude::*;
use std::collections::BTreeMap;
use rutabaga_gfx::Rutabaga;
use rutabaga_gfx::RutabagaError;
use rutabaga_gfx::RutabagaFence;
use rutabaga_gfx::RutabagaHandler;
use rutabaga_gfx::RutabagaIovec;
use vm_memory::GuestAddress;
use vm_memory::GuestMemoryMmap;
use vm_memory::VolatileSlice;
use crate::bytes::be32;
use crate::bytes::zeros;
use crate::display::Continuation;
use crate::display::DisplayAction;
use crate::display::DisplayEvent;
use crate::display::Step;
use crate::guest_memory::host_iovec;
use crate::guest_memory::iovec_len;
use crate::guest_memory::span_is_mapped;
use crate::guest_memory::span_mapped;
use crate::protocol::virtio_gpu_cmd_get_edid;
use crate::protocol::virtio_gpu_cmd_submit;
use crate::protocol::virtio_gpu_ctrl_hdr;
use crate::protocol::virtio_gpu_ctx_create;
use crate::protocol::virtio_gpu_ctx_destroy;
use crate::protocol::virtio_gpu_ctx_resource;
use crate::protocol::virtio_gpu_get_capset;
use crate::protocol::virtio_gpu_get_capset_info;
use crate::protocol::virtio_gpu_resource_assign_uuid;
use crate::protocol::virtio_gpu_resource_attach_backing;
use crate::protocol::virtio_gpu_resource_create_2d;
use crate::protocol::virtio_gpu_resource_create_3d;
use crate::protocol::virtio_gpu_resource_detach_backing;
use crate::protocol::virtio_gpu_resource_flush;
use crate::protocol::virtio_gpu_resource_unref;
use crate::protocol::virtio_gpu_set_scanout;
use crate::protocol::virtio_gpu_transfer_host_3d;
use crate::protocol::virtio_gpu_transfer_to_host_2d;
use crate::protocol::virtio_gpu_update_cursor;
use crate::renderer::build_renderer;
use crate::renderer::renderer_contexts;
use crate::renderer::renderer_create_context;
use crate::renderer::renderer_create_fence;
use crate::renderer::renderer_resource_create_3d;
use crate::renderer::renderer_resources;
use crate::renderer::renderer_submit_command;
use crate::renderer::renderer_transfer_read;
use crate::renderer::renderer_transfer_write;
use crate::renderer::Fence;
use crate::renderer::ResourceParams;
use crate::renderer::TransferBox;
use crate::renderer::PIPE_BIND_RENDER_TARGET;
use crate::renderer::PIPE_TEXTURE_2D;
use crate::response::VirtioGpuResponse;
use crate::response::VirtioGpuResponseResult;

verus! {

/// Which renderer the device runs on.
#[derive(Copy, Clone, Debug, PartialEq)]
pub enum GpuMode {
    Mode2D,
    Mode3D,
}

/// How the device is set up.
#[derive(Copy, Clone, Debug)]
pub struct GpuParameter {
    pub display_width: u32,
    pub display_height: u32,
    pub renderer_use_egl: bool,
    pub renderer_use_gles: bool,
    pub renderer_use_glx: bool,
    pub renderer_use_surfaceless: bool,
    pub mode: GpuMode,
}

pub const DEFAULT_DISPLAY_WIDTH: u32 = 1920;

pub const DEFAULT_DISPLAY_HEIGHT: u32 = 1080;

impl Default for GpuParameter {
    /// A display of the default size on the 3D renderer, with all of the renderer's flags set.
    fn default() -> (p: Self)
        ensures
            p == (GpuParameter {
                display_width: DEFAULT_DISPLAY_WIDTH,
                display_height: DEFAULT_DISPLAY_HEIGHT,
                renderer_use_egl: true,
                renderer_use_gles: true,
                renderer_use_glx: true,
                renderer_use_surfaceless: true,
                mode: GpuMode::Mode3D,
            }),
    {
        GpuParameter {
            display_width: DEFAULT_DISPLAY_WIDTH,
            display_height: DEFAULT_DISPLAY_HEIGHT,
            renderer_use_egl: true,
            renderer_use_gles: true,
            renderer_use_glx: true,
            renderer_use_surfaceless: true,
            mode: GpuMode::Mode3D,
        }
    }
}

/// The EDID block that the device shows for its display.
pub const EDID_BLOCK: [u8; 256] = [
    0x00, 0xff, 0xff, 0xff, 0xff, 0xff, 0xff, 0x00, 0x10, 0xac, 0xc0, 0xa0, 0x4c, 0x55, 0x36, 0x30,
    0x2d, 0x18, 0x01, 0x03, 0x80, 0x35, 0x1e, 0x78, 0xea, 0xe2, 0x45, 0xa8, 0x55, 0x4d, 0xa3, 0x26,
    0x0b, 0x50, 0x54, 0xa5, 0x4b, 0x00, 0x71, 0x4f, 0x81, 0x80, 0xa9, 0xc0, 0xa9, 0x40, 0xd1, 0xc0,
    0xe1, 0x00, 0x01, 0x01, 0x01, 0x01, 0xa3, 0x66, 0x00, 0xa0, 0xf0, 0x70, 0x1f, 0x80, 0x30, 0x20,
    0x35, 0x00, 0x0f, 0x28, 0x21, 0x00, 0x00, 0x1a, 0x00, 0x00, 0x00, 0xff, 0x00, 0x50, 0x32, 0x50,
    0x43, 0x32, 0x34, 0x42, 0x34, 0x30, 0x36, 0x55, 0x4c, 0x0a, 0x00, 0x00, 0x00, 0xfc, 0x00, 0x44,
    0x45, 0x4c, 0x4c, 0x20, 0x50, 0x32, 0x34, 0x31, 0x35, 0x51, 0x0a, 0x20, 0x00, 0x00, 0x00, 0xfd,
    0x00, 0x1d, 0x4c, 0x1e, 0x8c, 0x1e, 0x00, 0x0a, 0x20, 0x20, 0x20, 0x20, 0x20, 0x20, 0x01, 0x96,
    0x02, 0x03, 0x2a, 0xf1, 0x53, 0x90, 0x05, 0x04, 0x02, 0x07, 0x16, 0x01, 0x14, 0x1f, 0x12, 0x13,
    0x27, 0x20, 0x21, 0x22, 0x03, 0x06, 0x11, 0x15, 0x23, 0x09, 0x07, 0x07, 0x6d, 0x03, 0x0c, 0x00,
    0x10, 0x00, 0x30, 0x3c, 0x20, 0x00, 0x60, 0x03, 0x02, 0x01, 0x02, 0x3a, 0x80, 0x18, 0x71, 0x38,
    0x2d, 0x40, 0x58, 0x2c, 0x25, 0x00, 0x0f, 0x28, 0x21, 0x00, 0x00, 0x1f, 0x01, 0x1d, 0x80, 0x18,
    0x71, 0x1c, 0x16, 0x20, 0x58, 0x2c, 0x25, 0x00, 0x0f, 0x28, 0x21, 0x00, 0x00, 0x9e, 0x04, 0x74,
    0x00, 0x30, 0xf2, 0x70, 0x5a, 0x80, 0xb0, 0x58, 0x8a, 0x00, 0x0f, 0x28, 0x21, 0x00, 0x00, 0x1e,
    0x56, 0x5e, 0x00, 0xa0, 0xa0, 0xa0, 0x29, 0x50, 0x30, 0x20, 0x35, 0x00, 0x0f, 0x28, 0x21, 0x00,
    0x00, 0x1a, 0x00, 0x00, 0x00, 0x00, 0x00, 0x00, 0x00, 0x00, 0x00, 0x00, 0x00, 0x00, 0x00, 0xf9,
];

/// A resource the guest created, as the device records it.
pub struct VirtioGpuResource {
    resource_id: u32,
    width: u32,
    height: u32,
    size: u64,
}

/// What a resource's record holds.
pub struct ResourceView {
    pub resource_id: u32,
    pub width: u32,
    pub height: u32,
    pub size: u64,
}

impl View for VirtioGpuResource {
    type V = ResourceView;

    closed spec fn view(&self) -> ResourceView {
        ResourceView {
            resource_id: self.resource_id,
            width: self.width,
            height: self.height,
            size: self.size,
        }
    }
}

impl VirtioGpuResource {
    /// Creates a new resource record with the given metadata. Width and height are used by the
    /// display, while size is useful for hypervisor mapping.
    pub fn new(resource_id: u32, width: u32, height: u32, size: u64) -> (r: VirtioGpuResource)
        ensures
            r@ == (ResourceView { resource_id, width, height, size }),
    {
        VirtioGpuResource { resource_id, width, height, size }
    }

    /// Returns the dimensions of the resource.
    pub fn dimensions(&self) -> (d: (u32, u32))
        ensures
            d == (self@.width, self@.height),
    {
        (self.width, self.height)
    }
}

/// The device's state: its own, and the ids that the renderer's two tables hold. What else the
/// renderer keeps is not part of it.
pub struct DeviceState {
    pub display_width: u32,
    pub display_height: u32,
    /// The resource that the scanout shows.
    pub scanout_resource_id: Option<u32>,
    /// The surface that the scanout shows on.
    pub scanout_surface_id: Option<u32>,
    /// The resource that the cursor shows.
    pub cursor_resource_id: Option<u32>,
    /// The surface that the cursor shows on.
    pub cursor_surface_id: Option<u32>,
    /// The resources that the guest created, by their ids.
    pub resources: Map<u32, ResourceView>,
    /// The ids of the resources that the renderer holds.
    pub renderer_resources: Set<u32>,
    /// The ids of the contexts that the renderer holds.
    pub renderer_contexts: Set<u32>,
}

impl DeviceState {
    /// The state of a new device: nothing created, nothing shown, and a renderer that holds
    /// nothing.
    pub open spec fn initial(display_width: u32, display_height: u32) -> DeviceState {
        DeviceState {
            display_width,
            display_height,
            scanout_resource_id: None,
            scanout_surface_id: None,
            cursor_resource_id: None,
            cursor_surface_id: None,
            resources: Map::empty(),
            renderer_resources: Set::empty(),
            renderer_contexts: Set::empty(),
        }
    }

    /// Whether the device's records and the renderer's table of resources are in step: the
    /// device has a record of exactly the resources that the renderer holds.
    pub open spec fn in_step(self) -> bool {
        self.resources.dom() == self.renderer_resources
    }

    /// The state with a created resource: held by the renderer, and on record.
    pub open spec fn with_resource(self, resource_id: u32, width: u32, height: u32) -> DeviceState {
        DeviceState {
            resources: self.resources.insert(
                resource_id,
                ResourceView { resource_id, width, height, size: 0 },
            ),
            renderer_resources: self.renderer_resources.insert(resource_id),
            ..self
        }
    }

    /// Whether each of the two slots is in one of its two states: unbound, without a resource
    /// and without a surface, or bound, with both. It holds of every state of a device.
    pub open spec fn two_state(self) -> bool {
        &&& self.scanout_resource_id is Some <==> self.scanout_surface_id is Some
        &&& self.cursor_resource_id is Some <==> self.cursor_surface_id is Some
        &&& self.scanout_resource_id != Some(0u32)
        &&& self.cursor_resource_id != Some(0u32)
    }

    /// The state without the resource `resource_id`: neither held by the renderer nor on
    /// record, and each slot that showed it unbound.
    pub open spec fn without_resource(self, resource_id: u32) -> DeviceState {
        let scanout_shows = self.scanout_resource_id == Some(resource_id);
        let cursor_shows = self.cursor_resource_id == Some(resource_id);
        DeviceState {
            resources: self.resources.remove(resource_id),
            renderer_resources: self.renderer_resources.remove(resource_id),
            scanout_resource_id: if scanout_shows {
                None
            } else {
                self.scanout_resource_id
            },
            scanout_surface_id: if scanout_shows {
                None
            } else {
                self.scanout_surface_id
            },
            cursor_resource_id: if cursor_shows {
                None
            } else {
                self.cursor_resource_id
            },
            cursor_surface_id: if cursor_shows {
                None
            } else {
                self.cursor_surface_id
            },
            ..self
        }
    }

    /// The state after an unref that found no record of the resource: the renderer was asked
    /// all the same, and holds the resource no more where it released it.
    pub open spec fn without_renderer_resource(self, resource_id: u32) -> DeviceState {
        DeviceState { renderer_resources: self.renderer_resources.remove(resource_id), ..self }
    }

    /// The state with the context `ctx_id` held by the renderer.
    pub open spec fn with_context(self, ctx_id: u32) -> DeviceState {
        DeviceState { renderer_contexts: self.renderer_contexts.insert(ctx_id), ..self }
    }

    /// The state without the context `ctx_id`.
    pub open spec fn without_context(self, ctx_id: u32) -> DeviceState {
        DeviceState { renderer_contexts: self.renderer_contexts.remove(ctx_id), ..self }
    }

    /// Creating a resource and releasing one keep the records and the renderer in step, and a
    /// new device is in step.
    pub proof fn lemma_in_step_kept(self, resource_id: u32, width: u32, height: u32)
        requires
            self.in_step(),
        ensures
            self.with_resource(resource_id, width, height).in_step(),
            self.without_resource(resource_id).in_step(),
            Self::initial(width, height).in_step(),
    {
        assert(self.with_resource(resource_id, width, height).resources.dom()
            =~= self.renderer_resources.insert(resource_id));
        assert(self.without_resource(resource_id).resources.dom()
            =~= self.renderer_resources.remove(resource_id));
        assert(Self::initial(width, height).resources.dom() =~= Set::<u32>::empty());
    }

    /// The state as a set-scanout command leaves it at once: the id 0 unbinds the scanout; a
    /// resource that exists takes the place of the one that a bound scanout shows, on the
    /// surface that the scanout has; nothing else changes the state before the display has
    /// answered, so a resource that does not exist changes nothing, and an unbound scanout
    /// stays unbound until it has its surface.
    pub open spec fn set_scanout(self, resource_id: u32) -> DeviceState {
        if resource_id == 0 {
            DeviceState { scanout_resource_id: None, scanout_surface_id: None, ..self }
        } else if self.resources.contains_key(resource_id) && self.scanout_surface_id is Some {
            DeviceState { scanout_resource_id: Some(resource_id), ..self }
        } else {
            self
        }
    }

    /// The state with the scanout bound: it shows the resource on the surface.
    pub open spec fn with_scanout(self, resource_id: u32, surface_id: u32) -> DeviceState {
        DeviceState {
            scanout_resource_id: Some(resource_id),
            scanout_surface_id: Some(surface_id),
            ..self
        }
    }

    /// The state with the cursor bound: it shows the resource on the surface.
    pub open spec fn with_cursor(self, resource_id: u32, surface_id: u32) -> DeviceState {
        DeviceState {
            cursor_resource_id: Some(resource_id),
            cursor_surface_id: Some(surface_id),
            ..self
        }
    }

    /// Set-scanout with the id 0 leaves the scanout without a resource and without a surface,
    /// whatever the state was, and touches nothing else.
    pub proof fn lemma_set_scanout_zero_unbinds(self)
        ensures
            self.set_scanout(0).scanout_resource_id is None,
            self.set_scanout(0).scanout_surface_id is None,
            self.set_scanout(0) == (DeviceState {
                scanout_resource_id: None,
                scanout_surface_id: None,
                ..self
            }),
    {
    }

    /// A resource that was released is not there: no slot shows it, and it can be neither
    /// released again nor shown on the scanout, which stays as it was. The slots stay in their
    /// two states.
    pub proof fn lemma_released_resource_is_gone(self, resource_id: u32)
        requires
            resource_id != 0,
        ensures
            !self.without_resource(resource_id).resources.contains_key(resource_id),
            !self.without_resource(resource_id).renderer_resources.contains(resource_id),
            self.without_resource(resource_id).scanout_resource_id != Some(resource_id),
            self.without_resource(resource_id).cursor_resource_id != Some(resource_id),
            self.without_resource(resource_id).set_scanout(resource_id) == self.without_resource(
                resource_id,
            ),
            self.two_state() ==> self.without_resource(resource_id).two_state(),
    {
    }

    /// The surface that a flush of `resource_id` shows the resource on first, and the one
    /// after it: the scanout's, then the cursor's, each if it is bound to the resource.
    pub open spec fn flush_targets(self, resource_id: u32) -> (Option<u32>, Option<u32>) {
        let scanout = if self.scanout_resource_id == Some(resource_id) {
            self.scanout_surface_id
        } else {
            None
        };
        let cursor = if self.cursor_resource_id == Some(resource_id) {
            self.cursor_surface_id
        } else {
            None
        };
        if scanout is Some {
            (scanout, cursor)
        } else {
            (cursor, None)
        }
    }
}

/// The resource parameters of a 2D resource: a 2D texture to render to, one layer deep, with
/// no mip levels and no samples.
pub open spec fn resource_2d_params(cmd: virtio_gpu_resource_create_2d) -> ResourceParams {
    ResourceParams {
        target: PIPE_TEXTURE_2D,
        format: cmd.format,
        bind: PIPE_BIND_RENDER_TARGET,
        width: cmd.width,
        height: cmd.height,
        depth: 1,
        array_size: 1,
        last_level: 0,
        nr_samples: 0,
        flags: 0,
    }
}

/// The resource parameters of a 3D resource: the command's own.
pub open spec fn resource_3d_params(cmd: virtio_gpu_resource_create_3d) -> ResourceParams {
    ResourceParams {
        target: cmd.target,
        format: cmd.format,
        bind: cmd.bind,
        width: cmd.width,
        height: cmd.height,
        depth: cmd.depth,
        array_size: cmd.array_size,
        last_level: cmd.last_level,
        nr_samples: cmd.nr_samples,
        flags: cmd.flags,
    }
}

/// The box of a 2D transfer: the command's rectangle, flat, at the start of the backing.
pub open spec fn transfer_2d_box(cmd: virtio_gpu_transfer_to_host_2d) -> TransferBox {
    TransferBox::spec_new_2d(cmd.r.x, cmd.r.y, cmd.r.width, cmd.r.height)
}

/// The box of a 3D transfer: the command's own.
pub open spec fn transfer_3d_box(cmd: virtio_gpu_transfer_host_3d) -> TransferBox {
    TransferBox {
        x: cmd.box_.x,
        y: cmd.box_.y,
        z: cmd.box_.z,
        w: cmd.box_.w,
        h: cmd.box_.h,
        d: cmd.box_.d,
        level: cmd.level,
        stride: cmd.stride,
        layer_stride: cmd.layer_stride,
        offset: cmd.offset,
    }
}

/// The box that shows a whole resource of `width` by `height` in a buffer with rows of `stride`
/// bytes.
pub open spec fn present_box(width: u32, height: u32, stride: u32) -> TransferBox {
    TransferBox { stride, ..TransferBox::spec_new_2d(0, 0, width, height) }
}

/// The id that stands for a resource among devices: the resource's id, most significant byte
/// first, at the end of sixteen bytes that are zero before it.
pub open spec fn resource_uuid(resource_id: u32) -> Seq<u8> {
    zeros(12) + be32(resource_id)
}

/// The EDID response's block: the device's EDID block, and zeros after it.
pub open spec fn edid_padded() -> Seq<u8> {
    EDID_BLOCK@ + zeros(768)
}

/// The response to a command that the renderer alone answers: `OkNoData` where it did the
/// work, its error where it did not.
pub open spec fn renderer_reply(done: Result<(), RutabagaError>) -> VirtioGpuResponseResult {
    match done {
        Ok(_) => Ok(VirtioGpuResponse::OkNoData),
        Err(e) => Err(VirtioGpuResponse::RutabagaError(e)),
    }
}

/// The response to a command that the renderer alone answers.
pub fn reply_of_renderer(done: Result<(), RutabagaError>) -> (r: VirtioGpuResponseResult)
    ensures
        r == renderer_reply(done),
{
    match done {
        Ok(()) => Ok(VirtioGpuResponse::OkNoData),
        Err(e) => Err(VirtioGpuResponse::from(e)),
    }
}

/// The response to a resource creation that the renderer accepted, by whether the renderer
/// then knew 3D information of the resource: the creation stands as done only where it did
/// not.
pub fn reply_of_created(known_3d: bool) -> (r: VirtioGpuResponse)
    ensures
        r == if known_3d {
            VirtioGpuResponse::ErrInvalidResourceId
        } else {
            VirtioGpuResponse::OkNoData
        },
{
    if known_3d {
        VirtioGpuResponse::ErrInvalidResourceId
    } else {
        VirtioGpuResponse::OkNoData
    }
}

/// The response to an unref, by what the renderer answered and by whether the device has a
/// record of the resource: without a record it is `ErrInvalidResourceId`, whatever the
/// renderer answered; with one it is the renderer's error, or `OkNoData` where the renderer
/// released the resource.
pub open spec fn unref_reply(
    released: Result<(), RutabagaError>,
    had_record: bool,
) -> VirtioGpuResponseResult {
    if !had_record {
        Err(VirtioGpuResponse::ErrInvalidResourceId)
    } else {
        renderer_reply(released)
    }
}

/// The response to an unref, by what the renderer answered and by whether the device has a
/// record of the resource.
pub fn reply_of_unref(released: Result<(), RutabagaError>, had_record: bool) -> (r:
    VirtioGpuResponseResult)
    ensures
        r == unref_reply(released, had_record),
{
    if !had_record {
        Err(VirtioGpuResponse::ErrInvalidResourceId)
    } else {
        reply_of_renderer(released)
    }
}

/// The response to a capability set query, by what the renderer answered: its id, version and
/// size as they came, or its error.
pub fn reply_of_capset_info(info: Result<(u32, u32, u32), RutabagaError>) -> (r:
    VirtioGpuResponseResult)
    ensures
        r == match info {
            Ok((capset_id, version, size)) => Ok::<VirtioGpuResponse, VirtioGpuResponse>(
                VirtioGpuResponse::OkCapsetInfo { capset_id, version, size },
            ),
            Err(e) => Err(VirtioGpuResponse::RutabagaError(e)),
        },
{
    match info {
        Ok((capset_id, version, size)) => Ok(
            VirtioGpuResponse::OkCapsetInfo { capset_id, version, size },
        ),
        Err(e) => Err(VirtioGpuResponse::from(e)),
    }
}

/// The response to a capability set request, by what the renderer answered: its bytes as they
/// came, or its error.
pub fn reply_of_capset(capset: Result<Vec<u8>, RutabagaError>) -> (r: VirtioGpuResponseResult)
    ensures
        r == match capset {
            Ok(bytes) => Ok::<VirtioGpuResponse, VirtioGpuResponse>(
                VirtioGpuResponse::OkCapset(bytes),
            ),
            Err(e) => Err(VirtioGpuResponse::RutabagaError(e)),
        },
{
    match capset {
        Ok(bytes) => Ok(VirtioGpuResponse::OkCapset(bytes)),
        Err(e) => Err(VirtioGpuResponse::from(e)),
    }
}

/// What follows the copy of a resource into a surface's framebuffer, by what the renderer
/// answered: the surface is flipped where the copy was made, and the command ends with the
/// renderer's error where it was not.
pub fn step_after_copy(
    copied: Result<(), RutabagaError>,
    surface_id: u32,
    then: Continuation,
) -> (step: Step)
    ensures
        step == match copied {
            Ok(_) => Step::Display { action: DisplayAction::Flip { surface_id }, then },
            Err(e) => Step::Done(Err(VirtioGpuResponse::RutabagaError(e))),
        },
{
    match copied {
        Ok(()) => Step::Display { action: DisplayAction::Flip { surface_id }, then },
        Err(e) => Step::Done(Err(VirtioGpuResponse::from(e))),
    }
}

/// The iovecs of the spans that were found mapped: all of them, in their order, or a failure
/// where one was not found.
pub fn iovecs_of_found(found: Vec<Option<RutabagaIovec>>) -> (r: Result<
    Vec<RutabagaIovec>,
    VirtioGpuResponse,
>)
    ensures
        match r {
            Ok(iovecs) => {
                &&& iovecs@.len() == found@.len()
                &&& forall|i: int| 0 <= i < found@.len() ==> found@[i] == Some(iovecs@[i])
            },
            Err(e) => {
                &&& e == VirtioGpuResponse::InvalidSglistRegion()
                &&& exists|i: int| 0 <= i < found@.len() && found@[i] is None
            },
        },
{
    let mut iovecs: Vec<RutabagaIovec> = Vec::new();
    let mut i: usize = 0;
    while i < found.len()
        invariant
            i <= found@.len(),
            iovecs@.len() == i,
            forall|j: int| 0 <= j < i ==> found@[j] == Some(iovecs@[j]),
        decreases found.len() - i,
    {
        match found[i] {
            Some(iovec) => iovecs.push(iovec),
            None => {
                return Err(VirtioGpuResponse::InvalidSglistRegion());
            },
        }
        i = i + 1;
    }
    Ok(iovecs)
}

/// Whether every span of `vecs` is mapped in `mem`.
pub open spec fn all_spans_mapped(vecs: Seq<(GuestAddress, usize)>, mem: GuestMemoryMmap) -> bool {
    forall|i: int| 0 <= i < vecs.len() ==> span_mapped(mem, (#[trigger] vecs[i]).0, vecs[i].1)
}

/// Turns spans of guest memory into the host's iovecs for the renderer, one for each span, in
/// their order and of the span's length. Every span is checked before the first iovec is made,
/// and one span that is not mapped fails them all.
pub fn sglist_to_rutabaga_iovecs(vecs: &[(GuestAddress, usize)], mem: &GuestMemoryMmap) -> (r:
    Result<Vec<RutabagaIovec>, VirtioGpuResponse>)
    ensures
        r is Ok <==> all_spans_mapped(vecs@, *mem),
        r matches Ok(iovecs) ==> {
            &&& iovecs@.len() == vecs@.len()
            &&& forall|i: int|
                0 <= i < vecs@.len() ==> iovec_len(#[trigger] iovecs@[i]) == vecs@[i].1
        },
        r matches Err(e) ==> e == VirtioGpuResponse::InvalidSglistRegion(),
{
    // validate sglist range
    let mut i: usize = 0;
    while i < vecs.len()
        invariant
            i <= vecs@.len(),
            forall|j: int| 0 <= j < i ==> span_mapped(*mem, (#[trigger] vecs@[j]).0, vecs@[j].1),
        decreases vecs.len() - i,
    {
        let (addr, len) = vecs[i];
        if !span_is_mapped(mem, addr, len) {
            return Err(VirtioGpuResponse::InvalidSglistRegion());
        }
        i = i + 1;
    }
    let mut found: Vec<Option<RutabagaIovec>> = Vec::new();
    let mut k: usize = 0;
    while k < vecs.len()
        invariant
            k <= vecs@.len(),
            found@.len() == k,
            all_spans_mapped(vecs@, *mem),
            forall|j: int|
                0 <= j < k ==> (#[trigger] found@[j]) is Some && iovec_len(found@[j].unwrap())
                    == vecs@[j].1,
        decreases vecs.len() - k,
    {
        let (addr, len) = vecs[k];
        found.push(host_iovec(mem, addr, len));
        k = k + 1;
    }
    let ghost made = found@;
    let r = iovecs_of_found(found);
    proof {
        if r is Ok {
            let iovecs = r->Ok_0;
            assert forall|i: int| 0 <= i < vecs@.len() implies iovec_len(#[trigger] iovecs@[i])
                == vecs@[i].1 by {
                assert(made[i] == Some(iovecs@[i]));
            }
        }
    }
    r
}

/// The renderer's parameters for a 2D resource.
pub fn params_2d(cmd: virtio_gpu_resource_create_2d) -> (p: ResourceParams)
    ensures
        p == resource_2d_params(cmd),
{
    ResourceParams {
        target: PIPE_TEXTURE_2D,
        format: cmd.format,
        bind: PIPE_BIND_RENDER_TARGET,
        width: cmd.width,
        height: cmd.height,
        depth: 1,
        array_size: 1,
        last_level: 0,
        nr_samples: 0,
        flags: 0,
    }
}

/// The renderer's parameters for a 3D resource.
pub fn params_3d(cmd: virtio_gpu_resource_create_3d) -> (p: ResourceParams)
    ensures
        p == resource_3d_params(cmd),
{
    ResourceParams {
        target: cmd.target,
        format: cmd.format,
        bind: cmd.bind,
        width: cmd.width,
        height: cmd.height,
        depth: cmd.depth,
        array_size: cmd.array_size,
        last_level: cmd.last_level,
        nr_samples: cmd.nr_samples,
        flags: cmd.flags,
    }
}

/// The renderer's box for a 2D transfer command.
pub fn transfer_to_host_2d_to_transfer_3d(cmd: virtio_gpu_transfer_to_host_2d) -> (t: TransferBox)
    ensures
        t == transfer_2d_box(cmd),
{
    TransferBox::new_2d(cmd.r.x, cmd.r.y, cmd.r.width, cmd.r.height)
}

/// The renderer's box for the copy of a whole resource of `width` by `height` into a buffer
/// with rows of `stride` bytes.
pub fn copy_box(width: u32, height: u32, stride: u32) -> (t: TransferBox)
    ensures
        t == present_box(width, height, stride),
{
    let mut transfer = TransferBox::new_2d(0, 0, width, height);
    transfer.stride = stride;
    transfer
}

/// The renderer's box for a 3D transfer command.
pub fn transfer_host_3d_to_transfer_3d(cmd: virtio_gpu_transfer_host_3d) -> (t: TransferBox)
    ensures
        t == transfer_3d_box(cmd),
{
    TransferBox {
        x: cmd.box_.x,
        y: cmd.box_.y,
        z: cmd.box_.z,
        w: cmd.box_.w,
        h: cmd.box_.h,
        d: cmd.box_.d,
        level: cmd.level,
        stride: cmd.stride,
        layer_stride: cmd.layer_stride,
        offset: cmd.offset,
    }
}

/// What the scanout or the cursor shows: a resource, on a surface of the display.
struct Binding {
    resource_id: Option<u32>,
    surface_id: Option<u32>,
}

impl Binding {
    /// A slot is unbound, without a resource and without a surface, or bound, with both. A
    /// resource that is shown never has the id 0, which stands for no resource.
    #[verifier::type_invariant]
    spec fn inv(self) -> bool {
        &&& self.resource_id != Some(0u32)
        &&& self.resource_id is Some <==> self.surface_id is Some
    }

    /// The slot that shows nothing.
    fn unbound() -> (slot: Binding)
        ensures
            slot.resource_id is None,
            slot.surface_id is None,
    {
        Binding { resource_id: None, surface_id: None }
    }

    /// The slot that shows the resource on the surface.
    fn bound(resource_id: u32, surface_id: u32) -> (slot: Binding)
        requires
            resource_id != 0,
        ensures
            slot.resource_id == Some(resource_id),
            slot.surface_id == Some(surface_id),
    {
        Binding { resource_id: Some(resource_id), surface_id: Some(surface_id) }
    }
}

/// The virtio-gpu device: its resources, its scanout and cursor, and its renderer.
pub struct VirtioGpu {
    display_width: u32,
    display_height: u32,
    scanout: Binding,
    cursor: Binding,
    rutabaga: Rutabaga,
    resources: BTreeMap<u32, VirtioGpuResource>,
}

impl View for VirtioGpu {
    type V = DeviceState;

    closed spec fn view(&self) -> DeviceState {
        DeviceState {
            display_width: self.display_width,
            display_height: self.display_height,
            scanout_resource_id: self.scanout.resource_id,
            scanout_surface_id: self.scanout.surface_id,
            cursor_resource_id: self.cursor.resource_id,
            cursor_surface_id: self.cursor.surface_id,
            resources: self.resources@.map_values(|r: VirtioGpuResource| r@),
            renderer_resources: renderer_resources(self.rutabaga),
            renderer_contexts: renderer_contexts(self.rutabaga),
        }
    }
}

impl VirtioGpu {
    /// Makes a device with the renderer that `gpu_parameter` asks for. The renderer hands the
    /// fences that are reached to `fence_handler`.
    ///
    /// The renderer's builder decides whether there is a renderer; the device is made of what
    /// it returned by `with_renderer`, so its error is handed back, and a device that is made
    /// is in its initial state, with a renderer that holds nothing.
    pub fn new(gpu_parameter: GpuParameter, fence_handler: RutabagaHandler<RutabagaFence>) -> (r:
        Result<Self, RutabagaError>)
        ensures
            r matches Ok(gpu) ==> gpu@ == DeviceState::initial(
                gpu_parameter.display_width,
                gpu_parameter.display_height,
            ),
    {
        let built = build_renderer(
            gpu_parameter.mode,
            gpu_parameter.renderer_use_egl,
            gpu_parameter.renderer_use_gles,
            gpu_parameter.renderer_use_surfaceless,
            &fence_handler,
        );
        Self::with_renderer(gpu_parameter, built)
    }

    /// Makes a device of what the renderer's builder returned: the builder's error is handed
    /// back as it is; a renderer becomes the renderer of a device that has no record and shows
    /// nothing.
    pub fn with_renderer(gpu_parameter: GpuParameter, built: Result<Rutabaga, RutabagaError>) -> (r:
        Result<Self, RutabagaError>)
        ensures
            match built {
                Err(e) => r matches Err(handed) && handed == e,
                Ok(rutabaga) => r matches Ok(gpu) && gpu@ == (DeviceState {
                    renderer_resources: renderer_resources(rutabaga),
                    renderer_contexts: renderer_contexts(rutabaga),
                    ..DeviceState::initial(
                        gpu_parameter.display_width,
                        gpu_parameter.display_height,
                    )
                }),
            },
    {
        match built {
            Err(e) => Err(e),
            Ok(rutabaga) => {
                let gpu = VirtioGpu {
                    display_width: gpu_parameter.display_width,
                    display_height: gpu_parameter.display_height,
                    scanout: Binding::unbound(),
                    cursor: Binding::unbound(),
                    rutabaga,
                    resources: BTreeMap::new(),
                };
                assert(gpu@.resources =~= Map::empty());
                Ok(gpu)
            },
        }
    }

    /// The resource that the scanout shows. It never has the id 0, and there is one exactly
    /// where the scanout has a surface.
    pub fn scanout_resource_id(&self) -> (id: Option<u32>)
        ensures
            id == self@.scanout_resource_id,
            self@.two_state(),
    {
        proof {
            use_type_invariant(&self.cursor);
        }
        proof {
            use_type_invariant(&self.scanout);
        }
        self.scanout.resource_id
    }

    /// The surface that the scanout shows on.
    pub fn scanout_surface_id(&self) -> (id: Option<u32>)
        ensures
            id == self@.scanout_surface_id,
    {
        self.scanout.surface_id
    }

    /// The resource that the cursor shows. It never has the id 0, and there is one exactly
    /// where the cursor has a surface.
    pub fn cursor_resource_id(&self) -> (id: Option<u32>)
        ensures
            id == self@.cursor_resource_id,
            self@.two_state(),
    {
        proof {
            use_type_invariant(&self.scanout);
        }
        proof {
            use_type_invariant(&self.cursor);
        }
        self.cursor.resource_id
    }

    /// The surface that the cursor shows on.
    pub fn cursor_surface_id(&self) -> (id: Option<u32>)
        ensures
            id == self@.cursor_surface_id,
    {
        self.cursor.surface_id
    }

    /// The record of the resource `resource_id`, where the guest created one.
    pub fn resource(&self, resource_id: u32) -> (r: Option<&VirtioGpuResource>)
        ensures
            match r {
                Some(resource) => self@.resources.contains_key(resource_id)
                    && self@.resources[resource_id] == resource@,
                None => !self@.resources.contains_key(resource_id),
            },
    {
        self.resources.get(&resource_id)
    }

    /// Gets the list of supported display resolutions as a slice of `(width, height)` tuples.
    pub fn display_info(&self) -> (r: [(u32, u32); 1])
        ensures
            r@ == seq![(self@.display_width, self@.display_height)],
    {
        let r = [(self.display_width, self.display_height)];
        assert(r@ =~= seq![(self@.display_width, self@.display_height)]);
        r
    }

    /// Once the display has dispatched its events: whether the device's window was asked to
    /// close. `close_requested` is the display's answer for the scanout's surface, where the
    /// scanout has one; without a surface nothing was asked to close.
    pub fn process_display(&self, close_requested: Option<bool>) -> (r: bool)
        ensures
            r == (self@.scanout_surface_id is Some && close_requested == Some(true)),
    {
        match (self.scanout.surface_id, close_requested) {
            (Some(_), Some(closed)) => closed,
            _ => false,
        }
    }

    fn resource_create_3d(&mut self, resource_id: u32, params: ResourceParams) -> (r:
        VirtioGpuResponseResult)
        ensures
            !params.fits() ==> r == Err::<VirtioGpuResponse, VirtioGpuResponse>(
                VirtioGpuResponse::ErrInvalidParameter,
            ) && final(self)@ == old(self)@,
            params.fits() ==> match r {
                Ok(response) => {
                    &&& response == VirtioGpuResponse::OkNoData || response
                        == VirtioGpuResponse::ErrInvalidResourceId
                    &&& !old(self)@.renderer_resources.contains(resource_id)
                    &&& final(self)@ == old(self)@.with_resource(
                        resource_id,
                        params.width,
                        params.height,
                    )
                },
                Err(e) => e is RutabagaError && final(self)@ == old(self)@,
            },
            old(self)@.in_step() ==> final(self)@.in_step(),
    {
        if !params.check_fits() {
            return Err(VirtioGpuResponse::ErrInvalidParameter);
        }
        match renderer_resource_create_3d(&mut self.rutabaga, resource_id, params) {
            Ok(()) => {},
            Err(e) => {
                return Err(VirtioGpuResponse::from(e));
            },
        }
        let resource = VirtioGpuResource::new(resource_id, params.width, params.height, 0);
        self.resources.insert(resource_id, resource);
        proof {
            assert(self@.resources =~= old(self)@.resources.insert(resource_id, resource@));
            if old(self)@.in_step() {
                old(self)@.lemma_in_step_kept(resource_id, params.width, params.height);
            }
        }
        let known_3d = self.rutabaga.resource3d_info(resource_id).is_ok();
        Ok(reply_of_created(known_3d))
    }

    /// Answers with the device's one display.
    pub fn cmd_get_display_info(&mut self, cmd: virtio_gpu_ctrl_hdr) -> (r: VirtioGpuResponseResult)
        ensures
            r matches Ok(VirtioGpuResponse::OkDisplayInfo(displays)) && displays@ == seq![
                (old(self)@.display_width, old(self)@.display_height),
            ],
            final(self)@ == old(self)@,
    {
        let mut displays: Vec<(u32, u32)> = Vec::new();
        displays.push((self.display_width, self.display_height));
        assert(displays@ =~= seq![(self@.display_width, self@.display_height)]);
        Ok(VirtioGpuResponse::OkDisplayInfo(displays))
    }

    /// Creates a 2D resource: asks the renderer for a resource of `resource_2d_params`, and
    /// records it.
    ///
    /// A size that the renderer cannot take is refused with `ErrInvalidParameter`. Else the
    /// renderer decides: where it refuses, as it does an id that it holds, its error is the
    /// response and nothing is recorded; where it accepts, the resource is recorded, and the
    /// response is `OkNoData`, unless the renderer then knows 3D information of the resource.
    /// Records and renderer stay in step.
    pub fn cmd_resource_create_2d(&mut self, cmd: virtio_gpu_resource_create_2d) -> (r:
        VirtioGpuResponseResult)
        ensures
            !resource_2d_params(cmd).fits() ==> r == Err::<VirtioGpuResponse, VirtioGpuResponse>(
                VirtioGpuResponse::ErrInvalidParameter,
            ) && final(self)@ == old(self)@,
            resource_2d_params(cmd).fits() ==> match r {
                Ok(response) => {
                    &&& response == VirtioGpuResponse::OkNoData || response
                        == VirtioGpuResponse::ErrInvalidResourceId
                    &&& !old(self)@.renderer_resources.contains(cmd.resource_id)
                    &&& final(self)@ == old(self)@.with_resource(
                        cmd.resource_id,
                        cmd.width,
                        cmd.height,
                    )
                },
                Err(e) => e is RutabagaError && final(self)@ == old(self)@,
            },
            old(self)@.in_step() ==> final(self)@.in_step(),
    {
        let resource_create_3d = params_2d(cmd);
        self.resource_create_3d(cmd.resource_id, resource_create_3d)
    }

    /// Creates a 3D resource: asks the renderer for a resource of `resource_3d_params`, and
    /// records it. The response is decided as for a 2D resource.
    pub fn cmd_resource_create_3d(&mut self, cmd: virtio_gpu_resource_create_3d) -> (r:
        VirtioGpuResponseResult)
        ensures
            !resource_3d_params(cmd).fits() ==> r == Err::<VirtioGpuResponse, VirtioGpuResponse>(
                VirtioGpuResponse::ErrInvalidParameter,
            ) && final(self)@ == old(self)@,
            resource_3d_params(cmd).fits() ==> match r {
                Ok(response) => {
                    &&& response == VirtioGpuResponse::OkNoData || response
                        == VirtioGpuResponse::ErrInvalidResourceId
                    &&& !old(self)@.renderer_resources.contains(cmd.resource_id)
                    &&& final(self)@ == old(self)@.with_resource(
                        cmd.resource_id,
                        cmd.width,
                        cmd.height,
                    )
                },
                Err(e) => e is RutabagaError && final(self)@ == old(self)@,
            },
            old(self)@.in_step() ==> final(self)@.in_step(),
    {
        let resource_create_3d = params_3d(cmd);
        self.resource_create_3d(cmd.resource_id, resource_create_3d)
    }

    /// The steps that follow the release of a resource: the surface of each slot that showed it
    /// goes back to the display, the cursor's before the scanout's, and the command succeeds.
    pub open spec fn spec_released(state: DeviceState, resource_id: u32) -> Step {
        let cursor = if state.cursor_resource_id == Some(resource_id) {
            state.cursor_surface_id
        } else {
            None
        };
        let scanout = if state.scanout_resource_id == Some(resource_id) {
            state.scanout_surface_id
        } else {
            None
        };
        match (cursor, scanout) {
            (Some(first), Some(surface_id)) => Step::Display {
                action: DisplayAction::ReleaseSurface { surface_id: first },
                then: Continuation::Release { surface_id },
            },
            (Some(surface_id), None) => Step::Display {
                action: DisplayAction::ReleaseSurface { surface_id },
                then: Continuation::Finish,
            },
            (None, Some(surface_id)) => Step::Display {
                action: DisplayAction::ReleaseSurface { surface_id },
                then: Continuation::Finish,
            },
            (None, None) => Step::Done(Ok(VirtioGpuResponse::OkNoData)),
        }
    }

    /// Releases a resource: the renderer is told to release it, then the record is removed, and
    /// each slot that showed the resource is unbound. `resume` goes on where the display has
    /// surfaces to take back.
    ///
    /// A resource without a record ends the command with `ErrInvalidResourceId`, whatever the
    /// renderer answered; the records and the slots stay. With a record, the renderer decides:
    /// where it refuses, the command ends with its error and nothing changes; where it
    /// releases the resource, the state is `without_resource` and the steps are
    /// `spec_released`, which end with `OkNoData`. Records and renderer stay in step.
    pub fn cmd_resource_unref(&mut self, cmd: virtio_gpu_resource_unref) -> (step: Step)
        ensures
            !old(self)@.resources.contains_key(cmd.resource_id) ==> {
                &&& step == Step::Done(Err(VirtioGpuResponse::ErrInvalidResourceId))
                &&& final(self)@ == old(self)@ || final(self)@
                    == old(self)@.without_renderer_resource(cmd.resource_id)
            },
            old(self)@.resources.contains_key(cmd.resource_id) ==> {
                ||| {
                    &&& step == Self::spec_released(old(self)@, cmd.resource_id)
                    &&& old(self)@.renderer_resources.contains(cmd.resource_id)
                    &&& final(self)@ == old(self)@.without_resource(cmd.resource_id)
                }
                ||| {
                    &&& step matches Step::Done(Err(VirtioGpuResponse::RutabagaError(_)))
                    &&& final(self)@ == old(self)@
                }
            },
            old(self)@.in_step() ==> final(self)@.in_step(),
            final(self)@.two_state(),
    {
        proof {
            use_type_invariant(&self.scanout);
            use_type_invariant(&self.cursor);
        }
        let resource_id = cmd.resource_id;
        let released = self.rutabaga.unref_resource(resource_id);
        proof {
            assert(self@ == old(self)@ || self@ == old(self)@.without_renderer_resource(
                resource_id,
            ));
            if old(self)@.in_step() && !old(self)@.resources.contains_key(resource_id) {
                assert(!old(self)@.resources.dom().contains(resource_id));
                assert(old(self)@.renderer_resources.remove(resource_id)
                    =~= old(self)@.renderer_resources);
            }
        }
        let had_record = self.resources.contains_key(&resource_id);
        match reply_of_unref(released, had_record) {
            Err(e) => Step::Done(Err(e)),
            Ok(_) => {
                self.resources.remove(&resource_id);
                let cursor = match (self.cursor.resource_id, self.cursor.surface_id) {
                    (Some(shown), Some(surface_id)) => {
                        if shown == resource_id {
                            self.cursor = Binding::unbound();
                            Some(surface_id)
                        } else {
                            None
                        }
                    },
                    _ => None,
                };
                let scanout = match (self.scanout.resource_id, self.scanout.surface_id) {
                    (Some(shown), Some(surface_id)) => {
                        if shown == resource_id {
                            self.scanout = Binding::unbound();
                            Some(surface_id)
                        } else {
                            None
                        }
                    },
                    _ => None,
                };
                proof {
                    assert(self@.resources =~= old(self)@.resources.remove(resource_id));
                    if old(self)@.in_step() {
                        old(self)@.lemma_in_step_kept(resource_id, 0, 0);
                    }
                }
                match (cursor, scanout) {
                    (Some(first), Some(surface_id)) => Step::Display {
                        action: DisplayAction::ReleaseSurface { surface_id: first },
                        then: Continuation::Release { surface_id },
                    },
                    (Some(surface_id), None) => Step::Display {
                        action: DisplayAction::ReleaseSurface { surface_id },
                        then: Continuation::Finish,
                    },
                    (None, Some(surface_id)) => Step::Display {
                        action: DisplayAction::ReleaseSurface { surface_id },
                        then: Continuation::Finish,
                    },
                    (None, None) => Step::Done(Ok(VirtioGpuResponse::OkNoData)),
                }
            },
        }
    }

    /// Creates the context that the command's header names, in the renderer.
    ///
    /// The renderer decides: where it refuses, as it does an id that it holds, its error is the
    /// response and nothing changes; where it accepts, it holds the context.
    pub fn cmd_context_create(&mut self, cmd: virtio_gpu_ctx_create) -> (r: VirtioGpuResponseResult)
        ensures
            match r {
                Ok(response) => {
                    &&& response == VirtioGpuResponse::OkNoData
                    &&& !old(self)@.renderer_contexts.contains(cmd.hdr.ctx_id)
                    &&& final(self)@ == old(self)@.with_context(cmd.hdr.ctx_id)
                },
                Err(e) => e is RutabagaError && final(self)@ == old(self)@,
            },
    {
        let done = renderer_create_context(&mut self.rutabaga, cmd.hdr.ctx_id, 0);
        reply_of_renderer(done)
    }

    /// Destroys the context that the command's header names, in the renderer: `OkNoData` for a
    /// context that the renderer holds, which it then holds no more, and the renderer's error
    /// for any other.
    pub fn cmd_context_destroy(&mut self, cmd: virtio_gpu_ctx_destroy) -> (r:
        VirtioGpuResponseResult)
        ensures
            r is Ok <==> old(self)@.renderer_contexts.contains(cmd.hdr.ctx_id),
            r matches Ok(response) ==> response == VirtioGpuResponse::OkNoData,
            r matches Err(e) ==> e is RutabagaError,
            final(self)@ == old(self)@.without_context(cmd.hdr.ctx_id),
    {
        let done = self.rutabaga.destroy_context(cmd.hdr.ctx_id);
        reply_of_renderer(done)
    }

    /// Answers with the device's EDID block: the 256 bytes of `EDID_BLOCK`, in a block of 1024
    /// bytes that is zero after them.
    pub fn cmd_get_edid(&mut self, cmd: virtio_gpu_cmd_get_edid) -> (r: VirtioGpuResponseResult)
        ensures
            r matches Ok(VirtioGpuResponse::OkEdid { size, edid }) && size == 256 && edid@
                == edid_padded(),
            final(self)@ == old(self)@,
    {
        broadcast use vstd::array::group_array_axioms;

        let mut edid: [u8; 1024] = [0u8;1024];
        let mut pos: usize = 0;
        while pos < 256
            invariant
                pos <= 256,
                forall|j: int| 0 <= j < pos ==> edid@[j] == EDID_BLOCK@[j],
                forall|j: int| pos <= j < 1024 ==> edid@[j] == 0u8,
            decreases 256 - pos,
        {
            edid[pos] = EDID_BLOCK[pos];
            pos = pos + 1;
        }
        assert(edid@ =~= edid_padded());
        Ok(VirtioGpuResponse::OkEdid { size: 256, edid })
    }

    /// Answers with the renderer's capability set at the command's index, as the renderer
    /// gives it.
    pub fn cmd_get_capset_info(&mut self, cmd: virtio_gpu_get_capset_info) -> (r:
        VirtioGpuResponseResult)
        ensures
            r matches Ok(response) ==> response is OkCapsetInfo,
            r matches Err(e) ==> e is RutabagaError,
            final(self)@ == old(self)@,
    {
        let info = self.rutabaga.get_capset_info(cmd.capset_index);
        reply_of_capset_info(info)
    }

    /// Answers with the bytes of the renderer's capability set, as the renderer gives them.
    pub fn cmd_get_capset(&mut self, cmd: virtio_gpu_get_capset) -> (r: VirtioGpuResponseResult)
        ensures
            r matches Ok(response) ==> response is OkCapset,
            r matches Err(e) ==> e is RutabagaError,
            final(self)@ == old(self)@,
    {
        let capset = self.rutabaga.get_capset(cmd.capset_id, cmd.capset_version);
        reply_of_capset(capset)
    }

    /// The buffer of the display that the resource's memory was imported as, where the
    /// renderer's memory can be shown without a copy. It never can.
    pub fn import_to_display(&mut self, resource_id: u32) -> (r: Option<u32>)
        ensures
            r is None,
            final(self)@ == old(self)@,
    {
        None
    }

    /// Starts to show the resource on the surface; `resume` goes on.
    ///
    /// A resource without a record ends the command with `ErrInvalidResourceId` before the
    /// display is asked anything. Else the display is asked whether the surface's next buffer
    /// is still in use.
    pub fn flush_resource_to_surface(&mut self, resource_id: u32, surface_id: u32) -> (step: Step)
        ensures
            step == Self::spec_flush_start(old(self)@, resource_id, surface_id, None),
            final(self)@ == old(self)@,
    {
        self.flush_start(resource_id, surface_id, None)
    }

    /// The first step of showing a resource on a surface, and after it on the surface `next`.
    pub open spec fn spec_flush_start(
        state: DeviceState,
        resource_id: u32,
        surface_id: u32,
        next: Option<u32>,
    ) -> Step {
        if !state.resources.contains_key(resource_id) {
            Step::Done(Err(VirtioGpuResponse::ErrInvalidResourceId))
        } else {
            Step::Display {
                action: DisplayAction::NextBufferInUse { surface_id },
                then: Continuation::FlushBuffer { resource_id, surface_id, next },
            }
        }
    }

    fn flush_start(&mut self, resource_id: u32, surface_id: u32, next: Option<u32>) -> (step: Step)
        ensures
            step == Self::spec_flush_start(old(self)@, resource_id, surface_id, next),
            final(self)@ == old(self)@,
    {
        if let Some(import_id) = self.import_to_display(resource_id) {
            return Step::Display {
                action: DisplayAction::FlipTo { surface_id, import_id },
                then: Continuation::FlushNext { resource_id, next },
            };
        }
        if !self.resources.contains_key(&resource_id) {
            return Step::Done(Err(VirtioGpuResponse::ErrInvalidResourceId));
        }
        // Import failed, fall back to a copy.
        Step::Display {
            action: DisplayAction::NextBufferInUse { surface_id },
            then: Continuation::FlushBuffer { resource_id, surface_id, next },
        }
    }

    /// The first step of the command that flushes `resource_id`: nothing to do for the id 0 and
    /// for a resource that neither the scanout nor the cursor shows; else the resource is shown
    /// on the scanout's surface, then on the cursor's, each if it is bound to the resource.
    pub open spec fn spec_flush_resource(state: DeviceState, resource_id: u32) -> Step {
        if resource_id == 0 {
            Step::Done(Ok(VirtioGpuResponse::OkNoData))
        } else {
            match state.flush_targets(resource_id) {
                (Some(first), next) => Self::spec_flush_start(state, resource_id, first, next),
                _ => Step::Done(Ok(VirtioGpuResponse::OkNoData)),
            }
        }
    }

    /// Flushes a resource to the screen; `resume` goes on where the display has work to do.
    pub fn cmd_flush_resource(&mut self, cmd: virtio_gpu_resource_flush) -> (step: Step)
        ensures
            step == Self::spec_flush_resource(old(self)@, cmd.resource_id),
            final(self)@ == old(self)@,
    {
        let resource_id = cmd.resource_id;
        if resource_id == 0 {
            return Step::Done(Ok(VirtioGpuResponse::OkNoData));
        }
        let scanout = match (self.scanout.resource_id, self.scanout.surface_id) {
            (Some(scanout_resource_id), Some(scanout_surface_id)) => {
                if scanout_resource_id == resource_id {
                    Some(scanout_surface_id)
                } else {
                    None
                }
            },
            _ => None,
        };
        let cursor = match (self.cursor.resource_id, self.cursor.surface_id) {
            (Some(cursor_resource_id), Some(cursor_surface_id)) => {
                if cursor_resource_id == resource_id {
                    Some(cursor_surface_id)
                } else {
                    None
                }
            },
            _ => None,
        };
        match (scanout, cursor) {
            (Some(first), next) => self.flush_start(resource_id, first, next),
            (None, Some(first)) => self.flush_start(resource_id, first, None),
            (None, None) => Step::Done(Ok(VirtioGpuResponse::OkNoData)),
        }
    }

    /// The first step of a set-scanout command. For the id 0 the scanout's surface is released,
    /// where it has one, and the command succeeds. A resource without a record ends the command
    /// with `ErrInvalidResourceId`. Else the command succeeds at once where the scanout has a
    /// surface, which it keeps; where it has none, the display is asked for one of the
    /// display's size.
    pub open spec fn spec_set_scanout(state: DeviceState, resource_id: u32) -> Step {
        if resource_id == 0 {
            match state.scanout_surface_id {
                Some(surface_id) => Step::Display {
                    action: DisplayAction::ReleaseSurface { surface_id },
                    then: Continuation::Finish,
                },
                None => Step::Done(Ok(VirtioGpuResponse::OkNoData)),
            }
        } else if !state.resources.contains_key(resource_id) {
            Step::Done(Err(VirtioGpuResponse::ErrInvalidResourceId))
        } else {
            match state.scanout_surface_id {
                Some(_) => Step::Done(Ok(VirtioGpuResponse::OkNoData)),
                None => Step::Display {
                    action: DisplayAction::CreateSurface {
                        parent_surface_id: None,
                        width: state.display_width,
                        height: state.display_height,
                    },
                    then: Continuation::ScanoutSurface { resource_id },
                },
            }
        }
    }

    /// Set-scanout with the id 0 always succeeds, whatever the state was and whatever the
    /// display answers: it unbinds the scanout at once, and it ends with `OkNoData`, at once
    /// or once the display has released the surface.
    pub proof fn lemma_set_scanout_zero_succeeds(state: DeviceState, event: DisplayEvent)
        ensures
            state.set_scanout(0).scanout_resource_id is None,
            state.set_scanout(0).scanout_surface_id is None,
            Self::spec_set_scanout(state, 0) == Step::Done(Ok(VirtioGpuResponse::OkNoData)) || (
            Self::spec_set_scanout(state, 0) matches Step::Display {
                action: DisplayAction::ReleaseSurface { .. },
                then,
            } && then == Continuation::Finish),
            Self::spec_resume(state.set_scanout(0), Continuation::Finish, event) == Step::Done(
                Ok(VirtioGpuResponse::OkNoData),
            ),
            Self::spec_resume_state(state.set_scanout(0), Continuation::Finish, event)
                == state.set_scanout(0),
    {
    }

    /// Binding a resource that exists to the scanout: a bound scanout shows the resource at
    /// once, on the surface that it has; an unbound one asks the display for a surface, shows
    /// the resource on the surface that the display creates, and stays unbound where the
    /// display creates none.
    pub proof fn lemma_set_scanout_binds(state: DeviceState, resource_id: u32, event: DisplayEvent)
        requires
            resource_id != 0,
            state.resources.contains_key(resource_id),
            state.two_state(),
        ensures
            state.scanout_surface_id matches Some(surface_id) ==> {
                &&& Self::spec_set_scanout(state, resource_id) == Step::Done(
                    Ok(VirtioGpuResponse::OkNoData),
                )
                &&& state.set_scanout(resource_id) == state.with_scanout(resource_id, surface_id)
            },
            state.scanout_surface_id is None ==> {
                let then = Continuation::ScanoutSurface { resource_id };
                &&& Self::spec_set_scanout(state, resource_id) == (Step::Display {
                    action: DisplayAction::CreateSurface {
                        parent_surface_id: None,
                        width: state.display_width,
                        height: state.display_height,
                    },
                    then,
                })
                &&& state.set_scanout(resource_id) == state
                &&& match event {
                    DisplayEvent::SurfaceCreated(surface_id) => {
                        &&& Self::spec_resume(state, then, event) == Step::Done(
                            Ok(VirtioGpuResponse::OkNoData),
                        )
                        &&& Self::spec_resume_state(state, then, event) == state.with_scanout(
                            resource_id,
                            surface_id,
                        )
                    },
                    _ => {
                        &&& Self::spec_resume(state, then, event) is Done
                        &&& Self::spec_resume(state, then, event)->Done_0 is Err
                        &&& Self::spec_resume_state(state, then, event) == state
                    },
                }
            },
    {
    }

    /// Sets what the scanout shows: nothing for the id 0; else the resource, which must exist.
    /// The scanout's surface comes from the display: it is asked for when a resource is bound
    /// to a scanout without one, kept while the scanout is bound, and released when the
    /// scanout is unbound. `resume` goes on where the display has work to do.
    pub fn cmd_set_scanout(&mut self, cmd: virtio_gpu_set_scanout) -> (step: Step)
        ensures
            step == Self::spec_set_scanout(old(self)@, cmd.resource_id),
            final(self)@ == old(self)@.set_scanout(cmd.resource_id),
            final(self)@.two_state(),
    {
        proof {
            use_type_invariant(&self.scanout);
            use_type_invariant(&self.cursor);
        }
        let resource_id = cmd.resource_id;
        if resource_id == 0 {
            let surface = self.scanout.surface_id;
            self.scanout = Binding::unbound();
            return match surface {
                Some(surface_id) => Step::Display {
                    action: DisplayAction::ReleaseSurface { surface_id },
                    then: Continuation::Finish,
                },
                None => Step::Done(Ok(VirtioGpuResponse::OkNoData)),
            };
        }
        if !self.resources.contains_key(&resource_id) {
            return Step::Done(Err(VirtioGpuResponse::ErrInvalidResourceId));
        }
        match self.scanout.surface_id {
            Some(surface_id) => {
                self.scanout = Binding::bound(resource_id, surface_id);
                Step::Done(Ok(VirtioGpuResponse::OkNoData))
            },
            None => Step::Display {
                action: DisplayAction::CreateSurface {
                    parent_surface_id: None,
                    width: self.display_width,
                    height: self.display_height,
                },
                then: Continuation::ScanoutSurface { resource_id },
            },
        }
    }

    /// Attaches the host's iovecs `data` to the resource as its backing. The renderer decides,
    /// and accepts only for a resource that it holds. It reads and writes through the iovecs
    /// for as long as they are attached.
    pub fn cmd_resource_attach_backing(
        &mut self,
        cmd: virtio_gpu_resource_attach_backing,
        data: Vec<RutabagaIovec>,
    ) -> (r: VirtioGpuResponseResult)
        ensures
            r is Ok ==> old(self)@.renderer_resources.contains(cmd.resource_id),
            r matches Ok(response) ==> response == VirtioGpuResponse::OkNoData,
            r matches Err(e) ==> e is RutabagaError,
            final(self)@ == old(self)@,
    {
        let done = self.rutabaga.attach_backing(cmd.resource_id, data);
        reply_of_renderer(done)
    }

    /// Detaches the resource's backing. The renderer decides, and accepts only for a resource
    /// that it holds.
    pub fn cmd_resource_detach_backing(&mut self, cmd: virtio_gpu_resource_detach_backing) -> (r:
        VirtioGpuResponseResult)
        ensures
            r is Ok ==> old(self)@.renderer_resources.contains(cmd.resource_id),
            r matches Ok(response) ==> response == VirtioGpuResponse::OkNoData,
            r matches Err(e) ==> e is RutabagaError,
            final(self)@ == old(self)@,
    {
        let done = self.rutabaga.detach_backing(cmd.resource_id);
        reply_of_renderer(done)
    }

    /// Attaches the resource to the context that the command's header names: `OkNoData` where
    /// the renderer holds both, and the renderer's error where it does not.
    pub fn cmd_ctx_attach_resource(&mut self, cmd: virtio_gpu_ctx_resource) -> (r:
        VirtioGpuResponseResult)
        ensures
            r is Ok <==> old(self)@.renderer_contexts.contains(cmd.hdr.ctx_id)
                && old(self)@.renderer_resources.contains(cmd.resource_id),
            r matches Ok(response) ==> response == VirtioGpuResponse::OkNoData,
            r matches Err(e) ==> e is RutabagaError,
            final(self)@ == old(self)@,
    {
        let done = self.rutabaga.context_attach_resource(cmd.hdr.ctx_id, cmd.resource_id);
        reply_of_renderer(done)
    }

    /// Detaches the resource from the context that the command's header names: `OkNoData`
    /// where the renderer holds both, and the renderer's error where it does not.
    pub fn cmd_ctx_detach_resource(&mut self, cmd: virtio_gpu_ctx_resource) -> (r:
        VirtioGpuResponseResult)
        ensures
            r is Ok <==> old(self)@.renderer_contexts.contains(cmd.hdr.ctx_id)
                && old(self)@.renderer_resources.contains(cmd.resource_id),
            r matches Ok(response) ==> response == VirtioGpuResponse::OkNoData,
            r matches Err(e) ==> e is RutabagaError,
            final(self)@ == old(self)@,
    {
        let done = self.rutabaga.context_detach_resource(cmd.hdr.ctx_id, cmd.resource_id);
        reply_of_renderer(done)
    }

    /// Submits the command stream `data` to the context that the command's header names. The
    /// renderer decides, and accepts only for a context that it holds.
    pub fn cmd_submit_3d(&mut self, cmd: virtio_gpu_cmd_submit, data: &mut [u8]) -> (r:
        VirtioGpuResponseResult)
        ensures
            r is Ok ==> old(self)@.renderer_contexts.contains(cmd.hdr.ctx_id),
            r matches Ok(response) ==> response == VirtioGpuResponse::OkNoData,
            r matches Err(e) ==> e is RutabagaError,
            final(self)@ == old(self)@,
    {
        let done = renderer_submit_command(&mut self.rutabaga, cmd.hdr.ctx_id, data);
        reply_of_renderer(done)
    }

    /// Writes `transfer_2d_box` of the resource from the resource's backing, in the context that
    /// the command's header names. The renderer decides, and accepts only for a resource that
    /// it holds.
    pub fn cmd_transfer_to_host_2d(&mut self, cmd: virtio_gpu_transfer_to_host_2d) -> (r:
        VirtioGpuResponseResult)
        ensures
            r is Ok ==> old(self)@.renderer_resources.contains(cmd.resource_id),
            r matches Ok(response) ==> response == VirtioGpuResponse::OkNoData,
            r matches Err(e) ==> e is RutabagaError,
            final(self)@ == old(self)@,
    {
        let resource_id = cmd.resource_id;
        let transfer = transfer_to_host_2d_to_transfer_3d(cmd);
        let done = renderer_transfer_write(
            &mut self.rutabaga,
            cmd.hdr.ctx_id,
            resource_id,
            transfer,
        );
        reply_of_renderer(done)
    }

    /// Writes `transfer_3d_box` of the resource from the resource's backing, in the context that
    /// the command's header names.
    ///
    /// An offset that the renderer cannot take is refused with `ErrInvalidParameter`; else the
    /// renderer decides, and accepts only for a resource that it holds.
    pub fn cmd_transfer_to_host_3d(&mut self, cmd: virtio_gpu_transfer_host_3d) -> (r:
        VirtioGpuResponseResult)
        ensures
            !transfer_3d_box(cmd).fits_write() ==> r == Err::<VirtioGpuResponse, VirtioGpuResponse>(
                VirtioGpuResponse::ErrInvalidParameter,
            ),
            transfer_3d_box(cmd).fits_write() ==> {
                &&& r matches Ok(response) ==> response == VirtioGpuResponse::OkNoData
                &&& r matches Err(e) ==> e is RutabagaError
            },
            r is Ok ==> old(self)@.renderer_resources.contains(cmd.resource_id),
            final(self)@ == old(self)@,
    {
        let resource_id = cmd.resource_id;
        let transfer = transfer_host_3d_to_transfer_3d(cmd);
        if !transfer.check_fits_write() {
            return Err(VirtioGpuResponse::ErrInvalidParameter);
        }
        let done = renderer_transfer_write(
            &mut self.rutabaga,
            cmd.hdr.ctx_id,
            resource_id,
            transfer,
        );
        reply_of_renderer(done)
    }

    /// Answers with the id that stands for the resource among devices: `resource_uuid`. The
    /// resource must exist.
    pub fn cmd_resource_assign_uuid(&self, cmd: virtio_gpu_resource_assign_uuid) -> (r:
        VirtioGpuResponseResult)
        ensures
            match r {
                Ok(response) => {
                    &&& self@.resources.contains_key(cmd.resource_id)
                    &&& response matches VirtioGpuResponse::OkResourceUuid { uuid }
                    &&& uuid@ == resource_uuid(cmd.resource_id)
                },
                Err(e) => {
                    &&& !self@.resources.contains_key(cmd.resource_id)
                    &&& e == VirtioGpuResponse::ErrInvalidResourceId
                },
            },
    {
        broadcast use vstd::array::group_array_axioms;

        let resource_id = cmd.resource_id;
        if !self.resources.contains_key(&resource_id) {
            return Err(VirtioGpuResponse::ErrInvalidResourceId);
        }
        let mut uuid: [u8; 16] = [0u8;16];
        uuid[12] = (resource_id / 16777216) as u8;
        uuid[13] = (resource_id / 65536 % 256) as u8;
        uuid[14] = (resource_id / 256 % 256) as u8;
        uuid[15] = (resource_id % 256) as u8;
        assert(uuid@ =~= resource_uuid(resource_id));
        Ok(VirtioGpuResponse::OkResourceUuid { uuid })
    }

    /// Reads `transfer_3d_box` of the resource back into the resource's backing, in the context
    /// that the command's header names; `buf` is not read into.
    ///
    /// A box that the renderer cannot take is refused with `ErrInvalidParameter`; else the
    /// renderer decides, and accepts only for a resource that it holds.
    pub fn cmd_transfer_from_host_3d(
        &mut self,
        cmd: virtio_gpu_transfer_host_3d,
        buf: Option<VolatileSlice>,
    ) -> (r: VirtioGpuResponseResult)
        ensures
            !transfer_3d_box(cmd).fits_read() ==> r == Err::<VirtioGpuResponse, VirtioGpuResponse>(
                VirtioGpuResponse::ErrInvalidParameter,
            ),
            transfer_3d_box(cmd).fits_read() ==> {
                &&& r matches Ok(response) ==> response == VirtioGpuResponse::OkNoData
                &&& r matches Err(e) ==> e is RutabagaError
            },
            r is Ok ==> old(self)@.renderer_resources.contains(cmd.resource_id),
            final(self)@ == old(self)@,
    {
        let resource_id = cmd.resource_id;
        let transfer = transfer_host_3d_to_transfer_3d(cmd);
        if !transfer.check_fits_read() {
            return Err(VirtioGpuResponse::ErrInvalidParameter);
        }
        let done = renderer_transfer_read(
            &mut self.rutabaga,
            cmd.hdr.ctx_id,
            resource_id,
            transfer,
            None,
        );
        reply_of_renderer(done)
    }

    /// The first step of the command that moves the cursor: where both the cursor and the
    /// scanout have a surface, the cursor's surface is moved, and the scanout's is committed
    /// after that; else there is nothing to move.
    pub open spec fn spec_move_cursor(state: DeviceState, x: u32, y: u32) -> Step {
        match (state.cursor_surface_id, state.scanout_surface_id) {
            (Some(cursor_surface_id), Some(scanout_surface_id)) => Step::Display {
                action: DisplayAction::SetPosition { surface_id: cursor_surface_id, x, y },
                then: Continuation::Commit { surface_id: scanout_surface_id },
            },
            _ => Step::Done(Ok(VirtioGpuResponse::OkNoData)),
        }
    }

    /// Moves the cursor; `resume` goes on where the display has work to do.
    pub fn cmd_move_curosr(&mut self, cmd: virtio_gpu_update_cursor) -> (step: Step)
        ensures
            step == Self::spec_move_cursor(old(self)@, cmd.pos.x, cmd.pos.y),
            final(self)@ == old(self)@,
    {
        let x = cmd.pos.x;
        let y = cmd.pos.y;
        if let Some(cursor_surface_id) = self.cursor.surface_id {
            if let Some(scanout_surface_id) = self.scanout.surface_id {
                return Step::Display {
                    action: DisplayAction::SetPosition { surface_id: cursor_surface_id, x, y },
                    then: Continuation::Commit { surface_id: scanout_surface_id },
                };
            }
        }
        Step::Done(Ok(VirtioGpuResponse::OkNoData))
    }

    /// The state as the first step of a cursor update leaves it: the id 0 unbinds the cursor; a
    /// resource that exists takes the place of the one that a bound cursor shows; nothing else
    /// changes the state before the display has answered, so an unbound cursor stays unbound
    /// until it has its surface.
    pub open spec fn spec_update_cursor_state(state: DeviceState, resource_id: u32) -> DeviceState {
        if resource_id == 0 {
            DeviceState { cursor_resource_id: None, cursor_surface_id: None, ..state }
        } else if state.resources.contains_key(resource_id) && state.cursor_surface_id is Some {
            DeviceState { cursor_resource_id: Some(resource_id), ..state }
        } else {
            state
        }
    }

    /// The first step of a cursor update. For the id 0 the cursor's surface is released, where
    /// it has one. A resource without a record ends the command with `ErrInvalidResourceId`.
    /// Else the cursor's surface is moved to `(x, y)`, once it is created, in the resource's
    /// size and on the scanout's surface, where the cursor has none.
    pub open spec fn spec_update_cursor(state: DeviceState, resource_id: u32, x: u32, y: u32) -> Step {
        if resource_id == 0 {
            match state.cursor_surface_id {
                Some(surface_id) => Step::Display {
                    action: DisplayAction::ReleaseSurface { surface_id },
                    then: Continuation::Finish,
                },
                None => Step::Done(Ok(VirtioGpuResponse::OkNoData)),
            }
        } else if !state.resources.contains_key(resource_id) {
            Step::Done(Err(VirtioGpuResponse::ErrInvalidResourceId))
        } else {
            let width = state.resources[resource_id].width;
            let height = state.resources[resource_id].height;
            match state.cursor_surface_id {
                None => Step::Display {
                    action: DisplayAction::CreateSurface {
                        parent_surface_id: state.scanout_surface_id,
                        width,
                        height,
                    },
                    then: Continuation::CursorSurface { resource_id, x, y, width, height },
                },
                Some(surface_id) => Step::Display {
                    action: DisplayAction::SetPosition { surface_id, x, y },
                    then: Continuation::CursorPresent { resource_id, surface_id, width, height },
                },
            }
        }
    }

    /// Sets what the cursor shows, and where; `resume` goes on where the display has work to
    /// do.
    pub fn cmd_update_cursor(&mut self, cmd: virtio_gpu_update_cursor) -> (step: Step)
        ensures
            step == Self::spec_update_cursor(old(self)@, cmd.resource_id, cmd.pos.x, cmd.pos.y),
            final(self)@ == Self::spec_update_cursor_state(old(self)@, cmd.resource_id),
            final(self)@.two_state(),
    {
        proof {
            use_type_invariant(&self.scanout);
            use_type_invariant(&self.cursor);
        }
        let resource_id = cmd.resource_id;
        let y = cmd.pos.y;
        let x = cmd.pos.x;
        if resource_id == 0 {
            let surface = self.cursor.surface_id;
            self.cursor = Binding::unbound();
            return match surface {
                Some(surface_id) => Step::Display {
                    action: DisplayAction::ReleaseSurface { surface_id },
                    then: Continuation::Finish,
                },
                None => Step::Done(Ok(VirtioGpuResponse::OkNoData)),
            };
        }
        let (resource_width, resource_height) = match self.resources.get(&resource_id) {
            Some(resource) => resource.dimensions(),
            None => {
                return Step::Done(Err(VirtioGpuResponse::ErrInvalidResourceId));
            },
        };
        match self.cursor.surface_id {
            None => Step::Display {
                action: DisplayAction::CreateSurface {
                    parent_surface_id: self.scanout.surface_id,
                    width: resource_width,
                    height: resource_height,
                },
                then: Continuation::CursorSurface {
                    resource_id,
                    x,
                    y,
                    width: resource_width,
                    height: resource_height,
                },
            },
            Some(surface_id) => {
                self.cursor = Binding::bound(resource_id, surface_id);
                Step::Display {
                    action: DisplayAction::SetPosition { surface_id, x, y },
                    then: Continuation::CursorPresent {
                        resource_id,
                        surface_id,
                        width: resource_width,
                        height: resource_height,
                    },
                }
            },
        }
    }

    /// Whether `resume` asks the renderer, given what is left of the command and what the
    /// display answered: it does to copy a resource into a framebuffer that was handed over.
    pub open spec fn asks_renderer(then: Continuation, event: DisplayEvent) -> bool {
        event is Framebuffer && (then is CursorCopy || then is FlushCopy)
    }

    /// Whether a slot can show the resource: it has a record, and its id is not 0, which stands
    /// for no resource.
    pub open spec fn can_show(state: DeviceState, resource_id: u32) -> bool {
        resource_id != 0 && state.resources.contains_key(resource_id)
    }

    /// The state after `resume`: only a surface that was created changes it. The slot that
    /// asked for it is then bound: it shows its resource on the surface.
    pub open spec fn spec_resume_state(
        state: DeviceState,
        then: Continuation,
        event: DisplayEvent,
    ) -> DeviceState {
        match (then, event) {
            (
                Continuation::CursorSurface { resource_id, .. },
                DisplayEvent::SurfaceCreated(surface_id),
            ) => if Self::can_show(state, resource_id) {
                state.with_cursor(resource_id, surface_id)
            } else {
                state
            },
            (
                Continuation::ScanoutSurface { resource_id },
                DisplayEvent::SurfaceCreated(surface_id),
            ) => if Self::can_show(state, resource_id) {
                state.with_scanout(resource_id, surface_id)
            } else {
                state
            },
            _ => state,
        }
    }

    /// What `resume` returns where it does not ask the renderer.
    ///
    /// An action without an answer is followed by what is left. The scanout shows its resource
    /// on its new surface, and the command succeeds; the cursor's new surface is moved to its
    /// place; a surface that could not be created ends the command with the display's message,
    /// and one that was created for a resource that cannot be shown goes back to the display
    /// before the command ends with `ErrInvalidResourceId`. The cursor's pixels are copied into
    /// its framebuffer, so the framebuffer is asked for; a cursor without a framebuffer is flipped as it is. A surface
    /// whose next buffer is in use is skipped; else a region of the display's size is asked
    /// for, and a surface without a framebuffer ends the command with `ErrUnspec`. An event
    /// that is no answer to the pending action ends the command with `ErrUnspec` too.
    pub open spec fn spec_resume(state: DeviceState, then: Continuation, event: DisplayEvent) -> Step
        recommends
            !Self::asks_renderer(then, event),
    {
        match then {
            Continuation::Finish => Step::Done(Ok(VirtioGpuResponse::OkNoData)),
            Continuation::Commit { surface_id } => Step::Display {
                action: DisplayAction::Commit { surface_id },
                then: Continuation::Finish,
            },
            Continuation::Release { surface_id } => Step::Display {
                action: DisplayAction::ReleaseSurface { surface_id },
                then: Continuation::Finish,
            },
            Continuation::Refuse => Step::Done(Err(VirtioGpuResponse::ErrInvalidResourceId)),
            Continuation::ScanoutSurface { resource_id } => match event {
                DisplayEvent::SurfaceCreated(surface_id) => if Self::can_show(state, resource_id) {
                    Step::Done(Ok(VirtioGpuResponse::OkNoData))
                } else {
                    Step::Display {
                        action: DisplayAction::ReleaseSurface { surface_id },
                        then: Continuation::Refuse,
                    }
                },
                DisplayEvent::SurfaceFailed(message) => Step::Done(
                    Err(VirtioGpuResponse::DisplayErr(message)),
                ),
                _ => Step::Done(Err(VirtioGpuResponse::ErrUnspec)),
            },
            Continuation::CursorSurface { resource_id, x, y, width, height } => match event {
                DisplayEvent::SurfaceCreated(surface_id) => if Self::can_show(state, resource_id) {
                    Step::Display {
                        action: DisplayAction::SetPosition { surface_id, x, y },
                        then: Continuation::CursorPresent {
                            resource_id,
                            surface_id,
                            width,
                            height,
                        },
                    }
                } else {
                    Step::Display {
                        action: DisplayAction::ReleaseSurface { surface_id },
                        then: Continuation::Refuse,
                    }
                },
                DisplayEvent::SurfaceFailed(message) => Step::Done(
                    Err(VirtioGpuResponse::DisplayErr(message)),
                ),
                _ => Step::Done(Err(VirtioGpuResponse::ErrUnspec)),
            },
            Continuation::CursorPresent { resource_id, surface_id, width, height } => Step::Display {
                action: DisplayAction::Framebuffer { surface_id },
                then: Continuation::CursorCopy { resource_id, surface_id, width, height },
            },
            Continuation::CursorCopy { surface_id, .. } => match event {
                DisplayEvent::NoFramebuffer => Step::Display {
                    action: DisplayAction::Flip { surface_id },
                    then: Continuation::Finish,
                },
                _ => Step::Done(Err(VirtioGpuResponse::ErrUnspec)),
            },
            Continuation::FlushBuffer { resource_id, surface_id, next } => match event {
                DisplayEvent::BufferInUse(true) => Self::spec_flush_next(state, resource_id, next),
                DisplayEvent::BufferInUse(false) => Step::Display {
                    action: DisplayAction::FramebufferRegion {
                        surface_id,
                        x: 0,
                        y: 0,
                        width: state.display_width,
                        height: state.display_height,
                    },
                    then: Continuation::FlushCopy { resource_id, surface_id, next },
                },
                _ => Step::Done(Err(VirtioGpuResponse::ErrUnspec)),
            },
            Continuation::FlushCopy { .. } => Step::Done(Err(VirtioGpuResponse::ErrUnspec)),
            Continuation::FlushNext { resource_id, next } => Self::spec_flush_next(
                state,
                resource_id,
                next,
            ),
        }
    }

    /// What follows once a surface is done with: the resource is shown on the next surface,
    /// where there is one.
    pub open spec fn spec_flush_next(state: DeviceState, resource_id: u32, next: Option<u32>) -> Step {
        match next {
            Some(surface_id) => Self::spec_flush_start(state, resource_id, surface_id, None),
            None => Step::Done(Ok(VirtioGpuResponse::OkNoData)),
        }
    }

    /// The box that `resume` asks the renderer to copy, where it asks: the whole cursor for the
    /// cursor, a region of the display's size for a flush; in a buffer with rows of `stride`
    /// bytes.
    pub open spec fn spec_copy_box(state: DeviceState, then: Continuation, stride: u32) -> TransferBox {
        match then {
            Continuation::CursorCopy { width, height, .. } => present_box(width, height, stride),
            _ => present_box(state.display_width, state.display_height, stride),
        }
    }

    /// What follows a copy that the renderer made.
    pub open spec fn spec_after_copy(then: Continuation) -> Step {
        match then {
            Continuation::CursorCopy { surface_id, .. } => Step::Display {
                action: DisplayAction::Flip { surface_id },
                then: Continuation::Finish,
            },
            Continuation::FlushCopy { resource_id, surface_id, next } => Step::Display {
                action: DisplayAction::Flip { surface_id },
                then: Continuation::FlushNext { resource_id, next },
            },
            _ => Step::Done(Err(VirtioGpuResponse::ErrUnspec)),
        }
    }

    fn flush_next(&mut self, resource_id: u32, next: Option<u32>) -> (step: Step)
        ensures
            step == Self::spec_flush_next(old(self)@, resource_id, next),
            final(self)@ == old(self)@,
    {
        match next {
            Some(surface_id) => self.flush_start(resource_id, surface_id, None),
            None => Step::Done(Ok(VirtioGpuResponse::OkNoData)),
        }
    }

    fn copy_to_framebuffer(
        &mut self,
        resource_id: u32,
        surface_id: u32,
        transfer: TransferBox,
        then: Continuation,
        framebuffer: &mut [u8],
    ) -> (step: Step)
        ensures
            !transfer.fits_read() ==> step == Step::Done(Err(VirtioGpuResponse::ErrInvalidParameter)),
            transfer.fits_read() ==> step == (Step::Display {
                action: DisplayAction::Flip { surface_id },
                then,
            }) || step matches Step::Done(Err(VirtioGpuResponse::RutabagaError(_))),
            final(self)@ == old(self)@,
    {
        if !transfer.check_fits_read() {
            return Step::Done(Err(VirtioGpuResponse::ErrInvalidParameter));
        }
        let copied = renderer_transfer_read(
            &mut self.rutabaga,
            0,
            resource_id,
            transfer,
            Some(framebuffer),
        );
        step_after_copy(copied, surface_id, then)
    }

    /// Goes on with a command once the display has performed the action that the last step
    /// asked for: `then` is what that step left, `event` what the display answered, and
    /// `framebuffer` the framebuffer's bytes where the event hands one over (and empty else).
    ///
    /// Where the renderer is not asked, the step is `spec_resume`. Where it is, the resource is
    /// copied into the framebuffer: a box that the renderer cannot take ends the command with
    /// `ErrInvalidParameter`; else the renderer decides, and the surface is flipped where the
    /// copy was made. Every step leaves fewer display actions to come than the one before.
    pub fn resume(&mut self, then: Continuation, event: DisplayEvent, framebuffer: &mut [u8]) -> (step:
        Step)
        ensures
            final(self)@ == Self::spec_resume_state(old(self)@, then, event),
            !Self::asks_renderer(then, event) ==> step == Self::spec_resume(old(self)@, then, event),
            Self::asks_renderer(then, event) ==> match event {
                DisplayEvent::Framebuffer { stride } => {
                    let transfer = Self::spec_copy_box(old(self)@, then, stride);
                    if transfer.fits_read() {
                        step == Self::spec_after_copy(then) || step matches Step::Done(
                            Err(VirtioGpuResponse::RutabagaError(_)),
                        )
                    } else {
                        step == Step::Done(Err(VirtioGpuResponse::ErrInvalidParameter))
                    }
                },
                _ => false,
            },
            step.actions_left() <= then.actions_left(),
            final(self)@.two_state(),
    {
        proof {
            use_type_invariant(&self.scanout);
            use_type_invariant(&self.cursor);
        }
        match then {
            Continuation::Finish => Step::Done(Ok(VirtioGpuResponse::OkNoData)),
            Continuation::Commit { surface_id } => Step::Display {
                action: DisplayAction::Commit { surface_id },
                then: Continuation::Finish,
            },
            Continuation::Release { surface_id } => Step::Display {
                action: DisplayAction::ReleaseSurface { surface_id },
                then: Continuation::Finish,
            },
            Continuation::Refuse => Step::Done(Err(VirtioGpuResponse::ErrInvalidResourceId)),
            Continuation::ScanoutSurface { resource_id } => match event {
                DisplayEvent::SurfaceCreated(surface_id) => {
                    if resource_id != 0 && self.resources.contains_key(&resource_id) {
                        self.scanout = Binding::bound(resource_id, surface_id);
                        Step::Done(Ok(VirtioGpuResponse::OkNoData))
                    } else {
                        Step::Display {
                            action: DisplayAction::ReleaseSurface { surface_id },
                            then: Continuation::Refuse,
                        }
                    }
                },
                DisplayEvent::SurfaceFailed(message) => Step::Done(
                    Err(VirtioGpuResponse::DisplayErr(message)),
                ),
                _ => Step::Done(Err(VirtioGpuResponse::ErrUnspec)),
            },
            Continuation::CursorSurface { resource_id, x, y, width, height } => match event {
                DisplayEvent::SurfaceCreated(surface_id) => {
                    if resource_id != 0 && self.resources.contains_key(&resource_id) {
                        self.cursor = Binding::bound(resource_id, surface_id);
                        Step::Display {
                            action: DisplayAction::SetPosition { surface_id, x, y },
                            then: Continuation::CursorPresent {
                                resource_id,
                                surface_id,
                                width,
                                height,
                            },
                        }
                    } else {
                        Step::Display {
                            action: DisplayAction::ReleaseSurface { surface_id },
                            then: Continuation::Refuse,
                        }
                    }
                },
                DisplayEvent::SurfaceFailed(message) => Step::Done(
                    Err(VirtioGpuResponse::DisplayErr(message)),
                ),
                _ => Step::Done(Err(VirtioGpuResponse::ErrUnspec)),
            },
            Continuation::CursorPresent { resource_id, surface_id, width, height } => {
                // Gets the resource's pixels into the display by importing the buffer.
                if let Some(import_id) = self.import_to_display(resource_id) {
                    return Step::Display {
                        action: DisplayAction::FlipTo { surface_id, import_id },
                        then: Continuation::Finish,
                    };
                }
                // Importing failed, so try copying the pixels into the surface's slower shared
                // memory framebuffer.
                Step::Display {
                    action: DisplayAction::Framebuffer { surface_id },
                    then: Continuation::CursorCopy { resource_id, surface_id, width, height },
                }
            },
            Continuation::CursorCopy { resource_id, surface_id, width, height } => match event {
                DisplayEvent::Framebuffer { stride } => {
                    let transfer = copy_box(width, height, stride);
                    self.copy_to_framebuffer(
                        resource_id,
                        surface_id,
                        transfer,
                        Continuation::Finish,
                        framebuffer,
                    )
                },
                DisplayEvent::NoFramebuffer => Step::Display {
                    action: DisplayAction::Flip { surface_id },
                    then: Continuation::Finish,
                },
                _ => Step::Done(Err(VirtioGpuResponse::ErrUnspec)),
            },
            Continuation::FlushBuffer { resource_id, surface_id, next } => match event {
                // Prevent overwriting a buffer that is currently being used by the compositor.
                DisplayEvent::BufferInUse(true) => self.flush_next(resource_id, next),
                DisplayEvent::BufferInUse(false) => Step::Display {
                    action: DisplayAction::FramebufferRegion {
                        surface_id,
                        x: 0,
                        y: 0,
                        width: self.display_width,
                        height: self.display_height,
                    },
                    then: Continuation::FlushCopy { resource_id, surface_id, next },
                },
                _ => Step::Done(Err(VirtioGpuResponse::ErrUnspec)),
            },
            Continuation::FlushCopy { resource_id, surface_id, next } => match event {
                DisplayEvent::Framebuffer { stride } => {
                    let transfer = copy_box(self.display_width, self.display_height, stride);
                    self.copy_to_framebuffer(
                        resource_id,
                        surface_id,
                        transfer,
                        Continuation::FlushNext { resource_id, next },
                        framebuffer,
                    )
                },
                _ => Step::Done(Err(VirtioGpuResponse::ErrUnspec)),
            },
            Continuation::FlushNext { resource_id, next } => self.flush_next(resource_id, next),
        }
    }

    /// Lets the renderer look for fences that were reached. It hands each to the fence handler
    /// that the device was made with.
    pub fn fence_poll(&mut self)
        ensures
            final(self)@ == old(self)@,
    {
        self.rutabaga.event_poll()
    }

    /// Makes the renderer use its default context.
    pub fn force_ctx_0(&mut self)
        ensures
            final(self)@ == old(self)@,
    {
        self.rutabaga.force_ctx_0()
    }

    /// Creates a fence.
    ///
    /// A fence that the renderer cannot take is refused with `ErrInvalidParameter`; else the
    /// renderer decides, and creates a fence on a ring only in a context that it holds.
    pub fn create_fence(&mut self, request_fence_data: Fence) -> (r: VirtioGpuResponseResult)
        ensures
            !request_fence_data.fits() ==> r == Err::<VirtioGpuResponse, VirtioGpuResponse>(
                VirtioGpuResponse::ErrInvalidParameter,
            ),
            request_fence_data.fits() ==> {
                &&& r matches Ok(response) ==> response == VirtioGpuResponse::OkNoData
                &&& r matches Err(e) ==> e is RutabagaError
            },
            r is Ok && request_fence_data.on_ring() ==> old(self)@.renderer_contexts.contains(
                request_fence_data.ctx_id,
            ),
            final(self)@ == old(self)@,
    {
        if !request_fence_data.check_fits() {
            return Err(VirtioGpuResponse::ErrInvalidParameter);
        }
        let done = renderer_create_fence(&mut self.rutabaga, request_fence_data);
        reply_of_renderer(done)
    }
}

} // verus!
