//! The renderer, as the `rutabaga_gfx` crate gives it: the values that the device hands to it,
//! and the calls that the device makes.
//!
//! The renderer keeps a table of resources and a table of contexts, each by id. Which ids the
//! tables hold is named here, and each call says what it does to them, as far as the
//! renderer's source shows it. What else a call answers depends on the renderer's component,
//! which the device does not see: of that nothing is promised, and the device is verified for
//! every answer.

use vstd::prelude::*;
use std::io::IoSliceMut;
use rutabaga_gfx::Resource3DInfo;
use rutabaga_gfx::ResourceCreate3D;
use rutabaga_gfx::Rutabaga;
use rutabaga_gfx::RutabagaBuilder;
use rutabaga_gfx::RutabagaComponentType;
use rutabaga_gfx::RutabagaError;
use rutabaga_gfx::RutabagaFence;
use rutabaga_gfx::RutabagaHandler;
use rutabaga_gfx::RutabagaIovec;
use rutabaga_gfx::RutabagaResult;
use rutabaga_gfx::Transfer3D;
use crate::virtio_gpu::GpuMode;

verus! {

/// The renderer's name for a 2D texture as a resource's target.
pub const PIPE_TEXTURE_2D: u32 = 2;

/// The renderer's name for a render target as a resource's binding.
pub const PIPE_BIND_RENDER_TARGET: u32 = 2;

/// What the renderer is told of a resource to create, 2D or 3D.
#[derive(Debug, Clone, Copy, PartialEq, Eq)]
pub struct ResourceParams {
    pub target: u32,
    pub format: u32,
    pub bind: u32,
    pub width: u32,
    pub height: u32,
    pub depth: u32,
    pub array_size: u32,
    pub last_level: u32,
    pub nr_samples: u32,
    pub flags: u32,
}

impl ResourceParams {
    /// Whether the renderer can take a resource of this size. Its 2D component keeps four bytes
    /// for each pixel in one allocation, and computes the length of a row in `u32`.
    pub open spec fn fits(&self) -> bool {
        &&& 4 * self.width <= u32::MAX
        &&& 4 * self.width * self.height <= isize::MAX
    }

    /// Whether the renderer can take a resource of this size.
    pub fn check_fits(&self) -> (r: bool)
        ensures
            r == self.fits(),
    {
        if self.width > u32::MAX / 4 {
            return false;
        }
        let row: u64 = 4 * (self.width as u64);
        let limit: u64 = isize::MAX as u64;
        if self.height == 0 {
            assert(4 * self.width * self.height == 0) by (nonlinear_arith)
                requires
                    self.height == 0,
            ;
            return true;
        }
        let fits = row <= limit / (self.height as u64);
        assert(fits == (4 * self.width * self.height <= isize::MAX)) by (nonlinear_arith)
            requires
                row == 4 * self.width,
                limit == isize::MAX,
                self.height > 0,
                fits == (row <= limit / (self.height as u64)),
        ;
        fits
    }
}

/// The box that a transfer moves, and where it stands in the resource's memory.
#[derive(Debug, Clone, Copy, PartialEq, Eq)]
pub struct TransferBox {
    pub x: u32,
    pub y: u32,
    pub z: u32,
    pub w: u32,
    pub h: u32,
    pub d: u32,
    pub level: u32,
    pub stride: u32,
    pub layer_stride: u32,
    pub offset: u64,
}

impl TransferBox {
    /// The flat box of `w` by `h` at `(x, y)`: no displacement on the Z axis, unit depth, and
    /// nothing else set.
    pub open spec fn spec_new_2d(x: u32, y: u32, w: u32, h: u32) -> TransferBox {
        TransferBox { x, y, z: 0, w, h, d: 1, level: 0, stride: 0, layer_stride: 0, offset: 0 }
    }

    /// The flat box of `w` by `h` at `(x, y)`.
    pub fn new_2d(x: u32, y: u32, w: u32, h: u32) -> (t: TransferBox)
        ensures
            t == Self::spec_new_2d(x, y, w, h),
    {
        TransferBox { x, y, z: 0, w, h, d: 1, level: 0, stride: 0, layer_stride: 0, offset: 0 }
    }

    /// Whether the renderer can read this box out of a resource into a buffer with rows of
    /// `stride` bytes: the last byte's place in the buffer, at four bytes for each pixel, must
    /// be a `u64`.
    pub open spec fn fits_read(&self) -> bool {
        (self.y + self.h) * self.stride + 4 * (self.x + self.w) <= u64::MAX
    }

    /// Whether the renderer can write this box into a resource from the resource's backing at
    /// `offset`: the offset must leave room for the largest resource, `isize::MAX` bytes.
    pub open spec fn fits_write(&self) -> bool {
        self.offset <= i64::MAX
    }

    /// Whether the renderer can read this box out of a resource.
    pub fn check_fits_read(&self) -> (r: bool)
        ensures
            r == self.fits_read(),
    {
        let rows: u128 = self.y as u128 + self.h as u128;
        let columns: u128 = self.x as u128 + self.w as u128;
        assert(rows * (self.stride as u128) <= 0x2_0000_0000 * 0x1_0000_0000) by (nonlinear_arith)
            requires
                rows <= 0x2_0000_0000,
                self.stride <= 0x1_0000_0000,
        ;
        let end: u128 = rows * (self.stride as u128) + 4 * columns;
        end <= u64::MAX as u128
    }

    /// Whether the renderer can write this box into a resource.
    pub fn check_fits_write(&self) -> (r: bool)
        ensures
            r == self.fits_write(),
    {
        self.offset <= i64::MAX as u64
    }
}

/// Flag of a fence: the guest asked for the fence.
pub const FLAG_FENCE: u32 = 0x1;

/// Flag of a fence: the fence is made on a ring of its context, not by the renderer's
/// component.
pub const FLAG_INFO_RING_IDX: u32 = 0x2;

/// Flag of a fence: the host may share the fence.
pub const FLAG_FENCE_HOST_SHAREABLE: u32 = 0x4;

/// A fence to create: a mark in a stream of commands, to be told of once the commands before
/// it are done.
#[derive(Debug, Clone, Copy, PartialEq, Eq)]
pub struct Fence {
    pub flags: u32,
    pub fence_id: u64,
    pub ctx_id: u32,
    pub ring_idx: u8,
}

impl Fence {
    /// Whether the fence is made on a ring of its context.
    pub open spec fn on_ring(&self) -> bool {
        self.flags & FLAG_INFO_RING_IDX != 0
    }

    /// Whether the host may share the fence.
    pub open spec fn shareable(&self) -> bool {
        self.flags & FLAG_FENCE_HOST_SHAREABLE != 0
    }

    /// Whether the renderer can take the fence. It takes for granted that a context hands out
    /// a handle for every shareable fence on one of its rings, which its contexts do not, so
    /// a fence on a ring must not be shareable.
    pub open spec fn fits(&self) -> bool {
        !(self.on_ring() && self.shareable())
    }

    /// Whether the renderer can take the fence.
    pub fn check_fits(&self) -> (r: bool)
        ensures
            r == self.fits(),
    {
        !(self.flags & FLAG_INFO_RING_IDX != 0 && self.flags & FLAG_FENCE_HOST_SHAREABLE != 0)
    }
}

/// `rutabaga_gfx::Rutabaga`: the renderer. Opaque here.
#[verifier::external_type_specification]
#[verifier::external_body]
pub struct ExRutabaga(Rutabaga);

/// `rutabaga_gfx::RutabagaError`: why the renderer failed. Opaque here.
#[verifier::external_type_specification]
#[verifier::external_body]
pub struct ExRutabagaError(RutabagaError);

/// `rutabaga_gfx::RutabagaIovec`: the host address and length of a buffer. Opaque here.
#[verifier::external_type_specification]
#[verifier::external_body]
pub struct ExRutabagaIovec(RutabagaIovec);

/// `rutabaga_gfx::RutabagaFence`: a fence that was reached, as the fence handler is told of
/// it. Opaque here.
#[verifier::external_type_specification]
#[verifier::external_body]
pub struct ExRutabagaFence(RutabagaFence);

/// `rutabaga_gfx::RutabagaHandler`: a callback that the renderer keeps. Opaque here.
#[verifier::external_type_specification]
#[verifier::external_body]
#[verifier::reject_recursive_types(S)]
pub struct ExRutabagaHandler<S>(RutabagaHandler<S>);

/// `rutabaga_gfx::Resource3DInfo`: what the renderer knows of a 3D resource. Opaque here.
#[verifier::external_type_specification]
#[verifier::external_body]
pub struct ExResource3DInfo(Resource3DInfo);

/// The ids of the resources that the renderer holds: the keys of the table that
/// `Rutabaga::resource_create_3d` fills and `Rutabaga::unref_resource` empties.
pub uninterp spec fn renderer_resources(rutabaga: Rutabaga) -> Set<u32>;

/// The ids of the contexts that the renderer holds: the keys of the table that
/// `Rutabaga::create_context` fills and `Rutabaga::destroy_context` empties.
pub uninterp spec fn renderer_contexts(rutabaga: Rutabaga) -> Set<u32>;

/// Builds the renderer: calls `RutabagaBuilder::new` with no capability set chosen and with a
/// clone of `fence_handler`, sets the default component after `mode` and the three flags, and
/// calls `build`.
///
/// Claimed: a renderer that is built holds no resource and no context. Nothing is claimed of
/// whether it is built.
#[verifier::external_body]
pub(crate) fn build_renderer(
    mode: GpuMode,
    use_egl: bool,
    use_gles: bool,
    use_surfaceless: bool,
    fence_handler: &RutabagaHandler<RutabagaFence>,
) -> (r: Result<Rutabaga, RutabagaError>)
    ensures
        r matches Ok(rutabaga) ==> renderer_resources(rutabaga) == Set::<u32>::empty()
            && renderer_contexts(rutabaga) == Set::<u32>::empty(),
{
    let component = match mode {
        GpuMode::Mode2D => RutabagaComponentType::Rutabaga2D,
        GpuMode::Mode3D => RutabagaComponentType::VirglRenderer,
    };
    RutabagaBuilder::new(0, fence_handler.clone())
        .set_default_component(component)
        .set_use_egl(use_egl)
        .set_use_gles(use_gles)
        .set_use_surfaceless(use_surfaceless)
        .build()
}

/// Calls `Rutabaga::resource_create_3d` with `params`, field for field.
///
/// Claimed: the renderer refuses an id that it holds; a resource that is created stands in its
/// table under `resource_id`; a failure leaves the table as it was; the contexts stay. Nothing
/// is claimed of whether a new id is accepted. The size must fit: the 2D component multiplies
/// the width by four in `u32`, and allocates four bytes for each pixel in one vector. Whether
/// the machine has that much memory is not for a contract to say.
#[verifier::external_body]
pub(crate) fn renderer_resource_create_3d(
    rutabaga: &mut Rutabaga,
    resource_id: u32,
    params: ResourceParams,
) -> (r: Result<(), RutabagaError>)
    requires
        params.fits(),
    ensures
        r is Ok ==> !renderer_resources(*old(rutabaga)).contains(resource_id),
        renderer_resources(*final(rutabaga)) == if r is Ok {
            renderer_resources(*old(rutabaga)).insert(resource_id)
        } else {
            renderer_resources(*old(rutabaga))
        },
        renderer_contexts(*final(rutabaga)) == renderer_contexts(*old(rutabaga)),
{
    let resource_create_3d = ResourceCreate3D {
        target: params.target,
        format: params.format,
        bind: params.bind,
        width: params.width,
        height: params.height,
        depth: params.depth,
        array_size: params.array_size,
        last_level: params.last_level,
        nr_samples: params.nr_samples,
        flags: params.flags,
    };
    rutabaga.resource_create_3d(resource_id, resource_create_3d)
}

/// `Rutabaga::resource3d_info`: what the renderer knows of the 3D resource `resource_id`.
/// Nothing is claimed of the result.
pub assume_specification[ Rutabaga::resource3d_info ](
    rutabaga: &Rutabaga,
    resource_id: u32,
) -> RutabagaResult<Resource3DInfo>
;

/// `Rutabaga::unref_resource`: releases the guest's reference on the resource.
///
/// Claimed: only a resource that the renderer holds is released, and it leaves the table; a
/// failure leaves the table as it was; the contexts stay. Nothing is claimed of whether a
/// resource that the renderer holds is released.
pub assume_specification[ Rutabaga::unref_resource ](
    rutabaga: &mut Rutabaga,
    resource_id: u32,
) -> (r: RutabagaResult<()>)
    ensures
        r is Ok ==> renderer_resources(*old(rutabaga)).contains(resource_id),
        renderer_resources(*final(rutabaga)) == if r is Ok {
            renderer_resources(*old(rutabaga)).remove(resource_id)
        } else {
            renderer_resources(*old(rutabaga))
        },
        renderer_contexts(*final(rutabaga)) == renderer_contexts(*old(rutabaga)),
;

/// Calls `Rutabaga::create_context` for a context without a name.
///
/// Claimed: the renderer refuses an id that it holds; a context that is created stands in its
/// table under `ctx_id`; a failure leaves the table as it was; the resources stay. Nothing is
/// claimed of whether a new id is accepted.
#[verifier::external_body]
pub(crate) fn renderer_create_context(
    rutabaga: &mut Rutabaga,
    ctx_id: u32,
    context_init: u32,
) -> (r: Result<(), RutabagaError>)
    ensures
        r is Ok ==> !renderer_contexts(*old(rutabaga)).contains(ctx_id),
        renderer_contexts(*final(rutabaga)) == if r is Ok {
            renderer_contexts(*old(rutabaga)).insert(ctx_id)
        } else {
            renderer_contexts(*old(rutabaga))
        },
        renderer_resources(*final(rutabaga)) == renderer_resources(*old(rutabaga)),
{
    rutabaga.create_context(ctx_id, context_init, None)
}

/// `Rutabaga::destroy_context`: destroys the context `ctx_id`.
///
/// Claimed: it succeeds exactly for a context that the renderer holds, which then leaves the
/// table; the resources stay.
pub assume_specification[ Rutabaga::destroy_context ](
    rutabaga: &mut Rutabaga,
    ctx_id: u32,
) -> (r: RutabagaResult<()>)
    ensures
        r is Ok <==> renderer_contexts(*old(rutabaga)).contains(ctx_id),
        renderer_contexts(*final(rutabaga)) == renderer_contexts(*old(rutabaga)).remove(ctx_id),
        renderer_resources(*final(rutabaga)) == renderer_resources(*old(rutabaga)),
;

/// `Rutabaga::get_capset_info`: the capability set at `index`, as its id, version and size.
/// Nothing is claimed of the result.
pub assume_specification[ Rutabaga::get_capset_info ](
    rutabaga: &Rutabaga,
    index: u32,
) -> RutabagaResult<(u32, u32, u32)>
;

/// `Rutabaga::get_capset`: the bytes of the capability set `capset_id` in `version`. Nothing is
/// claimed of the result.
pub assume_specification[ Rutabaga::get_capset ](
    rutabaga: &Rutabaga,
    capset_id: u32,
    version: u32,
) -> RutabagaResult<Vec<u8>>
;

/// `Rutabaga::attach_backing`: attaches `vecs` to the resource.
///
/// Claimed: it succeeds only for a resource that the renderer holds; both tables stay.
pub assume_specification[ Rutabaga::attach_backing ](
    rutabaga: &mut Rutabaga,
    resource_id: u32,
    vecs: Vec<RutabagaIovec>,
) -> (r: RutabagaResult<()>)
    ensures
        r is Ok ==> renderer_resources(*old(rutabaga)).contains(resource_id),
        renderer_resources(*final(rutabaga)) == renderer_resources(*old(rutabaga)),
        renderer_contexts(*final(rutabaga)) == renderer_contexts(*old(rutabaga)),
;

/// `Rutabaga::detach_backing`: detaches what was attached to the resource.
///
/// Claimed: it succeeds only for a resource that the renderer holds; both tables stay.
pub assume_specification[ Rutabaga::detach_backing ](
    rutabaga: &mut Rutabaga,
    resource_id: u32,
) -> (r: RutabagaResult<()>)
    ensures
        r is Ok ==> renderer_resources(*old(rutabaga)).contains(resource_id),
        renderer_resources(*final(rutabaga)) == renderer_resources(*old(rutabaga)),
        renderer_contexts(*final(rutabaga)) == renderer_contexts(*old(rutabaga)),
;

/// `Rutabaga::context_attach_resource`: attaches the resource to the context.
///
/// Claimed: it succeeds exactly where the renderer holds both the context and the resource;
/// both tables stay.
pub assume_specification[ Rutabaga::context_attach_resource ](
    rutabaga: &mut Rutabaga,
    ctx_id: u32,
    resource_id: u32,
) -> (r: RutabagaResult<()>)
    ensures
        r is Ok <==> renderer_contexts(*old(rutabaga)).contains(ctx_id) && renderer_resources(
            *old(rutabaga),
        ).contains(resource_id),
        renderer_resources(*final(rutabaga)) == renderer_resources(*old(rutabaga)),
        renderer_contexts(*final(rutabaga)) == renderer_contexts(*old(rutabaga)),
;

/// `Rutabaga::context_detach_resource`: detaches the resource from the context.
///
/// Claimed: it succeeds exactly where the renderer holds both the context and the resource;
/// both tables stay.
pub assume_specification[ Rutabaga::context_detach_resource ](
    rutabaga: &mut Rutabaga,
    ctx_id: u32,
    resource_id: u32,
) -> (r: RutabagaResult<()>)
    ensures
        r is Ok <==> renderer_contexts(*old(rutabaga)).contains(ctx_id) && renderer_resources(
            *old(rutabaga),
        ).contains(resource_id),
        renderer_resources(*final(rutabaga)) == renderer_resources(*old(rutabaga)),
        renderer_contexts(*final(rutabaga)) == renderer_contexts(*old(rutabaga)),
;

/// Calls `Rutabaga::submit_command` with `commands` and no fences.
///
/// Claimed: it succeeds only for a context that the renderer holds; both tables stay. Nothing
/// is claimed of what is left in `commands`.
#[verifier::external_body]
pub(crate) fn renderer_submit_command(
    rutabaga: &mut Rutabaga,
    ctx_id: u32,
    commands: &mut [u8],
) -> (r: Result<(), RutabagaError>)
    ensures
        r is Ok ==> renderer_contexts(*old(rutabaga)).contains(ctx_id),
        renderer_resources(*final(rutabaga)) == renderer_resources(*old(rutabaga)),
        renderer_contexts(*final(rutabaga)) == renderer_contexts(*old(rutabaga)),
{
    rutabaga.submit_command(ctx_id, commands, &[])
}

/// Calls `Rutabaga::transfer_write` with `transfer`, field for field, and no buffer: the
/// resource is written from its backing.
///
/// Claimed: it succeeds only for a resource that the renderer holds; both tables stay. The
/// offset must fit: the 2D component adds to it, in `u64`, the place of a byte within the
/// resource.
#[verifier::external_body]
pub(crate) fn renderer_transfer_write(
    rutabaga: &mut Rutabaga,
    ctx_id: u32,
    resource_id: u32,
    transfer: TransferBox,
) -> (r: Result<(), RutabagaError>)
    requires
        transfer.fits_write(),
    ensures
        r is Ok ==> renderer_resources(*old(rutabaga)).contains(resource_id),
        renderer_resources(*final(rutabaga)) == renderer_resources(*old(rutabaga)),
        renderer_contexts(*final(rutabaga)) == renderer_contexts(*old(rutabaga)),
{
    let transfer = Transfer3D {
        x: transfer.x,
        y: transfer.y,
        z: transfer.z,
        w: transfer.w,
        h: transfer.h,
        d: transfer.d,
        level: transfer.level,
        stride: transfer.stride,
        layer_stride: transfer.layer_stride,
        offset: transfer.offset,
    };
    rutabaga.transfer_write(ctx_id, resource_id, transfer, None)
}

/// Calls `Rutabaga::transfer_read` with `transfer`, field for field, and with `buf` as the
/// buffer to read into, where there is one.
///
/// Claimed: it succeeds only for a resource that the renderer holds; both tables stay. Nothing
/// is claimed of what is left in `buf`. The box must fit: the 2D component computes, in `u64`,
/// the place of each of its bytes within the buffer.
#[verifier::external_body]
pub(crate) fn renderer_transfer_read(
    rutabaga: &mut Rutabaga,
    ctx_id: u32,
    resource_id: u32,
    transfer: TransferBox,
    buf: Option<&mut [u8]>,
) -> (r: Result<(), RutabagaError>)
    requires
        transfer.fits_read(),
    ensures
        r is Ok ==> renderer_resources(*old(rutabaga)).contains(resource_id),
        renderer_resources(*final(rutabaga)) == renderer_resources(*old(rutabaga)),
        renderer_contexts(*final(rutabaga)) == renderer_contexts(*old(rutabaga)),
{
    let transfer = Transfer3D {
        x: transfer.x,
        y: transfer.y,
        z: transfer.z,
        w: transfer.w,
        h: transfer.h,
        d: transfer.d,
        level: transfer.level,
        stride: transfer.stride,
        layer_stride: transfer.layer_stride,
        offset: transfer.offset,
    };
    rutabaga.transfer_read(ctx_id, resource_id, transfer, buf.map(IoSliceMut::new))
}

/// `Rutabaga::event_poll`: lets the renderer look for fences that were reached; it hands each
/// to the fence handler it was built with.
pub assume_specification[ Rutabaga::event_poll ](rutabaga: &Rutabaga)
;

/// `Rutabaga::force_ctx_0`: makes the renderer use its default context.
pub assume_specification[ Rutabaga::force_ctx_0 ](rutabaga: &Rutabaga)
;

/// Calls `Rutabaga::create_fence` with `fence`, field for field.
///
/// Claimed: a fence on a ring is created only in a context that the renderer holds; both
/// tables stay. Nothing else is claimed of the result. The fence must fit: for a shareable
/// fence on a ring the renderer unwraps the handle that the context gave, and its contexts
/// may give none.
#[verifier::external_body]
pub(crate) fn renderer_create_fence(rutabaga: &mut Rutabaga, fence: Fence) -> (r: Result<
    (),
    RutabagaError,
>)
    requires
        fence.fits(),
    ensures
        r is Ok && fence.on_ring() ==> renderer_contexts(*old(rutabaga)).contains(fence.ctx_id),
        renderer_resources(*final(rutabaga)) == renderer_resources(*old(rutabaga)),
        renderer_contexts(*final(rutabaga)) == renderer_contexts(*old(rutabaga)),
{
    let fence = RutabagaFence {
        flags: fence.flags,
        fence_id: fence.fence_id,
        ctx_id: fence.ctx_id,
        ring_idx: fence.ring_idx,
    };
    rutabaga.create_fence(fence)
}

} // verus!
