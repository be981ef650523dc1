use std::sync::Arc;
use std::sync::Mutex;

use rutabaga_gfx::RutabagaHandler;
use rutabaga_gfx::RUTABAGA_FLAG_FENCE;
use rutabaga_gfx::RUTABAGA_FLAG_FENCE_HOST_SHAREABLE;
use rutabaga_gfx::RUTABAGA_FLAG_INFO_RING_IDX;
use rutabaga_gfx::RUTABAGA_PIPE_BIND_RENDER_TARGET;
use rutabaga_gfx::RUTABAGA_PIPE_TEXTURE_2D;
use virtio_gpu::display::Continuation;
use virtio_gpu::display::DisplayAction;
use virtio_gpu::display::DisplayEvent;
use virtio_gpu::display::Step;
use virtio_gpu::protocol::virtio_gpu_box;
use virtio_gpu::protocol::virtio_gpu_cmd_get_edid;
use virtio_gpu::protocol::virtio_gpu_cmd_submit;
use virtio_gpu::protocol::virtio_gpu_ctrl_hdr;
use virtio_gpu::protocol::virtio_gpu_ctx_create;
use virtio_gpu::protocol::virtio_gpu_ctx_destroy;
use virtio_gpu::protocol::virtio_gpu_ctx_resource;
use virtio_gpu::protocol::virtio_gpu_cursor_pos;
use virtio_gpu::protocol::virtio_gpu_get_capset;
use virtio_gpu::protocol::virtio_gpu_get_capset_info;
use virtio_gpu::protocol::virtio_gpu_rect;
use virtio_gpu::protocol::virtio_gpu_resource_assign_uuid;
use virtio_gpu::protocol::virtio_gpu_resource_attach_backing;
use virtio_gpu::protocol::virtio_gpu_resource_create_2d;
use virtio_gpu::protocol::virtio_gpu_resource_create_3d;
use virtio_gpu::protocol::virtio_gpu_resource_detach_backing;
use virtio_gpu::protocol::virtio_gpu_resource_flush;
use virtio_gpu::protocol::virtio_gpu_resource_unref;
use virtio_gpu::protocol::virtio_gpu_set_scanout;
use virtio_gpu::protocol::virtio_gpu_transfer_host_3d;
use virtio_gpu::protocol::virtio_gpu_transfer_to_host_2d;
use virtio_gpu::protocol::virtio_gpu_update_cursor;
use virtio_gpu::renderer::Fence;
use virtio_gpu::renderer::ResourceParams;
use virtio_gpu::renderer::TransferBox;
use virtio_gpu::renderer::FLAG_FENCE;
use virtio_gpu::renderer::FLAG_FENCE_HOST_SHAREABLE;
use virtio_gpu::renderer::FLAG_INFO_RING_IDX;
use virtio_gpu::renderer::PIPE_BIND_RENDER_TARGET;
use virtio_gpu::renderer::PIPE_TEXTURE_2D;
use virtio_gpu::virtio_gpu::copy_box;
use virtio_gpu::virtio_gpu::iovecs_of_found;
use virtio_gpu::virtio_gpu::params_2d;
use virtio_gpu::virtio_gpu::params_3d;
use virtio_gpu::virtio_gpu::reply_of_capset;
use virtio_gpu::virtio_gpu::reply_of_capset_info;
use virtio_gpu::virtio_gpu::reply_of_created;
use virtio_gpu::virtio_gpu::reply_of_renderer;
use virtio_gpu::virtio_gpu::reply_of_unref;
use virtio_gpu::virtio_gpu::sglist_to_rutabaga_iovecs;
use virtio_gpu::virtio_gpu::step_after_copy;
use virtio_gpu::virtio_gpu::transfer_host_3d_to_transfer_3d;
use virtio_gpu::virtio_gpu::transfer_to_host_2d_to_transfer_3d;
use virtio_gpu::virtio_gpu::GpuMode;
use virtio_gpu::virtio_gpu::GpuParameter;
use virtio_gpu::virtio_gpu::VirtioGpuResource;
use virtio_gpu::virtio_gpu::EDID_BLOCK;
use rutabaga_gfx::RutabagaError;
use rutabaga_gfx::RutabagaFence;
use rutabaga_gfx::RutabagaIovec;
use virtio_gpu::VirtioGpu;
use virtio_gpu::VirtioGpuResponse;
use vm_memory::Bytes;
use vm_memory::GuestAddress;
use vm_memory::GuestMemoryMmap;

fn gpu_2d(width: u32, height: u32) -> VirtioGpu {
    let parameter = GpuParameter {
        display_width: width,
        display_height: height,
        mode: GpuMode::Mode2D,
        ..Default::default()
    };
    VirtioGpu::new(parameter, RutabagaHandler::new(|_| {})).unwrap()
}

fn hdr() -> virtio_gpu_ctrl_hdr {
    virtio_gpu_ctrl_hdr::default()
}

fn create_2d(gpu: &mut VirtioGpu, resource_id: u32, width: u32, height: u32) {
    let cmd = virtio_gpu_resource_create_2d { hdr: hdr(), resource_id, format: 1, width, height };
    assert!(matches!(gpu.cmd_resource_create_2d(cmd), Ok(VirtioGpuResponse::OkNoData)));
}

fn unref_cmd(resource_id: u32) -> virtio_gpu_resource_unref {
    virtio_gpu_resource_unref { hdr: hdr(), resource_id, padding: 0 }
}

/// Releases the resource on a display that releases what it is asked to release.
fn unref(gpu: &mut VirtioGpu, resource_id: u32) -> Result<VirtioGpuResponse, VirtioGpuResponse> {
    let mut step = gpu.cmd_resource_unref(unref_cmd(resource_id));
    loop {
        step = match step {
            Step::Done(response) => return response,
            Step::Display { action: DisplayAction::ReleaseSurface { .. }, then } => {
                gpu.resume(then, DisplayEvent::Done, &mut [])
            },
            Step::Display { action, .. } => panic!("unexpected action {:?}", action),
        };
    }
}

fn scanout_cmd(scanout_id: u32, resource_id: u32) -> virtio_gpu_set_scanout {
    let r = virtio_gpu_rect { x: 0, y: 0, width: 0, height: 0 };
    virtio_gpu_set_scanout { hdr: hdr(), r, scanout_id, resource_id }
}

/// Sets the scanout on a display that creates the surface `surface_id` when it is asked for
/// one, and releases what it is asked to release.
fn set_scanout(
    gpu: &mut VirtioGpu,
    surface_id: u32,
    resource_id: u32,
) -> Result<VirtioGpuResponse, VirtioGpuResponse> {
    let mut step = gpu.cmd_set_scanout(scanout_cmd(0, resource_id));
    loop {
        step = match step {
            Step::Done(response) => return response,
            Step::Display { action: DisplayAction::CreateSurface { .. }, then } => {
                gpu.resume(then, DisplayEvent::SurfaceCreated(surface_id), &mut [])
            },
            Step::Display { action: DisplayAction::ReleaseSurface { .. }, then } => {
                gpu.resume(then, DisplayEvent::Done, &mut [])
            },
            Step::Display { action, .. } => panic!("unexpected action {:?}", action),
        };
    }
}

fn update_cursor(x: u32, y: u32, resource_id: u32) -> virtio_gpu_update_cursor {
    virtio_gpu_update_cursor {
        hdr: hdr(),
        pos: virtio_gpu_cursor_pos { scanout_id: 0, x, y, padding: 0 },
        resource_id,
        hot_x: 0,
        padding: 0,
    }
}

fn flush(gpu: &mut VirtioGpu, resource_id: u32) -> Step {
    let r = virtio_gpu_rect { x: 0, y: 0, width: 0, height: 0 };
    gpu.cmd_flush_resource(virtio_gpu_resource_flush { hdr: hdr(), r, resource_id, padding: 0 })
}

fn display(step: Step) -> (DisplayAction, Continuation) {
    match step {
        Step::Display { action, then } => (action, then),
        Step::Done(response) => panic!("expected work for the display, got {:?}", response),
    }
}

#[test]
fn test_new_virtio_gpu() {
    let gpu_parameter = GpuParameter { mode: GpuMode::Mode2D, ..Default::default() };
    let virtio_gpu = VirtioGpu::new(gpu_parameter, RutabagaHandler::new(|_| {})).map_err(|e| {
            panic!("Gpu: create new virtio gpu failed, err: {:?}", e);
        }).unwrap();
    assert_eq!(virtio_gpu.display_info(), [(1920, 1080)]);
}

#[test]
fn new_hands_back_the_builders_error() {
    // the 3D renderer is not part of this build of the renderer, which its builder says
    let gpu_parameter: GpuParameter = Default::default();
    assert!(matches!(
        VirtioGpu::new(gpu_parameter, RutabagaHandler::new(|_| {})),
        Err(RutabagaError::InvalidRutabagaBuild)
    ));
    assert!(matches!(
        VirtioGpu::with_renderer(gpu_parameter, Err(RutabagaError::InvalidComponent)),
        Err(RutabagaError::InvalidComponent)
    ));
}

#[test]
fn default_parameter() {
    let p = GpuParameter::default();
    assert_eq!((p.display_width, p.display_height), (1920, 1080));
    assert!(p.renderer_use_egl && p.renderer_use_gles && p.renderer_use_glx);
    assert!(p.renderer_use_surfaceless);
    assert_eq!(p.mode, GpuMode::Mode3D);
}

#[test]
fn new_device_shows_nothing() {
    let gpu = gpu_2d(800, 600);
    assert_eq!(gpu.display_info(), [(800, 600)]);
    assert_eq!(gpu.scanout_resource_id(), None);
    assert_eq!(gpu.scanout_surface_id(), None);
    assert_eq!(gpu.cursor_resource_id(), None);
    assert_eq!(gpu.cursor_surface_id(), None);
    assert!(gpu.resource(1).is_none());
}

#[test]
fn resource_record() {
    let resource = VirtioGpuResource::new(3, 640, 480, 99);
    assert_eq!(resource.dimensions(), (640, 480));
}

#[test]
fn display_info_command() {
    let mut gpu = gpu_2d(1024, 768);
    match gpu.cmd_get_display_info(hdr()) {
        Ok(VirtioGpuResponse::OkDisplayInfo(displays)) => assert_eq!(displays, vec![(1024, 768)]),
        other => panic!("expected display info, got {:?}", other),
    }
}

#[test]
fn resource_lifecycle() {
    let mut gpu = gpu_2d(64, 64);
    create_2d(&mut gpu, 7, 64, 32);
    assert_eq!(gpu.resource(7).unwrap().dimensions(), (64, 32));
    assert!(matches!(unref(&mut gpu, 7), Ok(VirtioGpuResponse::OkNoData)));
    assert!(gpu.resource(7).is_none());
    assert!(matches!(unref(&mut gpu, 7), Err(VirtioGpuResponse::ErrInvalidResourceId)));
    assert!(gpu.resource(7).is_none());
    assert!(matches!(
        set_scanout(&mut gpu, 0, 7),
        Err(VirtioGpuResponse::ErrInvalidResourceId)
    ));
    assert_eq!(gpu.scanout_resource_id(), None);
}

#[test]
fn unref_of_a_resource_never_created() {
    let mut gpu = gpu_2d(64, 64);
    assert!(matches!(unref(&mut gpu, 5), Err(VirtioGpuResponse::ErrInvalidResourceId)));
    // what the device answers, by what the renderer answered and by whether it has a record
    assert!(matches!(reply_of_unref(Ok(()), true), Ok(VirtioGpuResponse::OkNoData)));
    assert!(matches!(
        reply_of_unref(Err(RutabagaError::InvalidComponent), true),
        Err(VirtioGpuResponse::RutabagaError(RutabagaError::InvalidComponent))
    ));
    assert!(matches!(
        reply_of_unref(Ok(()), false),
        Err(VirtioGpuResponse::ErrInvalidResourceId)
    ));
    assert!(matches!(
        reply_of_unref(Err(RutabagaError::InvalidResourceId), false),
        Err(VirtioGpuResponse::ErrInvalidResourceId)
    ));
}

#[test]
fn create_twice_is_refused_by_the_renderer() {
    let mut gpu = gpu_2d(64, 64);
    create_2d(&mut gpu, 7, 8, 8);
    let cmd = virtio_gpu_resource_create_2d { hdr: hdr(), resource_id: 7, format: 1, width: 16, height: 16 };
    assert!(matches!(
        gpu.cmd_resource_create_2d(cmd),
        Err(VirtioGpuResponse::RutabagaError(RutabagaError::InvalidResourceId))
    ));
    assert_eq!(gpu.resource(7).unwrap().dimensions(), (8, 8));
}

#[test]
fn create_3d_records_the_size() {
    let mut gpu = gpu_2d(64, 64);
    let cmd = virtio_gpu_resource_create_3d {
        hdr: hdr(),
        resource_id: 12,
        target: 2,
        format: 1,
        bind: 2,
        width: 20,
        height: 10,
        depth: 1,
        array_size: 1,
        last_level: 0,
        nr_samples: 0,
        flags: 0,
        padding: 0,
    };
    assert!(matches!(gpu.cmd_resource_create_3d(cmd), Ok(VirtioGpuResponse::OkNoData)));
    assert_eq!(gpu.resource(12).unwrap().dimensions(), (20, 10));
}

#[test]
fn create_of_a_size_that_does_not_fit_is_refused() {
    let mut gpu = gpu_2d(64, 64);
    let cmd = virtio_gpu_resource_create_2d {
        hdr: hdr(),
        resource_id: 7,
        format: 1,
        width: 0x4000_0000,
        height: 1,
    };
    assert!(matches!(
        gpu.cmd_resource_create_2d(cmd),
        Err(VirtioGpuResponse::ErrInvalidParameter)
    ));
    assert!(gpu.resource(7).is_none());
    let cmd = virtio_gpu_resource_create_2d {
        hdr: hdr(),
        resource_id: 7,
        format: 1,
        width: 0x3fff_ffff,
        height: u32::MAX,
    };
    assert!(matches!(
        gpu.cmd_resource_create_2d(cmd),
        Err(VirtioGpuResponse::ErrInvalidParameter)
    ));
}

#[test]
fn sizes_that_fit() {
    let params = |width: u32, height: u32| ResourceParams {
        target: PIPE_TEXTURE_2D,
        format: 1,
        bind: PIPE_BIND_RENDER_TARGET,
        width,
        height,
        depth: 1,
        array_size: 1,
        last_level: 0,
        nr_samples: 0,
        flags: 0,
    };
    assert!(params(0, 0).check_fits());
    assert!(params(1920, 1080).check_fits());
    assert!(params(0x3fff_ffff, 0).check_fits());
    assert!(params(0x3fff_ffff, 1).check_fits());
    assert!(!params(0x4000_0000, 0).check_fits());
    assert!(!params(u32::MAX, u32::MAX).check_fits());
    // 4 * 0x2000_0000 * 0x1_0000_0000 is 2^63, one more than the largest allocation
    assert!(params(0x2000_0000, u32::MAX).check_fits());
    assert!(!params(0x3000_0000, u32::MAX).check_fits());
}

#[test]
fn renderer_constants() {
    assert_eq!(PIPE_TEXTURE_2D, RUTABAGA_PIPE_TEXTURE_2D);
    assert_eq!(PIPE_BIND_RENDER_TARGET, RUTABAGA_PIPE_BIND_RENDER_TARGET);
}

#[test]
fn created_replies() {
    assert!(matches!(reply_of_created(false), VirtioGpuResponse::OkNoData));
    assert!(matches!(reply_of_created(true), VirtioGpuResponse::ErrInvalidResourceId));
}

#[test]
fn renderer_replies() {
    assert!(matches!(reply_of_renderer(Ok(())), Ok(VirtioGpuResponse::OkNoData)));
    assert!(matches!(
        reply_of_renderer(Err(RutabagaError::InvalidContextId)),
        Err(VirtioGpuResponse::RutabagaError(RutabagaError::InvalidContextId))
    ));
    match reply_of_capset_info(Ok((1, 2, 3))) {
        Ok(VirtioGpuResponse::OkCapsetInfo { capset_id, version, size }) => {
            assert_eq!((capset_id, version, size), (1, 2, 3));
        },
        other => panic!("expected capset info, got {:?}", other),
    }
    assert!(matches!(
        reply_of_capset_info(Err(RutabagaError::InvalidCapset)),
        Err(VirtioGpuResponse::RutabagaError(RutabagaError::InvalidCapset))
    ));
    match reply_of_capset(Ok(vec![9, 8, 7])) {
        Ok(VirtioGpuResponse::OkCapset(bytes)) => assert_eq!(bytes, vec![9, 8, 7]),
        other => panic!("expected a capset, got {:?}", other),
    }
    assert!(matches!(
        reply_of_capset(Err(RutabagaError::InvalidComponent)),
        Err(VirtioGpuResponse::RutabagaError(RutabagaError::InvalidComponent))
    ));
}

#[test]
fn set_scanout_zero_always_succeeds() {
    let mut gpu = gpu_2d(64, 64);
    // nothing bound
    assert!(matches!(set_scanout(&mut gpu, 3, 0), Ok(VirtioGpuResponse::OkNoData)));
    assert_eq!((gpu.scanout_resource_id(), gpu.scanout_surface_id()), (None, None));
    // bound
    create_2d(&mut gpu, 7, 8, 8);
    assert!(matches!(set_scanout(&mut gpu, 3, 7), Ok(VirtioGpuResponse::OkNoData)));
    assert_eq!((gpu.scanout_resource_id(), gpu.scanout_surface_id()), (Some(7), Some(3)));
    assert!(matches!(set_scanout(&mut gpu, 9, 0), Ok(VirtioGpuResponse::OkNoData)));
    assert_eq!((gpu.scanout_resource_id(), gpu.scanout_surface_id()), (None, None));
    // the resource is gone, and the scanout is unbound with it
    assert!(matches!(set_scanout(&mut gpu, 3, 7), Ok(VirtioGpuResponse::OkNoData)));
    assert!(unref(&mut gpu, 7).is_ok());
    assert_eq!((gpu.scanout_resource_id(), gpu.scanout_surface_id()), (None, None));
    assert!(matches!(set_scanout(&mut gpu, 3, 0), Ok(VirtioGpuResponse::OkNoData)));
    assert_eq!((gpu.scanout_resource_id(), gpu.scanout_surface_id()), (None, None));
}

#[test]
fn set_scanout_asks_the_display_for_its_surface() {
    let mut gpu = gpu_2d(640, 480);
    create_2d(&mut gpu, 7, 8, 8);
    let (action, then) = display(gpu.cmd_set_scanout(scanout_cmd(5, 7)));
    assert_eq!(
        action,
        DisplayAction::CreateSurface { parent_surface_id: None, width: 640, height: 480 }
    );
    assert_eq!(then, Continuation::ScanoutSurface { resource_id: 7 });
    // unbound until the surface is there
    assert_eq!((gpu.scanout_resource_id(), gpu.scanout_surface_id()), (None, None));
    // the display has no surface to give: the scanout stays without one, and asks again
    match gpu.resume(then, DisplayEvent::SurfaceFailed(String::from("no surface")), &mut []) {
        Step::Done(Err(VirtioGpuResponse::DisplayErr(message))) => assert_eq!(message, "no surface"),
        other => panic!("expected the display's failure, got {:?}", other),
    }
    assert_eq!((gpu.scanout_resource_id(), gpu.scanout_surface_id()), (None, None));
    let (_, then) = display(gpu.cmd_set_scanout(scanout_cmd(5, 7)));
    assert!(matches!(
        gpu.resume(then, DisplayEvent::SurfaceCreated(21), &mut []),
        Step::Done(Ok(VirtioGpuResponse::OkNoData))
    ));
    assert_eq!((gpu.scanout_resource_id(), gpu.scanout_surface_id()), (Some(7), Some(21)));
    // the surface is there: the display is asked nothing more
    assert!(matches!(
        gpu.cmd_set_scanout(scanout_cmd(9, 7)),
        Step::Done(Ok(VirtioGpuResponse::OkNoData))
    ));
    assert_eq!(gpu.scanout_surface_id(), Some(21));
    // unbound: the surface goes back to the display
    let (action, then) = display(gpu.cmd_set_scanout(scanout_cmd(5, 0)));
    assert_eq!(action, DisplayAction::ReleaseSurface { surface_id: 21 });
    assert_eq!(then, Continuation::Finish);
    assert_eq!((gpu.scanout_resource_id(), gpu.scanout_surface_id()), (None, None));
    assert!(matches!(
        gpu.resume(then, DisplayEvent::Done, &mut []),
        Step::Done(Ok(VirtioGpuResponse::OkNoData))
    ));
    // an event that answers nothing
    let then = Continuation::ScanoutSurface { resource_id: 7 };
    assert!(matches!(
        gpu.resume(then, DisplayEvent::NoFramebuffer, &mut []),
        Step::Done(Err(VirtioGpuResponse::ErrUnspec))
    ));
    assert_eq!((gpu.scanout_resource_id(), gpu.scanout_surface_id()), (None, None));
}

#[test]
fn a_surface_for_no_resource_goes_back() {
    let mut gpu = gpu_2d(64, 64);
    create_2d(&mut gpu, 7, 8, 8);
    for then in [
        Continuation::ScanoutSurface { resource_id: 99 },
        Continuation::ScanoutSurface { resource_id: 0 },
        Continuation::CursorSurface { resource_id: 99, x: 0, y: 0, width: 8, height: 8 },
    ] {
        let (action, then) = display(gpu.resume(then, DisplayEvent::SurfaceCreated(5), &mut []));
        assert_eq!(action, DisplayAction::ReleaseSurface { surface_id: 5 });
        assert_eq!(then, Continuation::Refuse);
        assert!(matches!(
            gpu.resume(then, DisplayEvent::Done, &mut []),
            Step::Done(Err(VirtioGpuResponse::ErrInvalidResourceId))
        ));
        assert_eq!((gpu.scanout_resource_id(), gpu.scanout_surface_id()), (None, None));
        assert_eq!((gpu.cursor_resource_id(), gpu.cursor_surface_id()), (None, None));
    }
}

#[test]
fn unref_unbinds_the_slots_that_show_the_resource() {
    let mut gpu = gpu_2d(64, 64);
    create_2d(&mut gpu, 7, 8, 8);
    create_2d(&mut gpu, 8, 8, 8);
    assert!(set_scanout(&mut gpu, 1, 7).is_ok());
    let (_, then) = display(gpu.cmd_update_cursor(update_cursor(0, 0, 7)));
    let _ = gpu.resume(then, DisplayEvent::SurfaceCreated(6), &mut []);
    assert_eq!((gpu.scanout_resource_id(), gpu.cursor_resource_id()), (Some(7), Some(7)));
    // another resource: the slots stay, and the display has nothing to do
    assert!(matches!(
        gpu.cmd_resource_unref(unref_cmd(8)),
        Step::Done(Ok(VirtioGpuResponse::OkNoData))
    ));
    assert_eq!((gpu.scanout_resource_id(), gpu.scanout_surface_id()), (Some(7), Some(1)));
    assert_eq!((gpu.cursor_resource_id(), gpu.cursor_surface_id()), (Some(7), Some(6)));
    // the one that is shown: both slots are unbound, and their surfaces go back
    let (action, then) = display(gpu.cmd_resource_unref(unref_cmd(7)));
    assert_eq!(action, DisplayAction::ReleaseSurface { surface_id: 6 });
    assert_eq!(then, Continuation::Release { surface_id: 1 });
    assert_eq!((gpu.scanout_resource_id(), gpu.scanout_surface_id()), (None, None));
    assert_eq!((gpu.cursor_resource_id(), gpu.cursor_surface_id()), (None, None));
    assert!(gpu.resource(7).is_none());
    let (action, then) = display(gpu.resume(then, DisplayEvent::Done, &mut []));
    assert_eq!(action, DisplayAction::ReleaseSurface { surface_id: 1 });
    assert_eq!(then, Continuation::Finish);
    assert!(matches!(
        gpu.resume(then, DisplayEvent::Done, &mut []),
        Step::Done(Ok(VirtioGpuResponse::OkNoData))
    ));
    // one slot only
    create_2d(&mut gpu, 9, 8, 8);
    assert!(set_scanout(&mut gpu, 2, 9).is_ok());
    let (action, then) = display(gpu.cmd_resource_unref(unref_cmd(9)));
    assert_eq!(action, DisplayAction::ReleaseSurface { surface_id: 2 });
    assert_eq!(then, Continuation::Finish);
    // an unref that fails changes nothing
    create_2d(&mut gpu, 9, 8, 8);
    assert!(set_scanout(&mut gpu, 1, 9).is_ok());
    assert!(matches!(unref(&mut gpu, 7), Err(VirtioGpuResponse::ErrInvalidResourceId)));
    assert_eq!((gpu.scanout_resource_id(), gpu.scanout_surface_id()), (Some(9), Some(1)));
}

#[test]
fn set_scanout_keeps_its_surface() {
    let mut gpu = gpu_2d(64, 64);
    create_2d(&mut gpu, 7, 8, 8);
    create_2d(&mut gpu, 8, 8, 8);
    assert!(set_scanout(&mut gpu, 2, 7).is_ok());
    assert_eq!((gpu.scanout_resource_id(), gpu.scanout_surface_id()), (Some(7), Some(2)));
    assert!(set_scanout(&mut gpu, 5, 8).is_ok());
    assert_eq!((gpu.scanout_resource_id(), gpu.scanout_surface_id()), (Some(8), Some(2)));
    assert!(matches!(
        set_scanout(&mut gpu, 5, 99),
        Err(VirtioGpuResponse::ErrInvalidResourceId)
    ));
    assert_eq!((gpu.scanout_resource_id(), gpu.scanout_surface_id()), (Some(8), Some(2)));
}

#[test]
fn assign_uuid() {
    let mut gpu = gpu_2d(64, 64);
    create_2d(&mut gpu, 0x0102_0304, 8, 8);
    let cmd = virtio_gpu_resource_assign_uuid { hdr: hdr(), resource_id: 0x0102_0304, padding: 0 };
    match gpu.cmd_resource_assign_uuid(cmd) {
        Ok(VirtioGpuResponse::OkResourceUuid { uuid }) => {
            assert_eq!(uuid, [0, 0, 0, 0, 0, 0, 0, 0, 0, 0, 0, 0, 1, 2, 3, 4]);
        },
        other => panic!("expected a uuid, got {:?}", other),
    }
    let cmd = virtio_gpu_resource_assign_uuid { hdr: hdr(), resource_id: 5, padding: 0 };
    assert!(matches!(
        gpu.cmd_resource_assign_uuid(cmd),
        Err(VirtioGpuResponse::ErrInvalidResourceId)
    ));
}

#[test]
fn edid() {
    let mut gpu = gpu_2d(64, 64);
    let cmd = virtio_gpu_cmd_get_edid { hdr: hdr(), scanout: 0, padding: 0 };
    match gpu.cmd_get_edid(cmd) {
        Ok(VirtioGpuResponse::OkEdid { size, edid }) => {
            assert_eq!(size, 256);
            assert_eq!(&edid[..8], &[0x00, 0xff, 0xff, 0xff, 0xff, 0xff, 0xff, 0x00]);
            assert_eq!(&edid[..256], &EDID_BLOCK[..]);
            assert_eq!(edid[255], 0xf9);
            assert_eq!(&edid[256..], &[0u8; 768][..]);
        },
        other => panic!("expected an EDID block, got {:?}", other),
    }
}

#[test]
fn capsets_of_the_2d_renderer() {
    let mut gpu = gpu_2d(64, 64);
    let cmd = virtio_gpu_get_capset_info { hdr: hdr(), capset_index: 0, padding: 0 };
    assert!(matches!(
        gpu.cmd_get_capset_info(cmd),
        Err(VirtioGpuResponse::RutabagaError(RutabagaError::InvalidCapset))
    ));
    let cmd = virtio_gpu_get_capset { hdr: hdr(), capset_id: 1, capset_version: 1 };
    match gpu.cmd_get_capset(cmd) {
        Ok(VirtioGpuResponse::OkCapset(bytes)) => assert!(bytes.is_empty()),
        other => panic!("expected a capset, got {:?}", other),
    }
}

#[test]
fn contexts_of_the_2d_renderer() {
    let mut gpu = gpu_2d(64, 64);
    let mut header = hdr();
    header.ctx_id = 4;
    assert!(matches!(
        gpu.cmd_context_create(virtio_gpu_ctx_create { hdr: header, ..Default::default() }),
        Err(VirtioGpuResponse::RutabagaError(_))
    ));
    assert!(matches!(
        gpu.cmd_context_destroy(virtio_gpu_ctx_destroy { hdr: header }),
        Err(VirtioGpuResponse::RutabagaError(RutabagaError::InvalidContextId))
    ));
    create_2d(&mut gpu, 7, 8, 8);
    let cmd = virtio_gpu_ctx_resource { hdr: header, resource_id: 7, padding: 0 };
    assert!(matches!(
        gpu.cmd_ctx_attach_resource(cmd),
        Err(VirtioGpuResponse::RutabagaError(RutabagaError::InvalidContextId))
    ));
    assert!(matches!(
        gpu.cmd_ctx_detach_resource(cmd),
        Err(VirtioGpuResponse::RutabagaError(RutabagaError::InvalidContextId))
    ));
    let mut stream = vec![0u8; 16];
    assert!(matches!(
        gpu.cmd_submit_3d(virtio_gpu_cmd_submit { hdr: header, size: 16, padding: 0 }, &mut stream),
        Err(VirtioGpuResponse::RutabagaError(RutabagaError::InvalidContextId))
    ));
    gpu.force_ctx_0();
    gpu.fence_poll();
}

#[test]
fn fences_reach_the_handler() {
    let seen: Arc<Mutex<Vec<u64>>> = Arc::new(Mutex::new(Vec::new()));
    let sink = seen.clone();
    let handler = RutabagaHandler::new(move |fence: RutabagaFence| {
        sink.lock().unwrap().push(fence.fence_id);
    });
    let parameter = GpuParameter { mode: GpuMode::Mode2D, ..Default::default() };
    let mut gpu = VirtioGpu::new(parameter, handler).unwrap();
    let fence = Fence { flags: FLAG_FENCE, fence_id: 42, ctx_id: 0, ring_idx: 0 };
    assert!(matches!(gpu.create_fence(fence), Ok(VirtioGpuResponse::OkNoData)));
    gpu.fence_poll();
    assert_eq!(*seen.lock().unwrap(), vec![42]);
}

#[test]
fn fences_that_the_renderer_cannot_take() {
    let fence = |flags: u32| Fence { flags, fence_id: 1, ctx_id: 3, ring_idx: 0 };
    assert!(fence(0).check_fits());
    assert!(fence(FLAG_FENCE).check_fits());
    assert!(fence(FLAG_INFO_RING_IDX).check_fits());
    assert!(fence(FLAG_FENCE_HOST_SHAREABLE).check_fits());
    assert!(fence(FLAG_FENCE | FLAG_FENCE_HOST_SHAREABLE).check_fits());
    assert!(!fence(FLAG_INFO_RING_IDX | FLAG_FENCE_HOST_SHAREABLE).check_fits());
    assert!(!fence(0x7).check_fits());
    assert!(!fence(u32::MAX).check_fits());
    assert_eq!(
        (FLAG_FENCE, FLAG_INFO_RING_IDX, FLAG_FENCE_HOST_SHAREABLE),
        (RUTABAGA_FLAG_FENCE, RUTABAGA_FLAG_INFO_RING_IDX, RUTABAGA_FLAG_FENCE_HOST_SHAREABLE)
    );

    let mut gpu = gpu_2d(64, 64);
    assert!(matches!(
        gpu.create_fence(fence(0x6)),
        Err(VirtioGpuResponse::ErrInvalidParameter)
    ));
    // on a ring of a context that the renderer does not hold
    assert!(matches!(
        gpu.create_fence(fence(FLAG_FENCE | FLAG_INFO_RING_IDX)),
        Err(VirtioGpuResponse::RutabagaError(RutabagaError::InvalidContextId))
    ));
}

#[test]
fn backing_of_a_missing_resource() {
    let mut gpu = gpu_2d(64, 64);
    let cmd = virtio_gpu_resource_attach_backing { hdr: hdr(), resource_id: 3, nr_entries: 0 };
    assert!(matches!(
        gpu.cmd_resource_attach_backing(cmd, Vec::new()),
        Err(VirtioGpuResponse::RutabagaError(RutabagaError::InvalidResourceId))
    ));
    let cmd = virtio_gpu_resource_detach_backing { hdr: hdr(), resource_id: 3, padding: 0 };
    assert!(matches!(
        gpu.cmd_resource_detach_backing(cmd),
        Err(VirtioGpuResponse::RutabagaError(RutabagaError::InvalidResourceId))
    ));
}

#[test]
fn sglist_becomes_iovecs() {
    let mem = GuestMemoryMmap::from_ranges(&[(GuestAddress(0x1000), 0x1000)]).unwrap();
    let none = sglist_to_rutabaga_iovecs(&[], &mem).unwrap();
    assert!(none.is_empty());
    let spans = [(GuestAddress(0x1000), 16usize), (GuestAddress(0x1800), 0x800)];
    let iovecs = sglist_to_rutabaga_iovecs(&spans, &mem).unwrap();
    assert_eq!(iovecs.len(), 2);
    assert_eq!((iovecs[0].len, iovecs[1].len), (16, 0x800));
    assert_eq!(iovecs[1].base as usize - iovecs[0].base as usize, 0x800);
    // one span that is not mapped fails them all
    let spans = [(GuestAddress(0x1000), 16usize), (GuestAddress(0x3000), 16)];
    assert!(matches!(
        sglist_to_rutabaga_iovecs(&spans, &mem),
        Err(VirtioGpuResponse::InvalidSglistRegion())
    ));
    let spans = [(GuestAddress(0x1ff0), 17usize)];
    assert!(matches!(
        sglist_to_rutabaga_iovecs(&spans, &mem),
        Err(VirtioGpuResponse::InvalidSglistRegion())
    ));
}

#[test]
fn iovecs_of_what_was_found() {
    let iovec = |len: usize| RutabagaIovec { base: std::ptr::null_mut(), len };
    let all = iovecs_of_found(vec![Some(iovec(1)), Some(iovec(2)), Some(iovec(3))]).unwrap();
    assert_eq!(all.iter().map(|v| v.len).collect::<Vec<usize>>(), vec![1, 2, 3]);
    assert!(iovecs_of_found(Vec::new()).unwrap().is_empty());
    assert!(matches!(
        iovecs_of_found(vec![Some(iovec(1)), None, Some(iovec(3))]),
        Err(VirtioGpuResponse::InvalidSglistRegion())
    ));
}

#[test]
fn transfer_boxes() {
    let flat = TransferBox::new_2d(1, 2, 3, 4);
    assert_eq!(
        flat,
        TransferBox { x: 1, y: 2, z: 0, w: 3, h: 4, d: 1, level: 0, stride: 0, layer_stride: 0, offset: 0 }
    );
    let cmd = virtio_gpu_transfer_host_3d {
        hdr: hdr(),
        box_: virtio_gpu_box { x: 1, y: 2, z: 3, w: 4, h: 5, d: 6 },
        offset: 7,
        resource_id: 8,
        level: 9,
        stride: 10,
        layer_stride: 11,
    };
    assert_eq!(
        transfer_host_3d_to_transfer_3d(cmd),
        TransferBox { x: 1, y: 2, z: 3, w: 4, h: 5, d: 6, level: 9, stride: 10, layer_stride: 11, offset: 7 }
    );
    assert!(flat.check_fits_read());
    assert!(flat.check_fits_write());
    let mut far = flat;
    far.offset = 1 << 63;
    assert!(!far.check_fits_write());
    far.offset = (1 << 63) - 1;
    assert!(far.check_fits_write());
    let mut tall = TransferBox::new_2d(0, u32::MAX, 1, u32::MAX);
    tall.stride = u32::MAX;
    assert!(!tall.check_fits_read());
    tall.stride = 0x7fff_ffff;
    assert!(tall.check_fits_read());
}

#[test]
fn transfers_that_do_not_fit_are_refused() {
    let mut gpu = gpu_2d(64, 64);
    create_2d(&mut gpu, 7, 8, 8);
    let mut cmd = virtio_gpu_transfer_host_3d {
        hdr: hdr(),
        box_: virtio_gpu_box { x: 0, y: 0, z: 0, w: 8, h: 8, d: 1 },
        offset: u64::MAX,
        resource_id: 7,
        level: 0,
        stride: 0,
        layer_stride: 0,
    };
    assert!(matches!(
        gpu.cmd_transfer_to_host_3d(cmd),
        Err(VirtioGpuResponse::ErrInvalidParameter)
    ));
    cmd.offset = 0;
    cmd.box_.y = u32::MAX;
    cmd.box_.h = u32::MAX;
    cmd.stride = u32::MAX;
    assert!(matches!(
        gpu.cmd_transfer_from_host_3d(cmd, None),
        Err(VirtioGpuResponse::ErrInvalidParameter)
    ));
    // one that fits goes to the renderer, which wants a buffer to read into
    cmd.box_.y = 0;
    cmd.box_.h = 8;
    cmd.stride = 32;
    assert!(matches!(
        gpu.cmd_transfer_from_host_3d(cmd, None),
        Err(VirtioGpuResponse::RutabagaError(_))
    ));
    // without a backing there is nothing to write from
    assert!(matches!(
        gpu.cmd_transfer_to_host_3d(cmd),
        Err(VirtioGpuResponse::RutabagaError(RutabagaError::InvalidIovec))
    ));
}

#[test]
fn flush_of_nothing_shown() {
    let mut gpu = gpu_2d(2, 2);
    assert!(matches!(flush(&mut gpu, 0), Step::Done(Ok(VirtioGpuResponse::OkNoData))));
    create_2d(&mut gpu, 7, 2, 2);
    assert!(matches!(flush(&mut gpu, 7), Step::Done(Ok(VirtioGpuResponse::OkNoData))));
    assert!(matches!(flush(&mut gpu, 99), Step::Done(Ok(VirtioGpuResponse::OkNoData))));
}

#[test]
fn flush_copies_the_pixels_to_the_scanout() {
    let mem = GuestMemoryMmap::from_ranges(&[(GuestAddress(0), 0x10000)]).unwrap();
    let pixels: Vec<u8> = (1..=16).collect();
    mem.write_slice(&pixels, GuestAddress(0x1000)).unwrap();

    let mut gpu = gpu_2d(2, 2);
    create_2d(&mut gpu, 7, 2, 2);
    let backing = sglist_to_rutabaga_iovecs(&[(GuestAddress(0x1000), 16)], &mem).unwrap();
    let attach = virtio_gpu_resource_attach_backing { hdr: hdr(), resource_id: 7, nr_entries: 1 };
    assert!(matches!(
        gpu.cmd_resource_attach_backing(attach, backing),
        Ok(VirtioGpuResponse::OkNoData)
    ));
    let transfer = virtio_gpu_transfer_to_host_2d {
        hdr: hdr(),
        r: virtio_gpu_rect { x: 0, y: 0, width: 2, height: 2 },
        offset: 0,
        resource_id: 7,
        padding: 0,
    };
    assert!(matches!(gpu.cmd_transfer_to_host_2d(transfer), Ok(VirtioGpuResponse::OkNoData)));
    assert!(set_scanout(&mut gpu, 4, 7).is_ok());

    let (action, then) = display(flush(&mut gpu, 7));
    assert_eq!(action, DisplayAction::NextBufferInUse { surface_id: 4 });
    assert_eq!(then, Continuation::FlushBuffer { resource_id: 7, surface_id: 4, next: None });

    let (action, then) = display(gpu.resume(then, DisplayEvent::BufferInUse(false), &mut []));
    assert_eq!(
        action,
        DisplayAction::FramebufferRegion { surface_id: 4, x: 0, y: 0, width: 2, height: 2 }
    );
    assert_eq!(then, Continuation::FlushCopy { resource_id: 7, surface_id: 4, next: None });

    let mut framebuffer = vec![0u8; 16];
    let (action, then) =
        display(gpu.resume(then, DisplayEvent::Framebuffer { stride: 8 }, &mut framebuffer));
    assert_eq!(framebuffer, pixels);
    assert_eq!(action, DisplayAction::Flip { surface_id: 4 });
    assert_eq!(then, Continuation::FlushNext { resource_id: 7, next: None });

    assert!(matches!(
        gpu.resume(then, DisplayEvent::Done, &mut []),
        Step::Done(Ok(VirtioGpuResponse::OkNoData))
    ));

    let detach = virtio_gpu_resource_detach_backing { hdr: hdr(), resource_id: 7, padding: 0 };
    assert!(matches!(gpu.cmd_resource_detach_backing(detach), Ok(VirtioGpuResponse::OkNoData)));
}

#[test]
fn flush_with_rows_apart() {
    let mut gpu = gpu_2d(2, 2);
    create_2d(&mut gpu, 7, 2, 2);
    assert!(set_scanout(&mut gpu, 0, 7).is_ok());
    let then = Continuation::FlushCopy { resource_id: 7, surface_id: 0, next: None };
    // rows of 12 bytes: the renderer writes 8 of each, and leaves the rest
    let mut framebuffer = vec![0xffu8; 24];
    let (action, _) =
        display(gpu.resume(then, DisplayEvent::Framebuffer { stride: 12 }, &mut framebuffer));
    assert_eq!(action, DisplayAction::Flip { surface_id: 0 });
    assert_eq!(&framebuffer[..8], &[0u8; 8]);
    assert_eq!(&framebuffer[8..12], &[0xffu8; 4]);
    assert_eq!(&framebuffer[12..20], &[0u8; 8]);
    assert_eq!(&framebuffer[20..], &[0xffu8; 4]);
}

#[test]
fn flush_skips_a_buffer_in_use() {
    let mut gpu = gpu_2d(2, 2);
    create_2d(&mut gpu, 7, 2, 2);
    assert!(set_scanout(&mut gpu, 0, 7).is_ok());
    let (_, then) = display(flush(&mut gpu, 7));
    assert!(matches!(
        gpu.resume(then, DisplayEvent::BufferInUse(true), &mut []),
        Step::Done(Ok(VirtioGpuResponse::OkNoData))
    ));
}

#[test]
fn flush_without_a_framebuffer_is_unspec() {
    let mut gpu = gpu_2d(2, 2);
    create_2d(&mut gpu, 7, 2, 2);
    assert!(set_scanout(&mut gpu, 0, 7).is_ok());
    let (_, then) = display(flush(&mut gpu, 7));
    let (_, then) = display(gpu.resume(then, DisplayEvent::BufferInUse(false), &mut []));
    assert!(matches!(
        gpu.resume(then, DisplayEvent::NoFramebuffer, &mut []),
        Step::Done(Err(VirtioGpuResponse::ErrUnspec))
    ));
}

#[test]
fn flush_of_a_resource_that_is_gone() {
    let mut gpu = gpu_2d(2, 2);
    create_2d(&mut gpu, 7, 2, 2);
    assert!(set_scanout(&mut gpu, 0, 7).is_ok());
    assert!(unref(&mut gpu, 7).is_ok());
    // no slot shows it any more
    assert!(matches!(flush(&mut gpu, 7), Step::Done(Ok(VirtioGpuResponse::OkNoData))));
    assert!(matches!(
        gpu.flush_resource_to_surface(7, 0),
        Step::Done(Err(VirtioGpuResponse::ErrInvalidResourceId))
    ));
    assert_eq!(gpu.import_to_display(7), None);
}

#[test]
fn flush_a_display_larger_than_the_resource_fails_in_the_renderer() {
    let mut gpu = gpu_2d(4, 4);
    create_2d(&mut gpu, 7, 2, 2);
    assert!(set_scanout(&mut gpu, 0, 7).is_ok());
    let then = Continuation::FlushCopy { resource_id: 7, surface_id: 0, next: None };
    let mut framebuffer = vec![0u8; 64];
    assert!(matches!(
        gpu.resume(then, DisplayEvent::Framebuffer { stride: 16 }, &mut framebuffer),
        Step::Done(Err(VirtioGpuResponse::RutabagaError(_)))
    ));
}

#[test]
fn flush_to_scanout_then_cursor() {
    let mut gpu = gpu_2d(2, 2);
    create_2d(&mut gpu, 7, 2, 2);
    assert!(set_scanout(&mut gpu, 1, 7).is_ok());
    let (_, then) = display(gpu.cmd_update_cursor(update_cursor(0, 0, 7)));
    let (_, _) = display(gpu.resume(then, DisplayEvent::SurfaceCreated(6), &mut []));

    let (action, then) = display(flush(&mut gpu, 7));
    assert_eq!(action, DisplayAction::NextBufferInUse { surface_id: 1 });
    assert_eq!(then, Continuation::FlushBuffer { resource_id: 7, surface_id: 1, next: Some(6) });
    // the scanout's buffer is in use: on to the cursor
    let (action, then) = display(gpu.resume(then, DisplayEvent::BufferInUse(true), &mut []));
    assert_eq!(action, DisplayAction::NextBufferInUse { surface_id: 6 });
    assert_eq!(then, Continuation::FlushBuffer { resource_id: 7, surface_id: 6, next: None });
    let (action, then) = display(gpu.resume(then, DisplayEvent::BufferInUse(false), &mut []));
    assert_eq!(
        action,
        DisplayAction::FramebufferRegion { surface_id: 6, x: 0, y: 0, width: 2, height: 2 }
    );
    let mut framebuffer = vec![0u8; 16];
    let (action, then) =
        display(gpu.resume(then, DisplayEvent::Framebuffer { stride: 8 }, &mut framebuffer));
    assert_eq!(action, DisplayAction::Flip { surface_id: 6 });
    assert!(matches!(
        gpu.resume(then, DisplayEvent::Done, &mut []),
        Step::Done(Ok(VirtioGpuResponse::OkNoData))
    ));
}

#[test]
fn copy_steps() {
    let then = Continuation::Finish;
    match step_after_copy(Ok(()), 3, then) {
        Step::Display { action, then } => {
            assert_eq!(action, DisplayAction::Flip { surface_id: 3 });
            assert_eq!(then, Continuation::Finish);
        },
        other => panic!("expected a flip, got {:?}", other),
    }
    assert!(matches!(
        step_after_copy(Err(RutabagaError::InvalidIovec), 3, then),
        Step::Done(Err(VirtioGpuResponse::RutabagaError(RutabagaError::InvalidIovec)))
    ));
}

#[test]
fn cursor_update_creates_moves_and_shows() {
    let mut gpu = gpu_2d(64, 64);
    create_2d(&mut gpu, 9, 2, 2);
    create_2d(&mut gpu, 7, 8, 8);
    assert!(set_scanout(&mut gpu, 1, 7).is_ok());

    let (action, then) = display(gpu.cmd_update_cursor(update_cursor(5, 6, 9)));
    assert_eq!(
        action,
        DisplayAction::CreateSurface { parent_surface_id: Some(1), width: 2, height: 2 }
    );
    assert_eq!(
        then,
        Continuation::CursorSurface { resource_id: 9, x: 5, y: 6, width: 2, height: 2 }
    );
    // unbound until the surface is there
    assert_eq!((gpu.cursor_resource_id(), gpu.cursor_surface_id()), (None, None));

    let (action, then) = display(gpu.resume(then, DisplayEvent::SurfaceCreated(11), &mut []));
    assert_eq!(action, DisplayAction::SetPosition { surface_id: 11, x: 5, y: 6 });
    assert_eq!(
        then,
        Continuation::CursorPresent { resource_id: 9, surface_id: 11, width: 2, height: 2 }
    );
    assert_eq!((gpu.cursor_resource_id(), gpu.cursor_surface_id()), (Some(9), Some(11)));

    let (action, then) = display(gpu.resume(then, DisplayEvent::Done, &mut []));
    assert_eq!(action, DisplayAction::Framebuffer { surface_id: 11 });
    assert_eq!(
        then,
        Continuation::CursorCopy { resource_id: 9, surface_id: 11, width: 2, height: 2 }
    );

    let mut framebuffer = vec![0xffu8; 16];
    let (action, then) =
        display(gpu.resume(then, DisplayEvent::Framebuffer { stride: 8 }, &mut framebuffer));
    assert_eq!(framebuffer, vec![0u8; 16]);
    assert_eq!(action, DisplayAction::Flip { surface_id: 11 });
    assert_eq!(then, Continuation::Finish);
    assert!(matches!(
        gpu.resume(then, DisplayEvent::Done, &mut []),
        Step::Done(Ok(VirtioGpuResponse::OkNoData))
    ));

    // the surface is there now: the next update moves it
    let (action, then) = display(gpu.cmd_update_cursor(update_cursor(1, 2, 9)));
    assert_eq!(action, DisplayAction::SetPosition { surface_id: 11, x: 1, y: 2 });
    assert_eq!(
        then,
        Continuation::CursorPresent { resource_id: 9, surface_id: 11, width: 2, height: 2 }
    );

    // a cursor without a framebuffer is flipped as it is
    let then = Continuation::CursorCopy { resource_id: 9, surface_id: 11, width: 2, height: 2 };
    let (action, then) = display(gpu.resume(then, DisplayEvent::NoFramebuffer, &mut []));
    assert_eq!(action, DisplayAction::Flip { surface_id: 11 });
    assert_eq!(then, Continuation::Finish);
}

#[test]
fn cursor_update_zero_releases_the_surface() {
    let mut gpu = gpu_2d(64, 64);
    // no cursor: nothing to release
    assert!(matches!(
        gpu.cmd_update_cursor(update_cursor(0, 0, 0)),
        Step::Done(Ok(VirtioGpuResponse::OkNoData))
    ));
    create_2d(&mut gpu, 9, 2, 2);
    let (_, then) = display(gpu.cmd_update_cursor(update_cursor(5, 6, 9)));
    let _ = gpu.resume(then, DisplayEvent::SurfaceCreated(11), &mut []);
    let (action, then) = display(gpu.cmd_update_cursor(update_cursor(0, 0, 0)));
    assert_eq!(action, DisplayAction::ReleaseSurface { surface_id: 11 });
    assert_eq!(then, Continuation::Finish);
    assert_eq!((gpu.cursor_resource_id(), gpu.cursor_surface_id()), (None, None));
    assert!(matches!(
        gpu.resume(then, DisplayEvent::Done, &mut []),
        Step::Done(Ok(VirtioGpuResponse::OkNoData))
    ));
}

#[test]
fn cursor_update_failures() {
    let mut gpu = gpu_2d(64, 64);
    assert!(matches!(
        gpu.cmd_update_cursor(update_cursor(0, 0, 9)),
        Step::Done(Err(VirtioGpuResponse::ErrInvalidResourceId))
    ));
    assert_eq!(gpu.cursor_resource_id(), None);
    create_2d(&mut gpu, 9, 2, 2);
    let (action, then) = display(gpu.cmd_update_cursor(update_cursor(0, 0, 9)));
    assert_eq!(
        action,
        DisplayAction::CreateSurface { parent_surface_id: None, width: 2, height: 2 }
    );
    match gpu.resume(then, DisplayEvent::SurfaceFailed(String::from("no surface")), &mut []) {
        Step::Done(Err(VirtioGpuResponse::DisplayErr(message))) => assert_eq!(message, "no surface"),
        other => panic!("expected the display's failure, got {:?}", other),
    }
    assert_eq!((gpu.cursor_resource_id(), gpu.cursor_surface_id()), (None, None));
    // an event that answers nothing
    assert!(matches!(
        gpu.resume(then, DisplayEvent::BufferInUse(true), &mut []),
        Step::Done(Err(VirtioGpuResponse::ErrUnspec))
    ));
}

#[test]
fn cursor_move() {
    let mut gpu = gpu_2d(64, 64);
    // neither surface
    assert!(matches!(
        gpu.cmd_move_curosr(update_cursor(3, 4, 0)),
        Step::Done(Ok(VirtioGpuResponse::OkNoData))
    ));
    create_2d(&mut gpu, 7, 8, 8);
    assert!(set_scanout(&mut gpu, 1, 7).is_ok());
    // a scanout, no cursor
    assert!(matches!(
        gpu.cmd_move_curosr(update_cursor(3, 4, 0)),
        Step::Done(Ok(VirtioGpuResponse::OkNoData))
    ));
    let (_, then) = display(gpu.cmd_update_cursor(update_cursor(0, 0, 7)));
    let _ = gpu.resume(then, DisplayEvent::SurfaceCreated(6), &mut []);
    let (action, then) = display(gpu.cmd_move_curosr(update_cursor(3, 4, 0)));
    assert_eq!(action, DisplayAction::SetPosition { surface_id: 6, x: 3, y: 4 });
    assert_eq!(then, Continuation::Commit { surface_id: 1 });
    let (action, then) = display(gpu.resume(then, DisplayEvent::Done, &mut []));
    assert_eq!(action, DisplayAction::Commit { surface_id: 1 });
    assert_eq!(then, Continuation::Finish);
    assert!(matches!(
        gpu.resume(then, DisplayEvent::Done, &mut []),
        Step::Done(Ok(VirtioGpuResponse::OkNoData))
    ));
}

#[test]
fn close_requests() {
    let mut gpu = gpu_2d(64, 64);
    assert!(!gpu.process_display(None));
    assert!(!gpu.process_display(Some(true)));
    create_2d(&mut gpu, 7, 8, 8);
    assert!(set_scanout(&mut gpu, 1, 7).is_ok());
    assert!(gpu.process_display(Some(true)));
    assert!(!gpu.process_display(Some(false)));
    assert!(!gpu.process_display(None));
}

/// Whether the renderer knows the resource: it detaches the backing of those it knows.
fn renderer_knows(gpu: &mut VirtioGpu, resource_id: u32) -> bool {
    let cmd = virtio_gpu_resource_detach_backing { hdr: hdr(), resource_id, padding: 0 };
    match gpu.cmd_resource_detach_backing(cmd) {
        Ok(_) => true,
        Err(VirtioGpuResponse::RutabagaError(RutabagaError::InvalidResourceId)) => false,
        Err(other) => panic!("unexpected failure: {:?}", other),
    }
}

#[test]
fn records_and_renderer_stay_in_step() {
    let mut gpu = gpu_2d(64, 64);
    for id in [1u32, 2, 3, 7] {
        assert_eq!(gpu.resource(id).is_some(), renderer_knows(&mut gpu, id));
        create_2d(&mut gpu, id, 4, 4);
        assert!(gpu.resource(id).is_some());
        assert!(renderer_knows(&mut gpu, id));
    }
    for id in [2u32, 7] {
        assert!(unref(&mut gpu, id).is_ok());
    }
    // a create that is refused and an unref that fails change neither side
    let cmd = virtio_gpu_resource_create_2d { hdr: hdr(), resource_id: 9, format: 1, width: u32::MAX, height: 1 };
    assert!(gpu.cmd_resource_create_2d(cmd).is_err());
    assert!(unref(&mut gpu, 2).is_err());
    for id in [1u32, 2, 3, 7, 9] {
        assert_eq!(gpu.resource(id).is_some(), renderer_knows(&mut gpu, id));
    }
    assert!(gpu.resource(1).is_some() && gpu.resource(3).is_some());
    assert!(gpu.resource(2).is_none() && gpu.resource(7).is_none() && gpu.resource(9).is_none());
}

#[test]
fn the_renderer_refuses_what_it_does_not_hold() {
    let mut gpu = gpu_2d(64, 64);
    let transfer = virtio_gpu_transfer_to_host_2d {
        hdr: hdr(),
        r: virtio_gpu_rect { x: 0, y: 0, width: 1, height: 1 },
        offset: 0,
        resource_id: 7,
        padding: 0,
    };
    assert!(matches!(
        gpu.cmd_transfer_to_host_2d(transfer),
        Err(VirtioGpuResponse::RutabagaError(RutabagaError::InvalidResourceId))
    ));
    create_2d(&mut gpu, 7, 8, 8);
    // held, but without a backing to write from
    assert!(matches!(
        gpu.cmd_transfer_to_host_2d(transfer),
        Err(VirtioGpuResponse::RutabagaError(RutabagaError::InvalidIovec))
    ));
    assert!(unref(&mut gpu, 7).is_ok());
    assert!(matches!(
        gpu.cmd_transfer_to_host_2d(transfer),
        Err(VirtioGpuResponse::RutabagaError(RutabagaError::InvalidResourceId))
    ));
}

#[test]
fn what_the_renderer_is_handed() {
    let cmd = virtio_gpu_resource_create_2d { hdr: hdr(), resource_id: 7, format: 67, width: 640, height: 480 };
    assert_eq!(
        params_2d(cmd),
        ResourceParams {
            target: RUTABAGA_PIPE_TEXTURE_2D,
            format: 67,
            bind: RUTABAGA_PIPE_BIND_RENDER_TARGET,
            width: 640,
            height: 480,
            depth: 1,
            array_size: 1,
            last_level: 0,
            nr_samples: 0,
            flags: 0,
        }
    );
    let cmd = virtio_gpu_resource_create_3d {
        hdr: hdr(),
        resource_id: 7,
        target: 1,
        format: 2,
        bind: 3,
        width: 4,
        height: 5,
        depth: 6,
        array_size: 7,
        last_level: 8,
        nr_samples: 9,
        flags: 10,
        padding: 11,
    };
    assert_eq!(
        params_3d(cmd),
        ResourceParams {
            target: 1,
            format: 2,
            bind: 3,
            width: 4,
            height: 5,
            depth: 6,
            array_size: 7,
            last_level: 8,
            nr_samples: 9,
            flags: 10,
        }
    );
    let cmd = virtio_gpu_transfer_to_host_2d {
        hdr: hdr(),
        r: virtio_gpu_rect { x: 1, y: 2, width: 3, height: 4 },
        offset: 99,
        resource_id: 7,
        padding: 0,
    };
    assert_eq!(transfer_to_host_2d_to_transfer_3d(cmd), TransferBox::new_2d(1, 2, 3, 4));
    assert_eq!(
        copy_box(30, 20, 128),
        TransferBox { x: 0, y: 0, z: 0, w: 30, h: 20, d: 1, level: 0, stride: 128, layer_stride: 0, offset: 0 }
    );
}
