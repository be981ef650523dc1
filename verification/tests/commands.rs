use virtio_gpu::protocol::virtio_gpu_box;
use virtio_gpu::protocol::virtio_gpu_cmd_get_edid;
use virtio_gpu::protocol::virtio_gpu_cmd_submit;
use virtio_gpu::protocol::virtio_gpu_ctx_destroy;
use virtio_gpu::protocol::virtio_gpu_ctx_resource;
use virtio_gpu::protocol::virtio_gpu_cursor_pos;
use virtio_gpu::protocol::virtio_gpu_get_capset;
use virtio_gpu::protocol::virtio_gpu_get_capset_info;
use virtio_gpu::protocol::virtio_gpu_resource_assign_uuid;
use virtio_gpu::protocol::virtio_gpu_resource_attach_backing;
use virtio_gpu::protocol::virtio_gpu_resource_create_2d;
use virtio_gpu::protocol::virtio_gpu_resource_detach_backing;
use virtio_gpu::protocol::virtio_gpu_resource_flush;
use virtio_gpu::protocol::virtio_gpu_resource_unref;
use virtio_gpu::protocol::virtio_gpu_resp_capset;
use virtio_gpu::protocol::virtio_gpu_resp_capset_info;
use virtio_gpu::protocol::virtio_gpu_resp_resource_uuid;
use virtio_gpu::protocol::virtio_gpu_config;
use virtio_gpu::protocol::virtio_gpu_ctrl_hdr;
use virtio_gpu::protocol::virtio_gpu_ctx_create;
use virtio_gpu::protocol::virtio_gpu_display_one;
use virtio_gpu::protocol::virtio_gpu_mem_entry;
use virtio_gpu::protocol::virtio_gpu_rect;
use virtio_gpu::protocol::virtio_gpu_resource_create_3d;
use virtio_gpu::protocol::virtio_gpu_resp_display_info;
use virtio_gpu::protocol::virtio_gpu_resp_edid;
use virtio_gpu::protocol::virtio_gpu_set_scanout;
use virtio_gpu::protocol::virtio_gpu_transfer_host_3d;
use virtio_gpu::protocol::virtio_gpu_transfer_to_host_2d;
use virtio_gpu::protocol::virtio_gpu_update_cursor;
use virtio_gpu::protocol::WireRecord;
use virtio_gpu::virtio_utils::is_fence;
use virtio_gpu::VirtioGpuCommand;
use virtio_gpu::VirtioGpuCommandDecodeError;
use vm_memory::Bytes;
use vm_memory::GuestAddress;
use vm_memory::GuestMemoryError;
use vm_memory::GuestMemoryMmap;

const OPCODES: [(u32, usize); 21] = [
    (0x0100, 24),
    (0x0101, 40),
    (0x0102, 32),
    (0x0103, 48),
    (0x0104, 48),
    (0x0105, 56),
    (0x0106, 32),
    (0x0107, 32),
    (0x0108, 32),
    (0x0109, 32),
    (0x010a, 32),
    (0x0200, 96),
    (0x0201, 24),
    (0x0202, 32),
    (0x0203, 32),
    (0x0204, 72),
    (0x0205, 72),
    (0x0206, 72),
    (0x0207, 32),
    (0x0301, 52),
    (0x0302, 52),
];

fn memory() -> GuestMemoryMmap {
    GuestMemoryMmap::from_ranges(&[(GuestAddress(0x1000), 0x1000)]).unwrap()
}

/// Bytes of a record of `size` bytes for `opcode`, none of them repeated nearby.
fn record_bytes(opcode: u32, size: usize) -> Vec<u8> {
    let mut bytes: Vec<u8> = (0..size).map(|i| (i as u8).wrapping_mul(7).wrapping_add(3)).collect();
    bytes[..4].copy_from_slice(&opcode.to_le_bytes());
    bytes
}

#[test]
fn decode_then_encode_gives_the_bytes_back() {
    let mem = memory();
    let addr = GuestAddress(0x1100);
    for (opcode, size) in OPCODES {
        let bytes = record_bytes(opcode, size);
        mem.write_slice(&bytes, addr).unwrap();
        let cmd = VirtioGpuCommand::decode(&mem, addr).unwrap();
        assert_eq!(cmd.size(), size);
        assert_eq!(cmd.to_bytes(), bytes);
        assert_eq!(VirtioGpuCommand::size_of_type(opcode), Some(size));
        let again = VirtioGpuCommand::from_slice(opcode, &bytes).unwrap();
        assert_eq!(again.to_bytes(), bytes);
    }
}

#[test]
fn decode_selects_the_variant_by_opcode() {
    let mem = memory();
    let addr = GuestAddress(0x1000);
    let decode = |opcode: u32, size: usize| {
        mem.write_slice(&record_bytes(opcode, size), addr).unwrap();
        VirtioGpuCommand::decode(&mem, addr).unwrap()
    };
    assert!(matches!(decode(0x0100, 24), VirtioGpuCommand::CmdGetDisplayInfo(_)));
    assert!(matches!(decode(0x0101, 40), VirtioGpuCommand::CmdResourceCreate2D(_)));
    assert!(matches!(decode(0x0102, 32), VirtioGpuCommand::CmdResourceUnref(_)));
    assert!(matches!(decode(0x0103, 48), VirtioGpuCommand::CmdSetScanout(_)));
    assert!(matches!(decode(0x0104, 48), VirtioGpuCommand::CmdResourceFlush(_)));
    assert!(matches!(decode(0x0105, 56), VirtioGpuCommand::CmdTransferToHost2D(_)));
    assert!(matches!(decode(0x0106, 32), VirtioGpuCommand::CmdResourceAttachBacking(_)));
    assert!(matches!(decode(0x0107, 32), VirtioGpuCommand::CmdResourceDetachBacking(_)));
    assert!(matches!(decode(0x0108, 32), VirtioGpuCommand::CmdGetCapsetInfo(_)));
    assert!(matches!(decode(0x0109, 32), VirtioGpuCommand::CmdGetCapset(_)));
    assert!(matches!(decode(0x010a, 32), VirtioGpuCommand::CmdGetEdid(_)));
    assert!(matches!(decode(0x0200, 96), VirtioGpuCommand::CmdCtxCreate(_)));
    assert!(matches!(decode(0x0201, 24), VirtioGpuCommand::CmdCtxDestroy(_)));
    assert!(matches!(decode(0x0202, 32), VirtioGpuCommand::CmdCtxAttachResource(_)));
    assert!(matches!(decode(0x0203, 32), VirtioGpuCommand::CmdCtxDetachResource(_)));
    assert!(matches!(decode(0x0204, 72), VirtioGpuCommand::CmdResourceCreate3D(_)));
    assert!(matches!(decode(0x0205, 72), VirtioGpuCommand::CmdTransferToHost3D(_)));
    assert!(matches!(decode(0x0206, 72), VirtioGpuCommand::CmdTransferFromHost3D(_)));
    assert!(matches!(decode(0x0207, 32), VirtioGpuCommand::CmdSubmit3D(_)));
    assert!(matches!(decode(0x0301, 52), VirtioGpuCommand::CmdUpdateCursor(_)));
    assert!(matches!(decode(0x0302, 52), VirtioGpuCommand::CmdMoveCursor(_)));
}

#[test]
fn decode_reads_each_field_at_its_place() {
    let mem = memory();
    let addr = GuestAddress(0x1800);
    let mut bytes = Vec::new();
    for word in [0x0103u32, 0x1, 0x0a0b_0c0d, 0x0102_0304, 5, 0, 10, 20, 640, 480, 2, 7] {
        bytes.extend_from_slice(&word.to_le_bytes());
    }
    mem.write_slice(&bytes, addr).unwrap();
    match VirtioGpuCommand::decode(&mem, addr).unwrap() {
        VirtioGpuCommand::CmdSetScanout(cmd) => {
            assert_eq!(cmd.hdr.type_, 0x0103);
            assert_eq!(cmd.hdr.flags, 1);
            assert_eq!(cmd.hdr.fence_id, 0x0102_0304_0a0b_0c0d);
            assert_eq!(cmd.hdr.ctx_id, 5);
            assert_eq!(cmd.hdr.padding, 0);
            assert_eq!((cmd.r.x, cmd.r.y, cmd.r.width, cmd.r.height), (10, 20, 640, 480));
            assert_eq!(cmd.scanout_id, 2);
            assert_eq!(cmd.resource_id, 7);
        },
        other => panic!("expected set-scanout, got {:?}", other),
    }
}

#[test]
fn decode_unknown_opcode_is_invalid_command() {
    let mem = memory();
    for opcode in [0u32, 0x00ff, 0x010b, 0x0208, 0x0300, 0x0303, 0x1100, 0xffff_ffff] {
        assert_eq!(VirtioGpuCommand::size_of_type(opcode), None);
        assert!(VirtioGpuCommand::from_slice(opcode, &record_bytes(opcode, 24)).is_none());
        mem.write_slice(&record_bytes(opcode, 24), GuestAddress(0x1000)).unwrap();
        match VirtioGpuCommand::decode(&mem, GuestAddress(0x1000)) {
            Err(VirtioGpuCommandDecodeError::InvalidCommand(t)) => assert_eq!(t, opcode),
            other => panic!("expected InvalidCommand, got {:?}", other),
        }
    }
}

#[test]
fn decode_unknown_opcode_reads_the_header_only() {
    let mem = memory();
    // the last 24 bytes that are mapped
    let addr = GuestAddress(0x2000 - 24);
    mem.write_slice(&record_bytes(0x0999, 24), addr).unwrap();
    assert!(matches!(
        VirtioGpuCommand::decode(&mem, addr),
        Err(VirtioGpuCommandDecodeError::InvalidCommand(0x0999))
    ));
    // a known opcode needs its whole record
    mem.write_slice(&record_bytes(0x0101, 24), addr).unwrap();
    assert!(matches!(
        VirtioGpuCommand::decode(&mem, addr),
        Err(VirtioGpuCommandDecodeError::ParserError(_))
    ));
    // display info is a header and no more
    mem.write_slice(&record_bytes(0x0100, 24), addr).unwrap();
    assert!(matches!(
        VirtioGpuCommand::decode(&mem, addr),
        Ok(VirtioGpuCommand::CmdGetDisplayInfo(_))
    ));
}

#[test]
fn decode_outside_of_memory_is_parser_error() {
    let mem = memory();
    assert!(matches!(
        VirtioGpuCommand::decode(&mem, GuestAddress(0x3000)),
        Err(VirtioGpuCommandDecodeError::ParserError(_))
    ));
    assert!(matches!(
        VirtioGpuCommand::decode(&mem, GuestAddress(0x2000 - 8)),
        Err(VirtioGpuCommandDecodeError::ParserError(_))
    ));
}

#[test]
fn decode_error_from_memory_error() {
    assert!(matches!(
        VirtioGpuCommandDecodeError::from(GuestMemoryError::InvalidBackendAddress),
        VirtioGpuCommandDecodeError::ParserError(GuestMemoryError::InvalidBackendAddress)
    ));
}

#[test]
fn from_slice_wants_the_exact_length() {
    let bytes = record_bytes(0x0103, 48);
    assert!(VirtioGpuCommand::from_slice(0x0103, &bytes).is_some());
    assert!(VirtioGpuCommand::from_slice(0x0103, &bytes[..47]).is_none());
    assert!(VirtioGpuCommand::from_slice(0x0103, &record_bytes(0x0103, 49)).is_none());
    assert!(virtio_gpu_set_scanout::from_slice(&bytes).is_some());
    assert!(virtio_gpu_set_scanout::from_slice(&bytes[..47]).is_none());
    assert!(virtio_gpu_ctrl_hdr::from_slice(&[]).is_none());
}

#[test]
fn the_variant_follows_the_opcode_not_the_header() {
    // the record's own header may say another type: the opcode asked for decides
    let bytes = record_bytes(0x0203, 32);
    match VirtioGpuCommand::from_slice(0x0202, &bytes).unwrap() {
        VirtioGpuCommand::CmdCtxAttachResource(cmd) => assert_eq!(cmd.hdr.type_, 0x0203),
        other => panic!("expected attach, got {:?}", other),
    }
}

#[test]
fn record_sizes() {
    assert_eq!(virtio_gpu_ctrl_hdr::size(), 24);
    assert_eq!(virtio_gpu_rect::size(), 16);
    assert_eq!(virtio_gpu_box::size(), 24);
    assert_eq!(virtio_gpu_mem_entry::size(), 16);
    assert_eq!(virtio_gpu_display_one::size(), 24);
    assert_eq!(virtio_gpu_resp_display_info::size(), 408);
    assert_eq!(virtio_gpu_transfer_to_host_2d::size(), 56);
    assert_eq!(virtio_gpu_resource_create_3d::size(), 72);
    assert_eq!(virtio_gpu_ctx_create::size(), 96);
    assert_eq!(virtio_gpu_resp_edid::size(), 1056);
    assert_eq!(virtio_gpu_update_cursor::size(), 52);
    assert_eq!(virtio_gpu_config::size(), 16);
}

#[test]
fn records_round_trip() {
    let hdr = virtio_gpu_ctrl_hdr {
        type_: 0x0206,
        flags: 3,
        fence_id: u64::MAX - 1,
        ctx_id: 77,
        padding: 0xdead_beef,
    };
    let cmd = virtio_gpu_transfer_host_3d {
        hdr,
        box_: virtio_gpu_box { x: 1, y: 2, z: 3, w: 4, h: 5, d: 6 },
        offset: 0x0102_0304_0506_0708,
        resource_id: 9,
        level: 10,
        stride: 11,
        layer_stride: 12,
    };
    let bytes = cmd.to_bytes();
    assert_eq!(bytes.len(), 72);
    assert_eq!(&bytes[48..56], &[0x08, 0x07, 0x06, 0x05, 0x04, 0x03, 0x02, 0x01]);
    let back = virtio_gpu_transfer_host_3d::from_slice(&bytes).unwrap();
    assert_eq!(back.to_bytes(), bytes);
    assert_eq!(back.hdr.fence_id, u64::MAX - 1);
    assert_eq!(back.hdr.padding, 0xdead_beef);
    assert_eq!((back.box_.x, back.box_.d), (1, 6));
    assert_eq!(back.offset, 0x0102_0304_0506_0708);
    assert_eq!((back.resource_id, back.level, back.stride, back.layer_stride), (9, 10, 11, 12));

    let entry = virtio_gpu_mem_entry { addr: 0x1_0000_0000, length: 4096, padding: 0 };
    assert_eq!(
        entry.to_bytes(),
        vec![0, 0, 0, 0, 1, 0, 0, 0, 0x00, 0x10, 0, 0, 0, 0, 0, 0]
    );
    let mut out = vec![0xee];
    entry.write_to(&mut out);
    assert_eq!(out.len(), 17);
    let read = virtio_gpu_mem_entry::read_from(&out, 1);
    assert_eq!((read.addr, read.length, read.padding), (0x1_0000_0000, 4096, 0));
}

#[test]
fn records_of_zero_bytes() {
    let create = virtio_gpu_ctx_create::default();
    assert_eq!(create.to_bytes(), vec![0u8; 96]);
    let edid = virtio_gpu_resp_edid::default();
    assert_eq!(edid.to_bytes(), vec![0u8; 1056]);
}

#[test]
fn context_names() {
    let mut create = virtio_gpu_ctx_create::default();
    create.debug_name[..5].copy_from_slice(b"gears");
    create.nlen = 5;
    assert_eq!(create.name(), "gears");
    create.nlen = 3;
    assert_eq!(create.name(), "gea");
    create.nlen = 0;
    assert_eq!(create.name(), "");
    create.debug_name = [b'a'; 64];
    create.nlen = 1000;
    assert_eq!(create.name(), "a".repeat(64));
    create.debug_name[2] = 0xff;
    create.nlen = 4;
    assert_eq!(create.name(), "<unkown>");
    create.nlen = 2;
    assert_eq!(create.name(), "aa");
}

#[test]
fn fence_flag() {
    let mut hdr = virtio_gpu_ctrl_hdr::default();
    assert!(!is_fence(hdr));
    hdr.flags = 1;
    assert!(is_fence(hdr));
    hdr.flags = 2;
    assert!(!is_fence(hdr));
    hdr.flags = 3;
    assert!(is_fence(hdr));
    hdr.flags = u32::MAX - 1;
    assert!(!is_fence(hdr));
}

/// Reads a record of the type from bytes of its size, and holds its bytes against them.
fn round_trip<R: WireRecord>(size: usize) {
    assert_eq!(R::size(), size);
    let bytes: Vec<u8> = (0..size).map(|i| (i as u8).wrapping_mul(13).wrapping_add(5)).collect();
    let record = R::from_slice(&bytes).unwrap();
    assert_eq!(record.to_bytes(), bytes);
    assert!(R::from_slice(&bytes[1..]).is_none());
    // wherever the bytes stand
    let mut padded = vec![0xa5u8; 3];
    padded.extend_from_slice(&bytes);
    padded.push(0x5a);
    let mut out = vec![0x11u8];
    R::read_from(&padded, 3).write_to(&mut out);
    assert_eq!(out[0], 0x11);
    assert_eq!(&out[1..], bytes.as_slice());
}

#[test]
fn every_record_round_trips() {
    round_trip::<virtio_gpu_ctrl_hdr>(24);
    round_trip::<virtio_gpu_cursor_pos>(16);
    round_trip::<virtio_gpu_update_cursor>(52);
    round_trip::<virtio_gpu_rect>(16);
    round_trip::<virtio_gpu_resource_unref>(32);
    round_trip::<virtio_gpu_resource_create_2d>(40);
    round_trip::<virtio_gpu_set_scanout>(48);
    round_trip::<virtio_gpu_resource_flush>(48);
    round_trip::<virtio_gpu_transfer_to_host_2d>(56);
    round_trip::<virtio_gpu_mem_entry>(16);
    round_trip::<virtio_gpu_resource_attach_backing>(32);
    round_trip::<virtio_gpu_resource_detach_backing>(32);
    round_trip::<virtio_gpu_display_one>(24);
    round_trip::<virtio_gpu_resp_display_info>(408);
    round_trip::<virtio_gpu_box>(24);
    round_trip::<virtio_gpu_transfer_host_3d>(72);
    round_trip::<virtio_gpu_resource_create_3d>(72);
    round_trip::<virtio_gpu_ctx_create>(96);
    round_trip::<virtio_gpu_ctx_destroy>(24);
    round_trip::<virtio_gpu_ctx_resource>(32);
    round_trip::<virtio_gpu_cmd_submit>(32);
    round_trip::<virtio_gpu_get_capset_info>(32);
    round_trip::<virtio_gpu_resp_capset_info>(40);
    round_trip::<virtio_gpu_get_capset>(32);
    round_trip::<virtio_gpu_resp_capset>(24);
    round_trip::<virtio_gpu_cmd_get_edid>(32);
    round_trip::<virtio_gpu_resp_edid>(1056);
    round_trip::<virtio_gpu_config>(16);
    round_trip::<virtio_gpu_resource_assign_uuid>(32);
    round_trip::<virtio_gpu_resp_resource_uuid>(40);
}
