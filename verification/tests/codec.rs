use virtio_gpu::bytes::get_u32;
use virtio_gpu::bytes::get_u64;
use virtio_gpu::bytes::put_u32;
use virtio_gpu::bytes::put_u64;
use virtio_gpu::protocol::VIRTIO_GPU_MAX_SCANOUTS;
use rutabaga_gfx::RutabagaError;
use virtio_gpu::VirtioGpuResponse;
use vm_memory::GuestMemoryError;

fn header(type_lo: u8, type_hi: u8) -> Vec<u8> {
    let mut hdr = vec![0u8; 24];
    hdr[0] = type_lo;
    hdr[1] = type_hi;
    hdr
}

#[test]
fn test_encode_resp() {
    let mut hdr_bytes: Vec<u8> = vec![
        0x00, 0x11, 0x00, 0x00,
        0x00, 0x00, 0x00, 0x00,
        0x00, 0x00, 0x00, 0x00,
        0x00, 0x00, 0x00, 0x00,
        0x00, 0x00, 0x00, 0x00,
        0x00, 0x00, 0x00, 0x00,
    ];

    let cases: Vec<(VirtioGpuResponse, u8, u8, Vec<u8>)> = vec![
        (VirtioGpuResponse::OkNoData, 0x00, 0x11, vec![]),
        (VirtioGpuResponse::OkDisplayInfo(vec![(1920, 1080)]), 0x01, 0x11,
            [vec![
                0x00, 0x00, 0x00, 0x00, // x
                0x00, 0x00, 0x00, 0x00, // y
                0x80, 0x07, 0x00, 0x00, // width
                0x38, 0x04, 0x00, 0x00, // height
                0x01, 0x00, 0x00, 0x00, // enabled
                0x00, 0x00, 0x00, 0x00, // flags
            ], vec![0; 24 * (VIRTIO_GPU_MAX_SCANOUTS - 1)]].concat()),
        (VirtioGpuResponse::OkCapsetInfo {
                capset_id: 1,
                version: 2,
                size: 3
            }, 0x02, 0x11, vec![
                0x01, 0x00, 0x00, 0x00,
                0x02, 0x00, 0x00, 0x00,
                0x03, 0x00, 0x00, 0x00,
                0x00, 0x00, 0x00, 0x00,
            ]),
        (VirtioGpuResponse::OkCapset(vec![0x00, 0x01, 0x02]), 0x03, 0x11, vec![
                0x00, 0x01, 0x02
            ]),
        (VirtioGpuResponse::OkResourceUuid { uuid: [0x02; 16] }, 0x05, 0x11, vec![0x02; 16]),
        (VirtioGpuResponse::ErrUnspec, 0x00, 0x12, vec![]),
        (VirtioGpuResponse::ErrOutOfMemory, 0x01, 0x12, vec![]),
        (VirtioGpuResponse::ErrInvalidScanoutId, 0x02, 0x12, vec![]),
        (VirtioGpuResponse::ErrInvalidResourceId, 0x03, 0x12, vec![]),
        (VirtioGpuResponse::ErrInvalidContextId, 0x04, 0x12, vec![]),
        (VirtioGpuResponse::ErrInvalidParameter, 0x05, 0x12, vec![]),
    ];

    for case in cases {
        let resp = case.0;
        hdr_bytes[0] = case.1;
        hdr_bytes[1] = case.2;
        let data: Vec<u8> = hdr_bytes.iter().chain(case.3.iter()).cloned().collect();
        assert_eq!(resp.encode(0, 0, 0).unwrap_or(vec![]), data)
    }
}

#[test]
fn encode_display_info_with_fence_flag() {
    let bytes = VirtioGpuResponse::OkDisplayInfo(vec![(1920, 1080)]).encode(0x01, 0, 0).unwrap();
    assert_eq!(bytes.len(), 24 + 408 - 24);
    let mut expected = vec![
        0x01, 0x11, 0x00, 0x00, // type
        0x01, 0x00, 0x00, 0x00, // flags
        0x00, 0x00, 0x00, 0x00, 0x00, 0x00, 0x00, 0x00, // fence_id
        0x00, 0x00, 0x00, 0x00, // ctx_id
        0x00, 0x00, 0x00, 0x00, // padding
        0x00, 0x00, 0x00, 0x00, // x
        0x00, 0x00, 0x00, 0x00, // y
        0x80, 0x07, 0x00, 0x00, // w
        0x38, 0x04, 0x00, 0x00, // h
        0x01, 0x00, 0x00, 0x00, // enabled
        0x00, 0x00, 0x00, 0x00, // flags
    ];
    expected.extend(vec![0u8; 15 * 24]);
    assert_eq!(bytes, expected);
}

#[test]
fn encode_capset_info_payload() {
    let bytes = VirtioGpuResponse::OkCapsetInfo { capset_id: 1, version: 2, size: 3 }
        .encode(0, 0, 0)
        .unwrap();
    assert_eq!(&bytes[..24], header(0x02, 0x11).as_slice());
    assert_eq!(
        &bytes[24..],
        &[0x01, 0, 0, 0, 0x02, 0, 0, 0, 0x03, 0, 0, 0, 0x00, 0, 0, 0]
    );
}

#[test]
fn encode_capset_is_header_and_raw_bytes() {
    let bytes = VirtioGpuResponse::OkCapset(vec![0x00, 0x01, 0x02]).encode(0, 0, 0).unwrap();
    assert_eq!(bytes.len(), 27);
    assert_eq!(&bytes[..24], header(0x03, 0x11).as_slice());
    assert_eq!(&bytes[24..], &[0x00, 0x01, 0x02]);
    let empty = VirtioGpuResponse::OkCapset(vec![]).encode(0, 0, 0).unwrap();
    assert_eq!(empty, header(0x03, 0x11));
}

#[test]
fn encode_protocol_errors_are_header_only() {
    let cases = vec![
        (VirtioGpuResponse::ErrUnspec, 0x1200u32),
        (VirtioGpuResponse::ErrOutOfMemory, 0x1201),
        (VirtioGpuResponse::ErrInvalidScanoutId, 0x1202),
        (VirtioGpuResponse::ErrInvalidResourceId, 0x1203),
        (VirtioGpuResponse::ErrInvalidContextId, 0x1204),
        (VirtioGpuResponse::ErrInvalidParameter, 0x1205),
    ];
    for (resp, code) in cases {
        assert_eq!(resp.get_resp_command_const(), code);
        let bytes = resp.encode(1, 0x55, 9).unwrap();
        assert_eq!(bytes.len(), 24);
        assert_eq!(get_u32(&bytes, 0), code);
        assert_eq!(get_u32(&bytes, 4), 1);
        assert_eq!(get_u64(&bytes, 8), 0x55);
        assert_eq!(get_u32(&bytes, 16), 9);
        assert_eq!(get_u32(&bytes, 20), 0);
    }
}

#[test]
fn encode_device_failures_as_unspec() {
    let cases = vec![
        VirtioGpuResponse::TooManyScanout(17),
        VirtioGpuResponse::EncodeError(GuestMemoryError::InvalidBackendAddress),
        VirtioGpuResponse::RutabagaError(RutabagaError::InvalidResourceId),
        VirtioGpuResponse::UnsupportPlatform(u8::try_from(300u32).unwrap_err()),
        VirtioGpuResponse::InvalidSglistRegion(),
        VirtioGpuResponse::DisplayErr(String::from("no display")),
    ];
    for resp in cases {
        assert_eq!(resp.get_resp_command_const(), 0x1200);
        assert_eq!(resp.encode(0, 0, 0).unwrap(), header(0x00, 0x12));
    }
}

#[test]
fn encode_too_many_displays_fails() {
    let resp = VirtioGpuResponse::OkDisplayInfo(vec![(640, 480); 17]);
    match resp.encode(0x01, 0, 0) {
        Err(VirtioGpuResponse::TooManyScanout(n)) => assert_eq!(n, 17),
        other => panic!("expected TooManyScanout, got {:?}", other),
    }
}

#[test]
fn encode_sixteen_displays_fills_every_mode() {
    let displays: Vec<(u32, u32)> = (0..16u32).map(|i| (100 + i, 200 + i)).collect();
    let bytes = VirtioGpuResponse::OkDisplayInfo(displays).encode(0, 0, 0).unwrap();
    assert_eq!(bytes.len(), 408);
    for i in 0..16usize {
        let at = 24 + 24 * i;
        assert_eq!(get_u32(&bytes, at), 0);
        assert_eq!(get_u32(&bytes, at + 4), 0);
        assert_eq!(get_u32(&bytes, at + 8), 100 + i as u32);
        assert_eq!(get_u32(&bytes, at + 12), 200 + i as u32);
        assert_eq!(get_u32(&bytes, at + 16), 1);
        assert_eq!(get_u32(&bytes, at + 20), 0);
    }
}

#[test]
fn encode_no_display_is_all_disabled() {
    let bytes = VirtioGpuResponse::OkDisplayInfo(vec![]).encode(0, 0, 0).unwrap();
    assert_eq!(bytes.len(), 408);
    assert_eq!(&bytes[24..], vec![0u8; 384].as_slice());
}

#[test]
fn encode_edid_block() {
    let mut edid = [0u8; 1024];
    edid[0] = 0xaa;
    edid[1023] = 0xbb;
    let bytes = VirtioGpuResponse::OkEdid { size: 128, edid }.encode(0, 0, 0).unwrap();
    assert_eq!(bytes.len(), 24 + 8 + 1024);
    assert_eq!(&bytes[..24], header(0x04, 0x11).as_slice());
    assert_eq!(&bytes[24..32], &[128, 0, 0, 0, 0, 0, 0, 0]);
    assert_eq!(bytes[32], 0xaa);
    assert_eq!(bytes[1055], 0xbb);
}

#[test]
fn encode_header_fields_are_little_endian() {
    let bytes = VirtioGpuResponse::OkNoData
        .encode(0x0102_0304, 0x1122_3344_5566_7788, 0xaabb_ccdd)
        .unwrap();
    assert_eq!(
        bytes,
        vec![
            0x00, 0x11, 0x00, 0x00,
            0x04, 0x03, 0x02, 0x01,
            0x88, 0x77, 0x66, 0x55, 0x44, 0x33, 0x22, 0x11,
            0xdd, 0xcc, 0xbb, 0xaa,
            0x00, 0x00, 0x00, 0x00,
        ]
    );
}

#[test]
fn little_endian_helpers() {
    let mut out = vec![0xffu8];
    put_u32(&mut out, 0x1234_5678);
    put_u64(&mut out, 0x0102_0304_0506_0708);
    assert_eq!(
        out,
        vec![0xff, 0x78, 0x56, 0x34, 0x12, 0x08, 0x07, 0x06, 0x05, 0x04, 0x03, 0x02, 0x01]
    );
    assert_eq!(get_u32(&out, 1), 0x1234_5678);
    assert_eq!(get_u64(&out, 5), 0x0102_0304_0506_0708);
    assert_eq!(get_u32(&[0xff, 0xff, 0xff, 0xff], 0), u32::MAX);
    assert_eq!(get_u64(&[0xff; 8], 0), u64::MAX);
}

#[test]
fn responses_from_outside_errors() {
    assert!(matches!(
        VirtioGpuResponse::from(RutabagaError::InvalidContextId),
        VirtioGpuResponse::RutabagaError(RutabagaError::InvalidContextId)
    ));
    assert!(matches!(
        VirtioGpuResponse::from(GuestMemoryError::HostAddressNotAvailable),
        VirtioGpuResponse::EncodeError(GuestMemoryError::HostAddressNotAvailable)
    ));
    assert!(matches!(
        VirtioGpuResponse::from(u8::try_from(256u32).unwrap_err()),
        VirtioGpuResponse::UnsupportPlatform(_)
    ));
}
