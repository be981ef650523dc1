//! The virtio-gpu protocol: its constants and the fixed layouts of its records.
//!
//! The constants and layouts are those of virtio 1.1, section "GPU Device", and of the Linux
//! header `virtio_gpu.h`.

use vstd::prelude::*;
use std::marker::PhantomData;
use crate::bytes::byte_array;
use crate::bytes::get_array;
use crate::bytes::get_u32;
use crate::bytes::get_u64;
use crate::bytes::le32;
use crate::bytes::le64;
use crate::bytes::lemma_byte_array_iff;
use crate::bytes::lemma_byte_array_len;
use crate::bytes::lemma_concat_assoc;
use crate::bytes::lemma_concat_eq;
use crate::bytes::lemma_join;
use crate::bytes::lemma_le32_len;
use crate::bytes::lemma_le64_len;
use crate::bytes::lemma_u32_at_iff;
use crate::bytes::lemma_u64_at_iff;
use crate::bytes::put_bytes;
use crate::bytes::put_u32;
use crate::bytes::put_u64;
use crate::bytes::u32_at;
use crate::bytes::u64_at;
use crate::bytes::zeros;

verus! {

/* 2D commands */
pub const VIRTIO_GPU_CMD_GET_DISPLAY_INFO: u32 = 0x0100;

pub const VIRTIO_GPU_CMD_RESOURCE_CREATE_2D: u32 = 0x0101;

pub const VIRTIO_GPU_CMD_RESOURCE_UNREF: u32 = 0x0102;

pub const VIRTIO_GPU_CMD_SET_SCANOUT: u32 = 0x0103;

pub const VIRTIO_GPU_CMD_RESOURCE_FLUSH: u32 = 0x0104;

pub const VIRTIO_GPU_CMD_TRANSFER_TO_HOST_2D: u32 = 0x0105;

pub const VIRTIO_GPU_CMD_RESOURCE_ATTACH_BACKING: u32 = 0x0106;

pub const VIRTIO_GPU_CMD_RESOURCE_DETACH_BACKING: u32 = 0x0107;

pub const VIRTIO_GPU_CMD_GET_CAPSET_INFO: u32 = 0x0108;

pub const VIRTIO_GPU_CMD_GET_CAPSET: u32 = 0x0109;

pub const VIRTIO_GPU_CMD_GET_EDID: u32 = 0x010a;

/* 3D commands */
pub const VIRTIO_GPU_CMD_CTX_CREATE: u32 = 0x0200;

pub const VIRTIO_GPU_CMD_CTX_DESTROY: u32 = 0x0201;

pub const VIRTIO_GPU_CMD_CTX_ATTACH_RESOURCE: u32 = 0x0202;

pub const VIRTIO_GPU_CMD_CTX_DETACH_RESOURCE: u32 = 0x0203;

pub const VIRTIO_GPU_CMD_RESOURCE_CREATE_3D: u32 = 0x0204;

pub const VIRTIO_GPU_CMD_TRANSFER_TO_HOST_3D: u32 = 0x0205;

pub const VIRTIO_GPU_CMD_TRANSFER_FROM_HOST_3D: u32 = 0x0206;

pub const VIRTIO_GPU_CMD_SUBMIT_3D: u32 = 0x0207;

/* cursor commands */
pub const VIRTIO_GPU_CMD_UPDATE_CURSOR: u32 = 0x0301;

pub const VIRTIO_GPU_CMD_MOVE_CURSOR: u32 = 0x0302;

/* success responses */
pub const VIRTIO_GPU_RESP_OK_NODATA: u32 = 0x1100;

pub const VIRTIO_GPU_RESP_OK_DISPLAY_INFO: u32 = 0x1101;

pub const VIRTIO_GPU_RESP_OK_CAPSET_INFO: u32 = 0x1102;

pub const VIRTIO_GPU_RESP_OK_CAPSET: u32 = 0x1103;

pub const VIRTIO_GPU_RESP_OK_EDID: u32 = 0x1104;

pub const VIRTIO_GPU_RESP_OK_RESOURCE_UUID: u32 = 0x1105;

/* error responses */
pub const VIRTIO_GPU_RESP_ERR_UNSPEC: u32 = 0x1200;

pub const VIRTIO_GPU_RESP_ERR_OUT_OF_MEMORY: u32 = 0x1201;

pub const VIRTIO_GPU_RESP_ERR_INVALID_SCANOUT_ID: u32 = 0x1202;

pub const VIRTIO_GPU_RESP_ERR_INVALID_RESOURCE_ID: u32 = 0x1203;

pub const VIRTIO_GPU_RESP_ERR_INVALID_CONTEXT_ID: u32 = 0x1204;

pub const VIRTIO_GPU_RESP_ERR_INVALID_PARAMETER: u32 = 0x1205;

/// Header flag, bit 0: a fence is requested.
pub const VIRTIO_GPU_FLAG_FENCE: u32 = 0x1;

/// Header flag, bit 1: the fence carries a context index. Not part of the standard.
pub const VIRTIO_GPU_FLAG_INFO_FENCE_CTX_IDX: u32 = 0x2;

/// The virtio device type of a GPU.
pub const VIRTIO_GPU_DEVICE_TYPE: u32 = 16;

/* feature flags */
pub const VIRTIO_GPU_F_VIRGL: u32 = 0;

pub const VIRTIO_GPU_F_EDID: u32 = 1;

pub const VIRTIO_GPU_F_RESOURCE_UUID: u32 = 2;

/// The number of display modes in a display-info response, and so the most scanouts a device
/// has.
pub const VIRTIO_GPU_MAX_SCANOUTS: usize = 16;

/// Flag of `VIRTIO_GPU_CMD_RESOURCE_CREATE_3D`, bit 0.
pub const VIRTIO_GPU_RESOURCE_FLAG_Y_0_TOP: u32 = 0x1;

pub const VIRTIO_GPU_CAPSET_VIRGL: u32 = 1;

pub const VIRTIO_GPU_CAPSET_VIRGL2: u32 = 2;

/// Event bit of the configuration registers, bit 0.
pub const VIRTIO_GPU_EVENT_DISPLAY: u32 = 0x1;

/* simple formats for fbcon/X use */
pub const VIRTIO_GPU_FORMAT_B8G8R8A8_UNORM: u32 = 1;

pub const VIRTIO_GPU_FORMAT_B8G8R8X8_UNORM: u32 = 2;

pub const VIRTIO_GPU_FORMAT_A8R8G8B8_UNORM: u32 = 3;

pub const VIRTIO_GPU_FORMAT_X8R8G8B8_UNORM: u32 = 4;

pub const VIRTIO_GPU_FORMAT_R8G8B8A8_UNORM: u32 = 67;

pub const VIRTIO_GPU_FORMAT_X8B8G8R8_UNORM: u32 = 68;

pub const VIRTIO_GPU_FORMAT_A8B8G8R8_UNORM: u32 = 121;

pub const VIRTIO_GPU_FORMAT_R8G8B8X8_UNORM: u32 = 134;

/// A record with a fixed layout on the wire: every field little-endian, one after the other,
/// with no padding but what the record itself names.
pub trait WireRecord: Sized {
    /// The number of bytes the record takes.
    spec fn wire_len() -> nat;

    /// The record's bytes.
    spec fn wire(&self) -> Seq<u8>;

    /// The record that the bytes at `off .. off + wire_len()` in `b` stand for.
    spec fn parse_at(b: Seq<u8>, off: int) -> Self;

    /// Every record of one type takes the same number of bytes.
    proof fn lemma_wire_len(&self)
        ensures
            self.wire().len() == Self::wire_len(),
    ;

    /// The bytes at `off` are those of `r` exactly when `r` is the record read there.
    proof fn lemma_parse_iff(b: Seq<u8>, off: int, r: Self)
        requires
            0 <= off,
            off + Self::wire_len() <= b.len(),
        ensures
            b.subrange(off, off + Self::wire_len()) == r.wire() <==> Self::parse_at(b, off) == r,
    ;

    /// The number of bytes the record takes.
    fn size() -> (n: usize)
        ensures
            n == Self::wire_len(),
    ;

    /// Appends the record's bytes.
    fn write_to(&self, out: &mut Vec<u8>)
        ensures
            final(out)@ == old(out)@ + self.wire(),
    ;

    /// Reads the record that stands at `off`.
    fn read_from(b: &[u8], off: usize) -> (r: Self)
        requires
            off + Self::wire_len() <= b.len(),
        ensures
            r == Self::parse_at(b@, off as int),
    ;

    /// The record's bytes, in a vector of their own.
    fn to_bytes(&self) -> (out: Vec<u8>)
        ensures
            out@ == self.wire(),
    {
        let mut out: Vec<u8> = Vec::new();
        self.write_to(&mut out);
        assert(out@ =~= self.wire());
        out
    }

    /// The record that `bytes` stand for, if they are as many as the record takes.
    fn from_slice(bytes: &[u8]) -> (r: Option<Self>)
        ensures
            r == if bytes@.len() == Self::wire_len() {
                Some(Self::parse_at(bytes@, 0))
            } else {
                None
            },
    {
        if bytes.len() == Self::size() {
            Some(Self::read_from(bytes, 0))
        } else {
            None
        }
    }
}

/// Reading back a record's bytes gives the record again.
pub proof fn lemma_parse_wire<R: WireRecord>(r: R)
    ensures
        r.wire().len() == R::wire_len(),
        R::parse_at(r.wire(), 0) == r,
{
    r.lemma_wire_len();
    assert(r.wire().subrange(0, R::wire_len() as int) =~= r.wire());
    R::lemma_parse_iff(r.wire(), 0, r);
}

/// Writing out the record that bytes stand for gives the bytes again.
pub proof fn lemma_wire_parse<R: WireRecord>(b: Seq<u8>)
    requires
        b.len() == R::wire_len(),
    ensures
        R::parse_at(b, 0).wire() == b,
{
    assert(b.subrange(0, R::wire_len() as int) =~= b);
    R::lemma_parse_iff(b, 0, R::parse_at(b, 0));
}

/// The header at the front of every command and response.
#[allow(non_camel_case_types)]
#[derive(Debug, Copy, Clone, Default)]
pub struct virtio_gpu_ctrl_hdr {
    pub type_: u32,
    pub flags: u32,
    pub fence_id: u64,
    pub ctx_id: u32,
    pub padding: u32,
}

impl WireRecord for virtio_gpu_ctrl_hdr {
    open spec fn wire_len() -> nat {
        24
    }

    open spec fn wire(&self) -> Seq<u8> {
        le32(self.type_)
            + le32(self.flags)
            + le64(self.fence_id)
            + le32(self.ctx_id)
            + le32(self.padding)
    }

    open spec fn parse_at(b: Seq<u8>, off: int) -> Self {
        virtio_gpu_ctrl_hdr {
            type_: u32_at(b, off),
            flags: u32_at(b, off + 4),
            fence_id: u64_at(b, off + 8),
            ctx_id: u32_at(b, off + 16),
            padding: u32_at(b, off + 20),
        }
    }

    proof fn lemma_wire_len(&self) {
        lemma_le32_len(self.type_);
        lemma_le32_len(self.flags);
        lemma_le64_len(self.fence_id);
        lemma_le32_len(self.ctx_id);
        lemma_le32_len(self.padding);
    }

    proof fn lemma_parse_iff(b: Seq<u8>, off: int, r: Self) {
        let p = Self::parse_at(b, off);
        let w0 = le32(r.type_);
        let w1 = le32(r.flags);
        let w2 = le64(r.fence_id);
        let w3 = le32(r.ctx_id);
        let w4 = le32(r.padding);
        let s1 = w0 + w1;
        let s2 = s1 + w2;
        let s3 = s2 + w3;
        lemma_le32_len(r.type_);
        lemma_u32_at_iff(b, off, r.type_);
        lemma_le32_len(r.flags);
        lemma_u32_at_iff(b, off + 4, r.flags);
        lemma_join(b, off, off + 4, off + 8);
        lemma_le64_len(r.fence_id);
        lemma_u64_at_iff(b, off + 8, r.fence_id);
        lemma_join(b, off, off + 8, off + 16);
        lemma_le32_len(r.ctx_id);
        lemma_u32_at_iff(b, off + 16, r.ctx_id);
        lemma_join(b, off, off + 16, off + 20);
        lemma_le32_len(r.padding);
        lemma_u32_at_iff(b, off + 20, r.padding);
        lemma_join(b, off, off + 20, off + 24);
        if b.subrange(off, off + 24) == r.wire() {
            lemma_concat_eq(b.subrange(off, off + 20), b.subrange(off + 20, off + 24), s3, w4);
            lemma_concat_eq(b.subrange(off, off + 16), b.subrange(off + 16, off + 20), s2, w3);
            lemma_concat_eq(b.subrange(off, off + 8), b.subrange(off + 8, off + 16), s1, w2);
            lemma_concat_eq(b.subrange(off, off + 4), b.subrange(off + 4, off + 8), w0, w1);
            assert(p == r);
        }
        if p == r {
            assert(s1 == b.subrange(off, off + 8));
            assert(s2 == b.subrange(off, off + 16));
            assert(s3 == b.subrange(off, off + 20));
        }
    }

    fn size() -> usize {
        24
    }

    fn write_to(&self, out: &mut Vec<u8>) {
        let ghost w0 = le32(self.type_);
        let ghost w1 = le32(self.flags);
        let ghost w2 = le64(self.fence_id);
        let ghost w3 = le32(self.ctx_id);
        let ghost w4 = le32(self.padding);
        let ghost s1 = w0 + w1;
        let ghost s2 = s1 + w2;
        let ghost s3 = s2 + w3;
        put_u32(out, self.type_);
        put_u32(out, self.flags);
        proof {
            lemma_concat_assoc(old(out)@, w0, w1);
        }
        put_u64(out, self.fence_id);
        proof {
            lemma_concat_assoc(old(out)@, s1, w2);
        }
        put_u32(out, self.ctx_id);
        proof {
            lemma_concat_assoc(old(out)@, s2, w3);
        }
        put_u32(out, self.padding);
        proof {
            lemma_concat_assoc(old(out)@, s3, w4);
        }
    }

    fn read_from(b: &[u8], off: usize) -> Self {
        virtio_gpu_ctrl_hdr {
            type_: get_u32(b, off),
            flags: get_u32(b, off + 4),
            fence_id: get_u64(b, off + 8),
            ctx_id: get_u32(b, off + 16),
            padding: get_u32(b, off + 20),
        }
    }
}

/// Where the cursor stands: data passed in the cursor queue.
#[allow(non_camel_case_types)]
#[derive(Debug, Copy, Clone, Default)]
pub struct virtio_gpu_cursor_pos {
    pub scanout_id: u32,
    pub x: u32,
    pub y: u32,
    pub padding: u32,
}

impl WireRecord for virtio_gpu_cursor_pos {
    open spec fn wire_len() -> nat {
        16
    }

    open spec fn wire(&self) -> Seq<u8> {
        le32(self.scanout_id) + le32(self.x) + le32(self.y) + le32(self.padding)
    }

    open spec fn parse_at(b: Seq<u8>, off: int) -> Self {
        virtio_gpu_cursor_pos {
            scanout_id: u32_at(b, off),
            x: u32_at(b, off + 4),
            y: u32_at(b, off + 8),
            padding: u32_at(b, off + 12),
        }
    }

    proof fn lemma_wire_len(&self) {
        lemma_le32_len(self.scanout_id);
        lemma_le32_len(self.x);
        lemma_le32_len(self.y);
        lemma_le32_len(self.padding);
    }

    proof fn lemma_parse_iff(b: Seq<u8>, off: int, r: Self) {
        let p = Self::parse_at(b, off);
        let w0 = le32(r.scanout_id);
        let w1 = le32(r.x);
        let w2 = le32(r.y);
        let w3 = le32(r.padding);
        let s1 = w0 + w1;
        let s2 = s1 + w2;
        lemma_le32_len(r.scanout_id);
        lemma_u32_at_iff(b, off, r.scanout_id);
        lemma_le32_len(r.x);
        lemma_u32_at_iff(b, off + 4, r.x);
        lemma_join(b, off, off + 4, off + 8);
        lemma_le32_len(r.y);
        lemma_u32_at_iff(b, off + 8, r.y);
        lemma_join(b, off, off + 8, off + 12);
        lemma_le32_len(r.padding);
        lemma_u32_at_iff(b, off + 12, r.padding);
        lemma_join(b, off, off + 12, off + 16);
        if b.subrange(off, off + 16) == r.wire() {
            lemma_concat_eq(b.subrange(off, off + 12), b.subrange(off + 12, off + 16), s2, w3);
            lemma_concat_eq(b.subrange(off, off + 8), b.subrange(off + 8, off + 12), s1, w2);
            lemma_concat_eq(b.subrange(off, off + 4), b.subrange(off + 4, off + 8), w0, w1);
            assert(p == r);
        }
        if p == r {
            assert(s1 == b.subrange(off, off + 8));
            assert(s2 == b.subrange(off, off + 12));
        }
    }

    fn size() -> usize {
        16
    }

    fn write_to(&self, out: &mut Vec<u8>) {
        let ghost w0 = le32(self.scanout_id);
        let ghost w1 = le32(self.x);
        let ghost w2 = le32(self.y);
        let ghost w3 = le32(self.padding);
        let ghost s1 = w0 + w1;
        let ghost s2 = s1 + w2;
        put_u32(out, self.scanout_id);
        put_u32(out, self.x);
        proof {
            lemma_concat_assoc(old(out)@, w0, w1);
        }
        put_u32(out, self.y);
        proof {
            lemma_concat_assoc(old(out)@, s1, w2);
        }
        put_u32(out, self.padding);
        proof {
            lemma_concat_assoc(old(out)@, s2, w3);
        }
    }

    fn read_from(b: &[u8], off: usize) -> Self {
        virtio_gpu_cursor_pos {
            scanout_id: get_u32(b, off),
            x: get_u32(b, off + 4),
            y: get_u32(b, off + 8),
            padding: get_u32(b, off + 12),
        }
    }
}

/// `VIRTIO_GPU_CMD_UPDATE_CURSOR`, `VIRTIO_GPU_CMD_MOVE_CURSOR`.
#[allow(non_camel_case_types)]
#[derive(Debug, Copy, Clone, Default)]
pub struct virtio_gpu_update_cursor {
    pub hdr: virtio_gpu_ctrl_hdr,
    pub pos: virtio_gpu_cursor_pos,
    pub resource_id: u32,
    pub hot_x: u32,
    pub padding: u32,
}

impl WireRecord for virtio_gpu_update_cursor {
    open spec fn wire_len() -> nat {
        52
    }

    open spec fn wire(&self) -> Seq<u8> {
        self.hdr.wire()
            + self.pos.wire()
            + le32(self.resource_id)
            + le32(self.hot_x)
            + le32(self.padding)
    }

    open spec fn parse_at(b: Seq<u8>, off: int) -> Self {
        virtio_gpu_update_cursor {
            hdr: virtio_gpu_ctrl_hdr::parse_at(b, off),
            pos: virtio_gpu_cursor_pos::parse_at(b, off + 24),
            resource_id: u32_at(b, off + 40),
            hot_x: u32_at(b, off + 44),
            padding: u32_at(b, off + 48),
        }
    }

    proof fn lemma_wire_len(&self) {
        self.hdr.lemma_wire_len();
        self.pos.lemma_wire_len();
        lemma_le32_len(self.resource_id);
        lemma_le32_len(self.hot_x);
        lemma_le32_len(self.padding);
    }

    proof fn lemma_parse_iff(b: Seq<u8>, off: int, r: Self) {
        let p = Self::parse_at(b, off);
        let w0 = r.hdr.wire();
        let w1 = r.pos.wire();
        let w2 = le32(r.resource_id);
        let w3 = le32(r.hot_x);
        let w4 = le32(r.padding);
        let s1 = w0 + w1;
        let s2 = s1 + w2;
        let s3 = s2 + w3;
        r.hdr.lemma_wire_len();
        virtio_gpu_ctrl_hdr::lemma_parse_iff(b, off, r.hdr);
        r.pos.lemma_wire_len();
        virtio_gpu_cursor_pos::lemma_parse_iff(b, off + 24, r.pos);
        lemma_join(b, off, off + 24, off + 40);
        lemma_le32_len(r.resource_id);
        lemma_u32_at_iff(b, off + 40, r.resource_id);
        lemma_join(b, off, off + 40, off + 44);
        lemma_le32_len(r.hot_x);
        lemma_u32_at_iff(b, off + 44, r.hot_x);
        lemma_join(b, off, off + 44, off + 48);
        lemma_le32_len(r.padding);
        lemma_u32_at_iff(b, off + 48, r.padding);
        lemma_join(b, off, off + 48, off + 52);
        if b.subrange(off, off + 52) == r.wire() {
            lemma_concat_eq(b.subrange(off, off + 48), b.subrange(off + 48, off + 52), s3, w4);
            lemma_concat_eq(b.subrange(off, off + 44), b.subrange(off + 44, off + 48), s2, w3);
            lemma_concat_eq(b.subrange(off, off + 40), b.subrange(off + 40, off + 44), s1, w2);
            lemma_concat_eq(b.subrange(off, off + 24), b.subrange(off + 24, off + 40), w0, w1);
            assert(p == r);
        }
        if p == r {
            assert(s1 == b.subrange(off, off + 40));
            assert(s2 == b.subrange(off, off + 44));
            assert(s3 == b.subrange(off, off + 48));
        }
    }

    fn size() -> usize {
        52
    }

    fn write_to(&self, out: &mut Vec<u8>) {
        let ghost w0 = self.hdr.wire();
        let ghost w1 = self.pos.wire();
        let ghost w2 = le32(self.resource_id);
        let ghost w3 = le32(self.hot_x);
        let ghost w4 = le32(self.padding);
        let ghost s1 = w0 + w1;
        let ghost s2 = s1 + w2;
        let ghost s3 = s2 + w3;
        self.hdr.write_to(out);
        self.pos.write_to(out);
        proof {
            lemma_concat_assoc(old(out)@, w0, w1);
        }
        put_u32(out, self.resource_id);
        proof {
            lemma_concat_assoc(old(out)@, s1, w2);
        }
        put_u32(out, self.hot_x);
        proof {
            lemma_concat_assoc(old(out)@, s2, w3);
        }
        put_u32(out, self.padding);
        proof {
            lemma_concat_assoc(old(out)@, s3, w4);
        }
    }

    fn read_from(b: &[u8], off: usize) -> Self {
        virtio_gpu_update_cursor {
            hdr: virtio_gpu_ctrl_hdr::read_from(b, off),
            pos: virtio_gpu_cursor_pos::read_from(b, off + 24),
            resource_id: get_u32(b, off + 40),
            hot_x: get_u32(b, off + 44),
            padding: get_u32(b, off + 48),
        }
    }
}

/// A rectangle: data passed in the control queue, 2D related.
#[allow(non_camel_case_types)]
#[derive(Debug, Copy, Clone, Default)]
pub struct virtio_gpu_rect {
    pub x: u32,
    pub y: u32,
    pub width: u32,
    pub height: u32,
}

impl WireRecord for virtio_gpu_rect {
    open spec fn wire_len() -> nat {
        16
    }

    open spec fn wire(&self) -> Seq<u8> {
        le32(self.x) + le32(self.y) + le32(self.width) + le32(self.height)
    }

    open spec fn parse_at(b: Seq<u8>, off: int) -> Self {
        virtio_gpu_rect {
            x: u32_at(b, off),
            y: u32_at(b, off + 4),
            width: u32_at(b, off + 8),
            height: u32_at(b, off + 12),
        }
    }

    proof fn lemma_wire_len(&self) {
        lemma_le32_len(self.x);
        lemma_le32_len(self.y);
        lemma_le32_len(self.width);
        lemma_le32_len(self.height);
    }

    proof fn lemma_parse_iff(b: Seq<u8>, off: int, r: Self) {
        let p = Self::parse_at(b, off);
        let w0 = le32(r.x);
        let w1 = le32(r.y);
        let w2 = le32(r.width);
        let w3 = le32(r.height);
        let s1 = w0 + w1;
        let s2 = s1 + w2;
        lemma_le32_len(r.x);
        lemma_u32_at_iff(b, off, r.x);
        lemma_le32_len(r.y);
        lemma_u32_at_iff(b, off + 4, r.y);
        lemma_join(b, off, off + 4, off + 8);
        lemma_le32_len(r.width);
        lemma_u32_at_iff(b, off + 8, r.width);
        lemma_join(b, off, off + 8, off + 12);
        lemma_le32_len(r.height);
        lemma_u32_at_iff(b, off + 12, r.height);
        lemma_join(b, off, off + 12, off + 16);
        if b.subrange(off, off + 16) == r.wire() {
            lemma_concat_eq(b.subrange(off, off + 12), b.subrange(off + 12, off + 16), s2, w3);
            lemma_concat_eq(b.subrange(off, off + 8), b.subrange(off + 8, off + 12), s1, w2);
            lemma_concat_eq(b.subrange(off, off + 4), b.subrange(off + 4, off + 8), w0, w1);
            assert(p == r);
        }
        if p == r {
            assert(s1 == b.subrange(off, off + 8));
            assert(s2 == b.subrange(off, off + 12));
        }
    }

    fn size() -> usize {
        16
    }

    fn write_to(&self, out: &mut Vec<u8>) {
        let ghost w0 = le32(self.x);
        let ghost w1 = le32(self.y);
        let ghost w2 = le32(self.width);
        let ghost w3 = le32(self.height);
        let ghost s1 = w0 + w1;
        let ghost s2 = s1 + w2;
        put_u32(out, self.x);
        put_u32(out, self.y);
        proof {
            lemma_concat_assoc(old(out)@, w0, w1);
        }
        put_u32(out, self.width);
        proof {
            lemma_concat_assoc(old(out)@, s1, w2);
        }
        put_u32(out, self.height);
        proof {
            lemma_concat_assoc(old(out)@, s2, w3);
        }
    }

    fn read_from(b: &[u8], off: usize) -> Self {
        virtio_gpu_rect {
            x: get_u32(b, off),
            y: get_u32(b, off + 4),
            width: get_u32(b, off + 8),
            height: get_u32(b, off + 12),
        }
    }
}

/// `VIRTIO_GPU_CMD_RESOURCE_UNREF`.
#[allow(non_camel_case_types)]
#[derive(Debug, Copy, Clone, Default)]
pub struct virtio_gpu_resource_unref {
    pub hdr: virtio_gpu_ctrl_hdr,
    pub resource_id: u32,
    pub padding: u32,
}

impl WireRecord for virtio_gpu_resource_unref {
    open spec fn wire_len() -> nat {
        32
    }

    open spec fn wire(&self) -> Seq<u8> {
        self.hdr.wire() + le32(self.resource_id) + le32(self.padding)
    }

    open spec fn parse_at(b: Seq<u8>, off: int) -> Self {
        virtio_gpu_resource_unref {
            hdr: virtio_gpu_ctrl_hdr::parse_at(b, off),
            resource_id: u32_at(b, off + 24),
            padding: u32_at(b, off + 28),
        }
    }

    proof fn lemma_wire_len(&self) {
        self.hdr.lemma_wire_len();
        lemma_le32_len(self.resource_id);
        lemma_le32_len(self.padding);
    }

    proof fn lemma_parse_iff(b: Seq<u8>, off: int, r: Self) {
        let p = Self::parse_at(b, off);
        let w0 = r.hdr.wire();
        let w1 = le32(r.resource_id);
        let w2 = le32(r.padding);
        let s1 = w0 + w1;
        r.hdr.lemma_wire_len();
        virtio_gpu_ctrl_hdr::lemma_parse_iff(b, off, r.hdr);
        lemma_le32_len(r.resource_id);
        lemma_u32_at_iff(b, off + 24, r.resource_id);
        lemma_join(b, off, off + 24, off + 28);
        lemma_le32_len(r.padding);
        lemma_u32_at_iff(b, off + 28, r.padding);
        lemma_join(b, off, off + 28, off + 32);
        if b.subrange(off, off + 32) == r.wire() {
            lemma_concat_eq(b.subrange(off, off + 28), b.subrange(off + 28, off + 32), s1, w2);
            lemma_concat_eq(b.subrange(off, off + 24), b.subrange(off + 24, off + 28), w0, w1);
            assert(p == r);
        }
        if p == r {
            assert(s1 == b.subrange(off, off + 28));
        }
    }

    fn size() -> usize {
        32
    }

    fn write_to(&self, out: &mut Vec<u8>) {
        let ghost w0 = self.hdr.wire();
        let ghost w1 = le32(self.resource_id);
        let ghost w2 = le32(self.padding);
        let ghost s1 = w0 + w1;
        self.hdr.write_to(out);
        put_u32(out, self.resource_id);
        proof {
            lemma_concat_assoc(old(out)@, w0, w1);
        }
        put_u32(out, self.padding);
        proof {
            lemma_concat_assoc(old(out)@, s1, w2);
        }
    }

    fn read_from(b: &[u8], off: usize) -> Self {
        virtio_gpu_resource_unref {
            hdr: virtio_gpu_ctrl_hdr::read_from(b, off),
            resource_id: get_u32(b, off + 24),
            padding: get_u32(b, off + 28),
        }
    }
}

/// `VIRTIO_GPU_CMD_RESOURCE_CREATE_2D`: create a 2D resource with a format.
#[allow(non_camel_case_types)]
#[derive(Debug, Copy, Clone, Default)]
pub struct virtio_gpu_resource_create_2d {
    pub hdr: virtio_gpu_ctrl_hdr,
    pub resource_id: u32,
    pub format: u32,
    pub width: u32,
    pub height: u32,
}

impl WireRecord for virtio_gpu_resource_create_2d {
    open spec fn wire_len() -> nat {
        40
    }

    open spec fn wire(&self) -> Seq<u8> {
        self.hdr.wire()
            + le32(self.resource_id)
            + le32(self.format)
            + le32(self.width)
            + le32(self.height)
    }

    open spec fn parse_at(b: Seq<u8>, off: int) -> Self {
        virtio_gpu_resource_create_2d {
            hdr: virtio_gpu_ctrl_hdr::parse_at(b, off),
            resource_id: u32_at(b, off + 24),
            format: u32_at(b, off + 28),
            width: u32_at(b, off + 32),
            height: u32_at(b, off + 36),
        }
    }

    proof fn lemma_wire_len(&self) {
        self.hdr.lemma_wire_len();
        lemma_le32_len(self.resource_id);
        lemma_le32_len(self.format);
        lemma_le32_len(self.width);
        lemma_le32_len(self.height);
    }

    proof fn lemma_parse_iff(b: Seq<u8>, off: int, r: Self) {
        let p = Self::parse_at(b, off);
        let w0 = r.hdr.wire();
        let w1 = le32(r.resource_id);
        let w2 = le32(r.format);
        let w3 = le32(r.width);
        let w4 = le32(r.height);
        let s1 = w0 + w1;
        let s2 = s1 + w2;
        let s3 = s2 + w3;
        r.hdr.lemma_wire_len();
        virtio_gpu_ctrl_hdr::lemma_parse_iff(b, off, r.hdr);
        lemma_le32_len(r.resource_id);
        lemma_u32_at_iff(b, off + 24, r.resource_id);
        lemma_join(b, off, off + 24, off + 28);
        lemma_le32_len(r.format);
        lemma_u32_at_iff(b, off + 28, r.format);
        lemma_join(b, off, off + 28, off + 32);
        lemma_le32_len(r.width);
        lemma_u32_at_iff(b, off + 32, r.width);
        lemma_join(b, off, off + 32, off + 36);
        lemma_le32_len(r.height);
        lemma_u32_at_iff(b, off + 36, r.height);
        lemma_join(b, off, off + 36, off + 40);
        if b.subrange(off, off + 40) == r.wire() {
            lemma_concat_eq(b.subrange(off, off + 36), b.subrange(off + 36, off + 40), s3, w4);
            lemma_concat_eq(b.subrange(off, off + 32), b.subrange(off + 32, off + 36), s2, w3);
            lemma_concat_eq(b.subrange(off, off + 28), b.subrange(off + 28, off + 32), s1, w2);
            lemma_concat_eq(b.subrange(off, off + 24), b.subrange(off + 24, off + 28), w0, w1);
            assert(p == r);
        }
        if p == r {
            assert(s1 == b.subrange(off, off + 28));
            assert(s2 == b.subrange(off, off + 32));
            assert(s3 == b.subrange(off, off + 36));
        }
    }

    fn size() -> usize {
        40
    }

    fn write_to(&self, out: &mut Vec<u8>) {
        let ghost w0 = self.hdr.wire();
        let ghost w1 = le32(self.resource_id);
        let ghost w2 = le32(self.format);
        let ghost w3 = le32(self.width);
        let ghost w4 = le32(self.height);
        let ghost s1 = w0 + w1;
        let ghost s2 = s1 + w2;
        let ghost s3 = s2 + w3;
        self.hdr.write_to(out);
        put_u32(out, self.resource_id);
        proof {
            lemma_concat_assoc(old(out)@, w0, w1);
        }
        put_u32(out, self.format);
        proof {
            lemma_concat_assoc(old(out)@, s1, w2);
        }
        put_u32(out, self.width);
        proof {
            lemma_concat_assoc(old(out)@, s2, w3);
        }
        put_u32(out, self.height);
        proof {
            lemma_concat_assoc(old(out)@, s3, w4);
        }
    }

    fn read_from(b: &[u8], off: usize) -> Self {
        virtio_gpu_resource_create_2d {
            hdr: virtio_gpu_ctrl_hdr::read_from(b, off),
            resource_id: get_u32(b, off + 24),
            format: get_u32(b, off + 28),
            width: get_u32(b, off + 32),
            height: get_u32(b, off + 36),
        }
    }
}

/// `VIRTIO_GPU_CMD_SET_SCANOUT`.
#[allow(non_camel_case_types)]
#[derive(Debug, Copy, Clone, Default)]
pub struct virtio_gpu_set_scanout {
    pub hdr: virtio_gpu_ctrl_hdr,
    pub r: virtio_gpu_rect,
    pub scanout_id: u32,
    pub resource_id: u32,
}

impl WireRecord for virtio_gpu_set_scanout {
    open spec fn wire_len() -> nat {
        48
    }

    open spec fn wire(&self) -> Seq<u8> {
        self.hdr.wire() + self.r.wire() + le32(self.scanout_id) + le32(self.resource_id)
    }

    open spec fn parse_at(b: Seq<u8>, off: int) -> Self {
        virtio_gpu_set_scanout {
            hdr: virtio_gpu_ctrl_hdr::parse_at(b, off),
            r: virtio_gpu_rect::parse_at(b, off + 24),
            scanout_id: u32_at(b, off + 40),
            resource_id: u32_at(b, off + 44),
        }
    }

    proof fn lemma_wire_len(&self) {
        self.hdr.lemma_wire_len();
        self.r.lemma_wire_len();
        lemma_le32_len(self.scanout_id);
        lemma_le32_len(self.resource_id);
    }

    proof fn lemma_parse_iff(b: Seq<u8>, off: int, r: Self) {
        let p = Self::parse_at(b, off);
        let w0 = r.hdr.wire();
        let w1 = r.r.wire();
        let w2 = le32(r.scanout_id);
        let w3 = le32(r.resource_id);
        let s1 = w0 + w1;
        let s2 = s1 + w2;
        r.hdr.lemma_wire_len();
        virtio_gpu_ctrl_hdr::lemma_parse_iff(b, off, r.hdr);
        r.r.lemma_wire_len();
        virtio_gpu_rect::lemma_parse_iff(b, off + 24, r.r);
        lemma_join(b, off, off + 24, off + 40);
        lemma_le32_len(r.scanout_id);
        lemma_u32_at_iff(b, off + 40, r.scanout_id);
        lemma_join(b, off, off + 40, off + 44);
        lemma_le32_len(r.resource_id);
        lemma_u32_at_iff(b, off + 44, r.resource_id);
        lemma_join(b, off, off + 44, off + 48);
        if b.subrange(off, off + 48) == r.wire() {
            lemma_concat_eq(b.subrange(off, off + 44), b.subrange(off + 44, off + 48), s2, w3);
            lemma_concat_eq(b.subrange(off, off + 40), b.subrange(off + 40, off + 44), s1, w2);
            lemma_concat_eq(b.subrange(off, off + 24), b.subrange(off + 24, off + 40), w0, w1);
            assert(p == r);
        }
        if p == r {
            assert(s1 == b.subrange(off, off + 40));
            assert(s2 == b.subrange(off, off + 44));
        }
    }

    fn size() -> usize {
        48
    }

    fn write_to(&self, out: &mut Vec<u8>) {
        let ghost w0 = self.hdr.wire();
        let ghost w1 = self.r.wire();
        let ghost w2 = le32(self.scanout_id);
        let ghost w3 = le32(self.resource_id);
        let ghost s1 = w0 + w1;
        let ghost s2 = s1 + w2;
        self.hdr.write_to(out);
        self.r.write_to(out);
        proof {
            lemma_concat_assoc(old(out)@, w0, w1);
        }
        put_u32(out, self.scanout_id);
        proof {
            lemma_concat_assoc(old(out)@, s1, w2);
        }
        put_u32(out, self.resource_id);
        proof {
            lemma_concat_assoc(old(out)@, s2, w3);
        }
    }

    fn read_from(b: &[u8], off: usize) -> Self {
        virtio_gpu_set_scanout {
            hdr: virtio_gpu_ctrl_hdr::read_from(b, off),
            r: virtio_gpu_rect::read_from(b, off + 24),
            scanout_id: get_u32(b, off + 40),
            resource_id: get_u32(b, off + 44),
        }
    }
}

/// `VIRTIO_GPU_CMD_RESOURCE_FLUSH`.
#[allow(non_camel_case_types)]
#[derive(Debug, Copy, Clone, Default)]
pub struct virtio_gpu_resource_flush {
    pub hdr: virtio_gpu_ctrl_hdr,
    pub r: virtio_gpu_rect,
    pub resource_id: u32,
    pub padding: u32,
}

impl WireRecord for virtio_gpu_resource_flush {
    open spec fn wire_len() -> nat {
        48
    }

    open spec fn wire(&self) -> Seq<u8> {
        self.hdr.wire() + self.r.wire() + le32(self.resource_id) + le32(self.padding)
    }

    open spec fn parse_at(b: Seq<u8>, off: int) -> Self {
        virtio_gpu_resource_flush {
            hdr: virtio_gpu_ctrl_hdr::parse_at(b, off),
            r: virtio_gpu_rect::parse_at(b, off + 24),
            resource_id: u32_at(b, off + 40),
            padding: u32_at(b, off + 44),
        }
    }

    proof fn lemma_wire_len(&self) {
        self.hdr.lemma_wire_len();
        self.r.lemma_wire_len();
        lemma_le32_len(self.resource_id);
        lemma_le32_len(self.padding);
    }

    proof fn lemma_parse_iff(b: Seq<u8>, off: int, r: Self) {
        let p = Self::parse_at(b, off);
        let w0 = r.hdr.wire();
        let w1 = r.r.wire();
        let w2 = le32(r.resource_id);
        let w3 = le32(r.padding);
        let s1 = w0 + w1;
        let s2 = s1 + w2;
        r.hdr.lemma_wire_len();
        virtio_gpu_ctrl_hdr::lemma_parse_iff(b, off, r.hdr);
        r.r.lemma_wire_len();
        virtio_gpu_rect::lemma_parse_iff(b, off + 24, r.r);
        lemma_join(b, off, off + 24, off + 40);
        lemma_le32_len(r.resource_id);
        lemma_u32_at_iff(b, off + 40, r.resource_id);
        lemma_join(b, off, off + 40, off + 44);
        lemma_le32_len(r.padding);
        lemma_u32_at_iff(b, off + 44, r.padding);
        lemma_join(b, off, off + 44, off + 48);
        if b.subrange(off, off + 48) == r.wire() {
            lemma_concat_eq(b.subrange(off, off + 44), b.subrange(off + 44, off + 48), s2, w3);
            lemma_concat_eq(b.subrange(off, off + 40), b.subrange(off + 40, off + 44), s1, w2);
            lemma_concat_eq(b.subrange(off, off + 24), b.subrange(off + 24, off + 40), w0, w1);
            assert(p == r);
        }
        if p == r {
            assert(s1 == b.subrange(off, off + 40));
            assert(s2 == b.subrange(off, off + 44));
        }
    }

    fn size() -> usize {
        48
    }

    fn write_to(&self, out: &mut Vec<u8>) {
        let ghost w0 = self.hdr.wire();
        let ghost w1 = self.r.wire();
        let ghost w2 = le32(self.resource_id);
        let ghost w3 = le32(self.padding);
        let ghost s1 = w0 + w1;
        let ghost s2 = s1 + w2;
        self.hdr.write_to(out);
        self.r.write_to(out);
        proof {
            lemma_concat_assoc(old(out)@, w0, w1);
        }
        put_u32(out, self.resource_id);
        proof {
            lemma_concat_assoc(old(out)@, s1, w2);
        }
        put_u32(out, self.padding);
        proof {
            lemma_concat_assoc(old(out)@, s2, w3);
        }
    }

    fn read_from(b: &[u8], off: usize) -> Self {
        virtio_gpu_resource_flush {
            hdr: virtio_gpu_ctrl_hdr::read_from(b, off),
            r: virtio_gpu_rect::read_from(b, off + 24),
            resource_id: get_u32(b, off + 40),
            padding: get_u32(b, off + 44),
        }
    }
}

/// `VIRTIO_GPU_CMD_TRANSFER_TO_HOST_2D`: simple transfer to the host.
#[allow(non_camel_case_types)]
#[derive(Debug, Copy, Clone, Default)]
pub struct virtio_gpu_transfer_to_host_2d {
    pub hdr: virtio_gpu_ctrl_hdr,
    pub r: virtio_gpu_rect,
    pub offset: u64,
    pub resource_id: u32,
    pub padding: u32,
}

impl WireRecord for virtio_gpu_transfer_to_host_2d {
    open spec fn wire_len() -> nat {
        56
    }

    open spec fn wire(&self) -> Seq<u8> {
        self.hdr.wire()
            + self.r.wire()
            + le64(self.offset)
            + le32(self.resource_id)
            + le32(self.padding)
    }

    open spec fn parse_at(b: Seq<u8>, off: int) -> Self {
        virtio_gpu_transfer_to_host_2d {
            hdr: virtio_gpu_ctrl_hdr::parse_at(b, off),
            r: virtio_gpu_rect::parse_at(b, off + 24),
            offset: u64_at(b, off + 40),
            resource_id: u32_at(b, off + 48),
            padding: u32_at(b, off + 52),
        }
    }

    proof fn lemma_wire_len(&self) {
        self.hdr.lemma_wire_len();
        self.r.lemma_wire_len();
        lemma_le64_len(self.offset);
        lemma_le32_len(self.resource_id);
        lemma_le32_len(self.padding);
    }

    proof fn lemma_parse_iff(b: Seq<u8>, off: int, r: Self) {
        let p = Self::parse_at(b, off);
        let w0 = r.hdr.wire();
        let w1 = r.r.wire();
        let w2 = le64(r.offset);
        let w3 = le32(r.resource_id);
        let w4 = le32(r.padding);
        let s1 = w0 + w1;
        let s2 = s1 + w2;
        let s3 = s2 + w3;
        r.hdr.lemma_wire_len();
        virtio_gpu_ctrl_hdr::lemma_parse_iff(b, off, r.hdr);
        r.r.lemma_wire_len();
        virtio_gpu_rect::lemma_parse_iff(b, off + 24, r.r);
        lemma_join(b, off, off + 24, off + 40);
        lemma_le64_len(r.offset);
        lemma_u64_at_iff(b, off + 40, r.offset);
        lemma_join(b, off, off + 40, off + 48);
        lemma_le32_len(r.resource_id);
        lemma_u32_at_iff(b, off + 48, r.resource_id);
        lemma_join(b, off, off + 48, off + 52);
        lemma_le32_len(r.padding);
        lemma_u32_at_iff(b, off + 52, r.padding);
        lemma_join(b, off, off + 52, off + 56);
        if b.subrange(off, off + 56) == r.wire() {
            lemma_concat_eq(b.subrange(off, off + 52), b.subrange(off + 52, off + 56), s3, w4);
            lemma_concat_eq(b.subrange(off, off + 48), b.subrange(off + 48, off + 52), s2, w3);
            lemma_concat_eq(b.subrange(off, off + 40), b.subrange(off + 40, off + 48), s1, w2);
            lemma_concat_eq(b.subrange(off, off + 24), b.subrange(off + 24, off + 40), w0, w1);
            assert(p == r);
        }
        if p == r {
            assert(s1 == b.subrange(off, off + 40));
            assert(s2 == b.subrange(off, off + 48));
            assert(s3 == b.subrange(off, off + 52));
        }
    }

    fn size() -> usize {
        56
    }

    fn write_to(&self, out: &mut Vec<u8>) {
        let ghost w0 = self.hdr.wire();
        let ghost w1 = self.r.wire();
        let ghost w2 = le64(self.offset);
        let ghost w3 = le32(self.resource_id);
        let ghost w4 = le32(self.padding);
        let ghost s1 = w0 + w1;
        let ghost s2 = s1 + w2;
        let ghost s3 = s2 + w3;
        self.hdr.write_to(out);
        self.r.write_to(out);
        proof {
            lemma_concat_assoc(old(out)@, w0, w1);
        }
        put_u64(out, self.offset);
        proof {
            lemma_concat_assoc(old(out)@, s1, w2);
        }
        put_u32(out, self.resource_id);
        proof {
            lemma_concat_assoc(old(out)@, s2, w3);
        }
        put_u32(out, self.padding);
        proof {
            lemma_concat_assoc(old(out)@, s3, w4);
        }
    }

    fn read_from(b: &[u8], off: usize) -> Self {
        virtio_gpu_transfer_to_host_2d {
            hdr: virtio_gpu_ctrl_hdr::read_from(b, off),
            r: virtio_gpu_rect::read_from(b, off + 24),
            offset: get_u64(b, off + 40),
            resource_id: get_u32(b, off + 48),
            padding: get_u32(b, off + 52),
        }
    }
}

/// One span of guest memory: a variable count of these follows an attach-backing record.
#[allow(non_camel_case_types)]
#[derive(Debug, Copy, Clone, Default)]
pub struct virtio_gpu_mem_entry {
    pub addr: u64,
    pub length: u32,
    pub padding: u32,
}

impl WireRecord for virtio_gpu_mem_entry {
    open spec fn wire_len() -> nat {
        16
    }

    open spec fn wire(&self) -> Seq<u8> {
        le64(self.addr) + le32(self.length) + le32(self.padding)
    }

    open spec fn parse_at(b: Seq<u8>, off: int) -> Self {
        virtio_gpu_mem_entry {
            addr: u64_at(b, off),
            length: u32_at(b, off + 8),
            padding: u32_at(b, off + 12),
        }
    }

    proof fn lemma_wire_len(&self) {
        lemma_le64_len(self.addr);
        lemma_le32_len(self.length);
        lemma_le32_len(self.padding);
    }

    proof fn lemma_parse_iff(b: Seq<u8>, off: int, r: Self) {
        let p = Self::parse_at(b, off);
        let w0 = le64(r.addr);
        let w1 = le32(r.length);
        let w2 = le32(r.padding);
        let s1 = w0 + w1;
        lemma_le64_len(r.addr);
        lemma_u64_at_iff(b, off, r.addr);
        lemma_le32_len(r.length);
        lemma_u32_at_iff(b, off + 8, r.length);
        lemma_join(b, off, off + 8, off + 12);
        lemma_le32_len(r.padding);
        lemma_u32_at_iff(b, off + 12, r.padding);
        lemma_join(b, off, off + 12, off + 16);
        if b.subrange(off, off + 16) == r.wire() {
            lemma_concat_eq(b.subrange(off, off + 12), b.subrange(off + 12, off + 16), s1, w2);
            lemma_concat_eq(b.subrange(off, off + 8), b.subrange(off + 8, off + 12), w0, w1);
            assert(p == r);
        }
        if p == r {
            assert(s1 == b.subrange(off, off + 12));
        }
    }

    fn size() -> usize {
        16
    }

    fn write_to(&self, out: &mut Vec<u8>) {
        let ghost w0 = le64(self.addr);
        let ghost w1 = le32(self.length);
        let ghost w2 = le32(self.padding);
        let ghost s1 = w0 + w1;
        put_u64(out, self.addr);
        put_u32(out, self.length);
        proof {
            lemma_concat_assoc(old(out)@, w0, w1);
        }
        put_u32(out, self.padding);
        proof {
            lemma_concat_assoc(old(out)@, s1, w2);
        }
    }

    fn read_from(b: &[u8], off: usize) -> Self {
        virtio_gpu_mem_entry {
            addr: get_u64(b, off),
            length: get_u32(b, off + 8),
            padding: get_u32(b, off + 12),
        }
    }
}

/// `VIRTIO_GPU_CMD_RESOURCE_ATTACH_BACKING`.
#[allow(non_camel_case_types)]
#[derive(Debug, Copy, Clone, Default)]
pub struct virtio_gpu_resource_attach_backing {
    pub hdr: virtio_gpu_ctrl_hdr,
    pub resource_id: u32,
    pub nr_entries: u32,
}

impl WireRecord for virtio_gpu_resource_attach_backing {
    open spec fn wire_len() -> nat {
        32
    }

    open spec fn wire(&self) -> Seq<u8> {
        self.hdr.wire() + le32(self.resource_id) + le32(self.nr_entries)
    }

    open spec fn parse_at(b: Seq<u8>, off: int) -> Self {
        virtio_gpu_resource_attach_backing {
            hdr: virtio_gpu_ctrl_hdr::parse_at(b, off),
            resource_id: u32_at(b, off + 24),
            nr_entries: u32_at(b, off + 28),
        }
    }

    proof fn lemma_wire_len(&self) {
        self.hdr.lemma_wire_len();
        lemma_le32_len(self.resource_id);
        lemma_le32_len(self.nr_entries);
    }

    proof fn lemma_parse_iff(b: Seq<u8>, off: int, r: Self) {
        let p = Self::parse_at(b, off);
        let w0 = r.hdr.wire();
        let w1 = le32(r.resource_id);
        let w2 = le32(r.nr_entries);
        let s1 = w0 + w1;
        r.hdr.lemma_wire_len();
        virtio_gpu_ctrl_hdr::lemma_parse_iff(b, off, r.hdr);
        lemma_le32_len(r.resource_id);
        lemma_u32_at_iff(b, off + 24, r.resource_id);
        lemma_join(b, off, off + 24, off + 28);
        lemma_le32_len(r.nr_entries);
        lemma_u32_at_iff(b, off + 28, r.nr_entries);
        lemma_join(b, off, off + 28, off + 32);
        if b.subrange(off, off + 32) == r.wire() {
            lemma_concat_eq(b.subrange(off, off + 28), b.subrange(off + 28, off + 32), s1, w2);
            lemma_concat_eq(b.subrange(off, off + 24), b.subrange(off + 24, off + 28), w0, w1);
            assert(p == r);
        }
        if p == r {
            assert(s1 == b.subrange(off, off + 28));
        }
    }

    fn size() -> usize {
        32
    }

    fn write_to(&self, out: &mut Vec<u8>) {
        let ghost w0 = self.hdr.wire();
        let ghost w1 = le32(self.resource_id);
        let ghost w2 = le32(self.nr_entries);
        let ghost s1 = w0 + w1;
        self.hdr.write_to(out);
        put_u32(out, self.resource_id);
        proof {
            lemma_concat_assoc(old(out)@, w0, w1);
        }
        put_u32(out, self.nr_entries);
        proof {
            lemma_concat_assoc(old(out)@, s1, w2);
        }
    }

    fn read_from(b: &[u8], off: usize) -> Self {
        virtio_gpu_resource_attach_backing {
            hdr: virtio_gpu_ctrl_hdr::read_from(b, off),
            resource_id: get_u32(b, off + 24),
            nr_entries: get_u32(b, off + 28),
        }
    }
}

/// `VIRTIO_GPU_CMD_RESOURCE_DETACH_BACKING`.
#[allow(non_camel_case_types)]
#[derive(Debug, Copy, Clone, Default)]
pub struct virtio_gpu_resource_detach_backing {
    pub hdr: virtio_gpu_ctrl_hdr,
    pub resource_id: u32,
    pub padding: u32,
}

impl WireRecord for virtio_gpu_resource_detach_backing {
    open spec fn wire_len() -> nat {
        32
    }

    open spec fn wire(&self) -> Seq<u8> {
        self.hdr.wire() + le32(self.resource_id) + le32(self.padding)
    }

    open spec fn parse_at(b: Seq<u8>, off: int) -> Self {
        virtio_gpu_resource_detach_backing {
            hdr: virtio_gpu_ctrl_hdr::parse_at(b, off),
            resource_id: u32_at(b, off + 24),
            padding: u32_at(b, off + 28),
        }
    }

    proof fn lemma_wire_len(&self) {
        self.hdr.lemma_wire_len();
        lemma_le32_len(self.resource_id);
        lemma_le32_len(self.padding);
    }

    proof fn lemma_parse_iff(b: Seq<u8>, off: int, r: Self) {
        let p = Self::parse_at(b, off);
        let w0 = r.hdr.wire();
        let w1 = le32(r.resource_id);
        let w2 = le32(r.padding);
        let s1 = w0 + w1;
        r.hdr.lemma_wire_len();
        virtio_gpu_ctrl_hdr::lemma_parse_iff(b, off, r.hdr);
        lemma_le32_len(r.resource_id);
        lemma_u32_at_iff(b, off + 24, r.resource_id);
        lemma_join(b, off, off + 24, off + 28);
        lemma_le32_len(r.padding);
        lemma_u32_at_iff(b, off + 28, r.padding);
        lemma_join(b, off, off + 28, off + 32);
        if b.subrange(off, off + 32) == r.wire() {
            lemma_concat_eq(b.subrange(off, off + 28), b.subrange(off + 28, off + 32), s1, w2);
            lemma_concat_eq(b.subrange(off, off + 24), b.subrange(off + 24, off + 28), w0, w1);
            assert(p == r);
        }
        if p == r {
            assert(s1 == b.subrange(off, off + 28));
        }
    }

    fn size() -> usize {
        32
    }

    fn write_to(&self, out: &mut Vec<u8>) {
        let ghost w0 = self.hdr.wire();
        let ghost w1 = le32(self.resource_id);
        let ghost w2 = le32(self.padding);
        let ghost s1 = w0 + w1;
        self.hdr.write_to(out);
        put_u32(out, self.resource_id);
        proof {
            lemma_concat_assoc(old(out)@, w0, w1);
        }
        put_u32(out, self.padding);
        proof {
            lemma_concat_assoc(old(out)@, s1, w2);
        }
    }

    fn read_from(b: &[u8], off: usize) -> Self {
        virtio_gpu_resource_detach_backing {
            hdr: virtio_gpu_ctrl_hdr::read_from(b, off),
            resource_id: get_u32(b, off + 24),
            padding: get_u32(b, off + 28),
        }
    }
}

/// One display mode of the display-info response.
#[allow(non_camel_case_types)]
#[derive(Debug, Copy, Clone, Default)]
pub struct virtio_gpu_display_one {
    pub r: virtio_gpu_rect,
    pub enabled: u32,
    pub flags: u32,
}

impl WireRecord for virtio_gpu_display_one {
    open spec fn wire_len() -> nat {
        24
    }

    open spec fn wire(&self) -> Seq<u8> {
        self.r.wire() + le32(self.enabled) + le32(self.flags)
    }

    open spec fn parse_at(b: Seq<u8>, off: int) -> Self {
        virtio_gpu_display_one {
            r: virtio_gpu_rect::parse_at(b, off),
            enabled: u32_at(b, off + 16),
            flags: u32_at(b, off + 20),
        }
    }

    proof fn lemma_wire_len(&self) {
        self.r.lemma_wire_len();
        lemma_le32_len(self.enabled);
        lemma_le32_len(self.flags);
    }

    proof fn lemma_parse_iff(b: Seq<u8>, off: int, r: Self) {
        let p = Self::parse_at(b, off);
        let w0 = r.r.wire();
        let w1 = le32(r.enabled);
        let w2 = le32(r.flags);
        let s1 = w0 + w1;
        r.r.lemma_wire_len();
        virtio_gpu_rect::lemma_parse_iff(b, off, r.r);
        lemma_le32_len(r.enabled);
        lemma_u32_at_iff(b, off + 16, r.enabled);
        lemma_join(b, off, off + 16, off + 20);
        lemma_le32_len(r.flags);
        lemma_u32_at_iff(b, off + 20, r.flags);
        lemma_join(b, off, off + 20, off + 24);
        if b.subrange(off, off + 24) == r.wire() {
            lemma_concat_eq(b.subrange(off, off + 20), b.subrange(off + 20, off + 24), s1, w2);
            lemma_concat_eq(b.subrange(off, off + 16), b.subrange(off + 16, off + 20), w0, w1);
            assert(p == r);
        }
        if p == r {
            assert(s1 == b.subrange(off, off + 20));
        }
    }

    fn size() -> usize {
        24
    }

    fn write_to(&self, out: &mut Vec<u8>) {
        let ghost w0 = self.r.wire();
        let ghost w1 = le32(self.enabled);
        let ghost w2 = le32(self.flags);
        let ghost s1 = w0 + w1;
        self.r.write_to(out);
        put_u32(out, self.enabled);
        proof {
            lemma_concat_assoc(old(out)@, w0, w1);
        }
        put_u32(out, self.flags);
        proof {
            lemma_concat_assoc(old(out)@, s1, w2);
        }
    }

    fn read_from(b: &[u8], off: usize) -> Self {
        virtio_gpu_display_one {
            r: virtio_gpu_rect::read_from(b, off),
            enabled: get_u32(b, off + 16),
            flags: get_u32(b, off + 20),
        }
    }
}

/// `VIRTIO_GPU_RESP_OK_DISPLAY_INFO`: always `VIRTIO_GPU_MAX_SCANOUTS` display modes.
#[allow(non_camel_case_types)]
#[derive(Debug, Copy, Clone, Default)]
pub struct virtio_gpu_resp_display_info {
    pub hdr: virtio_gpu_ctrl_hdr,
    pub pmodes: [virtio_gpu_display_one; 16],
}

impl WireRecord for virtio_gpu_resp_display_info {
    open spec fn wire_len() -> nat {
        408
    }

    open spec fn wire(&self) -> Seq<u8> {
        self.hdr.wire()
            + self.pmodes[0].wire()
            + self.pmodes[1].wire()
            + self.pmodes[2].wire()
            + self.pmodes[3].wire()
            + self.pmodes[4].wire()
            + self.pmodes[5].wire()
            + self.pmodes[6].wire()
            + self.pmodes[7].wire()
            + self.pmodes[8].wire()
            + self.pmodes[9].wire()
            + self.pmodes[10].wire()
            + self.pmodes[11].wire()
            + self.pmodes[12].wire()
            + self.pmodes[13].wire()
            + self.pmodes[14].wire()
            + self.pmodes[15].wire()
    }

    open spec fn parse_at(b: Seq<u8>, off: int) -> Self {
        virtio_gpu_resp_display_info {
            hdr: virtio_gpu_ctrl_hdr::parse_at(b, off),
            pmodes: [
                virtio_gpu_display_one::parse_at(b, off + 24),
                virtio_gpu_display_one::parse_at(b, off + 48),
                virtio_gpu_display_one::parse_at(b, off + 72),
                virtio_gpu_display_one::parse_at(b, off + 96),
                virtio_gpu_display_one::parse_at(b, off + 120),
                virtio_gpu_display_one::parse_at(b, off + 144),
                virtio_gpu_display_one::parse_at(b, off + 168),
                virtio_gpu_display_one::parse_at(b, off + 192),
                virtio_gpu_display_one::parse_at(b, off + 216),
                virtio_gpu_display_one::parse_at(b, off + 240),
                virtio_gpu_display_one::parse_at(b, off + 264),
                virtio_gpu_display_one::parse_at(b, off + 288),
                virtio_gpu_display_one::parse_at(b, off + 312),
                virtio_gpu_display_one::parse_at(b, off + 336),
                virtio_gpu_display_one::parse_at(b, off + 360),
                virtio_gpu_display_one::parse_at(b, off + 384),
            ],
        }
    }

    proof fn lemma_wire_len(&self) {
        self.hdr.lemma_wire_len();
        self.pmodes[0].lemma_wire_len();
        self.pmodes[1].lemma_wire_len();
        self.pmodes[2].lemma_wire_len();
        self.pmodes[3].lemma_wire_len();
        self.pmodes[4].lemma_wire_len();
        self.pmodes[5].lemma_wire_len();
        self.pmodes[6].lemma_wire_len();
        self.pmodes[7].lemma_wire_len();
        self.pmodes[8].lemma_wire_len();
        self.pmodes[9].lemma_wire_len();
        self.pmodes[10].lemma_wire_len();
        self.pmodes[11].lemma_wire_len();
        self.pmodes[12].lemma_wire_len();
        self.pmodes[13].lemma_wire_len();
        self.pmodes[14].lemma_wire_len();
        self.pmodes[15].lemma_wire_len();
    }

    proof fn lemma_parse_iff(b: Seq<u8>, off: int, r: Self) {
        broadcast use vstd::array::group_array_axioms;

        let p = Self::parse_at(b, off);
        let w0 = r.hdr.wire();
        let w1 = r.pmodes[0].wire();
        let w2 = r.pmodes[1].wire();
        let w3 = r.pmodes[2].wire();
        let w4 = r.pmodes[3].wire();
        let w5 = r.pmodes[4].wire();
        let w6 = r.pmodes[5].wire();
        let w7 = r.pmodes[6].wire();
        let w8 = r.pmodes[7].wire();
        let w9 = r.pmodes[8].wire();
        let w10 = r.pmodes[9].wire();
        let w11 = r.pmodes[10].wire();
        let w12 = r.pmodes[11].wire();
        let w13 = r.pmodes[12].wire();
        let w14 = r.pmodes[13].wire();
        let w15 = r.pmodes[14].wire();
        let w16 = r.pmodes[15].wire();
        let s1 = w0 + w1;
        let s2 = s1 + w2;
        let s3 = s2 + w3;
        let s4 = s3 + w4;
        let s5 = s4 + w5;
        let s6 = s5 + w6;
        let s7 = s6 + w7;
        let s8 = s7 + w8;
        let s9 = s8 + w9;
        let s10 = s9 + w10;
        let s11 = s10 + w11;
        let s12 = s11 + w12;
        let s13 = s12 + w13;
        let s14 = s13 + w14;
        let s15 = s14 + w15;
        r.hdr.lemma_wire_len();
        virtio_gpu_ctrl_hdr::lemma_parse_iff(b, off, r.hdr);
        r.pmodes[0].lemma_wire_len();
        virtio_gpu_display_one::lemma_parse_iff(b, off + 24, r.pmodes[0]);
        lemma_join(b, off, off + 24, off + 48);
        r.pmodes[1].lemma_wire_len();
        virtio_gpu_display_one::lemma_parse_iff(b, off + 48, r.pmodes[1]);
        lemma_join(b, off, off + 48, off + 72);
        r.pmodes[2].lemma_wire_len();
        virtio_gpu_display_one::lemma_parse_iff(b, off + 72, r.pmodes[2]);
        lemma_join(b, off, off + 72, off + 96);
        r.pmodes[3].lemma_wire_len();
        virtio_gpu_display_one::lemma_parse_iff(b, off + 96, r.pmodes[3]);
        lemma_join(b, off, off + 96, off + 120);
        r.pmodes[4].lemma_wire_len();
        virtio_gpu_display_one::lemma_parse_iff(b, off + 120, r.pmodes[4]);
        lemma_join(b, off, off + 120, off + 144);
        r.pmodes[5].lemma_wire_len();
        virtio_gpu_display_one::lemma_parse_iff(b, off + 144, r.pmodes[5]);
        lemma_join(b, off, off + 144, off + 168);
        r.pmodes[6].lemma_wire_len();
        virtio_gpu_display_one::lemma_parse_iff(b, off + 168, r.pmodes[6]);
        lemma_join(b, off, off + 168, off + 192);
        r.pmodes[7].lemma_wire_len();
        virtio_gpu_display_one::lemma_parse_iff(b, off + 192, r.pmodes[7]);
        lemma_join(b, off, off + 192, off + 216);
        r.pmodes[8].lemma_wire_len();
        virtio_gpu_display_one::lemma_parse_iff(b, off + 216, r.pmodes[8]);
        lemma_join(b, off, off + 216, off + 240);
        r.pmodes[9].lemma_wire_len();
        virtio_gpu_display_one::lemma_parse_iff(b, off + 240, r.pmodes[9]);
        lemma_join(b, off, off + 240, off + 264);
        r.pmodes[10].lemma_wire_len();
        virtio_gpu_display_one::lemma_parse_iff(b, off + 264, r.pmodes[10]);
        lemma_join(b, off, off + 264, off + 288);
        r.pmodes[11].lemma_wire_len();
        virtio_gpu_display_one::lemma_parse_iff(b, off + 288, r.pmodes[11]);
        lemma_join(b, off, off + 288, off + 312);
        r.pmodes[12].lemma_wire_len();
        virtio_gpu_display_one::lemma_parse_iff(b, off + 312, r.pmodes[12]);
        lemma_join(b, off, off + 312, off + 336);
        r.pmodes[13].lemma_wire_len();
        virtio_gpu_display_one::lemma_parse_iff(b, off + 336, r.pmodes[13]);
        lemma_join(b, off, off + 336, off + 360);
        r.pmodes[14].lemma_wire_len();
        virtio_gpu_display_one::lemma_parse_iff(b, off + 360, r.pmodes[14]);
        lemma_join(b, off, off + 360, off + 384);
        r.pmodes[15].lemma_wire_len();
        virtio_gpu_display_one::lemma_parse_iff(b, off + 384, r.pmodes[15]);
        lemma_join(b, off, off + 384, off + 408);
        if b.subrange(off, off + 408) == r.wire() {
            lemma_concat_eq(b.subrange(off, off + 384), b.subrange(off + 384, off + 408), s15, w16);
            lemma_concat_eq(b.subrange(off, off + 360), b.subrange(off + 360, off + 384), s14, w15);
            lemma_concat_eq(b.subrange(off, off + 336), b.subrange(off + 336, off + 360), s13, w14);
            lemma_concat_eq(b.subrange(off, off + 312), b.subrange(off + 312, off + 336), s12, w13);
            lemma_concat_eq(b.subrange(off, off + 288), b.subrange(off + 288, off + 312), s11, w12);
            lemma_concat_eq(b.subrange(off, off + 264), b.subrange(off + 264, off + 288), s10, w11);
            lemma_concat_eq(b.subrange(off, off + 240), b.subrange(off + 240, off + 264), s9, w10);
            lemma_concat_eq(b.subrange(off, off + 216), b.subrange(off + 216, off + 240), s8, w9);
            lemma_concat_eq(b.subrange(off, off + 192), b.subrange(off + 192, off + 216), s7, w8);
            lemma_concat_eq(b.subrange(off, off + 168), b.subrange(off + 168, off + 192), s6, w7);
            lemma_concat_eq(b.subrange(off, off + 144), b.subrange(off + 144, off + 168), s5, w6);
            lemma_concat_eq(b.subrange(off, off + 120), b.subrange(off + 120, off + 144), s4, w5);
            lemma_concat_eq(b.subrange(off, off + 96), b.subrange(off + 96, off + 120), s3, w4);
            lemma_concat_eq(b.subrange(off, off + 72), b.subrange(off + 72, off + 96), s2, w3);
            lemma_concat_eq(b.subrange(off, off + 48), b.subrange(off + 48, off + 72), s1, w2);
            lemma_concat_eq(b.subrange(off, off + 24), b.subrange(off + 24, off + 48), w0, w1);
            assert(p.pmodes =~= r.pmodes);
            assert(p == r);
        }
        if p == r {
            assert(p.pmodes[0] == r.pmodes[0]);
            assert(p.pmodes[1] == r.pmodes[1]);
            assert(p.pmodes[2] == r.pmodes[2]);
            assert(p.pmodes[3] == r.pmodes[3]);
            assert(p.pmodes[4] == r.pmodes[4]);
            assert(p.pmodes[5] == r.pmodes[5]);
            assert(p.pmodes[6] == r.pmodes[6]);
            assert(p.pmodes[7] == r.pmodes[7]);
            assert(p.pmodes[8] == r.pmodes[8]);
            assert(p.pmodes[9] == r.pmodes[9]);
            assert(p.pmodes[10] == r.pmodes[10]);
            assert(p.pmodes[11] == r.pmodes[11]);
            assert(p.pmodes[12] == r.pmodes[12]);
            assert(p.pmodes[13] == r.pmodes[13]);
            assert(p.pmodes[14] == r.pmodes[14]);
            assert(p.pmodes[15] == r.pmodes[15]);
            assert(s1 == b.subrange(off, off + 48));
            assert(s2 == b.subrange(off, off + 72));
            assert(s3 == b.subrange(off, off + 96));
            assert(s4 == b.subrange(off, off + 120));
            assert(s5 == b.subrange(off, off + 144));
            assert(s6 == b.subrange(off, off + 168));
            assert(s7 == b.subrange(off, off + 192));
            assert(s8 == b.subrange(off, off + 216));
            assert(s9 == b.subrange(off, off + 240));
            assert(s10 == b.subrange(off, off + 264));
            assert(s11 == b.subrange(off, off + 288));
            assert(s12 == b.subrange(off, off + 312));
            assert(s13 == b.subrange(off, off + 336));
            assert(s14 == b.subrange(off, off + 360));
            assert(s15 == b.subrange(off, off + 384));
        }
    }

    fn size() -> usize {
        408
    }

    fn write_to(&self, out: &mut Vec<u8>) {
        let ghost w0 = self.hdr.wire();
        let ghost w1 = self.pmodes[0].wire();
        let ghost w2 = self.pmodes[1].wire();
        let ghost w3 = self.pmodes[2].wire();
        let ghost w4 = self.pmodes[3].wire();
        let ghost w5 = self.pmodes[4].wire();
        let ghost w6 = self.pmodes[5].wire();
        let ghost w7 = self.pmodes[6].wire();
        let ghost w8 = self.pmodes[7].wire();
        let ghost w9 = self.pmodes[8].wire();
        let ghost w10 = self.pmodes[9].wire();
        let ghost w11 = self.pmodes[10].wire();
        let ghost w12 = self.pmodes[11].wire();
        let ghost w13 = self.pmodes[12].wire();
        let ghost w14 = self.pmodes[13].wire();
        let ghost w15 = self.pmodes[14].wire();
        let ghost w16 = self.pmodes[15].wire();
        let ghost s1 = w0 + w1;
        let ghost s2 = s1 + w2;
        let ghost s3 = s2 + w3;
        let ghost s4 = s3 + w4;
        let ghost s5 = s4 + w5;
        let ghost s6 = s5 + w6;
        let ghost s7 = s6 + w7;
        let ghost s8 = s7 + w8;
        let ghost s9 = s8 + w9;
        let ghost s10 = s9 + w10;
        let ghost s11 = s10 + w11;
        let ghost s12 = s11 + w12;
        let ghost s13 = s12 + w13;
        let ghost s14 = s13 + w14;
        let ghost s15 = s14 + w15;
        self.hdr.write_to(out);
        self.pmodes[0].write_to(out);
        proof {
            lemma_concat_assoc(old(out)@, w0, w1);
        }
        self.pmodes[1].write_to(out);
        proof {
            lemma_concat_assoc(old(out)@, s1, w2);
        }
        self.pmodes[2].write_to(out);
        proof {
            lemma_concat_assoc(old(out)@, s2, w3);
        }
        self.pmodes[3].write_to(out);
        proof {
            lemma_concat_assoc(old(out)@, s3, w4);
        }
        self.pmodes[4].write_to(out);
        proof {
            lemma_concat_assoc(old(out)@, s4, w5);
        }
        self.pmodes[5].write_to(out);
        proof {
            lemma_concat_assoc(old(out)@, s5, w6);
        }
        self.pmodes[6].write_to(out);
        proof {
            lemma_concat_assoc(old(out)@, s6, w7);
        }
        self.pmodes[7].write_to(out);
        proof {
            lemma_concat_assoc(old(out)@, s7, w8);
        }
        self.pmodes[8].write_to(out);
        proof {
            lemma_concat_assoc(old(out)@, s8, w9);
        }
        self.pmodes[9].write_to(out);
        proof {
            lemma_concat_assoc(old(out)@, s9, w10);
        }
        self.pmodes[10].write_to(out);
        proof {
            lemma_concat_assoc(old(out)@, s10, w11);
        }
        self.pmodes[11].write_to(out);
        proof {
            lemma_concat_assoc(old(out)@, s11, w12);
        }
        self.pmodes[12].write_to(out);
        proof {
            lemma_concat_assoc(old(out)@, s12, w13);
        }
        self.pmodes[13].write_to(out);
        proof {
            lemma_concat_assoc(old(out)@, s13, w14);
        }
        self.pmodes[14].write_to(out);
        proof {
            lemma_concat_assoc(old(out)@, s14, w15);
        }
        self.pmodes[15].write_to(out);
        proof {
            lemma_concat_assoc(old(out)@, s15, w16);
        }
    }

    fn read_from(b: &[u8], off: usize) -> Self {
        virtio_gpu_resp_display_info {
            hdr: virtio_gpu_ctrl_hdr::read_from(b, off),
            pmodes: [
                virtio_gpu_display_one::read_from(b, off + 24),
                virtio_gpu_display_one::read_from(b, off + 48),
                virtio_gpu_display_one::read_from(b, off + 72),
                virtio_gpu_display_one::read_from(b, off + 96),
                virtio_gpu_display_one::read_from(b, off + 120),
                virtio_gpu_display_one::read_from(b, off + 144),
                virtio_gpu_display_one::read_from(b, off + 168),
                virtio_gpu_display_one::read_from(b, off + 192),
                virtio_gpu_display_one::read_from(b, off + 216),
                virtio_gpu_display_one::read_from(b, off + 240),
                virtio_gpu_display_one::read_from(b, off + 264),
                virtio_gpu_display_one::read_from(b, off + 288),
                virtio_gpu_display_one::read_from(b, off + 312),
                virtio_gpu_display_one::read_from(b, off + 336),
                virtio_gpu_display_one::read_from(b, off + 360),
                virtio_gpu_display_one::read_from(b, off + 384),
            ],
        }
    }
}

/// A box: data passed in the control queue, 3D related.
#[allow(non_camel_case_types)]
#[derive(Debug, Copy, Clone, Default)]
pub struct virtio_gpu_box {
    pub x: u32,
    pub y: u32,
    pub z: u32,
    pub w: u32,
    pub h: u32,
    pub d: u32,
}

impl WireRecord for virtio_gpu_box {
    open spec fn wire_len() -> nat {
        24
    }

    open spec fn wire(&self) -> Seq<u8> {
        le32(self.x) + le32(self.y) + le32(self.z) + le32(self.w) + le32(self.h) + le32(self.d)
    }

    open spec fn parse_at(b: Seq<u8>, off: int) -> Self {
        virtio_gpu_box {
            x: u32_at(b, off),
            y: u32_at(b, off + 4),
            z: u32_at(b, off + 8),
            w: u32_at(b, off + 12),
            h: u32_at(b, off + 16),
            d: u32_at(b, off + 20),
        }
    }

    proof fn lemma_wire_len(&self) {
        lemma_le32_len(self.x);
        lemma_le32_len(self.y);
        lemma_le32_len(self.z);
        lemma_le32_len(self.w);
        lemma_le32_len(self.h);
        lemma_le32_len(self.d);
    }

    proof fn lemma_parse_iff(b: Seq<u8>, off: int, r: Self) {
        let p = Self::parse_at(b, off);
        let w0 = le32(r.x);
        let w1 = le32(r.y);
        let w2 = le32(r.z);
        let w3 = le32(r.w);
        let w4 = le32(r.h);
        let w5 = le32(r.d);
        let s1 = w0 + w1;
        let s2 = s1 + w2;
        let s3 = s2 + w3;
        let s4 = s3 + w4;
        lemma_le32_len(r.x);
        lemma_u32_at_iff(b, off, r.x);
        lemma_le32_len(r.y);
        lemma_u32_at_iff(b, off + 4, r.y);
        lemma_join(b, off, off + 4, off + 8);
        lemma_le32_len(r.z);
        lemma_u32_at_iff(b, off + 8, r.z);
        lemma_join(b, off, off + 8, off + 12);
        lemma_le32_len(r.w);
        lemma_u32_at_iff(b, off + 12, r.w);
        lemma_join(b, off, off + 12, off + 16);
        lemma_le32_len(r.h);
        lemma_u32_at_iff(b, off + 16, r.h);
        lemma_join(b, off, off + 16, off + 20);
        lemma_le32_len(r.d);
        lemma_u32_at_iff(b, off + 20, r.d);
        lemma_join(b, off, off + 20, off + 24);
        if b.subrange(off, off + 24) == r.wire() {
            lemma_concat_eq(b.subrange(off, off + 20), b.subrange(off + 20, off + 24), s4, w5);
            lemma_concat_eq(b.subrange(off, off + 16), b.subrange(off + 16, off + 20), s3, w4);
            lemma_concat_eq(b.subrange(off, off + 12), b.subrange(off + 12, off + 16), s2, w3);
            lemma_concat_eq(b.subrange(off, off + 8), b.subrange(off + 8, off + 12), s1, w2);
            lemma_concat_eq(b.subrange(off, off + 4), b.subrange(off + 4, off + 8), w0, w1);
            assert(p == r);
        }
        if p == r {
            assert(s1 == b.subrange(off, off + 8));
            assert(s2 == b.subrange(off, off + 12));
            assert(s3 == b.subrange(off, off + 16));
            assert(s4 == b.subrange(off, off + 20));
        }
    }

    fn size() -> usize {
        24
    }

    fn write_to(&self, out: &mut Vec<u8>) {
        let ghost w0 = le32(self.x);
        let ghost w1 = le32(self.y);
        let ghost w2 = le32(self.z);
        let ghost w3 = le32(self.w);
        let ghost w4 = le32(self.h);
        let ghost w5 = le32(self.d);
        let ghost s1 = w0 + w1;
        let ghost s2 = s1 + w2;
        let ghost s3 = s2 + w3;
        let ghost s4 = s3 + w4;
        put_u32(out, self.x);
        put_u32(out, self.y);
        proof {
            lemma_concat_assoc(old(out)@, w0, w1);
        }
        put_u32(out, self.z);
        proof {
            lemma_concat_assoc(old(out)@, s1, w2);
        }
        put_u32(out, self.w);
        proof {
            lemma_concat_assoc(old(out)@, s2, w3);
        }
        put_u32(out, self.h);
        proof {
            lemma_concat_assoc(old(out)@, s3, w4);
        }
        put_u32(out, self.d);
        proof {
            lemma_concat_assoc(old(out)@, s4, w5);
        }
    }

    fn read_from(b: &[u8], off: usize) -> Self {
        virtio_gpu_box {
            x: get_u32(b, off),
            y: get_u32(b, off + 4),
            z: get_u32(b, off + 8),
            w: get_u32(b, off + 12),
            h: get_u32(b, off + 16),
            d: get_u32(b, off + 20),
        }
    }
}

/// `VIRTIO_GPU_CMD_TRANSFER_TO_HOST_3D`, `VIRTIO_GPU_CMD_TRANSFER_FROM_HOST_3D`.
#[allow(non_camel_case_types)]
#[derive(Debug, Copy, Clone, Default)]
pub struct virtio_gpu_transfer_host_3d {
    pub hdr: virtio_gpu_ctrl_hdr,
    pub box_: virtio_gpu_box,
    pub offset: u64,
    pub resource_id: u32,
    pub level: u32,
    pub stride: u32,
    pub layer_stride: u32,
}

impl WireRecord for virtio_gpu_transfer_host_3d {
    open spec fn wire_len() -> nat {
        72
    }

    open spec fn wire(&self) -> Seq<u8> {
        self.hdr.wire()
            + self.box_.wire()
            + le64(self.offset)
            + le32(self.resource_id)
            + le32(self.level)
            + le32(self.stride)
            + le32(self.layer_stride)
    }

    open spec fn parse_at(b: Seq<u8>, off: int) -> Self {
        virtio_gpu_transfer_host_3d {
            hdr: virtio_gpu_ctrl_hdr::parse_at(b, off),
            box_: virtio_gpu_box::parse_at(b, off + 24),
            offset: u64_at(b, off + 48),
            resource_id: u32_at(b, off + 56),
            level: u32_at(b, off + 60),
            stride: u32_at(b, off + 64),
            layer_stride: u32_at(b, off + 68),
        }
    }

    proof fn lemma_wire_len(&self) {
        self.hdr.lemma_wire_len();
        self.box_.lemma_wire_len();
        lemma_le64_len(self.offset);
        lemma_le32_len(self.resource_id);
        lemma_le32_len(self.level);
        lemma_le32_len(self.stride);
        lemma_le32_len(self.layer_stride);
    }

    proof fn lemma_parse_iff(b: Seq<u8>, off: int, r: Self) {
        let p = Self::parse_at(b, off);
        let w0 = r.hdr.wire();
        let w1 = r.box_.wire();
        let w2 = le64(r.offset);
        let w3 = le32(r.resource_id);
        let w4 = le32(r.level);
        let w5 = le32(r.stride);
        let w6 = le32(r.layer_stride);
        let s1 = w0 + w1;
        let s2 = s1 + w2;
        let s3 = s2 + w3;
        let s4 = s3 + w4;
        let s5 = s4 + w5;
        r.hdr.lemma_wire_len();
        virtio_gpu_ctrl_hdr::lemma_parse_iff(b, off, r.hdr);
        r.box_.lemma_wire_len();
        virtio_gpu_box::lemma_parse_iff(b, off + 24, r.box_);
        lemma_join(b, off, off + 24, off + 48);
        lemma_le64_len(r.offset);
        lemma_u64_at_iff(b, off + 48, r.offset);
        lemma_join(b, off, off + 48, off + 56);
        lemma_le32_len(r.resource_id);
        lemma_u32_at_iff(b, off + 56, r.resource_id);
        lemma_join(b, off, off + 56, off + 60);
        lemma_le32_len(r.level);
        lemma_u32_at_iff(b, off + 60, r.level);
        lemma_join(b, off, off + 60, off + 64);
        lemma_le32_len(r.stride);
        lemma_u32_at_iff(b, off + 64, r.stride);
        lemma_join(b, off, off + 64, off + 68);
        lemma_le32_len(r.layer_stride);
        lemma_u32_at_iff(b, off + 68, r.layer_stride);
        lemma_join(b, off, off + 68, off + 72);
        if b.subrange(off, off + 72) == r.wire() {
            lemma_concat_eq(b.subrange(off, off + 68), b.subrange(off + 68, off + 72), s5, w6);
            lemma_concat_eq(b.subrange(off, off + 64), b.subrange(off + 64, off + 68), s4, w5);
            lemma_concat_eq(b.subrange(off, off + 60), b.subrange(off + 60, off + 64), s3, w4);
            lemma_concat_eq(b.subrange(off, off + 56), b.subrange(off + 56, off + 60), s2, w3);
            lemma_concat_eq(b.subrange(off, off + 48), b.subrange(off + 48, off + 56), s1, w2);
            lemma_concat_eq(b.subrange(off, off + 24), b.subrange(off + 24, off + 48), w0, w1);
            assert(p == r);
        }
        if p == r {
            assert(s1 == b.subrange(off, off + 48));
            assert(s2 == b.subrange(off, off + 56));
            assert(s3 == b.subrange(off, off + 60));
            assert(s4 == b.subrange(off, off + 64));
            assert(s5 == b.subrange(off, off + 68));
        }
    }

    fn size() -> usize {
        72
    }

    fn write_to(&self, out: &mut Vec<u8>) {
        let ghost w0 = self.hdr.wire();
        let ghost w1 = self.box_.wire();
        let ghost w2 = le64(self.offset);
        let ghost w3 = le32(self.resource_id);
        let ghost w4 = le32(self.level);
        let ghost w5 = le32(self.stride);
        let ghost w6 = le32(self.layer_stride);
        let ghost s1 = w0 + w1;
        let ghost s2 = s1 + w2;
        let ghost s3 = s2 + w3;
        let ghost s4 = s3 + w4;
        let ghost s5 = s4 + w5;
        self.hdr.write_to(out);
        self.box_.write_to(out);
        proof {
            lemma_concat_assoc(old(out)@, w0, w1);
        }
        put_u64(out, self.offset);
        proof {
            lemma_concat_assoc(old(out)@, s1, w2);
        }
        put_u32(out, self.resource_id);
        proof {
            lemma_concat_assoc(old(out)@, s2, w3);
        }
        put_u32(out, self.level);
        proof {
            lemma_concat_assoc(old(out)@, s3, w4);
        }
        put_u32(out, self.stride);
        proof {
            lemma_concat_assoc(old(out)@, s4, w5);
        }
        put_u32(out, self.layer_stride);
        proof {
            lemma_concat_assoc(old(out)@, s5, w6);
        }
    }

    fn read_from(b: &[u8], off: usize) -> Self {
        virtio_gpu_transfer_host_3d {
            hdr: virtio_gpu_ctrl_hdr::read_from(b, off),
            box_: virtio_gpu_box::read_from(b, off + 24),
            offset: get_u64(b, off + 48),
            resource_id: get_u32(b, off + 56),
            level: get_u32(b, off + 60),
            stride: get_u32(b, off + 64),
            layer_stride: get_u32(b, off + 68),
        }
    }
}

/// `VIRTIO_GPU_CMD_RESOURCE_CREATE_3D`.
#[allow(non_camel_case_types)]
#[derive(Debug, Copy, Clone, Default)]
pub struct virtio_gpu_resource_create_3d {
    pub hdr: virtio_gpu_ctrl_hdr,
    pub resource_id: u32,
    pub target: u32,
    pub format: u32,
    pub bind: u32,
    pub width: u32,
    pub height: u32,
    pub depth: u32,
    pub array_size: u32,
    pub last_level: u32,
    pub nr_samples: u32,
    pub flags: u32,
    pub padding: u32,
}

impl WireRecord for virtio_gpu_resource_create_3d {
    open spec fn wire_len() -> nat {
        72
    }

    open spec fn wire(&self) -> Seq<u8> {
        self.hdr.wire()
            + le32(self.resource_id)
            + le32(self.target)
            + le32(self.format)
            + le32(self.bind)
            + le32(self.width)
            + le32(self.height)
            + le32(self.depth)
            + le32(self.array_size)
            + le32(self.last_level)
            + le32(self.nr_samples)
            + le32(self.flags)
            + le32(self.padding)
    }

    open spec fn parse_at(b: Seq<u8>, off: int) -> Self {
        virtio_gpu_resource_create_3d {
            hdr: virtio_gpu_ctrl_hdr::parse_at(b, off),
            resource_id: u32_at(b, off + 24),
            target: u32_at(b, off + 28),
            format: u32_at(b, off + 32),
            bind: u32_at(b, off + 36),
            width: u32_at(b, off + 40),
            height: u32_at(b, off + 44),
            depth: u32_at(b, off + 48),
            array_size: u32_at(b, off + 52),
            last_level: u32_at(b, off + 56),
            nr_samples: u32_at(b, off + 60),
            flags: u32_at(b, off + 64),
            padding: u32_at(b, off + 68),
        }
    }

    proof fn lemma_wire_len(&self) {
        self.hdr.lemma_wire_len();
        lemma_le32_len(self.resource_id);
        lemma_le32_len(self.target);
        lemma_le32_len(self.format);
        lemma_le32_len(self.bind);
        lemma_le32_len(self.width);
        lemma_le32_len(self.height);
        lemma_le32_len(self.depth);
        lemma_le32_len(self.array_size);
        lemma_le32_len(self.last_level);
        lemma_le32_len(self.nr_samples);
        lemma_le32_len(self.flags);
        lemma_le32_len(self.padding);
    }

    proof fn lemma_parse_iff(b: Seq<u8>, off: int, r: Self) {
        let p = Self::parse_at(b, off);
        let w0 = r.hdr.wire();
        let w1 = le32(r.resource_id);
        let w2 = le32(r.target);
        let w3 = le32(r.format);
        let w4 = le32(r.bind);
        let w5 = le32(r.width);
        let w6 = le32(r.height);
        let w7 = le32(r.depth);
        let w8 = le32(r.array_size);
        let w9 = le32(r.last_level);
        let w10 = le32(r.nr_samples);
        let w11 = le32(r.flags);
        let w12 = le32(r.padding);
        let s1 = w0 + w1;
        let s2 = s1 + w2;
        let s3 = s2 + w3;
        let s4 = s3 + w4;
        let s5 = s4 + w5;
        let s6 = s5 + w6;
        let s7 = s6 + w7;
        let s8 = s7 + w8;
        let s9 = s8 + w9;
        let s10 = s9 + w10;
        let s11 = s10 + w11;
        r.hdr.lemma_wire_len();
        virtio_gpu_ctrl_hdr::lemma_parse_iff(b, off, r.hdr);
        lemma_le32_len(r.resource_id);
        lemma_u32_at_iff(b, off + 24, r.resource_id);
        lemma_join(b, off, off + 24, off + 28);
        lemma_le32_len(r.target);
        lemma_u32_at_iff(b, off + 28, r.target);
        lemma_join(b, off, off + 28, off + 32);
        lemma_le32_len(r.format);
        lemma_u32_at_iff(b, off + 32, r.format);
        lemma_join(b, off, off + 32, off + 36);
        lemma_le32_len(r.bind);
        lemma_u32_at_iff(b, off + 36, r.bind);
        lemma_join(b, off, off + 36, off + 40);
        lemma_le32_len(r.width);
        lemma_u32_at_iff(b, off + 40, r.width);
        lemma_join(b, off, off + 40, off + 44);
        lemma_le32_len(r.height);
        lemma_u32_at_iff(b, off + 44, r.height);
        lemma_join(b, off, off + 44, off + 48);
        lemma_le32_len(r.depth);
        lemma_u32_at_iff(b, off + 48, r.depth);
        lemma_join(b, off, off + 48, off + 52);
        lemma_le32_len(r.array_size);
        lemma_u32_at_iff(b, off + 52, r.array_size);
        lemma_join(b, off, off + 52, off + 56);
        lemma_le32_len(r.last_level);
        lemma_u32_at_iff(b, off + 56, r.last_level);
        lemma_join(b, off, off + 56, off + 60);
        lemma_le32_len(r.nr_samples);
        lemma_u32_at_iff(b, off + 60, r.nr_samples);
        lemma_join(b, off, off + 60, off + 64);
        lemma_le32_len(r.flags);
        lemma_u32_at_iff(b, off + 64, r.flags);
        lemma_join(b, off, off + 64, off + 68);
        lemma_le32_len(r.padding);
        lemma_u32_at_iff(b, off + 68, r.padding);
        lemma_join(b, off, off + 68, off + 72);
        if b.subrange(off, off + 72) == r.wire() {
            lemma_concat_eq(b.subrange(off, off + 68), b.subrange(off + 68, off + 72), s11, w12);
            lemma_concat_eq(b.subrange(off, off + 64), b.subrange(off + 64, off + 68), s10, w11);
            lemma_concat_eq(b.subrange(off, off + 60), b.subrange(off + 60, off + 64), s9, w10);
            lemma_concat_eq(b.subrange(off, off + 56), b.subrange(off + 56, off + 60), s8, w9);
            lemma_concat_eq(b.subrange(off, off + 52), b.subrange(off + 52, off + 56), s7, w8);
            lemma_concat_eq(b.subrange(off, off + 48), b.subrange(off + 48, off + 52), s6, w7);
            lemma_concat_eq(b.subrange(off, off + 44), b.subrange(off + 44, off + 48), s5, w6);
            lemma_concat_eq(b.subrange(off, off + 40), b.subrange(off + 40, off + 44), s4, w5);
            lemma_concat_eq(b.subrange(off, off + 36), b.subrange(off + 36, off + 40), s3, w4);
            lemma_concat_eq(b.subrange(off, off + 32), b.subrange(off + 32, off + 36), s2, w3);
            lemma_concat_eq(b.subrange(off, off + 28), b.subrange(off + 28, off + 32), s1, w2);
            lemma_concat_eq(b.subrange(off, off + 24), b.subrange(off + 24, off + 28), w0, w1);
            assert(p == r);
        }
        if p == r {
            assert(s1 == b.subrange(off, off + 28));
            assert(s2 == b.subrange(off, off + 32));
            assert(s3 == b.subrange(off, off + 36));
            assert(s4 == b.subrange(off, off + 40));
            assert(s5 == b.subrange(off, off + 44));
            assert(s6 == b.subrange(off, off + 48));
            assert(s7 == b.subrange(off, off + 52));
            assert(s8 == b.subrange(off, off + 56));
            assert(s9 == b.subrange(off, off + 60));
            assert(s10 == b.subrange(off, off + 64));
            assert(s11 == b.subrange(off, off + 68));
        }
    }

    fn size() -> usize {
        72
    }

    fn write_to(&self, out: &mut Vec<u8>) {
        let ghost w0 = self.hdr.wire();
        let ghost w1 = le32(self.resource_id);
        let ghost w2 = le32(self.target);
        let ghost w3 = le32(self.format);
        let ghost w4 = le32(self.bind);
        let ghost w5 = le32(self.width);
        let ghost w6 = le32(self.height);
        let ghost w7 = le32(self.depth);
        let ghost w8 = le32(self.array_size);
        let ghost w9 = le32(self.last_level);
        let ghost w10 = le32(self.nr_samples);
        let ghost w11 = le32(self.flags);
        let ghost w12 = le32(self.padding);
        let ghost s1 = w0 + w1;
        let ghost s2 = s1 + w2;
        let ghost s3 = s2 + w3;
        let ghost s4 = s3 + w4;
        let ghost s5 = s4 + w5;
        let ghost s6 = s5 + w6;
        let ghost s7 = s6 + w7;
        let ghost s8 = s7 + w8;
        let ghost s9 = s8 + w9;
        let ghost s10 = s9 + w10;
        let ghost s11 = s10 + w11;
        self.hdr.write_to(out);
        put_u32(out, self.resource_id);
        proof {
            lemma_concat_assoc(old(out)@, w0, w1);
        }
        put_u32(out, self.target);
        proof {
            lemma_concat_assoc(old(out)@, s1, w2);
        }
        put_u32(out, self.format);
        proof {
            lemma_concat_assoc(old(out)@, s2, w3);
        }
        put_u32(out, self.bind);
        proof {
            lemma_concat_assoc(old(out)@, s3, w4);
        }
        put_u32(out, self.width);
        proof {
            lemma_concat_assoc(old(out)@, s4, w5);
        }
        put_u32(out, self.height);
        proof {
            lemma_concat_assoc(old(out)@, s5, w6);
        }
        put_u32(out, self.depth);
        proof {
            lemma_concat_assoc(old(out)@, s6, w7);
        }
        put_u32(out, self.array_size);
        proof {
            lemma_concat_assoc(old(out)@, s7, w8);
        }
        put_u32(out, self.last_level);
        proof {
            lemma_concat_assoc(old(out)@, s8, w9);
        }
        put_u32(out, self.nr_samples);
        proof {
            lemma_concat_assoc(old(out)@, s9, w10);
        }
        put_u32(out, self.flags);
        proof {
            lemma_concat_assoc(old(out)@, s10, w11);
        }
        put_u32(out, self.padding);
        proof {
            lemma_concat_assoc(old(out)@, s11, w12);
        }
    }

    fn read_from(b: &[u8], off: usize) -> Self {
        virtio_gpu_resource_create_3d {
            hdr: virtio_gpu_ctrl_hdr::read_from(b, off),
            resource_id: get_u32(b, off + 24),
            target: get_u32(b, off + 28),
            format: get_u32(b, off + 32),
            bind: get_u32(b, off + 36),
            width: get_u32(b, off + 40),
            height: get_u32(b, off + 44),
            depth: get_u32(b, off + 48),
            array_size: get_u32(b, off + 52),
            last_level: get_u32(b, off + 56),
            nr_samples: get_u32(b, off + 60),
            flags: get_u32(b, off + 64),
            padding: get_u32(b, off + 68),
        }
    }
}

/// `VIRTIO_GPU_CMD_CTX_CREATE`.
#[allow(non_camel_case_types)]
#[derive(Debug, Copy, Clone)]
pub struct virtio_gpu_ctx_create {
    pub hdr: virtio_gpu_ctrl_hdr,
    pub nlen: u32,
    pub padding: u32,
    pub debug_name: [u8; 64],
}

impl Default for virtio_gpu_ctx_create {
    /// The record whose bytes are all zero.
    fn default() -> (r: Self)
        ensures
            r.wire() == zeros(96),
    {
        let r = virtio_gpu_ctx_create {
            hdr: virtio_gpu_ctrl_hdr { type_: 0, flags: 0, fence_id: 0, ctx_id: 0, padding: 0 },
            nlen: 0,
            padding: 0,
            debug_name: [0u8; 64],
        };
        proof {
            broadcast use vstd::array::group_array_axioms;

            reveal(le32);
            reveal(le64);
            assert(r.wire() =~= zeros(96));
        }
        r
    }
}

impl WireRecord for virtio_gpu_ctx_create {
    open spec fn wire_len() -> nat {
        96
    }

    open spec fn wire(&self) -> Seq<u8> {
        self.hdr.wire() + le32(self.nlen) + le32(self.padding) + self.debug_name@
    }

    open spec fn parse_at(b: Seq<u8>, off: int) -> Self {
        virtio_gpu_ctx_create {
            hdr: virtio_gpu_ctrl_hdr::parse_at(b, off),
            nlen: u32_at(b, off + 24),
            padding: u32_at(b, off + 28),
            debug_name: byte_array::<64>(b, off + 32),
        }
    }

    proof fn lemma_wire_len(&self) {
        self.hdr.lemma_wire_len();
        lemma_le32_len(self.nlen);
        lemma_le32_len(self.padding);
        lemma_byte_array_len(self.debug_name);
    }

    proof fn lemma_parse_iff(b: Seq<u8>, off: int, r: Self) {
        let p = Self::parse_at(b, off);
        let w0 = r.hdr.wire();
        let w1 = le32(r.nlen);
        let w2 = le32(r.padding);
        let w3 = r.debug_name@;
        let s1 = w0 + w1;
        let s2 = s1 + w2;
        r.hdr.lemma_wire_len();
        virtio_gpu_ctrl_hdr::lemma_parse_iff(b, off, r.hdr);
        lemma_le32_len(r.nlen);
        lemma_u32_at_iff(b, off + 24, r.nlen);
        lemma_join(b, off, off + 24, off + 28);
        lemma_le32_len(r.padding);
        lemma_u32_at_iff(b, off + 28, r.padding);
        lemma_join(b, off, off + 28, off + 32);
        lemma_byte_array_len(r.debug_name);
        lemma_byte_array_iff(b, off + 32, r.debug_name);
        lemma_join(b, off, off + 32, off + 96);
        if b.subrange(off, off + 96) == r.wire() {
            lemma_concat_eq(b.subrange(off, off + 32), b.subrange(off + 32, off + 96), s2, w3);
            lemma_concat_eq(b.subrange(off, off + 28), b.subrange(off + 28, off + 32), s1, w2);
            lemma_concat_eq(b.subrange(off, off + 24), b.subrange(off + 24, off + 28), w0, w1);
            assert(p == r);
        }
        if p == r {
            assert(s1 == b.subrange(off, off + 28));
            assert(s2 == b.subrange(off, off + 32));
        }
    }

    fn size() -> usize {
        96
    }

    fn write_to(&self, out: &mut Vec<u8>) {
        let ghost w0 = self.hdr.wire();
        let ghost w1 = le32(self.nlen);
        let ghost w2 = le32(self.padding);
        let ghost w3 = self.debug_name@;
        let ghost s1 = w0 + w1;
        let ghost s2 = s1 + w2;
        self.hdr.write_to(out);
        put_u32(out, self.nlen);
        proof {
            lemma_concat_assoc(old(out)@, w0, w1);
        }
        put_u32(out, self.padding);
        proof {
            lemma_concat_assoc(old(out)@, s1, w2);
        }
        put_bytes(out, self.debug_name.as_slice());
        proof {
            lemma_concat_assoc(old(out)@, s2, w3);
        }
    }

    fn read_from(b: &[u8], off: usize) -> Self {
        virtio_gpu_ctx_create {
            hdr: virtio_gpu_ctrl_hdr::read_from(b, off),
            nlen: get_u32(b, off + 24),
            padding: get_u32(b, off + 28),
            debug_name: get_array::<64>(b, off + 32),
        }
    }
}

/// `VIRTIO_GPU_CMD_CTX_DESTROY`.
#[allow(non_camel_case_types)]
#[derive(Debug, Copy, Clone, Default)]
pub struct virtio_gpu_ctx_destroy {
    pub hdr: virtio_gpu_ctrl_hdr,
}

impl WireRecord for virtio_gpu_ctx_destroy {
    open spec fn wire_len() -> nat {
        24
    }

    open spec fn wire(&self) -> Seq<u8> {
        self.hdr.wire()
    }

    open spec fn parse_at(b: Seq<u8>, off: int) -> Self {
        virtio_gpu_ctx_destroy {
            hdr: virtio_gpu_ctrl_hdr::parse_at(b, off),
        }
    }

    proof fn lemma_wire_len(&self) {
        self.hdr.lemma_wire_len();
    }

    proof fn lemma_parse_iff(b: Seq<u8>, off: int, r: Self) {
        virtio_gpu_ctrl_hdr::lemma_parse_iff(b, off, r.hdr);
    }

    fn size() -> usize {
        24
    }

    fn write_to(&self, out: &mut Vec<u8>) {
        self.hdr.write_to(out);
    }

    fn read_from(b: &[u8], off: usize) -> Self {
        virtio_gpu_ctx_destroy {
            hdr: virtio_gpu_ctrl_hdr::read_from(b, off),
        }
    }
}

/// `VIRTIO_GPU_CMD_CTX_ATTACH_RESOURCE`, `VIRTIO_GPU_CMD_CTX_DETACH_RESOURCE`.
#[allow(non_camel_case_types)]
#[derive(Debug, Copy, Clone, Default)]
pub struct virtio_gpu_ctx_resource {
    pub hdr: virtio_gpu_ctrl_hdr,
    pub resource_id: u32,
    pub padding: u32,
}

impl WireRecord for virtio_gpu_ctx_resource {
    open spec fn wire_len() -> nat {
        32
    }

    open spec fn wire(&self) -> Seq<u8> {
        self.hdr.wire() + le32(self.resource_id) + le32(self.padding)
    }

    open spec fn parse_at(b: Seq<u8>, off: int) -> Self {
        virtio_gpu_ctx_resource {
            hdr: virtio_gpu_ctrl_hdr::parse_at(b, off),
            resource_id: u32_at(b, off + 24),
            padding: u32_at(b, off + 28),
        }
    }

    proof fn lemma_wire_len(&self) {
        self.hdr.lemma_wire_len();
        lemma_le32_len(self.resource_id);
        lemma_le32_len(self.padding);
    }

    proof fn lemma_parse_iff(b: Seq<u8>, off: int, r: Self) {
        let p = Self::parse_at(b, off);
        let w0 = r.hdr.wire();
        let w1 = le32(r.resource_id);
        let w2 = le32(r.padding);
        let s1 = w0 + w1;
        r.hdr.lemma_wire_len();
        virtio_gpu_ctrl_hdr::lemma_parse_iff(b, off, r.hdr);
        lemma_le32_len(r.resource_id);
        lemma_u32_at_iff(b, off + 24, r.resource_id);
        lemma_join(b, off, off + 24, off + 28);
        lemma_le32_len(r.padding);
        lemma_u32_at_iff(b, off + 28, r.padding);
        lemma_join(b, off, off + 28, off + 32);
        if b.subrange(off, off + 32) == r.wire() {
            lemma_concat_eq(b.subrange(off, off + 28), b.subrange(off + 28, off + 32), s1, w2);
            lemma_concat_eq(b.subrange(off, off + 24), b.subrange(off + 24, off + 28), w0, w1);
            assert(p == r);
        }
        if p == r {
            assert(s1 == b.subrange(off, off + 28));
        }
    }

    fn size() -> usize {
        32
    }

    fn write_to(&self, out: &mut Vec<u8>) {
        let ghost w0 = self.hdr.wire();
        let ghost w1 = le32(self.resource_id);
        let ghost w2 = le32(self.padding);
        let ghost s1 = w0 + w1;
        self.hdr.write_to(out);
        put_u32(out, self.resource_id);
        proof {
            lemma_concat_assoc(old(out)@, w0, w1);
        }
        put_u32(out, self.padding);
        proof {
            lemma_concat_assoc(old(out)@, s1, w2);
        }
    }

    fn read_from(b: &[u8], off: usize) -> Self {
        virtio_gpu_ctx_resource {
            hdr: virtio_gpu_ctrl_hdr::read_from(b, off),
            resource_id: get_u32(b, off + 24),
            padding: get_u32(b, off + 28),
        }
    }
}

/// `VIRTIO_GPU_CMD_SUBMIT_3D`.
#[allow(non_camel_case_types)]
#[derive(Debug, Copy, Clone, Default)]
pub struct virtio_gpu_cmd_submit {
    pub hdr: virtio_gpu_ctrl_hdr,
    pub size: u32,
    pub padding: u32,
}

impl WireRecord for virtio_gpu_cmd_submit {
    open spec fn wire_len() -> nat {
        32
    }

    open spec fn wire(&self) -> Seq<u8> {
        self.hdr.wire() + le32(self.size) + le32(self.padding)
    }

    open spec fn parse_at(b: Seq<u8>, off: int) -> Self {
        virtio_gpu_cmd_submit {
            hdr: virtio_gpu_ctrl_hdr::parse_at(b, off),
            size: u32_at(b, off + 24),
            padding: u32_at(b, off + 28),
        }
    }

    proof fn lemma_wire_len(&self) {
        self.hdr.lemma_wire_len();
        lemma_le32_len(self.size);
        lemma_le32_len(self.padding);
    }

    proof fn lemma_parse_iff(b: Seq<u8>, off: int, r: Self) {
        let p = Self::parse_at(b, off);
        let w0 = r.hdr.wire();
        let w1 = le32(r.size);
        let w2 = le32(r.padding);
        let s1 = w0 + w1;
        r.hdr.lemma_wire_len();
        virtio_gpu_ctrl_hdr::lemma_parse_iff(b, off, r.hdr);
        lemma_le32_len(r.size);
        lemma_u32_at_iff(b, off + 24, r.size);
        lemma_join(b, off, off + 24, off + 28);
        lemma_le32_len(r.padding);
        lemma_u32_at_iff(b, off + 28, r.padding);
        lemma_join(b, off, off + 28, off + 32);
        if b.subrange(off, off + 32) == r.wire() {
            lemma_concat_eq(b.subrange(off, off + 28), b.subrange(off + 28, off + 32), s1, w2);
            lemma_concat_eq(b.subrange(off, off + 24), b.subrange(off + 24, off + 28), w0, w1);
            assert(p == r);
        }
        if p == r {
            assert(s1 == b.subrange(off, off + 28));
        }
    }

    fn size() -> usize {
        32
    }

    fn write_to(&self, out: &mut Vec<u8>) {
        let ghost w0 = self.hdr.wire();
        let ghost w1 = le32(self.size);
        let ghost w2 = le32(self.padding);
        let ghost s1 = w0 + w1;
        self.hdr.write_to(out);
        put_u32(out, self.size);
        proof {
            lemma_concat_assoc(old(out)@, w0, w1);
        }
        put_u32(out, self.padding);
        proof {
            lemma_concat_assoc(old(out)@, s1, w2);
        }
    }

    fn read_from(b: &[u8], off: usize) -> Self {
        virtio_gpu_cmd_submit {
            hdr: virtio_gpu_ctrl_hdr::read_from(b, off),
            size: get_u32(b, off + 24),
            padding: get_u32(b, off + 28),
        }
    }
}

/// `VIRTIO_GPU_CMD_GET_CAPSET_INFO`.
#[allow(non_camel_case_types)]
#[derive(Debug, Copy, Clone, Default)]
pub struct virtio_gpu_get_capset_info {
    pub hdr: virtio_gpu_ctrl_hdr,
    pub capset_index: u32,
    pub padding: u32,
}

impl WireRecord for virtio_gpu_get_capset_info {
    open spec fn wire_len() -> nat {
        32
    }

    open spec fn wire(&self) -> Seq<u8> {
        self.hdr.wire() + le32(self.capset_index) + le32(self.padding)
    }

    open spec fn parse_at(b: Seq<u8>, off: int) -> Self {
        virtio_gpu_get_capset_info {
            hdr: virtio_gpu_ctrl_hdr::parse_at(b, off),
            capset_index: u32_at(b, off + 24),
            padding: u32_at(b, off + 28),
        }
    }

    proof fn lemma_wire_len(&self) {
        self.hdr.lemma_wire_len();
        lemma_le32_len(self.capset_index);
        lemma_le32_len(self.padding);
    }

    proof fn lemma_parse_iff(b: Seq<u8>, off: int, r: Self) {
        let p = Self::parse_at(b, off);
        let w0 = r.hdr.wire();
        let w1 = le32(r.capset_index);
        let w2 = le32(r.padding);
        let s1 = w0 + w1;
        r.hdr.lemma_wire_len();
        virtio_gpu_ctrl_hdr::lemma_parse_iff(b, off, r.hdr);
        lemma_le32_len(r.capset_index);
        lemma_u32_at_iff(b, off + 24, r.capset_index);
        lemma_join(b, off, off + 24, off + 28);
        lemma_le32_len(r.padding);
        lemma_u32_at_iff(b, off + 28, r.padding);
        lemma_join(b, off, off + 28, off + 32);
        if b.subrange(off, off + 32) == r.wire() {
            lemma_concat_eq(b.subrange(off, off + 28), b.subrange(off + 28, off + 32), s1, w2);
            lemma_concat_eq(b.subrange(off, off + 24), b.subrange(off + 24, off + 28), w0, w1);
            assert(p == r);
        }
        if p == r {
            assert(s1 == b.subrange(off, off + 28));
        }
    }

    fn size() -> usize {
        32
    }

    fn write_to(&self, out: &mut Vec<u8>) {
        let ghost w0 = self.hdr.wire();
        let ghost w1 = le32(self.capset_index);
        let ghost w2 = le32(self.padding);
        let ghost s1 = w0 + w1;
        self.hdr.write_to(out);
        put_u32(out, self.capset_index);
        proof {
            lemma_concat_assoc(old(out)@, w0, w1);
        }
        put_u32(out, self.padding);
        proof {
            lemma_concat_assoc(old(out)@, s1, w2);
        }
    }

    fn read_from(b: &[u8], off: usize) -> Self {
        virtio_gpu_get_capset_info {
            hdr: virtio_gpu_ctrl_hdr::read_from(b, off),
            capset_index: get_u32(b, off + 24),
            padding: get_u32(b, off + 28),
        }
    }
}

/// `VIRTIO_GPU_RESP_OK_CAPSET_INFO`.
#[allow(non_camel_case_types)]
#[derive(Debug, Copy, Clone, Default)]
pub struct virtio_gpu_resp_capset_info {
    pub hdr: virtio_gpu_ctrl_hdr,
    pub capset_id: u32,
    pub capset_max_version: u32,
    pub capset_max_size: u32,
    pub padding: u32,
}

impl WireRecord for virtio_gpu_resp_capset_info {
    open spec fn wire_len() -> nat {
        40
    }

    open spec fn wire(&self) -> Seq<u8> {
        self.hdr.wire()
            + le32(self.capset_id)
            + le32(self.capset_max_version)
            + le32(self.capset_max_size)
            + le32(self.padding)
    }

    open spec fn parse_at(b: Seq<u8>, off: int) -> Self {
        virtio_gpu_resp_capset_info {
            hdr: virtio_gpu_ctrl_hdr::parse_at(b, off),
            capset_id: u32_at(b, off + 24),
            capset_max_version: u32_at(b, off + 28),
            capset_max_size: u32_at(b, off + 32),
            padding: u32_at(b, off + 36),
        }
    }

    proof fn lemma_wire_len(&self) {
        self.hdr.lemma_wire_len();
        lemma_le32_len(self.capset_id);
        lemma_le32_len(self.capset_max_version);
        lemma_le32_len(self.capset_max_size);
        lemma_le32_len(self.padding);
    }

    proof fn lemma_parse_iff(b: Seq<u8>, off: int, r: Self) {
        let p = Self::parse_at(b, off);
        let w0 = r.hdr.wire();
        let w1 = le32(r.capset_id);
        let w2 = le32(r.capset_max_version);
        let w3 = le32(r.capset_max_size);
        let w4 = le32(r.padding);
        let s1 = w0 + w1;
        let s2 = s1 + w2;
        let s3 = s2 + w3;
        r.hdr.lemma_wire_len();
        virtio_gpu_ctrl_hdr::lemma_parse_iff(b, off, r.hdr);
        lemma_le32_len(r.capset_id);
        lemma_u32_at_iff(b, off + 24, r.capset_id);
        lemma_join(b, off, off + 24, off + 28);
        lemma_le32_len(r.capset_max_version);
        lemma_u32_at_iff(b, off + 28, r.capset_max_version);
        lemma_join(b, off, off + 28, off + 32);
        lemma_le32_len(r.capset_max_size);
        lemma_u32_at_iff(b, off + 32, r.capset_max_size);
        lemma_join(b, off, off + 32, off + 36);
        lemma_le32_len(r.padding);
        lemma_u32_at_iff(b, off + 36, r.padding);
        lemma_join(b, off, off + 36, off + 40);
        if b.subrange(off, off + 40) == r.wire() {
            lemma_concat_eq(b.subrange(off, off + 36), b.subrange(off + 36, off + 40), s3, w4);
            lemma_concat_eq(b.subrange(off, off + 32), b.subrange(off + 32, off + 36), s2, w3);
            lemma_concat_eq(b.subrange(off, off + 28), b.subrange(off + 28, off + 32), s1, w2);
            lemma_concat_eq(b.subrange(off, off + 24), b.subrange(off + 24, off + 28), w0, w1);
            assert(p == r);
        }
        if p == r {
            assert(s1 == b.subrange(off, off + 28));
            assert(s2 == b.subrange(off, off + 32));
            assert(s3 == b.subrange(off, off + 36));
        }
    }

    fn size() -> usize {
        40
    }

    fn write_to(&self, out: &mut Vec<u8>) {
        let ghost w0 = self.hdr.wire();
        let ghost w1 = le32(self.capset_id);
        let ghost w2 = le32(self.capset_max_version);
        let ghost w3 = le32(self.capset_max_size);
        let ghost w4 = le32(self.padding);
        let ghost s1 = w0 + w1;
        let ghost s2 = s1 + w2;
        let ghost s3 = s2 + w3;
        self.hdr.write_to(out);
        put_u32(out, self.capset_id);
        proof {
            lemma_concat_assoc(old(out)@, w0, w1);
        }
        put_u32(out, self.capset_max_version);
        proof {
            lemma_concat_assoc(old(out)@, s1, w2);
        }
        put_u32(out, self.capset_max_size);
        proof {
            lemma_concat_assoc(old(out)@, s2, w3);
        }
        put_u32(out, self.padding);
        proof {
            lemma_concat_assoc(old(out)@, s3, w4);
        }
    }

    fn read_from(b: &[u8], off: usize) -> Self {
        virtio_gpu_resp_capset_info {
            hdr: virtio_gpu_ctrl_hdr::read_from(b, off),
            capset_id: get_u32(b, off + 24),
            capset_max_version: get_u32(b, off + 28),
            capset_max_size: get_u32(b, off + 32),
            padding: get_u32(b, off + 36),
        }
    }
}

/// `VIRTIO_GPU_CMD_GET_CAPSET`.
#[allow(non_camel_case_types)]
#[derive(Debug, Copy, Clone, Default)]
pub struct virtio_gpu_get_capset {
    pub hdr: virtio_gpu_ctrl_hdr,
    pub capset_id: u32,
    pub capset_version: u32,
}

impl WireRecord for virtio_gpu_get_capset {
    open spec fn wire_len() -> nat {
        32
    }

    open spec fn wire(&self) -> Seq<u8> {
        self.hdr.wire() + le32(self.capset_id) + le32(self.capset_version)
    }

    open spec fn parse_at(b: Seq<u8>, off: int) -> Self {
        virtio_gpu_get_capset {
            hdr: virtio_gpu_ctrl_hdr::parse_at(b, off),
            capset_id: u32_at(b, off + 24),
            capset_version: u32_at(b, off + 28),
        }
    }

    proof fn lemma_wire_len(&self) {
        self.hdr.lemma_wire_len();
        lemma_le32_len(self.capset_id);
        lemma_le32_len(self.capset_version);
    }

    proof fn lemma_parse_iff(b: Seq<u8>, off: int, r: Self) {
        let p = Self::parse_at(b, off);
        let w0 = r.hdr.wire();
        let w1 = le32(r.capset_id);
        let w2 = le32(r.capset_version);
        let s1 = w0 + w1;
        r.hdr.lemma_wire_len();
        virtio_gpu_ctrl_hdr::lemma_parse_iff(b, off, r.hdr);
        lemma_le32_len(r.capset_id);
        lemma_u32_at_iff(b, off + 24, r.capset_id);
        lemma_join(b, off, off + 24, off + 28);
        lemma_le32_len(r.capset_version);
        lemma_u32_at_iff(b, off + 28, r.capset_version);
        lemma_join(b, off, off + 28, off + 32);
        if b.subrange(off, off + 32) == r.wire() {
            lemma_concat_eq(b.subrange(off, off + 28), b.subrange(off + 28, off + 32), s1, w2);
            lemma_concat_eq(b.subrange(off, off + 24), b.subrange(off + 24, off + 28), w0, w1);
            assert(p == r);
        }
        if p == r {
            assert(s1 == b.subrange(off, off + 28));
        }
    }

    fn size() -> usize {
        32
    }

    fn write_to(&self, out: &mut Vec<u8>) {
        let ghost w0 = self.hdr.wire();
        let ghost w1 = le32(self.capset_id);
        let ghost w2 = le32(self.capset_version);
        let ghost s1 = w0 + w1;
        self.hdr.write_to(out);
        put_u32(out, self.capset_id);
        proof {
            lemma_concat_assoc(old(out)@, w0, w1);
        }
        put_u32(out, self.capset_version);
        proof {
            lemma_concat_assoc(old(out)@, s1, w2);
        }
    }

    fn read_from(b: &[u8], off: usize) -> Self {
        virtio_gpu_get_capset {
            hdr: virtio_gpu_ctrl_hdr::read_from(b, off),
            capset_id: get_u32(b, off + 24),
            capset_version: get_u32(b, off + 28),
        }
    }
}

/// `VIRTIO_GPU_RESP_OK_CAPSET`: the capability set's bytes follow the header.
#[allow(non_camel_case_types)]
#[derive(Debug, Copy, Clone, Default)]
pub struct virtio_gpu_resp_capset {
    pub hdr: virtio_gpu_ctrl_hdr,
    /// Stands for the capability set's bytes, which take no room in the record itself.
    pub capset_data: PhantomData<[u8]>,
}

impl WireRecord for virtio_gpu_resp_capset {
    open spec fn wire_len() -> nat {
        24
    }

    open spec fn wire(&self) -> Seq<u8> {
        self.hdr.wire()
    }

    open spec fn parse_at(b: Seq<u8>, off: int) -> Self {
        virtio_gpu_resp_capset {
            hdr: virtio_gpu_ctrl_hdr::parse_at(b, off),
            capset_data: PhantomData,
        }
    }

    proof fn lemma_wire_len(&self) {
        self.hdr.lemma_wire_len();
    }

    proof fn lemma_parse_iff(b: Seq<u8>, off: int, r: Self) {
        virtio_gpu_ctrl_hdr::lemma_parse_iff(b, off, r.hdr);
    }

    fn size() -> usize {
        24
    }

    fn write_to(&self, out: &mut Vec<u8>) {
        self.hdr.write_to(out);
    }

    fn read_from(b: &[u8], off: usize) -> Self {
        virtio_gpu_resp_capset {
            hdr: virtio_gpu_ctrl_hdr::read_from(b, off),
            capset_data: PhantomData,
        }
    }
}

/// `VIRTIO_GPU_CMD_GET_EDID`.
#[allow(non_camel_case_types)]
#[derive(Debug, Copy, Clone, Default)]
pub struct virtio_gpu_cmd_get_edid {
    pub hdr: virtio_gpu_ctrl_hdr,
    pub scanout: u32,
    pub padding: u32,
}

impl WireRecord for virtio_gpu_cmd_get_edid {
    open spec fn wire_len() -> nat {
        32
    }

    open spec fn wire(&self) -> Seq<u8> {
        self.hdr.wire() + le32(self.scanout) + le32(self.padding)
    }

    open spec fn parse_at(b: Seq<u8>, off: int) -> Self {
        virtio_gpu_cmd_get_edid {
            hdr: virtio_gpu_ctrl_hdr::parse_at(b, off),
            scanout: u32_at(b, off + 24),
            padding: u32_at(b, off + 28),
        }
    }

    proof fn lemma_wire_len(&self) {
        self.hdr.lemma_wire_len();
        lemma_le32_len(self.scanout);
        lemma_le32_len(self.padding);
    }

    proof fn lemma_parse_iff(b: Seq<u8>, off: int, r: Self) {
        let p = Self::parse_at(b, off);
        let w0 = r.hdr.wire();
        let w1 = le32(r.scanout);
        let w2 = le32(r.padding);
        let s1 = w0 + w1;
        r.hdr.lemma_wire_len();
        virtio_gpu_ctrl_hdr::lemma_parse_iff(b, off, r.hdr);
        lemma_le32_len(r.scanout);
        lemma_u32_at_iff(b, off + 24, r.scanout);
        lemma_join(b, off, off + 24, off + 28);
        lemma_le32_len(r.padding);
        lemma_u32_at_iff(b, off + 28, r.padding);
        lemma_join(b, off, off + 28, off + 32);
        if b.subrange(off, off + 32) == r.wire() {
            lemma_concat_eq(b.subrange(off, off + 28), b.subrange(off + 28, off + 32), s1, w2);
            lemma_concat_eq(b.subrange(off, off + 24), b.subrange(off + 24, off + 28), w0, w1);
            assert(p == r);
        }
        if p == r {
            assert(s1 == b.subrange(off, off + 28));
        }
    }

    fn size() -> usize {
        32
    }

    fn write_to(&self, out: &mut Vec<u8>) {
        let ghost w0 = self.hdr.wire();
        let ghost w1 = le32(self.scanout);
        let ghost w2 = le32(self.padding);
        let ghost s1 = w0 + w1;
        self.hdr.write_to(out);
        put_u32(out, self.scanout);
        proof {
            lemma_concat_assoc(old(out)@, w0, w1);
        }
        put_u32(out, self.padding);
        proof {
            lemma_concat_assoc(old(out)@, s1, w2);
        }
    }

    fn read_from(b: &[u8], off: usize) -> Self {
        virtio_gpu_cmd_get_edid {
            hdr: virtio_gpu_ctrl_hdr::read_from(b, off),
            scanout: get_u32(b, off + 24),
            padding: get_u32(b, off + 28),
        }
    }
}

/// `VIRTIO_GPU_RESP_OK_EDID`.
#[allow(non_camel_case_types)]
#[derive(Debug, Copy, Clone)]
pub struct virtio_gpu_resp_edid {
    pub hdr: virtio_gpu_ctrl_hdr,
    pub size: u32,
    pub padding: u32,
    pub edid: [u8; 1024],
}

impl Default for virtio_gpu_resp_edid {
    /// The record whose bytes are all zero.
    fn default() -> (r: Self)
        ensures
            r.wire() == zeros(1056),
    {
        let r = virtio_gpu_resp_edid {
            hdr: virtio_gpu_ctrl_hdr { type_: 0, flags: 0, fence_id: 0, ctx_id: 0, padding: 0 },
            size: 0,
            padding: 0,
            edid: [0u8; 1024],
        };
        proof {
            broadcast use vstd::array::group_array_axioms;

            reveal(le32);
            reveal(le64);
            assert(r.wire() =~= zeros(1056));
        }
        r
    }
}

impl WireRecord for virtio_gpu_resp_edid {
    open spec fn wire_len() -> nat {
        1056
    }

    open spec fn wire(&self) -> Seq<u8> {
        self.hdr.wire() + le32(self.size) + le32(self.padding) + self.edid@
    }

    open spec fn parse_at(b: Seq<u8>, off: int) -> Self {
        virtio_gpu_resp_edid {
            hdr: virtio_gpu_ctrl_hdr::parse_at(b, off),
            size: u32_at(b, off + 24),
            padding: u32_at(b, off + 28),
            edid: byte_array::<1024>(b, off + 32),
        }
    }

    proof fn lemma_wire_len(&self) {
        self.hdr.lemma_wire_len();
        lemma_le32_len(self.size);
        lemma_le32_len(self.padding);
        lemma_byte_array_len(self.edid);
    }

    proof fn lemma_parse_iff(b: Seq<u8>, off: int, r: Self) {
        let p = Self::parse_at(b, off);
        let w0 = r.hdr.wire();
        let w1 = le32(r.size);
        let w2 = le32(r.padding);
        let w3 = r.edid@;
        let s1 = w0 + w1;
        let s2 = s1 + w2;
        r.hdr.lemma_wire_len();
        virtio_gpu_ctrl_hdr::lemma_parse_iff(b, off, r.hdr);
        lemma_le32_len(r.size);
        lemma_u32_at_iff(b, off + 24, r.size);
        lemma_join(b, off, off + 24, off + 28);
        lemma_le32_len(r.padding);
        lemma_u32_at_iff(b, off + 28, r.padding);
        lemma_join(b, off, off + 28, off + 32);
        lemma_byte_array_len(r.edid);
        lemma_byte_array_iff(b, off + 32, r.edid);
        lemma_join(b, off, off + 32, off + 1056);
        if b.subrange(off, off + 1056) == r.wire() {
            lemma_concat_eq(b.subrange(off, off + 32), b.subrange(off + 32, off + 1056), s2, w3);
            lemma_concat_eq(b.subrange(off, off + 28), b.subrange(off + 28, off + 32), s1, w2);
            lemma_concat_eq(b.subrange(off, off + 24), b.subrange(off + 24, off + 28), w0, w1);
            assert(p == r);
        }
        if p == r {
            assert(s1 == b.subrange(off, off + 28));
            assert(s2 == b.subrange(off, off + 32));
        }
    }

    fn size() -> usize {
        1056
    }

    fn write_to(&self, out: &mut Vec<u8>) {
        let ghost w0 = self.hdr.wire();
        let ghost w1 = le32(self.size);
        let ghost w2 = le32(self.padding);
        let ghost w3 = self.edid@;
        let ghost s1 = w0 + w1;
        let ghost s2 = s1 + w2;
        self.hdr.write_to(out);
        put_u32(out, self.size);
        proof {
            lemma_concat_assoc(old(out)@, w0, w1);
        }
        put_u32(out, self.padding);
        proof {
            lemma_concat_assoc(old(out)@, s1, w2);
        }
        put_bytes(out, self.edid.as_slice());
        proof {
            lemma_concat_assoc(old(out)@, s2, w3);
        }
    }

    fn read_from(b: &[u8], off: usize) -> Self {
        virtio_gpu_resp_edid {
            hdr: virtio_gpu_ctrl_hdr::read_from(b, off),
            size: get_u32(b, off + 24),
            padding: get_u32(b, off + 28),
            edid: get_array::<1024>(b, off + 32),
        }
    }
}

/// The configuration registers shown to the guest.
#[allow(non_camel_case_types)]
#[derive(Debug, Copy, Clone, Default)]
pub struct virtio_gpu_config {
    pub events_read: u32,
    pub events_clear: u32,
    pub num_scanouts: u32,
    pub num_capsets: u32,
}

impl WireRecord for virtio_gpu_config {
    open spec fn wire_len() -> nat {
        16
    }

    open spec fn wire(&self) -> Seq<u8> {
        le32(self.events_read)
            + le32(self.events_clear)
            + le32(self.num_scanouts)
            + le32(self.num_capsets)
    }

    open spec fn parse_at(b: Seq<u8>, off: int) -> Self {
        virtio_gpu_config {
            events_read: u32_at(b, off),
            events_clear: u32_at(b, off + 4),
            num_scanouts: u32_at(b, off + 8),
            num_capsets: u32_at(b, off + 12),
        }
    }

    proof fn lemma_wire_len(&self) {
        lemma_le32_len(self.events_read);
        lemma_le32_len(self.events_clear);
        lemma_le32_len(self.num_scanouts);
        lemma_le32_len(self.num_capsets);
    }

    proof fn lemma_parse_iff(b: Seq<u8>, off: int, r: Self) {
        let p = Self::parse_at(b, off);
        let w0 = le32(r.events_read);
        let w1 = le32(r.events_clear);
        let w2 = le32(r.num_scanouts);
        let w3 = le32(r.num_capsets);
        let s1 = w0 + w1;
        let s2 = s1 + w2;
        lemma_le32_len(r.events_read);
        lemma_u32_at_iff(b, off, r.events_read);
        lemma_le32_len(r.events_clear);
        lemma_u32_at_iff(b, off + 4, r.events_clear);
        lemma_join(b, off, off + 4, off + 8);
        lemma_le32_len(r.num_scanouts);
        lemma_u32_at_iff(b, off + 8, r.num_scanouts);
        lemma_join(b, off, off + 8, off + 12);
        lemma_le32_len(r.num_capsets);
        lemma_u32_at_iff(b, off + 12, r.num_capsets);
        lemma_join(b, off, off + 12, off + 16);
        if b.subrange(off, off + 16) == r.wire() {
            lemma_concat_eq(b.subrange(off, off + 12), b.subrange(off + 12, off + 16), s2, w3);
            lemma_concat_eq(b.subrange(off, off + 8), b.subrange(off + 8, off + 12), s1, w2);
            lemma_concat_eq(b.subrange(off, off + 4), b.subrange(off + 4, off + 8), w0, w1);
            assert(p == r);
        }
        if p == r {
            assert(s1 == b.subrange(off, off + 8));
            assert(s2 == b.subrange(off, off + 12));
        }
    }

    fn size() -> usize {
        16
    }

    fn write_to(&self, out: &mut Vec<u8>) {
        let ghost w0 = le32(self.events_read);
        let ghost w1 = le32(self.events_clear);
        let ghost w2 = le32(self.num_scanouts);
        let ghost w3 = le32(self.num_capsets);
        let ghost s1 = w0 + w1;
        let ghost s2 = s1 + w2;
        put_u32(out, self.events_read);
        put_u32(out, self.events_clear);
        proof {
            lemma_concat_assoc(old(out)@, w0, w1);
        }
        put_u32(out, self.num_scanouts);
        proof {
            lemma_concat_assoc(old(out)@, s1, w2);
        }
        put_u32(out, self.num_capsets);
        proof {
            lemma_concat_assoc(old(out)@, s2, w3);
        }
    }

    fn read_from(b: &[u8], off: usize) -> Self {
        virtio_gpu_config {
            events_read: get_u32(b, off),
            events_clear: get_u32(b, off + 4),
            num_scanouts: get_u32(b, off + 8),
            num_capsets: get_u32(b, off + 12),
        }
    }
}

/// `VIRTIO_GPU_CMD_RESOURCE_ASSIGN_UUID`.
#[allow(non_camel_case_types)]
#[derive(Debug, Copy, Clone, Default)]
pub struct virtio_gpu_resource_assign_uuid {
    pub hdr: virtio_gpu_ctrl_hdr,
    pub resource_id: u32,
    pub padding: u32,
}

impl WireRecord for virtio_gpu_resource_assign_uuid {
    open spec fn wire_len() -> nat {
        32
    }

    open spec fn wire(&self) -> Seq<u8> {
        self.hdr.wire() + le32(self.resource_id) + le32(self.padding)
    }

    open spec fn parse_at(b: Seq<u8>, off: int) -> Self {
        virtio_gpu_resource_assign_uuid {
            hdr: virtio_gpu_ctrl_hdr::parse_at(b, off),
            resource_id: u32_at(b, off + 24),
            padding: u32_at(b, off + 28),
        }
    }

    proof fn lemma_wire_len(&self) {
        self.hdr.lemma_wire_len();
        lemma_le32_len(self.resource_id);
        lemma_le32_len(self.padding);
    }

    proof fn lemma_parse_iff(b: Seq<u8>, off: int, r: Self) {
        let p = Self::parse_at(b, off);
        let w0 = r.hdr.wire();
        let w1 = le32(r.resource_id);
        let w2 = le32(r.padding);
        let s1 = w0 + w1;
        r.hdr.lemma_wire_len();
        virtio_gpu_ctrl_hdr::lemma_parse_iff(b, off, r.hdr);
        lemma_le32_len(r.resource_id);
        lemma_u32_at_iff(b, off + 24, r.resource_id);
        lemma_join(b, off, off + 24, off + 28);
        lemma_le32_len(r.padding);
        lemma_u32_at_iff(b, off + 28, r.padding);
        lemma_join(b, off, off + 28, off + 32);
        if b.subrange(off, off + 32) == r.wire() {
            lemma_concat_eq(b.subrange(off, off + 28), b.subrange(off + 28, off + 32), s1, w2);
            lemma_concat_eq(b.subrange(off, off + 24), b.subrange(off + 24, off + 28), w0, w1);
            assert(p == r);
        }
        if p == r {
            assert(s1 == b.subrange(off, off + 28));
        }
    }

    fn size() -> usize {
        32
    }

    fn write_to(&self, out: &mut Vec<u8>) {
        let ghost w0 = self.hdr.wire();
        let ghost w1 = le32(self.resource_id);
        let ghost w2 = le32(self.padding);
        let ghost s1 = w0 + w1;
        self.hdr.write_to(out);
        put_u32(out, self.resource_id);
        proof {
            lemma_concat_assoc(old(out)@, w0, w1);
        }
        put_u32(out, self.padding);
        proof {
            lemma_concat_assoc(old(out)@, s1, w2);
        }
    }

    fn read_from(b: &[u8], off: usize) -> Self {
        virtio_gpu_resource_assign_uuid {
            hdr: virtio_gpu_ctrl_hdr::read_from(b, off),
            resource_id: get_u32(b, off + 24),
            padding: get_u32(b, off + 28),
        }
    }
}

/// `VIRTIO_GPU_RESP_OK_RESOURCE_UUID`.
#[allow(non_camel_case_types)]
#[derive(Debug, Copy, Clone, Default)]
pub struct virtio_gpu_resp_resource_uuid {
    pub hdr: virtio_gpu_ctrl_hdr,
    pub uuid: [u8; 16],
}

impl WireRecord for virtio_gpu_resp_resource_uuid {
    open spec fn wire_len() -> nat {
        40
    }

    open spec fn wire(&self) -> Seq<u8> {
        self.hdr.wire() + self.uuid@
    }

    open spec fn parse_at(b: Seq<u8>, off: int) -> Self {
        virtio_gpu_resp_resource_uuid {
            hdr: virtio_gpu_ctrl_hdr::parse_at(b, off),
            uuid: byte_array::<16>(b, off + 24),
        }
    }

    proof fn lemma_wire_len(&self) {
        self.hdr.lemma_wire_len();
        lemma_byte_array_len(self.uuid);
    }

    proof fn lemma_parse_iff(b: Seq<u8>, off: int, r: Self) {
        let p = Self::parse_at(b, off);
        let w0 = r.hdr.wire();
        let w1 = r.uuid@;
        r.hdr.lemma_wire_len();
        virtio_gpu_ctrl_hdr::lemma_parse_iff(b, off, r.hdr);
        lemma_byte_array_len(r.uuid);
        lemma_byte_array_iff(b, off + 24, r.uuid);
        lemma_join(b, off, off + 24, off + 40);
        if b.subrange(off, off + 40) == r.wire() {
            lemma_concat_eq(b.subrange(off, off + 24), b.subrange(off + 24, off + 40), w0, w1);
            assert(p == r);
        }
        if p == r {
        }
    }

    fn size() -> usize {
        40
    }

    fn write_to(&self, out: &mut Vec<u8>) {
        let ghost w0 = self.hdr.wire();
        let ghost w1 = self.uuid@;
        self.hdr.write_to(out);
        put_bytes(out, self.uuid.as_slice());
        proof {
            lemma_concat_assoc(old(out)@, w0, w1);
        }
    }

    fn read_from(b: &[u8], off: usize) -> Self {
        virtio_gpu_resp_resource_uuid {
            hdr: virtio_gpu_ctrl_hdr::read_from(b, off),
            uuid: get_array::<16>(b, off + 24),
        }
    }
}
/// The name shown for a context whose name is not text.
pub open spec fn unknown_name() -> Seq<char> {
    "<unkown>"@
}

/// Calls `std::str::from_utf8` and owns the text it found.
///
/// Claimed, as documented: there is text exactly where the bytes are valid UTF-8, and it is
/// the text that they encode.
#[verifier::external_body]
fn text_of_utf8(bytes: &[u8]) -> (r: Option<String>)
    ensures
        r matches Some(text) ==> vstd::utf8::valid_utf8(bytes@) && text@ == vstd::utf8::decode_utf8(
            bytes@,
        ),
        r is None ==> !vstd::utf8::valid_utf8(bytes@),
{
    match std::str::from_utf8(bytes) {
        Ok(text) => Some(text.to_owned()),
        Err(_) => None,
    }
}

impl virtio_gpu_ctx_create {
    /// The bytes of the context's name: the first `nlen` of `debug_name`, and all of them where
    /// `nlen` says more than there are.
    pub open spec fn name_bytes(&self) -> Seq<u8> {
        self.debug_name@.subrange(
            0,
            if self.nlen <= 64 {
                self.nlen as int
            } else {
                64
            },
        )
    }

    /// The context's name for a reader: the text that `name_bytes` encode, and `<unkown>` where
    /// they encode none.
    pub fn name(&self) -> (text: String)
        ensures
            text@ == if vstd::utf8::valid_utf8(self.name_bytes()) {
                vstd::utf8::decode_utf8(self.name_bytes())
            } else {
                unknown_name()
            },
    {
        broadcast use vstd::array::group_array_axioms;

        // name should not be longer than 64
        let name_size: usize = if self.nlen <= 64 {
            self.nlen as usize
        } else {
            64
        };
        let bytes = vstd::slice::slice_subrange(self.debug_name.as_slice(), 0, name_size);
        match text_of_utf8(bytes) {
            Some(text) => text,
            None => "<unkown>".to_owned(),
        }
    }
}

} // verus!
