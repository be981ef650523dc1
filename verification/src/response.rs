//! Responses: what the device answers, and how an answer is encoded for the guest.

use vstd::prelude::*;
use std::num::TryFromIntError;
use rutabaga_gfx::RutabagaError;
use vm_memory::GuestMemoryError;
use crate::bytes::le32;
use crate::bytes::put_bytes;
use crate::bytes::u32_at;
use crate::bytes::zeros;
use crate::protocol::lemma_parse_wire;
use crate::protocol::virtio_gpu_ctrl_hdr;
use crate::protocol::virtio_gpu_display_one;
use crate::protocol::virtio_gpu_rect;
use crate::protocol::virtio_gpu_resp_capset_info;
use crate::protocol::virtio_gpu_resp_display_info;
use crate::protocol::virtio_gpu_resp_edid;
use crate::protocol::virtio_gpu_resp_resource_uuid;
use crate::protocol::WireRecord;
use crate::protocol::VIRTIO_GPU_MAX_SCANOUTS;
use crate::protocol::VIRTIO_GPU_RESP_ERR_INVALID_CONTEXT_ID;
use crate::protocol::VIRTIO_GPU_RESP_ERR_INVALID_PARAMETER;
use crate::protocol::VIRTIO_GPU_RESP_ERR_INVALID_RESOURCE_ID;
use crate::protocol::VIRTIO_GPU_RESP_ERR_INVALID_SCANOUT_ID;
use crate::protocol::VIRTIO_GPU_RESP_ERR_OUT_OF_MEMORY;
use crate::protocol::VIRTIO_GPU_RESP_ERR_UNSPEC;
use crate::protocol::VIRTIO_GPU_RESP_OK_CAPSET;
use crate::protocol::VIRTIO_GPU_RESP_OK_CAPSET_INFO;
use crate::protocol::VIRTIO_GPU_RESP_OK_DISPLAY_INFO;
use crate::protocol::VIRTIO_GPU_RESP_OK_EDID;
use crate::protocol::VIRTIO_GPU_RESP_OK_NODATA;
use crate::protocol::VIRTIO_GPU_RESP_OK_RESOURCE_UUID;

verus! {

/// What the device answers to a command.
#[derive(Debug)]
pub enum VirtioGpuResponse {
    OkNoData,
    /// The `(width, height)` of each display.
    OkDisplayInfo(Vec<(u32, u32)>),
    OkCapsetInfo { capset_id: u32, version: u32, size: u32 },
    /// The bytes of a capability set.
    OkCapset(Vec<u8>),
    /// An EDID block: `size` bytes of `edid` are meant.
    OkEdid { size: u32, edid: [u8; 1024] },
    OkResourceUuid { uuid: [u8; 16] },
    // The error codes of the protocol.
    ErrUnspec,
    ErrOutOfMemory,
    ErrInvalidScanoutId,
    ErrInvalidResourceId,
    ErrInvalidContextId,
    ErrInvalidParameter,
    // Failures of this device, which the guest sees as `ErrUnspec`.
    /// More displays than a display-info response has room for.
    TooManyScanout(usize),
    EncodeError(GuestMemoryError),
    RutabagaError(RutabagaError),
    UnsupportPlatform(TryFromIntError),
    InvalidSglistRegion(),
    /// The display backend failed, with its message.
    DisplayErr(String),
}

pub type VirtioGpuResponseResult = Result<VirtioGpuResponse, VirtioGpuResponse>;

impl From<RutabagaError> for VirtioGpuResponse {
    fn from(e: RutabagaError) -> (r: Self) {
        VirtioGpuResponse::RutabagaError(e)
    }
}

impl vstd::std_specs::convert::FromSpecImpl<RutabagaError> for VirtioGpuResponse {
    open spec fn obeys_from_spec() -> bool {
        true
    }

    open spec fn from_spec(e: RutabagaError) -> Self {
        VirtioGpuResponse::RutabagaError(e)
    }
}

impl From<GuestMemoryError> for VirtioGpuResponse {
    fn from(e: GuestMemoryError) -> (r: Self) {
        VirtioGpuResponse::EncodeError(e)
    }
}

impl vstd::std_specs::convert::FromSpecImpl<GuestMemoryError> for VirtioGpuResponse {
    open spec fn obeys_from_spec() -> bool {
        true
    }

    open spec fn from_spec(e: GuestMemoryError) -> Self {
        VirtioGpuResponse::EncodeError(e)
    }
}

impl From<TryFromIntError> for VirtioGpuResponse {
    fn from(e: TryFromIntError) -> (r: Self) {
        VirtioGpuResponse::UnsupportPlatform(e)
    }
}

impl vstd::std_specs::convert::FromSpecImpl<TryFromIntError> for VirtioGpuResponse {
    open spec fn obeys_from_spec() -> bool {
        true
    }

    open spec fn from_spec(e: TryFromIntError) -> Self {
        VirtioGpuResponse::UnsupportPlatform(e)
    }
}

/// The display mode without a display: all zero, not enabled.
pub open spec fn no_display() -> virtio_gpu_display_one {
    virtio_gpu_display_one {
        r: virtio_gpu_rect { x: 0, y: 0, width: 0, height: 0 },
        enabled: 0,
        flags: 0,
    }
}

/// The `i`-th display mode of a display-info response for `displays`: the display's size at
/// the origin, enabled, for each display there is; no display after them.
pub open spec fn display_mode(displays: Seq<(u32, u32)>, i: int) -> virtio_gpu_display_one {
    if 0 <= i < displays.len() {
        virtio_gpu_display_one {
            r: virtio_gpu_rect { x: 0, y: 0, width: displays[i].0, height: displays[i].1 },
            enabled: 1,
            flags: 0,
        }
    } else {
        no_display()
    }
}

/// The display-info response for `displays` under the header `hdr`.
pub open spec fn display_info(
    hdr: virtio_gpu_ctrl_hdr,
    displays: Seq<(u32, u32)>,
) -> virtio_gpu_resp_display_info {
    virtio_gpu_resp_display_info {
        hdr,
        pmodes: [
            display_mode(displays, 0),
            display_mode(displays, 1),
            display_mode(displays, 2),
            display_mode(displays, 3),
            display_mode(displays, 4),
            display_mode(displays, 5),
            display_mode(displays, 6),
            display_mode(displays, 7),
            display_mode(displays, 8),
            display_mode(displays, 9),
            display_mode(displays, 10),
            display_mode(displays, 11),
            display_mode(displays, 12),
            display_mode(displays, 13),
            display_mode(displays, 14),
            display_mode(displays, 15),
        ],
    }
}

/// The display mode without a display is 24 zero bytes on the wire, and so is every mode of a
/// display-info response after the displays there are.
pub proof fn lemma_no_display_is_zero(displays: Seq<(u32, u32)>, i: int)
    requires
        displays.len() <= i,
    ensures
        display_mode(displays, i) == no_display(),
        no_display().wire() == zeros(24),
{
    reveal(le32);
    assert(no_display().wire() =~= zeros(24));
}

impl VirtioGpuResponse {
    /// The `type` that the response carries in its header: its own code for the successes and
    /// for the six errors of the protocol, `VIRTIO_GPU_RESP_ERR_UNSPEC` for every failure of
    /// the device itself.
    pub open spec fn command_const(&self) -> u32 {
        match self {
            VirtioGpuResponse::OkNoData => VIRTIO_GPU_RESP_OK_NODATA,
            VirtioGpuResponse::OkDisplayInfo(_) => VIRTIO_GPU_RESP_OK_DISPLAY_INFO,
            VirtioGpuResponse::OkCapsetInfo { .. } => VIRTIO_GPU_RESP_OK_CAPSET_INFO,
            VirtioGpuResponse::OkCapset(_) => VIRTIO_GPU_RESP_OK_CAPSET,
            VirtioGpuResponse::OkEdid { .. } => VIRTIO_GPU_RESP_OK_EDID,
            VirtioGpuResponse::OkResourceUuid { .. } => VIRTIO_GPU_RESP_OK_RESOURCE_UUID,
            VirtioGpuResponse::ErrUnspec => VIRTIO_GPU_RESP_ERR_UNSPEC,
            VirtioGpuResponse::ErrOutOfMemory => VIRTIO_GPU_RESP_ERR_OUT_OF_MEMORY,
            VirtioGpuResponse::ErrInvalidScanoutId => VIRTIO_GPU_RESP_ERR_INVALID_SCANOUT_ID,
            VirtioGpuResponse::ErrInvalidResourceId => VIRTIO_GPU_RESP_ERR_INVALID_RESOURCE_ID,
            VirtioGpuResponse::ErrInvalidContextId => VIRTIO_GPU_RESP_ERR_INVALID_CONTEXT_ID,
            VirtioGpuResponse::ErrInvalidParameter => VIRTIO_GPU_RESP_ERR_INVALID_PARAMETER,
            VirtioGpuResponse::TooManyScanout(_) => VIRTIO_GPU_RESP_ERR_UNSPEC,
            VirtioGpuResponse::EncodeError(_) => VIRTIO_GPU_RESP_ERR_UNSPEC,
            VirtioGpuResponse::RutabagaError(_) => VIRTIO_GPU_RESP_ERR_UNSPEC,
            VirtioGpuResponse::UnsupportPlatform(_) => VIRTIO_GPU_RESP_ERR_UNSPEC,
            VirtioGpuResponse::InvalidSglistRegion() => VIRTIO_GPU_RESP_ERR_UNSPEC,
            VirtioGpuResponse::DisplayErr(_) => VIRTIO_GPU_RESP_ERR_UNSPEC,
        }
    }

    /// Whether the response is one of the six errors of the protocol.
    pub open spec fn is_protocol_error(&self) -> bool {
        matches!(
            self,
            VirtioGpuResponse::ErrUnspec | VirtioGpuResponse::ErrOutOfMemory
                | VirtioGpuResponse::ErrInvalidScanoutId | VirtioGpuResponse::ErrInvalidResourceId
                | VirtioGpuResponse::ErrInvalidContextId | VirtioGpuResponse::ErrInvalidParameter
        )
    }

    /// The header of the encoded response.
    pub open spec fn header(&self, flags: u32, fence_id: u64, ctx_id: u32) -> virtio_gpu_ctrl_hdr {
        virtio_gpu_ctrl_hdr { type_: self.command_const(), flags, fence_id, ctx_id, padding: 0 }
    }

    /// Whether the response names more displays than a display-info response has room for.
    pub open spec fn too_many_scanouts(&self) -> bool {
        self matches VirtioGpuResponse::OkDisplayInfo(displays) && displays@.len()
            > VIRTIO_GPU_MAX_SCANOUTS
    }

    /// The bytes of the encoded response: the header, and after it what the variant carries.
    pub open spec fn wire(&self, flags: u32, fence_id: u64, ctx_id: u32) -> Seq<u8>
        recommends
            !self.too_many_scanouts(),
    {
        let hdr = self.header(flags, fence_id, ctx_id);
        match self {
            VirtioGpuResponse::OkDisplayInfo(displays) => display_info(hdr, displays@).wire(),
            VirtioGpuResponse::OkCapsetInfo { capset_id, version, size } => {
                virtio_gpu_resp_capset_info {
                    hdr,
                    capset_id: *capset_id,
                    capset_max_version: *version,
                    capset_max_size: *size,
                    padding: 0,
                }.wire()
            },
            VirtioGpuResponse::OkCapset(capset) => hdr.wire() + capset@,
            VirtioGpuResponse::OkEdid { size, edid } => {
                virtio_gpu_resp_edid { hdr, size: *size, padding: 0, edid: *edid }.wire()
            },
            VirtioGpuResponse::OkResourceUuid { uuid } => {
                virtio_gpu_resp_resource_uuid { hdr, uuid: *uuid }.wire()
            },
            _ => hdr.wire(),
        }
    }

    /// Encodes the response for the guest, under a header with the given `flags`, `fence_id`
    /// and `ctx_id`.
    ///
    /// A display-info response with more than `VIRTIO_GPU_MAX_SCANOUTS` displays is refused
    /// with `TooManyScanout` before any byte is made; every other response is encoded.
    pub fn encode(&self, flags: u32, fence_id: u64, ctx_id: u32) -> (r: Result<
        Vec<u8>,
        VirtioGpuResponse,
    >)
        ensures
            match r {
                Ok(bytes) => !self.too_many_scanouts() && bytes@ == self.wire(
                    flags,
                    fence_id,
                    ctx_id,
                ),
                Err(e) => self matches VirtioGpuResponse::OkDisplayInfo(displays)
                    && displays@.len() > VIRTIO_GPU_MAX_SCANOUTS && e
                    == VirtioGpuResponse::TooManyScanout(displays@.len() as usize),
            },
    {
        let hdr = virtio_gpu_ctrl_hdr {
            type_: self.get_resp_command_const(),
            flags,
            fence_id,
            ctx_id,
            padding: 0,
        };
        match self {
            VirtioGpuResponse::OkDisplayInfo(inner) => {
                if inner.len() > VIRTIO_GPU_MAX_SCANOUTS {
                    return Err(VirtioGpuResponse::TooManyScanout(inner.len()));
                }
                let resp = virtio_gpu_resp_display_info { hdr, pmodes: display_modes(inner) };
                proof {
                    broadcast use vstd::array::group_array_axioms;

                    assert(resp.pmodes =~= display_info(hdr, inner@).pmodes);
                }
                Ok(resp.to_bytes())
            },
            VirtioGpuResponse::OkCapsetInfo { capset_id, version, size } => {
                let resp = virtio_gpu_resp_capset_info {
                    hdr,
                    capset_id: *capset_id,
                    capset_max_version: *version,
                    capset_max_size: *size,
                    padding: 0,
                };
                Ok(resp.to_bytes())
            },
            VirtioGpuResponse::OkCapset(inner) => {
                let mut out = hdr.to_bytes();
                put_bytes(&mut out, inner.as_slice());
                Ok(out)
            },
            VirtioGpuResponse::OkEdid { size, edid } => {
                let resp = virtio_gpu_resp_edid { hdr, size: *size, padding: 0, edid: *edid };
                Ok(resp.to_bytes())
            },
            VirtioGpuResponse::OkResourceUuid { uuid } => {
                let resp = virtio_gpu_resp_resource_uuid { hdr, uuid: *uuid };
                Ok(resp.to_bytes())
            },
            _ => Ok(hdr.to_bytes()),
        }
    }

    /// The `type` that the response carries in its header.
    pub fn get_resp_command_const(&self) -> (c: u32)
        ensures
            c == self.command_const(),
    {
        match self {
            VirtioGpuResponse::OkNoData => VIRTIO_GPU_RESP_OK_NODATA,
            VirtioGpuResponse::OkDisplayInfo(_) => VIRTIO_GPU_RESP_OK_DISPLAY_INFO,
            VirtioGpuResponse::OkCapsetInfo { .. } => VIRTIO_GPU_RESP_OK_CAPSET_INFO,
            VirtioGpuResponse::OkCapset(_) => VIRTIO_GPU_RESP_OK_CAPSET,
            VirtioGpuResponse::OkEdid { .. } => VIRTIO_GPU_RESP_OK_EDID,
            VirtioGpuResponse::OkResourceUuid { .. } => VIRTIO_GPU_RESP_OK_RESOURCE_UUID,
            VirtioGpuResponse::ErrUnspec => VIRTIO_GPU_RESP_ERR_UNSPEC,
            VirtioGpuResponse::ErrOutOfMemory => VIRTIO_GPU_RESP_ERR_OUT_OF_MEMORY,
            VirtioGpuResponse::ErrInvalidScanoutId => VIRTIO_GPU_RESP_ERR_INVALID_SCANOUT_ID,
            VirtioGpuResponse::ErrInvalidResourceId => VIRTIO_GPU_RESP_ERR_INVALID_RESOURCE_ID,
            VirtioGpuResponse::ErrInvalidContextId => VIRTIO_GPU_RESP_ERR_INVALID_CONTEXT_ID,
            VirtioGpuResponse::ErrInvalidParameter => VIRTIO_GPU_RESP_ERR_INVALID_PARAMETER,
            _ => VIRTIO_GPU_RESP_ERR_UNSPEC,
        }
    }

    /// Each of the six errors of the protocol is encoded as a header alone, and the header's
    /// `type` is the error's own code.
    pub proof fn lemma_protocol_error_is_header_only(
        &self,
        flags: u32,
        fence_id: u64,
        ctx_id: u32,
    )
        requires
            self.is_protocol_error(),
        ensures
            !self.too_many_scanouts(),
            self.wire(flags, fence_id, ctx_id) == self.header(flags, fence_id, ctx_id).wire(),
            self.wire(flags, fence_id, ctx_id).len() == virtio_gpu_ctrl_hdr::wire_len(),
            u32_at(self.wire(flags, fence_id, ctx_id), 0) == self.command_const(),
            self.command_const() == match self {
                VirtioGpuResponse::ErrUnspec => 0x1200u32,
                VirtioGpuResponse::ErrOutOfMemory => 0x1201u32,
                VirtioGpuResponse::ErrInvalidScanoutId => 0x1202u32,
                VirtioGpuResponse::ErrInvalidResourceId => 0x1203u32,
                VirtioGpuResponse::ErrInvalidContextId => 0x1204u32,
                _ => 0x1205u32,
            },
    {
        self.lemma_wire_starts_with_header(flags, fence_id, ctx_id);
    }

    /// An encoded response is as long as its variant says: the header's 24 bytes alone, or with
    /// the sixteen display modes, the capability set's description or bytes, the EDID block
    /// or the uuid after them.
    pub proof fn lemma_wire_len(&self, flags: u32, fence_id: u64, ctx_id: u32)
        requires
            !self.too_many_scanouts(),
        ensures
            self.wire(flags, fence_id, ctx_id).len() == match self {
                VirtioGpuResponse::OkDisplayInfo(_) => 408,
                VirtioGpuResponse::OkCapsetInfo { .. } => 40,
                VirtioGpuResponse::OkCapset(capset) => 24 + capset@.len(),
                VirtioGpuResponse::OkEdid { .. } => 1056,
                VirtioGpuResponse::OkResourceUuid { .. } => 40,
                _ => 24nat,
            },
    {
        let hdr = self.header(flags, fence_id, ctx_id);
        hdr.lemma_wire_len();
        match self {
            VirtioGpuResponse::OkDisplayInfo(displays) => {
                display_info(hdr, displays@).lemma_wire_len();
            },
            VirtioGpuResponse::OkCapsetInfo { capset_id, version, size } => {
                virtio_gpu_resp_capset_info {
                    hdr,
                    capset_id: *capset_id,
                    capset_max_version: *version,
                    capset_max_size: *size,
                    padding: 0,
                }.lemma_wire_len();
            },
            VirtioGpuResponse::OkEdid { size, edid } => {
                virtio_gpu_resp_edid { hdr, size: *size, padding: 0, edid: *edid }.lemma_wire_len();
            },
            VirtioGpuResponse::OkResourceUuid { uuid } => {
                virtio_gpu_resp_resource_uuid { hdr, uuid: *uuid }.lemma_wire_len();
            },
            _ => {},
        }
    }

    /// Every encoded response starts with its header, and so with its `type`.
    pub proof fn lemma_wire_starts_with_header(&self, flags: u32, fence_id: u64, ctx_id: u32)
        requires
            !self.too_many_scanouts(),
        ensures
            self.wire(flags, fence_id, ctx_id).len() >= virtio_gpu_ctrl_hdr::wire_len(),
            self.wire(flags, fence_id, ctx_id).subrange(0, 24) == self.header(
                flags,
                fence_id,
                ctx_id,
            ).wire(),
            u32_at(self.wire(flags, fence_id, ctx_id), 0) == self.command_const(),
    {
        let hdr = self.header(flags, fence_id, ctx_id);
        let w = self.wire(flags, fence_id, ctx_id);
        hdr.lemma_wire_len();
        match self {
            VirtioGpuResponse::OkDisplayInfo(displays) => {
                let resp = display_info(hdr, displays@);
                resp.lemma_wire_len();
                lemma_parse_wire(resp);
                virtio_gpu_ctrl_hdr::lemma_parse_iff(w, 0, hdr);
            },
            VirtioGpuResponse::OkCapsetInfo { capset_id, version, size } => {
                let resp = virtio_gpu_resp_capset_info {
                    hdr,
                    capset_id: *capset_id,
                    capset_max_version: *version,
                    capset_max_size: *size,
                    padding: 0,
                };
                resp.lemma_wire_len();
                lemma_parse_wire(resp);
                virtio_gpu_ctrl_hdr::lemma_parse_iff(w, 0, hdr);
            },
            VirtioGpuResponse::OkCapset(capset) => {
                assert(w.subrange(0, 24) =~= hdr.wire());
            },
            VirtioGpuResponse::OkEdid { size, edid } => {
                let resp = virtio_gpu_resp_edid { hdr, size: *size, padding: 0, edid: *edid };
                resp.lemma_wire_len();
                lemma_parse_wire(resp);
                virtio_gpu_ctrl_hdr::lemma_parse_iff(w, 0, hdr);
            },
            VirtioGpuResponse::OkResourceUuid { uuid } => {
                let resp = virtio_gpu_resp_resource_uuid { hdr, uuid: *uuid };
                resp.lemma_wire_len();
                lemma_parse_wire(resp);
                virtio_gpu_ctrl_hdr::lemma_parse_iff(w, 0, hdr);
            },
            _ => {
                assert(w.subrange(0, 24) =~= hdr.wire());
            },
        }
        virtio_gpu_ctrl_hdr::lemma_parse_iff(w, 0, hdr);
        assert(virtio_gpu_ctrl_hdr::parse_at(w, 0).type_ == hdr.type_);
    }
}

/// The sixteen display modes of a display-info response for `displays`.
fn display_modes(displays: &Vec<(u32, u32)>) -> (pmodes: [virtio_gpu_display_one; 16])
    requires
        displays@.len() <= VIRTIO_GPU_MAX_SCANOUTS,
    ensures
        forall|j: int| 0 <= j < 16 ==> pmodes@[j] == display_mode(displays@, j),
{
    broadcast use vstd::array::group_array_axioms;

    let none = virtio_gpu_display_one {
        r: virtio_gpu_rect { x: 0, y: 0, width: 0, height: 0 },
        enabled: 0,
        flags: 0,
    };
    let mut pmodes: [virtio_gpu_display_one; 16] = [none;16];
    let mut i: usize = 0;
    while i < displays.len()
        invariant
            i <= displays@.len() <= 16,
            forall|j: int| 0 <= j < i ==> pmodes@[j] == display_mode(displays@, j),
            forall|j: int| i <= j < 16 ==> pmodes@[j] == no_display(),
        decreases displays.len() - i,
    {
        let (width, height) = displays[i];
        pmodes[i] = virtio_gpu_display_one {
            r: virtio_gpu_rect { x: 0, y: 0, width, height },
            // enable the display
            enabled: 1,
            flags: 0,
        };
        i = i + 1;
    }
    pmodes
}

} // verus!
