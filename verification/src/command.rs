//! Commands: which record each opcode stands for, and how a command is read from guest
//! memory.

use vstd::prelude::*;
use vm_memory::GuestAddress;
use vm_memory::GuestMemoryError;
use vm_memory::GuestMemoryMmap;
use crate::bytes::get_u32;
use crate::bytes::u32_at;
use crate::guest_memory::read_guest;
use crate::protocol::lemma_parse_wire;
use crate::protocol::lemma_wire_parse;
use crate::protocol::WireRecord;
use crate::protocol::virtio_gpu_cmd_get_edid;
use crate::protocol::virtio_gpu_cmd_submit;
use crate::protocol::virtio_gpu_ctrl_hdr;
use crate::protocol::virtio_gpu_ctx_create;
use crate::protocol::virtio_gpu_ctx_destroy;
use crate::protocol::virtio_gpu_ctx_resource;
use crate::protocol::virtio_gpu_get_capset;
use crate::protocol::virtio_gpu_get_capset_info;
use crate::protocol::virtio_gpu_resource_attach_backing;
use crate::protocol::virtio_gpu_resource_create_2d;
use crate::protocol::virtio_gpu_resource_create_3d;
use crate::protocol::virtio_gpu_resource_detach_backing;
use crate::protocol::virtio_gpu_resource_flush;
use crate::protocol::virtio_gpu_resource_unref;
use crate::protocol::virtio_gpu_set_scanout;
use crate::protocol::virtio_gpu_transfer_host_3d;
use crate::protocol::virtio_gpu_transfer_to_host_2d;
use crate::protocol::virtio_gpu_update_cursor;
use crate::protocol::VIRTIO_GPU_CMD_CTX_ATTACH_RESOURCE;
use crate::protocol::VIRTIO_GPU_CMD_CTX_CREATE;
use crate::protocol::VIRTIO_GPU_CMD_CTX_DESTROY;
use crate::protocol::VIRTIO_GPU_CMD_CTX_DETACH_RESOURCE;
use crate::protocol::VIRTIO_GPU_CMD_GET_CAPSET;
use crate::protocol::VIRTIO_GPU_CMD_GET_CAPSET_INFO;
use crate::protocol::VIRTIO_GPU_CMD_GET_DISPLAY_INFO;
use crate::protocol::VIRTIO_GPU_CMD_GET_EDID;
use crate::protocol::VIRTIO_GPU_CMD_MOVE_CURSOR;
use crate::protocol::VIRTIO_GPU_CMD_RESOURCE_ATTACH_BACKING;
use crate::protocol::VIRTIO_GPU_CMD_RESOURCE_CREATE_2D;
use crate::protocol::VIRTIO_GPU_CMD_RESOURCE_CREATE_3D;
use crate::protocol::VIRTIO_GPU_CMD_RESOURCE_DETACH_BACKING;
use crate::protocol::VIRTIO_GPU_CMD_RESOURCE_FLUSH;
use crate::protocol::VIRTIO_GPU_CMD_RESOURCE_UNREF;
use crate::protocol::VIRTIO_GPU_CMD_SET_SCANOUT;
use crate::protocol::VIRTIO_GPU_CMD_SUBMIT_3D;
use crate::protocol::VIRTIO_GPU_CMD_TRANSFER_FROM_HOST_3D;
use crate::protocol::VIRTIO_GPU_CMD_TRANSFER_TO_HOST_2D;
use crate::protocol::VIRTIO_GPU_CMD_TRANSFER_TO_HOST_3D;
use crate::protocol::VIRTIO_GPU_CMD_UPDATE_CURSOR;

verus! {

/// Why a command could not be decoded.
#[derive(Debug)]
pub enum VirtioGpuCommandDecodeError {
    /// The header's `type` is no opcode of the protocol.
    InvalidCommand(u32),
    /// Guest memory could not be read.
    ParserError(GuestMemoryError),
}

impl From<GuestMemoryError> for VirtioGpuCommandDecodeError {
    fn from(e: GuestMemoryError) -> (r: Self) {
        VirtioGpuCommandDecodeError::ParserError(e)
    }
}

impl vstd::std_specs::convert::FromSpecImpl<GuestMemoryError> for VirtioGpuCommandDecodeError {
    open spec fn obeys_from_spec() -> bool {
        true
    }

    open spec fn from_spec(e: GuestMemoryError) -> Self {
        VirtioGpuCommandDecodeError::ParserError(e)
    }
}

/// A command of the guest: one variant for each opcode, with the opcode's record.
#[derive(Debug, Clone, Copy)]
pub enum VirtioGpuCommand {
    // 2D commands
    CmdGetDisplayInfo(virtio_gpu_ctrl_hdr),
    CmdResourceCreate2D(virtio_gpu_resource_create_2d),
    CmdResourceUnref(virtio_gpu_resource_unref),
    CmdSetScanout(virtio_gpu_set_scanout),
    CmdResourceFlush(virtio_gpu_resource_flush),
    CmdTransferToHost2D(virtio_gpu_transfer_to_host_2d),
    CmdResourceAttachBacking(virtio_gpu_resource_attach_backing),
    CmdResourceDetachBacking(virtio_gpu_resource_detach_backing),
    CmdGetCapsetInfo(virtio_gpu_get_capset_info),
    CmdGetCapset(virtio_gpu_get_capset),
    CmdGetEdid(virtio_gpu_cmd_get_edid),
    // 3D commands
    CmdCtxCreate(virtio_gpu_ctx_create),
    CmdCtxDestroy(virtio_gpu_ctx_destroy),
    CmdCtxAttachResource(virtio_gpu_ctx_resource),
    CmdCtxDetachResource(virtio_gpu_ctx_resource),
    CmdResourceCreate3D(virtio_gpu_resource_create_3d),
    CmdTransferToHost3D(virtio_gpu_transfer_host_3d),
    CmdTransferFromHost3D(virtio_gpu_transfer_host_3d),
    CmdSubmit3D(virtio_gpu_cmd_submit),
    // Cursor commands
    CmdUpdateCursor(virtio_gpu_update_cursor),
    CmdMoveCursor(virtio_gpu_update_cursor),
}

pub type VirtioGpuCommandResult = Result<VirtioGpuCommand, VirtioGpuCommandDecodeError>;

impl VirtioGpuCommand {
    /// The opcode that selects this variant.
    pub open spec fn opcode(self) -> u32 {
        match self {
            VirtioGpuCommand::CmdGetDisplayInfo(_) => VIRTIO_GPU_CMD_GET_DISPLAY_INFO,
            VirtioGpuCommand::CmdResourceCreate2D(_) => VIRTIO_GPU_CMD_RESOURCE_CREATE_2D,
            VirtioGpuCommand::CmdResourceUnref(_) => VIRTIO_GPU_CMD_RESOURCE_UNREF,
            VirtioGpuCommand::CmdSetScanout(_) => VIRTIO_GPU_CMD_SET_SCANOUT,
            VirtioGpuCommand::CmdResourceFlush(_) => VIRTIO_GPU_CMD_RESOURCE_FLUSH,
            VirtioGpuCommand::CmdTransferToHost2D(_) => VIRTIO_GPU_CMD_TRANSFER_TO_HOST_2D,
            VirtioGpuCommand::CmdResourceAttachBacking(_) => VIRTIO_GPU_CMD_RESOURCE_ATTACH_BACKING,
            VirtioGpuCommand::CmdResourceDetachBacking(_) => VIRTIO_GPU_CMD_RESOURCE_DETACH_BACKING,
            VirtioGpuCommand::CmdGetCapsetInfo(_) => VIRTIO_GPU_CMD_GET_CAPSET_INFO,
            VirtioGpuCommand::CmdGetCapset(_) => VIRTIO_GPU_CMD_GET_CAPSET,
            VirtioGpuCommand::CmdGetEdid(_) => VIRTIO_GPU_CMD_GET_EDID,
            VirtioGpuCommand::CmdCtxCreate(_) => VIRTIO_GPU_CMD_CTX_CREATE,
            VirtioGpuCommand::CmdCtxDestroy(_) => VIRTIO_GPU_CMD_CTX_DESTROY,
            VirtioGpuCommand::CmdCtxAttachResource(_) => VIRTIO_GPU_CMD_CTX_ATTACH_RESOURCE,
            VirtioGpuCommand::CmdCtxDetachResource(_) => VIRTIO_GPU_CMD_CTX_DETACH_RESOURCE,
            VirtioGpuCommand::CmdResourceCreate3D(_) => VIRTIO_GPU_CMD_RESOURCE_CREATE_3D,
            VirtioGpuCommand::CmdTransferToHost3D(_) => VIRTIO_GPU_CMD_TRANSFER_TO_HOST_3D,
            VirtioGpuCommand::CmdTransferFromHost3D(_) => VIRTIO_GPU_CMD_TRANSFER_FROM_HOST_3D,
            VirtioGpuCommand::CmdSubmit3D(_) => VIRTIO_GPU_CMD_SUBMIT_3D,
            VirtioGpuCommand::CmdUpdateCursor(_) => VIRTIO_GPU_CMD_UPDATE_CURSOR,
            VirtioGpuCommand::CmdMoveCursor(_) => VIRTIO_GPU_CMD_MOVE_CURSOR,
        }
    }

    /// The header at the front of the command's record.
    pub open spec fn hdr(self) -> virtio_gpu_ctrl_hdr {
        match self {
            VirtioGpuCommand::CmdGetDisplayInfo(c) => c,
            VirtioGpuCommand::CmdResourceCreate2D(c) => c.hdr,
            VirtioGpuCommand::CmdResourceUnref(c) => c.hdr,
            VirtioGpuCommand::CmdSetScanout(c) => c.hdr,
            VirtioGpuCommand::CmdResourceFlush(c) => c.hdr,
            VirtioGpuCommand::CmdTransferToHost2D(c) => c.hdr,
            VirtioGpuCommand::CmdResourceAttachBacking(c) => c.hdr,
            VirtioGpuCommand::CmdResourceDetachBacking(c) => c.hdr,
            VirtioGpuCommand::CmdGetCapsetInfo(c) => c.hdr,
            VirtioGpuCommand::CmdGetCapset(c) => c.hdr,
            VirtioGpuCommand::CmdGetEdid(c) => c.hdr,
            VirtioGpuCommand::CmdCtxCreate(c) => c.hdr,
            VirtioGpuCommand::CmdCtxDestroy(c) => c.hdr,
            VirtioGpuCommand::CmdCtxAttachResource(c) => c.hdr,
            VirtioGpuCommand::CmdCtxDetachResource(c) => c.hdr,
            VirtioGpuCommand::CmdResourceCreate3D(c) => c.hdr,
            VirtioGpuCommand::CmdTransferToHost3D(c) => c.hdr,
            VirtioGpuCommand::CmdTransferFromHost3D(c) => c.hdr,
            VirtioGpuCommand::CmdSubmit3D(c) => c.hdr,
            VirtioGpuCommand::CmdUpdateCursor(c) => c.hdr,
            VirtioGpuCommand::CmdMoveCursor(c) => c.hdr,
        }
    }

    /// The bytes of the command's record.
    pub open spec fn wire(self) -> Seq<u8> {
        match self {
            VirtioGpuCommand::CmdGetDisplayInfo(c) => c.wire(),
            VirtioGpuCommand::CmdResourceCreate2D(c) => c.wire(),
            VirtioGpuCommand::CmdResourceUnref(c) => c.wire(),
            VirtioGpuCommand::CmdSetScanout(c) => c.wire(),
            VirtioGpuCommand::CmdResourceFlush(c) => c.wire(),
            VirtioGpuCommand::CmdTransferToHost2D(c) => c.wire(),
            VirtioGpuCommand::CmdResourceAttachBacking(c) => c.wire(),
            VirtioGpuCommand::CmdResourceDetachBacking(c) => c.wire(),
            VirtioGpuCommand::CmdGetCapsetInfo(c) => c.wire(),
            VirtioGpuCommand::CmdGetCapset(c) => c.wire(),
            VirtioGpuCommand::CmdGetEdid(c) => c.wire(),
            VirtioGpuCommand::CmdCtxCreate(c) => c.wire(),
            VirtioGpuCommand::CmdCtxDestroy(c) => c.wire(),
            VirtioGpuCommand::CmdCtxAttachResource(c) => c.wire(),
            VirtioGpuCommand::CmdCtxDetachResource(c) => c.wire(),
            VirtioGpuCommand::CmdResourceCreate3D(c) => c.wire(),
            VirtioGpuCommand::CmdTransferToHost3D(c) => c.wire(),
            VirtioGpuCommand::CmdTransferFromHost3D(c) => c.wire(),
            VirtioGpuCommand::CmdSubmit3D(c) => c.wire(),
            VirtioGpuCommand::CmdUpdateCursor(c) => c.wire(),
            VirtioGpuCommand::CmdMoveCursor(c) => c.wire(),
        }
    }

    /// The number of bytes that the record of opcode `type_` takes, where `type_` is an opcode.
    pub open spec fn wire_len_of(type_: u32) -> Option<nat> {
        if type_ == VIRTIO_GPU_CMD_GET_DISPLAY_INFO {
            Some(virtio_gpu_ctrl_hdr::wire_len())
        } else if type_ == VIRTIO_GPU_CMD_RESOURCE_CREATE_2D {
            Some(virtio_gpu_resource_create_2d::wire_len())
        } else if type_ == VIRTIO_GPU_CMD_RESOURCE_UNREF {
            Some(virtio_gpu_resource_unref::wire_len())
        } else if type_ == VIRTIO_GPU_CMD_SET_SCANOUT {
            Some(virtio_gpu_set_scanout::wire_len())
        } else if type_ == VIRTIO_GPU_CMD_RESOURCE_FLUSH {
            Some(virtio_gpu_resource_flush::wire_len())
        } else if type_ == VIRTIO_GPU_CMD_TRANSFER_TO_HOST_2D {
            Some(virtio_gpu_transfer_to_host_2d::wire_len())
        } else if type_ == VIRTIO_GPU_CMD_RESOURCE_ATTACH_BACKING {
            Some(virtio_gpu_resource_attach_backing::wire_len())
        } else if type_ == VIRTIO_GPU_CMD_RESOURCE_DETACH_BACKING {
            Some(virtio_gpu_resource_detach_backing::wire_len())
        } else if type_ == VIRTIO_GPU_CMD_GET_CAPSET_INFO {
            Some(virtio_gpu_get_capset_info::wire_len())
        } else if type_ == VIRTIO_GPU_CMD_GET_CAPSET {
            Some(virtio_gpu_get_capset::wire_len())
        } else if type_ == VIRTIO_GPU_CMD_GET_EDID {
            Some(virtio_gpu_cmd_get_edid::wire_len())
        } else if type_ == VIRTIO_GPU_CMD_CTX_CREATE {
            Some(virtio_gpu_ctx_create::wire_len())
        } else if type_ == VIRTIO_GPU_CMD_CTX_DESTROY {
            Some(virtio_gpu_ctx_destroy::wire_len())
        } else if type_ == VIRTIO_GPU_CMD_CTX_ATTACH_RESOURCE {
            Some(virtio_gpu_ctx_resource::wire_len())
        } else if type_ == VIRTIO_GPU_CMD_CTX_DETACH_RESOURCE {
            Some(virtio_gpu_ctx_resource::wire_len())
        } else if type_ == VIRTIO_GPU_CMD_RESOURCE_CREATE_3D {
            Some(virtio_gpu_resource_create_3d::wire_len())
        } else if type_ == VIRTIO_GPU_CMD_TRANSFER_TO_HOST_3D {
            Some(virtio_gpu_transfer_host_3d::wire_len())
        } else if type_ == VIRTIO_GPU_CMD_TRANSFER_FROM_HOST_3D {
            Some(virtio_gpu_transfer_host_3d::wire_len())
        } else if type_ == VIRTIO_GPU_CMD_SUBMIT_3D {
            Some(virtio_gpu_cmd_submit::wire_len())
        } else if type_ == VIRTIO_GPU_CMD_UPDATE_CURSOR {
            Some(virtio_gpu_update_cursor::wire_len())
        } else if type_ == VIRTIO_GPU_CMD_MOVE_CURSOR {
            Some(virtio_gpu_update_cursor::wire_len())
        } else {
            None
        }
    }

    /// The command of opcode `type_` that the bytes `b` stand for. An opcode has one variant,
    /// whatever the `type` of the header in `b` says.
    pub open spec fn parse(type_: u32, b: Seq<u8>) -> VirtioGpuCommand
        recommends
            Self::wire_len_of(type_) == Some(b.len()),
    {
        if type_ == VIRTIO_GPU_CMD_GET_DISPLAY_INFO {
            VirtioGpuCommand::CmdGetDisplayInfo(virtio_gpu_ctrl_hdr::parse_at(b, 0))
        } else if type_ == VIRTIO_GPU_CMD_RESOURCE_CREATE_2D {
            VirtioGpuCommand::CmdResourceCreate2D(virtio_gpu_resource_create_2d::parse_at(b, 0))
        } else if type_ == VIRTIO_GPU_CMD_RESOURCE_UNREF {
            VirtioGpuCommand::CmdResourceUnref(virtio_gpu_resource_unref::parse_at(b, 0))
        } else if type_ == VIRTIO_GPU_CMD_SET_SCANOUT {
            VirtioGpuCommand::CmdSetScanout(virtio_gpu_set_scanout::parse_at(b, 0))
        } else if type_ == VIRTIO_GPU_CMD_RESOURCE_FLUSH {
            VirtioGpuCommand::CmdResourceFlush(virtio_gpu_resource_flush::parse_at(b, 0))
        } else if type_ == VIRTIO_GPU_CMD_TRANSFER_TO_HOST_2D {
            VirtioGpuCommand::CmdTransferToHost2D(virtio_gpu_transfer_to_host_2d::parse_at(b, 0))
        } else if type_ == VIRTIO_GPU_CMD_RESOURCE_ATTACH_BACKING {
            VirtioGpuCommand::CmdResourceAttachBacking(
                virtio_gpu_resource_attach_backing::parse_at(b, 0),
            )
        } else if type_ == VIRTIO_GPU_CMD_RESOURCE_DETACH_BACKING {
            VirtioGpuCommand::CmdResourceDetachBacking(
                virtio_gpu_resource_detach_backing::parse_at(b, 0),
            )
        } else if type_ == VIRTIO_GPU_CMD_GET_CAPSET_INFO {
            VirtioGpuCommand::CmdGetCapsetInfo(virtio_gpu_get_capset_info::parse_at(b, 0))
        } else if type_ == VIRTIO_GPU_CMD_GET_CAPSET {
            VirtioGpuCommand::CmdGetCapset(virtio_gpu_get_capset::parse_at(b, 0))
        } else if type_ == VIRTIO_GPU_CMD_GET_EDID {
            VirtioGpuCommand::CmdGetEdid(virtio_gpu_cmd_get_edid::parse_at(b, 0))
        } else if type_ == VIRTIO_GPU_CMD_CTX_CREATE {
            VirtioGpuCommand::CmdCtxCreate(virtio_gpu_ctx_create::parse_at(b, 0))
        } else if type_ == VIRTIO_GPU_CMD_CTX_DESTROY {
            VirtioGpuCommand::CmdCtxDestroy(virtio_gpu_ctx_destroy::parse_at(b, 0))
        } else if type_ == VIRTIO_GPU_CMD_CTX_ATTACH_RESOURCE {
            VirtioGpuCommand::CmdCtxAttachResource(virtio_gpu_ctx_resource::parse_at(b, 0))
        } else if type_ == VIRTIO_GPU_CMD_CTX_DETACH_RESOURCE {
            VirtioGpuCommand::CmdCtxDetachResource(virtio_gpu_ctx_resource::parse_at(b, 0))
        } else if type_ == VIRTIO_GPU_CMD_RESOURCE_CREATE_3D {
            VirtioGpuCommand::CmdResourceCreate3D(virtio_gpu_resource_create_3d::parse_at(b, 0))
        } else if type_ == VIRTIO_GPU_CMD_TRANSFER_TO_HOST_3D {
            VirtioGpuCommand::CmdTransferToHost3D(virtio_gpu_transfer_host_3d::parse_at(b, 0))
        } else if type_ == VIRTIO_GPU_CMD_TRANSFER_FROM_HOST_3D {
            VirtioGpuCommand::CmdTransferFromHost3D(virtio_gpu_transfer_host_3d::parse_at(b, 0))
        } else if type_ == VIRTIO_GPU_CMD_SUBMIT_3D {
            VirtioGpuCommand::CmdSubmit3D(virtio_gpu_cmd_submit::parse_at(b, 0))
        } else if type_ == VIRTIO_GPU_CMD_UPDATE_CURSOR {
            VirtioGpuCommand::CmdUpdateCursor(virtio_gpu_update_cursor::parse_at(b, 0))
        } else {
            VirtioGpuCommand::CmdMoveCursor(virtio_gpu_update_cursor::parse_at(b, 0))
        }
    }

    /// What `decode` returns for what the two reads of guest memory gave: `header`, the
    /// 24 bytes of the header, and `payload`, the bytes of the whole record, read at the same
    /// address once the header has named the opcode.
    pub open spec fn decode_of(
        header: Result<Seq<u8>, GuestMemoryError>,
        payload: Result<Seq<u8>, GuestMemoryError>,
    ) -> VirtioGpuCommandResult {
        match header {
            Err(e) => Err(VirtioGpuCommandDecodeError::ParserError(e)),
            Ok(h) => {
                let type_ = u32_at(h, 0);
                if Self::wire_len_of(type_) is None {
                    Err(VirtioGpuCommandDecodeError::InvalidCommand(type_))
                } else {
                    match payload {
                        Err(e) => Err(VirtioGpuCommandDecodeError::ParserError(e)),
                        Ok(p) => Ok(Self::parse(type_, p)),
                    }
                }
            },
        }
    }

    /// The number of bytes that the command's record takes.
    pub fn size(&self) -> (n: usize)
        ensures
            n == self.wire().len(),
            Self::wire_len_of(self.opcode()) == Some(n as nat),
    {
        proof {
            self.lemma_wire_len();
        }
        match self {
            VirtioGpuCommand::CmdGetDisplayInfo(_) => virtio_gpu_ctrl_hdr::size(),
            VirtioGpuCommand::CmdResourceCreate2D(_) => virtio_gpu_resource_create_2d::size(),
            VirtioGpuCommand::CmdResourceUnref(_) => virtio_gpu_resource_unref::size(),
            VirtioGpuCommand::CmdSetScanout(_) => virtio_gpu_set_scanout::size(),
            VirtioGpuCommand::CmdResourceFlush(_) => virtio_gpu_resource_flush::size(),
            VirtioGpuCommand::CmdTransferToHost2D(_) => virtio_gpu_transfer_to_host_2d::size(),
            VirtioGpuCommand::CmdResourceAttachBacking(_) => {
                virtio_gpu_resource_attach_backing::size()
            },
            VirtioGpuCommand::CmdResourceDetachBacking(_) => {
                virtio_gpu_resource_detach_backing::size()
            },
            VirtioGpuCommand::CmdGetCapsetInfo(_) => virtio_gpu_get_capset_info::size(),
            VirtioGpuCommand::CmdGetCapset(_) => virtio_gpu_get_capset::size(),
            VirtioGpuCommand::CmdGetEdid(_) => virtio_gpu_cmd_get_edid::size(),
            VirtioGpuCommand::CmdCtxCreate(_) => virtio_gpu_ctx_create::size(),
            VirtioGpuCommand::CmdCtxDestroy(_) => virtio_gpu_ctx_destroy::size(),
            VirtioGpuCommand::CmdCtxAttachResource(_) => virtio_gpu_ctx_resource::size(),
            VirtioGpuCommand::CmdCtxDetachResource(_) => virtio_gpu_ctx_resource::size(),
            VirtioGpuCommand::CmdResourceCreate3D(_) => virtio_gpu_resource_create_3d::size(),
            VirtioGpuCommand::CmdTransferToHost3D(_) => virtio_gpu_transfer_host_3d::size(),
            VirtioGpuCommand::CmdTransferFromHost3D(_) => virtio_gpu_transfer_host_3d::size(),
            VirtioGpuCommand::CmdSubmit3D(_) => virtio_gpu_cmd_submit::size(),
            VirtioGpuCommand::CmdUpdateCursor(_) => virtio_gpu_update_cursor::size(),
            VirtioGpuCommand::CmdMoveCursor(_) => virtio_gpu_update_cursor::size(),
        }
    }

    /// The number of bytes that the record of opcode `type_` takes, or `None` where `type_` is
    /// no opcode.
    pub fn size_of_type(type_: u32) -> (n: Option<usize>)
        ensures
            n matches Some(k) ==> Self::wire_len_of(type_) == Some(k as nat),
            n is None ==> Self::wire_len_of(type_) is None,
    {
        if type_ == VIRTIO_GPU_CMD_GET_DISPLAY_INFO {
            Some(virtio_gpu_ctrl_hdr::size())
        } else if type_ == VIRTIO_GPU_CMD_RESOURCE_CREATE_2D {
            Some(virtio_gpu_resource_create_2d::size())
        } else if type_ == VIRTIO_GPU_CMD_RESOURCE_UNREF {
            Some(virtio_gpu_resource_unref::size())
        } else if type_ == VIRTIO_GPU_CMD_SET_SCANOUT {
            Some(virtio_gpu_set_scanout::size())
        } else if type_ == VIRTIO_GPU_CMD_RESOURCE_FLUSH {
            Some(virtio_gpu_resource_flush::size())
        } else if type_ == VIRTIO_GPU_CMD_TRANSFER_TO_HOST_2D {
            Some(virtio_gpu_transfer_to_host_2d::size())
        } else if type_ == VIRTIO_GPU_CMD_RESOURCE_ATTACH_BACKING {
            Some(virtio_gpu_resource_attach_backing::size())
        } else if type_ == VIRTIO_GPU_CMD_RESOURCE_DETACH_BACKING {
            Some(virtio_gpu_resource_detach_backing::size())
        } else if type_ == VIRTIO_GPU_CMD_GET_CAPSET_INFO {
            Some(virtio_gpu_get_capset_info::size())
        } else if type_ == VIRTIO_GPU_CMD_GET_CAPSET {
            Some(virtio_gpu_get_capset::size())
        } else if type_ == VIRTIO_GPU_CMD_GET_EDID {
            Some(virtio_gpu_cmd_get_edid::size())
        } else if type_ == VIRTIO_GPU_CMD_CTX_CREATE {
            Some(virtio_gpu_ctx_create::size())
        } else if type_ == VIRTIO_GPU_CMD_CTX_DESTROY {
            Some(virtio_gpu_ctx_destroy::size())
        } else if type_ == VIRTIO_GPU_CMD_CTX_ATTACH_RESOURCE {
            Some(virtio_gpu_ctx_resource::size())
        } else if type_ == VIRTIO_GPU_CMD_CTX_DETACH_RESOURCE {
            Some(virtio_gpu_ctx_resource::size())
        } else if type_ == VIRTIO_GPU_CMD_RESOURCE_CREATE_3D {
            Some(virtio_gpu_resource_create_3d::size())
        } else if type_ == VIRTIO_GPU_CMD_TRANSFER_TO_HOST_3D {
            Some(virtio_gpu_transfer_host_3d::size())
        } else if type_ == VIRTIO_GPU_CMD_TRANSFER_FROM_HOST_3D {
            Some(virtio_gpu_transfer_host_3d::size())
        } else if type_ == VIRTIO_GPU_CMD_SUBMIT_3D {
            Some(virtio_gpu_cmd_submit::size())
        } else if type_ == VIRTIO_GPU_CMD_UPDATE_CURSOR {
            Some(virtio_gpu_update_cursor::size())
        } else if type_ == VIRTIO_GPU_CMD_MOVE_CURSOR {
            Some(virtio_gpu_update_cursor::size())
        } else {
            None
        }
    }

    /// The command of opcode `type_` that `bytes` stand for: `None` where `type_` is no opcode
    /// or `bytes` are not as many as its record takes.
    pub fn from_slice(type_: u32, bytes: &[u8]) -> (r: Option<VirtioGpuCommand>)
        ensures
            r == if Self::wire_len_of(type_) == Some(bytes@.len()) {
                Some(Self::parse(type_, bytes@))
            } else {
                None
            },
    {
        match Self::size_of_type(type_) {
            None => None,
            Some(n) => {
                if bytes.len() == n {
                    Some(Self::read_as(type_, bytes))
                } else {
                    None
                }
            },
        }
    }

    /// Reads the record of opcode `type_` from `bytes`.
    fn read_as(type_: u32, bytes: &[u8]) -> (c: VirtioGpuCommand)
        requires
            Self::wire_len_of(type_) == Some(bytes@.len()),
        ensures
            c == Self::parse(type_, bytes@),
    {
        if type_ == VIRTIO_GPU_CMD_GET_DISPLAY_INFO {
            VirtioGpuCommand::CmdGetDisplayInfo(virtio_gpu_ctrl_hdr::read_from(bytes, 0))
        } else if type_ == VIRTIO_GPU_CMD_RESOURCE_CREATE_2D {
            VirtioGpuCommand::CmdResourceCreate2D(
                virtio_gpu_resource_create_2d::read_from(bytes, 0),
            )
        } else if type_ == VIRTIO_GPU_CMD_RESOURCE_UNREF {
            VirtioGpuCommand::CmdResourceUnref(virtio_gpu_resource_unref::read_from(bytes, 0))
        } else if type_ == VIRTIO_GPU_CMD_SET_SCANOUT {
            VirtioGpuCommand::CmdSetScanout(virtio_gpu_set_scanout::read_from(bytes, 0))
        } else if type_ == VIRTIO_GPU_CMD_RESOURCE_FLUSH {
            VirtioGpuCommand::CmdResourceFlush(virtio_gpu_resource_flush::read_from(bytes, 0))
        } else if type_ == VIRTIO_GPU_CMD_TRANSFER_TO_HOST_2D {
            VirtioGpuCommand::CmdTransferToHost2D(
                virtio_gpu_transfer_to_host_2d::read_from(bytes, 0),
            )
        } else if type_ == VIRTIO_GPU_CMD_RESOURCE_ATTACH_BACKING {
            VirtioGpuCommand::CmdResourceAttachBacking(
                virtio_gpu_resource_attach_backing::read_from(bytes, 0),
            )
        } else if type_ == VIRTIO_GPU_CMD_RESOURCE_DETACH_BACKING {
            VirtioGpuCommand::CmdResourceDetachBacking(
                virtio_gpu_resource_detach_backing::read_from(bytes, 0),
            )
        } else if type_ == VIRTIO_GPU_CMD_GET_CAPSET_INFO {
            VirtioGpuCommand::CmdGetCapsetInfo(virtio_gpu_get_capset_info::read_from(bytes, 0))
        } else if type_ == VIRTIO_GPU_CMD_GET_CAPSET {
            VirtioGpuCommand::CmdGetCapset(virtio_gpu_get_capset::read_from(bytes, 0))
        } else if type_ == VIRTIO_GPU_CMD_GET_EDID {
            VirtioGpuCommand::CmdGetEdid(virtio_gpu_cmd_get_edid::read_from(bytes, 0))
        } else if type_ == VIRTIO_GPU_CMD_CTX_CREATE {
            VirtioGpuCommand::CmdCtxCreate(virtio_gpu_ctx_create::read_from(bytes, 0))
        } else if type_ == VIRTIO_GPU_CMD_CTX_DESTROY {
            VirtioGpuCommand::CmdCtxDestroy(virtio_gpu_ctx_destroy::read_from(bytes, 0))
        } else if type_ == VIRTIO_GPU_CMD_CTX_ATTACH_RESOURCE {
            VirtioGpuCommand::CmdCtxAttachResource(virtio_gpu_ctx_resource::read_from(bytes, 0))
        } else if type_ == VIRTIO_GPU_CMD_CTX_DETACH_RESOURCE {
            VirtioGpuCommand::CmdCtxDetachResource(virtio_gpu_ctx_resource::read_from(bytes, 0))
        } else if type_ == VIRTIO_GPU_CMD_RESOURCE_CREATE_3D {
            VirtioGpuCommand::CmdResourceCreate3D(
                virtio_gpu_resource_create_3d::read_from(bytes, 0),
            )
        } else if type_ == VIRTIO_GPU_CMD_TRANSFER_TO_HOST_3D {
            VirtioGpuCommand::CmdTransferToHost3D(virtio_gpu_transfer_host_3d::read_from(bytes, 0))
        } else if type_ == VIRTIO_GPU_CMD_TRANSFER_FROM_HOST_3D {
            VirtioGpuCommand::CmdTransferFromHost3D(
                virtio_gpu_transfer_host_3d::read_from(bytes, 0),
            )
        } else if type_ == VIRTIO_GPU_CMD_SUBMIT_3D {
            VirtioGpuCommand::CmdSubmit3D(virtio_gpu_cmd_submit::read_from(bytes, 0))
        } else if type_ == VIRTIO_GPU_CMD_UPDATE_CURSOR {
            VirtioGpuCommand::CmdUpdateCursor(virtio_gpu_update_cursor::read_from(bytes, 0))
        } else {
            VirtioGpuCommand::CmdMoveCursor(virtio_gpu_update_cursor::read_from(bytes, 0))
        }
    }

    /// The bytes of the command's record.
    pub fn to_bytes(&self) -> (out: Vec<u8>)
        ensures
            out@ == self.wire(),
    {
        match self {
            VirtioGpuCommand::CmdGetDisplayInfo(c) => c.to_bytes(),
            VirtioGpuCommand::CmdResourceCreate2D(c) => c.to_bytes(),
            VirtioGpuCommand::CmdResourceUnref(c) => c.to_bytes(),
            VirtioGpuCommand::CmdSetScanout(c) => c.to_bytes(),
            VirtioGpuCommand::CmdResourceFlush(c) => c.to_bytes(),
            VirtioGpuCommand::CmdTransferToHost2D(c) => c.to_bytes(),
            VirtioGpuCommand::CmdResourceAttachBacking(c) => c.to_bytes(),
            VirtioGpuCommand::CmdResourceDetachBacking(c) => c.to_bytes(),
            VirtioGpuCommand::CmdGetCapsetInfo(c) => c.to_bytes(),
            VirtioGpuCommand::CmdGetCapset(c) => c.to_bytes(),
            VirtioGpuCommand::CmdGetEdid(c) => c.to_bytes(),
            VirtioGpuCommand::CmdCtxCreate(c) => c.to_bytes(),
            VirtioGpuCommand::CmdCtxDestroy(c) => c.to_bytes(),
            VirtioGpuCommand::CmdCtxAttachResource(c) => c.to_bytes(),
            VirtioGpuCommand::CmdCtxDetachResource(c) => c.to_bytes(),
            VirtioGpuCommand::CmdResourceCreate3D(c) => c.to_bytes(),
            VirtioGpuCommand::CmdTransferToHost3D(c) => c.to_bytes(),
            VirtioGpuCommand::CmdTransferFromHost3D(c) => c.to_bytes(),
            VirtioGpuCommand::CmdSubmit3D(c) => c.to_bytes(),
            VirtioGpuCommand::CmdUpdateCursor(c) => c.to_bytes(),
            VirtioGpuCommand::CmdMoveCursor(c) => c.to_bytes(),
        }
    }

    /// Reads the command that stands at `addr` in the guest's memory: first its header, then,
    /// at the same address, the whole record of the opcode that the header names.
    ///
    /// The guest decides what the two reads give, so the result is stated for every outcome of
    /// them: it is `decode_of` of what they gave. In particular a header whose `type` is no
    /// opcode gives `InvalidCommand` with that `type`, and nothing more is read.
    pub fn decode(cmd: &GuestMemoryMmap, addr: GuestAddress) -> (r: VirtioGpuCommandResult)
        ensures
            exists|header: Result<Seq<u8>, GuestMemoryError>, payload: Result<Seq<u8>, GuestMemoryError>|
                {
                    &&& header matches Ok(h) ==> h.len() == virtio_gpu_ctrl_hdr::wire_len()
                    &&& payload matches Ok(p) ==> header matches Ok(h) && Self::wire_len_of(
                        u32_at(h, 0),
                    ) == Some(p.len())
                    &&& r == #[trigger] Self::decode_of(header, payload)
                },
            r matches Err(VirtioGpuCommandDecodeError::InvalidCommand(t)) ==> Self::wire_len_of(t)
                is None,
            r matches Ok(c) ==> Self::wire_len_of(c.opcode()) == Some(c.wire().len()),
    {
        let header = read_guest(cmd, addr, virtio_gpu_ctrl_hdr::size());
        let hdr_bytes = match header {
            Ok(v) => v,
            Err(e) => {
                let r = Err(VirtioGpuCommandDecodeError::from(e));
                proof {
                    let h: Result<Seq<u8>, GuestMemoryError> = Err(e);
                    assert(r == Self::decode_of(h, h));
                }
                return r;
            },
        };
        let type_ = get_u32(hdr_bytes.as_slice(), 0);
        let n = match Self::size_of_type(type_) {
            Some(n) => n,
            None => {
                let r = Err(VirtioGpuCommandDecodeError::InvalidCommand(type_));
                proof {
                    let h: Result<Seq<u8>, GuestMemoryError> = Ok(hdr_bytes@);
                    assert(r == Self::decode_of(h, Err(arbitrary())));
                }
                return r;
            },
        };
        match read_guest(cmd, addr, n) {
            Err(e) => {
                let r = Err(VirtioGpuCommandDecodeError::from(e));
                proof {
                    let h: Result<Seq<u8>, GuestMemoryError> = Ok(hdr_bytes@);
                    assert(r == Self::decode_of(h, Err(e)));
                }
                r
            },
            Ok(payload) => {
                let c = Self::read_as(type_, payload.as_slice());
                proof {
                    let h: Result<Seq<u8>, GuestMemoryError> = Ok(hdr_bytes@);
                    assert(Ok::<VirtioGpuCommand, VirtioGpuCommandDecodeError>(c) == Self::decode_of(
                        h,
                        Ok(payload@),
                    ));
                    Self::lemma_parse_opcode(type_, payload@);
                    c.lemma_wire_len();
                }
                Ok(c)
            },
        }
    }

    /// A command's record takes as many bytes as its opcode says.
    pub proof fn lemma_wire_len(self)
        ensures
            Self::wire_len_of(self.opcode()) == Some(self.wire().len()),
    {
        match self {
            VirtioGpuCommand::CmdGetDisplayInfo(c) => c.lemma_wire_len(),
            VirtioGpuCommand::CmdResourceCreate2D(c) => c.lemma_wire_len(),
            VirtioGpuCommand::CmdResourceUnref(c) => c.lemma_wire_len(),
            VirtioGpuCommand::CmdSetScanout(c) => c.lemma_wire_len(),
            VirtioGpuCommand::CmdResourceFlush(c) => c.lemma_wire_len(),
            VirtioGpuCommand::CmdTransferToHost2D(c) => c.lemma_wire_len(),
            VirtioGpuCommand::CmdResourceAttachBacking(c) => c.lemma_wire_len(),
            VirtioGpuCommand::CmdResourceDetachBacking(c) => c.lemma_wire_len(),
            VirtioGpuCommand::CmdGetCapsetInfo(c) => c.lemma_wire_len(),
            VirtioGpuCommand::CmdGetCapset(c) => c.lemma_wire_len(),
            VirtioGpuCommand::CmdGetEdid(c) => c.lemma_wire_len(),
            VirtioGpuCommand::CmdCtxCreate(c) => c.lemma_wire_len(),
            VirtioGpuCommand::CmdCtxDestroy(c) => c.lemma_wire_len(),
            VirtioGpuCommand::CmdCtxAttachResource(c) => c.lemma_wire_len(),
            VirtioGpuCommand::CmdCtxDetachResource(c) => c.lemma_wire_len(),
            VirtioGpuCommand::CmdResourceCreate3D(c) => c.lemma_wire_len(),
            VirtioGpuCommand::CmdTransferToHost3D(c) => c.lemma_wire_len(),
            VirtioGpuCommand::CmdTransferFromHost3D(c) => c.lemma_wire_len(),
            VirtioGpuCommand::CmdSubmit3D(c) => c.lemma_wire_len(),
            VirtioGpuCommand::CmdUpdateCursor(c) => c.lemma_wire_len(),
            VirtioGpuCommand::CmdMoveCursor(c) => c.lemma_wire_len(),
        }
    }

    /// The command read for an opcode is of that opcode.
    pub proof fn lemma_parse_opcode(type_: u32, b: Seq<u8>)
        requires
            Self::wire_len_of(type_) is Some,
        ensures
            Self::parse(type_, b).opcode() == type_,
    {
    }

    /// Decoding, then encoding again, gives the bytes that were decoded: for every opcode and
    /// all bytes that are as many as its record takes.
    pub proof fn lemma_decode_then_encode(type_: u32, b: Seq<u8>)
        requires
            Self::wire_len_of(type_) == Some(b.len()),
        ensures
            Self::parse(type_, b).wire() == b,
    {
        if type_ == VIRTIO_GPU_CMD_GET_DISPLAY_INFO {
            lemma_wire_parse::<virtio_gpu_ctrl_hdr>(b);
        } else if type_ == VIRTIO_GPU_CMD_RESOURCE_CREATE_2D {
            lemma_wire_parse::<virtio_gpu_resource_create_2d>(b);
        } else if type_ == VIRTIO_GPU_CMD_RESOURCE_UNREF {
            lemma_wire_parse::<virtio_gpu_resource_unref>(b);
        } else if type_ == VIRTIO_GPU_CMD_SET_SCANOUT {
            lemma_wire_parse::<virtio_gpu_set_scanout>(b);
        } else if type_ == VIRTIO_GPU_CMD_RESOURCE_FLUSH {
            lemma_wire_parse::<virtio_gpu_resource_flush>(b);
        } else if type_ == VIRTIO_GPU_CMD_TRANSFER_TO_HOST_2D {
            lemma_wire_parse::<virtio_gpu_transfer_to_host_2d>(b);
        } else if type_ == VIRTIO_GPU_CMD_RESOURCE_ATTACH_BACKING {
            lemma_wire_parse::<virtio_gpu_resource_attach_backing>(b);
        } else if type_ == VIRTIO_GPU_CMD_RESOURCE_DETACH_BACKING {
            lemma_wire_parse::<virtio_gpu_resource_detach_backing>(b);
        } else if type_ == VIRTIO_GPU_CMD_GET_CAPSET_INFO {
            lemma_wire_parse::<virtio_gpu_get_capset_info>(b);
        } else if type_ == VIRTIO_GPU_CMD_GET_CAPSET {
            lemma_wire_parse::<virtio_gpu_get_capset>(b);
        } else if type_ == VIRTIO_GPU_CMD_GET_EDID {
            lemma_wire_parse::<virtio_gpu_cmd_get_edid>(b);
        } else if type_ == VIRTIO_GPU_CMD_CTX_CREATE {
            lemma_wire_parse::<virtio_gpu_ctx_create>(b);
        } else if type_ == VIRTIO_GPU_CMD_CTX_DESTROY {
            lemma_wire_parse::<virtio_gpu_ctx_destroy>(b);
        } else if type_ == VIRTIO_GPU_CMD_CTX_ATTACH_RESOURCE {
            lemma_wire_parse::<virtio_gpu_ctx_resource>(b);
        } else if type_ == VIRTIO_GPU_CMD_CTX_DETACH_RESOURCE {
            lemma_wire_parse::<virtio_gpu_ctx_resource>(b);
        } else if type_ == VIRTIO_GPU_CMD_RESOURCE_CREATE_3D {
            lemma_wire_parse::<virtio_gpu_resource_create_3d>(b);
        } else if type_ == VIRTIO_GPU_CMD_TRANSFER_TO_HOST_3D {
            lemma_wire_parse::<virtio_gpu_transfer_host_3d>(b);
        } else if type_ == VIRTIO_GPU_CMD_TRANSFER_FROM_HOST_3D {
            lemma_wire_parse::<virtio_gpu_transfer_host_3d>(b);
        } else if type_ == VIRTIO_GPU_CMD_SUBMIT_3D {
            lemma_wire_parse::<virtio_gpu_cmd_submit>(b);
        } else if type_ == VIRTIO_GPU_CMD_UPDATE_CURSOR {
            lemma_wire_parse::<virtio_gpu_update_cursor>(b);
        } else if type_ == VIRTIO_GPU_CMD_MOVE_CURSOR {
            lemma_wire_parse::<virtio_gpu_update_cursor>(b);
        }
    }

    /// The opcodes are the 2D commands `0x0100` to `0x010a`, the 3D commands `0x0200` to `0x0207`
    /// and the cursor commands `0x0301` and `0x0302`, and no others.
    pub proof fn lemma_opcodes(type_: u32)
        ensures
            Self::wire_len_of(type_) is Some <==> (0x0100 <= type_ <= 0x010a || 0x0200 <= type_
                <= 0x0207 || 0x0301 <= type_ <= 0x0302),
            Self::wire_len_of(type_) matches Some(n) ==> n >= virtio_gpu_ctrl_hdr::wire_len(),
    {
    }

    /// A header whose `type` is no opcode is answered with `InvalidCommand` and that `type`,
    /// whatever a read of more bytes would give: nothing after the header is looked at.
    pub proof fn lemma_unknown_opcode_is_invalid(
        header: Seq<u8>,
        payload: Result<Seq<u8>, GuestMemoryError>,
    )
        requires
            Self::wire_len_of(u32_at(header, 0)) is None,
        ensures
            Self::decode_of(Ok(header), payload) == Err::<
                VirtioGpuCommand,
                VirtioGpuCommandDecodeError,
            >(VirtioGpuCommandDecodeError::InvalidCommand(u32_at(header, 0))),
    {
    }

    /// Where guest memory holds a record of an opcode, and both reads see it, the command that
    /// is decoded is of that opcode, and encoding it gives the record's bytes again.
    pub proof fn lemma_decode_round_trip(record: Seq<u8>)
        requires
            Self::wire_len_of(u32_at(record, 0)) == Some(record.len()),
        ensures
            record.len() >= virtio_gpu_ctrl_hdr::wire_len(),
            Self::decode_of(Ok(record.subrange(0, 24)), Ok(record)) matches Ok(c) && c.opcode()
                == u32_at(record, 0) && c.wire() == record,
    {
        let type_ = u32_at(record, 0);
        assert(u32_at(record.subrange(0, 24), 0) == type_) by {
            reveal(u32_at);
        }
        Self::lemma_decode_then_encode(type_, record);
        Self::lemma_parse_opcode(type_, record);
    }

    /// Encoding, then decoding again under the command's opcode, gives the command that was
    /// encoded.
    pub proof fn lemma_encode_then_decode(self)
        ensures
            Self::parse(self.opcode(), self.wire()) == self,
    {
        match self {
            VirtioGpuCommand::CmdGetDisplayInfo(c) => lemma_parse_wire::<virtio_gpu_ctrl_hdr>(c),
            VirtioGpuCommand::CmdResourceCreate2D(
                c) => lemma_parse_wire::<virtio_gpu_resource_create_2d>(c,
            ),
            VirtioGpuCommand::CmdResourceUnref(
                c) => lemma_parse_wire::<virtio_gpu_resource_unref>(c,
            ),
            VirtioGpuCommand::CmdSetScanout(c) => lemma_parse_wire::<virtio_gpu_set_scanout>(c),
            VirtioGpuCommand::CmdResourceFlush(
                c) => lemma_parse_wire::<virtio_gpu_resource_flush>(c,
            ),
            VirtioGpuCommand::CmdTransferToHost2D(
                c) => lemma_parse_wire::<virtio_gpu_transfer_to_host_2d>(c,
            ),
            VirtioGpuCommand::CmdResourceAttachBacking(
                c) => lemma_parse_wire::<virtio_gpu_resource_attach_backing>(c,
            ),
            VirtioGpuCommand::CmdResourceDetachBacking(
                c) => lemma_parse_wire::<virtio_gpu_resource_detach_backing>(c,
            ),
            VirtioGpuCommand::CmdGetCapsetInfo(
                c) => lemma_parse_wire::<virtio_gpu_get_capset_info>(c,
            ),
            VirtioGpuCommand::CmdGetCapset(c) => lemma_parse_wire::<virtio_gpu_get_capset>(c),
            VirtioGpuCommand::CmdGetEdid(c) => lemma_parse_wire::<virtio_gpu_cmd_get_edid>(c),
            VirtioGpuCommand::CmdCtxCreate(c) => lemma_parse_wire::<virtio_gpu_ctx_create>(c),
            VirtioGpuCommand::CmdCtxDestroy(c) => lemma_parse_wire::<virtio_gpu_ctx_destroy>(c),
            VirtioGpuCommand::CmdCtxAttachResource(
                c) => lemma_parse_wire::<virtio_gpu_ctx_resource>(c,
            ),
            VirtioGpuCommand::CmdCtxDetachResource(
                c) => lemma_parse_wire::<virtio_gpu_ctx_resource>(c,
            ),
            VirtioGpuCommand::CmdResourceCreate3D(
                c) => lemma_parse_wire::<virtio_gpu_resource_create_3d>(c,
            ),
            VirtioGpuCommand::CmdTransferToHost3D(
                c) => lemma_parse_wire::<virtio_gpu_transfer_host_3d>(c,
            ),
            VirtioGpuCommand::CmdTransferFromHost3D(
                c) => lemma_parse_wire::<virtio_gpu_transfer_host_3d>(c,
            ),
            VirtioGpuCommand::CmdSubmit3D(c) => lemma_parse_wire::<virtio_gpu_cmd_submit>(c),
            VirtioGpuCommand::CmdUpdateCursor(c) => lemma_parse_wire::<virtio_gpu_update_cursor>(c),
            VirtioGpuCommand::CmdMoveCursor(c) => lemma_parse_wire::<virtio_gpu_update_cursor>(c),
        }
    }
}

} // verus!
