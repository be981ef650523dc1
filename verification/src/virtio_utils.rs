//! Small helpers on the protocol's records.

use vstd::prelude::*;
use crate::protocol::virtio_gpu_ctrl_hdr;
use crate::protocol::VIRTIO_GPU_FLAG_FENCE;

verus! {

/// Whether the header asks for a fence: bit 0 of its flags.
pub fn is_fence(hdr: virtio_gpu_ctrl_hdr) -> (r: bool)
    ensures
        r == (hdr.flags & VIRTIO_GPU_FLAG_FENCE != 0),
        r == (hdr.flags % 2 == 1),
{
    let flags = hdr.flags;
    assert((flags & 1 != 0) == (flags % 2 == 1)) by (bit_vector);
    hdr.flags & VIRTIO_GPU_FLAG_FENCE != 0
}

} // verus!
