//! Guest memory, as the `vm-memory` crate maps it.
//!
//! The guest owns what its memory holds and may change it at any time, so nothing here says
//! what a read returns: the codec is verified for every outcome. Which spans are mapped is
//! another matter: the regions of a `GuestMemoryMmap` are fixed when it is made, so whether a
//! span is mapped depends on the memory map, the address and the length alone, and has a name.

use vstd::prelude::*;
use vm_memory::Bytes;
use vm_memory::GuestAddress;
use vm_memory::GuestMemory;
use vm_memory::GuestMemoryError;
use vm_memory::GuestMemoryMmap;
use vm_memory::VolatileSlice;
use rutabaga_gfx::RutabagaIovec;

verus! {

/// `vm_memory::GuestMemoryMmap`: the guest's physical memory, mapped into this process region
/// by region. Opaque here.
#[verifier::external_type_specification]
#[verifier::external_body]
pub struct ExGuestMemoryMmap(GuestMemoryMmap);

/// `vm_memory::GuestAddress`: an address in the guest's physical memory. Opaque here.
#[verifier::external_type_specification]
#[verifier::external_body]
pub struct ExGuestAddress(GuestAddress);

/// `vm_memory::GuestMemoryError`: why an access to guest memory failed. Opaque here.
#[verifier::external_type_specification]
#[verifier::external_body]
pub struct ExGuestMemoryError(GuestMemoryError);

/// `vm_memory::VolatileSlice`: a stretch of memory that others may write to. Opaque here.
#[verifier::external_type_specification]
#[verifier::external_body]
pub struct ExVolatileSlice<'a>(VolatileSlice<'a>);

/// Calls `Bytes::read_slice` of `vm_memory` on a fresh buffer of `len` bytes, which either
/// fills the whole buffer from the memory at `addr` or fails.
///
/// Claimed: a successful read hands back `len` bytes. Nothing is claimed of what the bytes
/// are, nor of when the read fails.
#[verifier::external_body]
pub(crate) fn read_guest(mem: &GuestMemoryMmap, addr: GuestAddress, len: usize) -> (r: Result<
    Vec<u8>,
    GuestMemoryError,
>)
    ensures
        r matches Ok(v) ==> v@.len() == len,
{
    let mut buf = vec![0u8; len];
    match mem.read_slice(&mut buf, addr) {
        Ok(()) => Ok(buf),
        Err(e) => Err(e),
    }
}

/// Whether `GuestMemory::get_slice` of `vm_memory` finds the `len` bytes at `addr` mapped in
/// `mem`: whether `addr` lies in one of the regions of `mem`, and the `len` bytes from it end
/// within that region.
pub uninterp spec fn span_mapped(mem: GuestMemoryMmap, addr: GuestAddress, len: usize) -> bool;

/// Calls `GuestMemory::get_slice` of `vm_memory` and tells whether it found the `len` bytes at
/// `addr` mapped.
///
/// Claimed: the answer is `span_mapped`, which the call computes from the regions of `mem`,
/// the address and the length alone.
#[verifier::external_body]
pub(crate) fn span_is_mapped(mem: &GuestMemoryMmap, addr: GuestAddress, len: usize) -> (r: bool)
    ensures
        r == span_mapped(*mem, addr, len),
{
    mem.get_slice(addr, len).is_ok()
}

/// The length of the buffer that an iovec stands for: its field `len`.
pub uninterp spec fn iovec_len(iovec: RutabagaIovec) -> usize;

/// Calls `GuestMemory::get_host_address` of `vm_memory` and makes an iovec of the host address
/// of `addr` and of `len`, or `None` where `addr` is not mapped.
///
/// Claimed: there is an iovec for a span that is mapped, since the span's first address then
/// lies in a region; and an iovec that is made has the length `len`. Nothing is claimed of
/// the address in it.
#[verifier::external_body]
pub(crate) fn host_iovec(mem: &GuestMemoryMmap, addr: GuestAddress, len: usize) -> (r: Option<
    RutabagaIovec,
>)
    ensures
        span_mapped(*mem, addr, len) ==> r is Some,
        r matches Some(iovec) ==> iovec_len(iovec) == len,
{
    match mem.get_host_address(addr) {
        Ok(base) => Some(RutabagaIovec { base: base.cast(), len }),
        Err(_) => None,
    }
}

} // verus!
