//! Calls into other crates. Verus takes the contracts in this file on trust.
use vstd::prelude::*;

verus! {

/// `linux_raw_sys::general::O_CLOEXEC`. Its value differs between architectures: it is bit 22
/// on the SPARC ones and bit 19 on all others. Which of the two it is, is left unsaid.
#[verifier::external_body]
pub(crate) fn o_cloexec() -> (bit: u32)
    ensures
        bit == 0x8_0000 || bit == 0x40_0000,
{
    linux_raw_sys::general::O_CLOEXEC
}

/// `ax_memory_addr::PhysAddrRange::from_start_size`, given and read as plain addresses. The
/// range begins at `start` and ends `size` bytes later; the function panics where that end is
/// no address.
#[verifier::external_body]
pub(crate) fn phys_range_from_start_size(start: usize, size: usize) -> (bounds: (usize, usize))
    requires
        start + size <= usize::MAX,
    ensures
        bounds.0 == start,
        bounds.1 == start + size,
{
    let range = ax_memory_addr::PhysAddrRange::from_start_size(start.into(), size);
    (range.start.as_usize(), range.end.as_usize())
}

/// `axfs_ng_vfs::DeviceId::new`, read as the number that it holds. The low 8 bits of the minor
/// number stay in place, the low 12 bits of the major number follow them, and the rest of both
/// goes above: the minor number's moved up by 12 bits, the major number's by 32.
#[verifier::external_body]
pub(crate) fn device_id_new(major: u32, minor: u32) -> (id: u64)
    ensures
        id == ((major as u64) & 0xffff_f000) << 32 | ((major as u64) & 0x0000_0fff) << 8 | ((
        minor as u64) & 0xffff_ff00) << 12 | ((minor as u64) & 0x0000_00ff),
{
    axfs_ng_vfs::DeviceId::new(major, minor).0
}

/// `axfs_ng_vfs::NodeFlags::NON_CACHEABLE`, read by `bits` as the number that it holds: bit 1
/// alone.
#[verifier::external_body]
pub(crate) fn node_flags_non_cacheable() -> (bits: u32)
    ensures
        bits == 2,
{
    axfs_ng_vfs::NodeFlags::NON_CACHEABLE.bits()
}

/// `axpoll::IoEvents::IN`, read by `bits` as the number that it holds: `POLLIN`, which is 1.
#[verifier::external_body]
pub(crate) fn io_events_in() -> (bits: u32)
    ensures
        bits == 1,
{
    axpoll::IoEvents::IN.bits()
}

/// `axpoll::IoEvents::OUT`, read by `bits` as the number that it holds: `POLLOUT`, which is 4.
#[verifier::external_body]
pub(crate) fn io_events_out() -> (bits: u32)
    ensures
        bits == 4,
{
    axpoll::IoEvents::OUT.bits()
}

/// `core::mem::size_of` of `rockchip_npu::ioctrl::RknpuSubmit`: ten 32-bit and three 64-bit
/// numbers and five pairs of 32-bit ones, in C layout without padding.
#[verifier::external_body]
pub(crate) fn size_of_submit() -> (size: usize)
    ensures
        size == 104,
{
    core::mem::size_of::<rockchip_npu::ioctrl::RknpuSubmit>()
}

/// `core::mem::size_of` of `rockchip_npu::ioctrl::RknpuMemCreate`: four 32-bit and four 64-bit
/// numbers, in C layout without padding.
#[verifier::external_body]
pub(crate) fn size_of_mem_create() -> (size: usize)
    ensures
        size == 48,
{
    core::mem::size_of::<rockchip_npu::ioctrl::RknpuMemCreate>()
}

/// `core::mem::size_of` of `rockchip_npu::ioctrl::RknpuMemMap`: two 32-bit numbers and a 64-bit
/// one, in C layout without padding.
#[verifier::external_body]
pub(crate) fn size_of_mem_map() -> (size: usize)
    ensures
        size == 16,
{
    core::mem::size_of::<rockchip_npu::ioctrl::RknpuMemMap>()
}

/// `core::mem::size_of` of `rockchip_npu::ioctrl::RknpuMemSync`: two 32-bit and three 64-bit
/// numbers, in C layout without padding.
#[verifier::external_body]
pub(crate) fn size_of_mem_sync() -> (size: usize)
    ensures
        size == 32,
{
    core::mem::size_of::<rockchip_npu::ioctrl::RknpuMemSync>()
}

} // verus!
