//! Buffers that the NPU shares with user space.
use crate::error::VfsError;
use crate::npu::{answer_or, obj_addr_and_size, offset_of, Error, NpuAccess, MMAP_PAGE};
use crate::outside;
use vstd::prelude::*;

verus! {

/// A range of physical addresses, from `start` up to but without `end`.
#[derive(Debug, Clone, Copy, PartialEq, Eq, Structural)]
pub struct PhysAddrRange {
    pub start: usize,
    pub end: usize,
}

impl PhysAddrRange {
    /// Whether the bounds are in order.
    pub open spec fn wf(self) -> bool {
        self.start <= self.end
    }

    /// The range of `size` bytes from `start` on.
    pub fn from_start_size(start: usize, size: usize) -> (r: Self)
        requires
            start + size <= usize::MAX,
        ensures
            r.wf(),
            r.start == start,
            r.end == start + size,
    {
        let bounds = outside::phys_range_from_start_size(start, size);
        PhysAddrRange { start: bounds.0, end: bounds.1 }
    }
}

/// How a device file is mapped into memory.
#[derive(Debug, Clone, Copy, PartialEq, Eq)]
pub enum DeviceMmap {
    /// Not at all.
    Unmapped,
    /// By mapping physical memory, with mapping attributes of its own if any are given.
    Physical(PhysAddrRange, Option<u64>),
}

/// A buffer that has been exported to user space.
#[derive(Debug, Clone, Copy, PartialEq, Eq)]
pub struct ExportedGemBuffer {
    range: PhysAddrRange,
}

impl ExportedGemBuffer {
    /// The memory of the buffer.
    pub closed spec fn memory(self) -> PhysAddrRange {
        self.range
    }

    /// Exports the buffer that occupies `range`.
    pub fn new(range: PhysAddrRange) -> (r: Self)
        ensures
            r.memory() == range,
    {
        Self { range }
    }

    /// The name under which the buffer's file descriptor is shown.
    pub fn path(&self) -> (r: &'static str)
        ensures
            r@ == "anon_inode:[rknpu-gem]"@,
    {
        "anon_inode:[rknpu-gem]"
    }

    /// Maps the whole buffer, whatever part is asked for.
    pub fn device_mmap(&self, offset: u64, length: u64) -> (r: Result<DeviceMmap, VfsError>)
        ensures
            r == Ok::<DeviceMmap, VfsError>(DeviceMmap::Physical(self.memory(), None)),
    {
        Ok(DeviceMmap::Physical(self.range, None))
    }

    /// The events that are always ready, as poll flags: reading (1) and writing (4).
    pub fn poll(&self) -> (events: u32)
        ensures
            events == 1 + 4,
    {
        assert(1u32 | 4u32 == 5u32) by (bit_vector);
        outside::io_events_in() | outside::io_events_out()
    }
}

/// Whether `flags` holds `bit`.
pub fn flag_is_set(flags: u32, bit: u32) -> (r: bool)
    ensures
        r == (flags & bit != 0),
{
    flags & bit != 0
}

/// Whether a descriptor that is exported with `flags` closes on exec. The bit that asks for it is
/// the one of the architecture that the code runs on, bit 22 on SPARC and bit 19 elsewhere: it
/// does if both bits are set, and does not if neither is.
pub fn prime_fd_cloexec(flags: u32) -> (r: bool)
    ensures
        flags & 0x8_0000 != 0 && flags & 0x40_0000 != 0 ==> r,
        r ==> flags & 0x8_0000 != 0 || flags & 0x40_0000 != 0,
{
    flag_is_set(flags, outside::o_cloexec())
}

/// The handle that an mmap offset stands for: the number of its page, if the offset lies at
/// the start of a page, the number is not zero, and it fits a handle.
pub open spec fn handle_at(offset: u64) -> Option<u32> {
    if offset % MMAP_PAGE == 0 && 0 < offset / MMAP_PAGE <= u32::MAX {
        Some((offset / MMAP_PAGE) as u32)
    } else {
        None
    }
}

/// The handle of the buffer that is to be mapped at `offset`.
pub fn map_handle_from_offset(offset: u64) -> (r: Option<u32>)
    ensures
        r == handle_at(offset),
{
    if offset % MMAP_PAGE != 0 {
        return None;
    }
    let page: u64 = offset / MMAP_PAGE;
    if page > 0xffff_ffff {
        return None;
    }
    if page != 0 {
        Some(page as u32)
    } else {
        None
    }
}

/// The offset that the driver hands out for a buffer leads back to that buffer. Handle zero,
/// which names no buffer, has no way back.
pub proof fn law_offset_leads_to_handle(handle: u32, found: NpuAccess<Option<(u64, usize)>>)
    requires
        offset_of(handle, found) is Ok,
    ensures
        handle_at(offset_of(handle, found)->Ok_0) == if handle == 0 {
            None
        } else {
            Some(handle)
        },
{
}

/// Every offset that can be mapped is the one that the driver hands out for the handle in it,
/// so that no two offsets lead to the same buffer.
pub proof fn law_handle_leads_to_offset(offset: u64, found: NpuAccess<Option<(u64, usize)>>)
    requires
        handle_at(offset) is Some,
        answer_or(found, Error::InvalidData) is Ok,
    ensures
        offset_of(handle_at(offset)->Some_0, found) == Ok::<u64, Error>(offset),
{
}

/// The object behind a handle, from the NPU's answer to its lookup. Whatever goes wrong, the
/// buffer counts as not found.
pub open spec fn exported_object(found: NpuAccess<Option<(usize, usize)>>) -> Result<
    (usize, usize),
    VfsError,
> {
    match found {
        NpuAccess::Answered(Some(object)) => Ok(object),
        _ => Err(VfsError::NotFound),
    }
}

/// The address and size of the object that is to be exported.
pub fn find_exported_object(found: NpuAccess<Option<(usize, usize)>>) -> (r: Result<
    (usize, usize),
    VfsError,
>)
    ensures
        r == exported_object(found),
{
    match obj_addr_and_size(found) {
        Ok(object) => Ok(object),
        Err(_) => Err(VfsError::NotFound),
    }
}

/// The export of an object of `size` bytes whose physical address is `paddr`.
pub fn exported_gem_buffer(paddr: usize, size: usize) -> (r: ExportedGemBuffer)
    requires
        paddr + size <= usize::MAX,
    ensures
        r.memory() == (PhysAddrRange { start: paddr, end: (paddr + size) as usize }),
{
    ExportedGemBuffer::new(PhysAddrRange::from_start_size(paddr, size))
}

/// An offset selects a buffer exactly if it is the buffer's handle in pages of 4096 bytes; handle
/// zero is never selected.
pub proof fn law_offset_is_handle_times_page(offset: u64, handle: u32)
    ensures
        handle_at(offset) == Some(handle) <==> handle != 0 && offset == handle * 4096,
{
}

/// An object can be exported exactly if the NPU knows it, and is then exported as the NPU knows
/// it; any other outcome means that it is not found.
pub proof fn law_only_known_objects_are_exported(
    found: NpuAccess<Option<(usize, usize)>>,
    object: (usize, usize),
)
    ensures
        exported_object(found) == Ok::<(usize, usize), VfsError>(object) <==> found
            == NpuAccess::Answered(Some(object)),
        exported_object(found) is Err ==> exported_object(found) == Err::<
            (usize, usize),
            VfsError,
        >(VfsError::NotFound),
{
}

} // verus!
