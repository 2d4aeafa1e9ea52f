//! Access to the NPU device, and what its answers mean to a caller.
use vstd::prelude::*;

verus! {

/// Why a request to the NPU failed.
#[derive(Debug, Clone, Copy, PartialEq, Eq, Structural)]
pub enum Error {
    /// No NPU is registered.
    NotFound,
    /// The NPU is in use.
    Busy,
    /// The NPU refused the request.
    InvalidData,
}

/// What came of looking the NPU up, locking it, and making a request to it.
#[derive(Debug, Clone, Copy, PartialEq, Eq)]
pub enum NpuAccess<T> {
    /// No NPU is registered.
    Absent,
    /// Another holder has the lock.
    Locked,
    /// The request was made; this is its answer.
    Answered(T),
}

/// What a request comes to: not found where there is no device, busy where it is locked, and
/// otherwise its answer.
pub open spec fn accessed<T>(access: NpuAccess<Result<T, Error>>) -> Result<T, Error> {
    match access {
        NpuAccess::Absent => Err(Error::NotFound),
        NpuAccess::Locked => Err(Error::Busy),
        NpuAccess::Answered(answer) => answer,
    }
}

/// Gives the outcome of a request to the NPU.
pub fn with_npu<T>(access: NpuAccess<Result<T, Error>>) -> (r: Result<T, Error>)
    ensures
        r == accessed(access),
{
    match access {
        NpuAccess::Absent => Err(Error::NotFound),
        NpuAccess::Locked => Err(Error::Busy),
        NpuAccess::Answered(answer) => answer,
    }
}

/// `access` with its answer read: `None` stands for a failure of kind `err`.
pub open spec fn answer_or<T>(access: NpuAccess<Option<T>>, err: Error) -> Result<T, Error> {
    match access {
        NpuAccess::Absent => Err(Error::NotFound),
        NpuAccess::Locked => Err(Error::Busy),
        NpuAccess::Answered(Some(value)) => Ok(value),
        NpuAccess::Answered(None) => Err(err),
    }
}

fn read_answer<T>(access: NpuAccess<Option<T>>, err: Error) -> (r: Result<T, Error>)
    ensures
        r == answer_or(access, err),
{
    with_npu(
        match access {
            NpuAccess::Absent => NpuAccess::Absent,
            NpuAccess::Locked => NpuAccess::Locked,
            NpuAccess::Answered(Some(value)) => NpuAccess::Answered(Ok(value)),
            NpuAccess::Answered(None) => NpuAccess::Answered(Err(err)),
        },
    )
}

/// The object address and size of a buffer, from the NPU's answer to the lookup of its handle.
pub fn obj_addr_and_size(found: NpuAccess<Option<(usize, usize)>>) -> (r: Result<
    (usize, usize),
    Error,
>)
    ensures
        r == answer_or(found, Error::NotFound),
{
    read_answer(found, Error::NotFound)
}

/// The outcome of a submission, where `None` is the NPU's refusal.
pub fn submit(done: NpuAccess<Option<()>>) -> (r: Result<(), Error>)
    ensures
        r == answer_or(done, Error::InvalidData),
{
    read_answer(done, Error::InvalidData)
}

/// The outcome of a buffer creation, where `None` is the NPU's refusal.
pub fn mem_create(done: NpuAccess<Option<()>>) -> (r: Result<(), Error>)
    ensures
        r == answer_or(done, Error::InvalidData),
{
    read_answer(done, Error::InvalidData)
}

/// The outcome of a buffer synchronization, where `None` is the NPU's refusal.
pub fn mem_sync(done: NpuAccess<Option<()>>) -> (r: Result<(), Error>)
    ensures
        r == answer_or(done, Error::InvalidData),
{
    read_answer(done, Error::InvalidData)
}

/// The value of an action, where `None` is the NPU's refusal.
pub fn action(done: NpuAccess<Option<u32>>) -> (r: Result<u32, Error>)
    ensures
        r == answer_or(done, Error::InvalidData),
{
    read_answer(done, Error::InvalidData)
}

/// Buffers are told apart in mmap offsets by pages of this size.
pub const MMAP_PAGE: u64 = 0x1000;

/// The mmap offset of the buffer `handle`: as many pages as the handle says, provided that the
/// NPU, asked for the buffer's physical address and size, knows the handle.
pub open spec fn offset_of(handle: u32, found: NpuAccess<Option<(u64, usize)>>) -> Result<
    u64,
    Error,
> {
    match answer_or(found, Error::InvalidData) {
        Ok(_) => Ok((handle * MMAP_PAGE) as u64),
        Err(err) => Err(err),
    }
}

/// The mmap offset of the buffer `handle`, from the NPU's answer to its lookup.
pub fn mem_map_offset(handle: u32, found: NpuAccess<Option<(u64, usize)>>) -> (r: Result<
    u64,
    Error,
>)
    ensures
        r == offset_of(handle, found),
{
    match read_answer(found, Error::InvalidData) {
        Ok(_) => Ok((handle as u64) * MMAP_PAGE),
        Err(err) => Err(err),
    }
}

/// A request to the NPU succeeds exactly if it was made and answered with a value, and gives that
/// value. Without a device nothing is found, a locked device is busy, and a refusal is the
/// failure that the request stands for.
pub proof fn law_access_outcomes<T>(access: NpuAccess<Option<T>>, err: Error, value: T)
    ensures
        answer_or(access, err) == Ok::<T, Error>(value) <==> access == NpuAccess::Answered(
            Some(value),
        ),
        access is Absent ==> answer_or(access, err) == Err::<T, Error>(Error::NotFound),
        access is Locked ==> answer_or(access, err) == Err::<T, Error>(Error::Busy),
        access == NpuAccess::Answered(None::<T>) ==> answer_or(access, err) == Err::<T, Error>(err),
{
}

/// An answer is handed on as it is; without one the failure says why there is none.
pub proof fn law_answers_are_handed_on<T>(
    access: NpuAccess<Result<T, Error>>,
    answer: Result<T, Error>,
)
    ensures
        access == NpuAccess::Answered(answer) ==> accessed(access) == answer,
        access is Absent ==> accessed(access) == Err::<T, Error>(Error::NotFound),
        access is Locked ==> accessed(access) == Err::<T, Error>(Error::Busy),
{
}

/// The offset of a buffer that the NPU knows is its handle, in pages of 4096 bytes; a buffer that
/// it does not know has none.
pub proof fn law_offset_is_a_page_number(
    handle: u32,
    found: NpuAccess<Option<(u64, usize)>>,
    offset: u64,
)
    ensures
        offset_of(handle, found) == Ok::<u64, Error>(offset) <==> (
        found matches NpuAccess::Answered(Some(_))) && offset % 4096 == 0 && offset / 4096 == handle,
        found is Absent ==> offset_of(handle, found) == Err::<u64, Error>(Error::NotFound),
        found is Locked ==> offset_of(handle, found) == Err::<u64, Error>(Error::Busy),
        found == NpuAccess::Answered(None::<(u64, usize)>) ==> offset_of(handle, found) == Err::<
            u64,
            Error,
        >(Error::InvalidData),
{
}

} // verus!
