//! What an ioctl asks of its surroundings, and the answers that it gets.
//!
//! An ioctl works on a buffer of `DATA_SIZE` bytes. Where a request moves bytes into the buffer,
//! they come with the reply and replace the buffer's first bytes; where it moves bytes out, they
//! are the buffer's first bytes.
use crate::command::RknpuAction;
use crate::gem::PhysAddrRange;
use crate::npu::NpuAccess;
use vstd::prelude::*;

verus! {

/// The size of the buffer that an ioctl works on.
pub const DATA_SIZE: usize = 128;

/// A text that the driver version holds.
#[derive(Debug, Clone, Copy, PartialEq, Eq, Structural)]
pub enum DrmField {
    Name,
    Date,
    Desc,
}

/// Something that an ioctl needs done before it can go on.
#[allow(inconsistent_fields)]
#[derive(Debug, Clone, Copy, PartialEq, Eq)]
pub enum Request {
    /// Copy `len` bytes from the user address `src` into the buffer.
    CopyFromUser { src: usize, len: usize },
    /// Copy the first `len` bytes of the buffer to the user address `dst`.
    CopyToUser { dst: usize, len: usize },
    /// Copy the first `len` bytes of a driver text to the user address `dst`.
    CopyText { dst: u64, field: DrmField, len: usize },
    /// Probe the CPU clock.
    ProbeCpuClock,
    /// Read the monotonic clock.
    ReadClock,
    /// Submit the job described by the first `len` bytes of the buffer.
    Submit { len: usize },
    /// Create the GEM object described by the first `len` bytes of the buffer.
    MemCreate { len: usize },
    /// Synchronize the memory described by the first `len` bytes of the buffer.
    MemSync { len: usize },
    /// Look up the physical address and the size of a GEM object.
    FindPhys { handle: u32 },
    /// Look up the address and the size of a GEM object.
    FindObject { handle: u32 },
    /// Run an action on the NPU.
    RunAction { action: RknpuAction },
    /// Translate a kernel address to a physical one.
    VirtToPhys { vaddr: usize },
    /// Put a buffer into the file descriptor table.
    InstallFd { range: PhysAddrRange, cloexec: bool },
}

/// What came of a request.
#[allow(inconsistent_fields)]
#[derive(Debug, Clone, Copy, PartialEq, Eq)]
pub enum Reply {
    /// A copy ended with that many bytes not copied.
    Copied { left_over: usize },
    /// The CPU clock has been probed.
    ClockProbed,
    /// The monotonic clock shows that many nanoseconds.
    Clock { ns: u64 },
    /// A job, a creation or a synchronization is over.
    Done { outcome: NpuAccess<Option<()>> },
    /// The answer to `FindPhys`.
    Phys { found: NpuAccess<Option<(u64, usize)>> },
    /// The answer to `FindObject`.
    Object { found: NpuAccess<Option<(usize, usize)>> },
    /// The value of an action.
    Value { value: NpuAccess<Option<u32>> },
    /// A physical address.
    Translated { paddr: usize },
    /// The new file descriptor, if there was room for one.
    Installed { fd: Option<i32> },
}

impl Request {
    /// Whether `reply`, with `bytes`, is an answer to this request.
    pub open spec fn answered_by(self, reply: Reply, bytes: Seq<u8>) -> bool {
        match self {
            Request::CopyFromUser { src, len } => reply matches Reply::Copied { left_over } && (
            left_over == 0 ==> bytes.len() == len),
            Request::CopyToUser { dst, len } => reply is Copied,
            Request::CopyText { dst, field, len } => reply is Copied,
            Request::ProbeCpuClock => reply is ClockProbed,
            Request::ReadClock => reply is Clock,
            Request::Submit { len } => reply is Done && bytes.len() == len,
            Request::MemCreate { len } => reply is Done && bytes.len() == len,
            Request::MemSync { len } => reply is Done && bytes.len() == len,
            Request::FindPhys { handle } => reply is Phys,
            Request::FindObject { handle } => reply is Object,
            Request::RunAction { action } => reply is Value,
            Request::VirtToPhys { vaddr } => reply is Translated,
            Request::InstallFd { range, cloexec } => reply is Installed,
        }
    }
}

/// The buffer `data` once its first bytes have been replaced by `bytes`.
pub open spec fn received(data: Seq<u8>, bytes: Seq<u8>) -> Seq<u8> {
    bytes + data.skip(bytes.len() as int)
}

/// Replaces the first bytes of the buffer.
pub fn receive(data: &mut Vec<u8>, bytes: &[u8])
    requires
        bytes@.len() <= old(data)@.len(),
    ensures
        final(data)@ == received(old(data)@, bytes@),
{
    let mut i: usize = 0;
    while i < bytes.len()
        invariant
            i <= bytes@.len() <= old(data)@.len(),
            data@ == bytes@.take(i as int) + old(data)@.skip(i as int),
        decreases bytes@.len() - i,
    {
        data.set(i, bytes[i]);
        i = i + 1;
        assert(data@ == bytes@.take(i as int) + old(data)@.skip(i as int));
    }
    assert(bytes@.take(i as int) == bytes@);
}

/// What arrives lies at the start of the buffer, byte for byte, and the rest of the buffer stays
/// as it was.
pub proof fn law_received_bytes_lie_first(data: Seq<u8>, bytes: Seq<u8>)
    requires
        bytes.len() <= data.len(),
    ensures
        received(data, bytes).len() == data.len(),
        received(data, bytes).take(bytes.len() as int) == bytes,
        received(data, bytes).skip(bytes.len() as int) == data.skip(bytes.len() as int),
        forall|i: int|
            0 <= i < bytes.len() ==> #[trigger] received(data, bytes)[i] == bytes[i],
        forall|i: int|
            bytes.len() <= i < data.len() ==> #[trigger] received(data, bytes)[i] == data[i],
{
}

/// A request takes every answer that can come of it, failures among them: a copy may leave any
/// number of bytes over, and the NPU, the address translation and the descriptor table may say
/// whatever they do.
pub proof fn law_every_outcome_is_an_answer(
    left_over: usize,
    address: usize,
    target: u64,
    field: DrmField,
    len: usize,
    handle: u32,
    action: RknpuAction,
    range: PhysAddrRange,
    cloexec: bool,
    ns: u64,
    outcome: NpuAccess<Option<()>>,
    phys: NpuAccess<Option<(u64, usize)>>,
    object: NpuAccess<Option<(usize, usize)>>,
    value: NpuAccess<Option<u32>>,
    fd: Option<i32>,
    bytes: Seq<u8>,
)
    ensures
        left_over != 0 || bytes.len() == len ==> (Request::CopyFromUser {
            src: address,
            len,
        }).answered_by(Reply::Copied { left_over }, bytes),
        (Request::CopyToUser { dst: address, len }).answered_by(Reply::Copied { left_over }, bytes),
        (Request::CopyText { dst: target, field, len }).answered_by(
            Reply::Copied { left_over },
            bytes,
        ),
        Request::ProbeCpuClock.answered_by(Reply::ClockProbed, bytes),
        Request::ReadClock.answered_by(Reply::Clock { ns }, bytes),
        bytes.len() == len ==> {
            &&& (Request::Submit { len }).answered_by(Reply::Done { outcome }, bytes)
            &&& (Request::MemCreate { len }).answered_by(Reply::Done { outcome }, bytes)
            &&& (Request::MemSync { len }).answered_by(Reply::Done { outcome }, bytes)
        },
        (Request::FindPhys { handle }).answered_by(Reply::Phys { found: phys }, bytes),
        (Request::FindObject { handle }).answered_by(Reply::Object { found: object }, bytes),
        (Request::RunAction { action }).answered_by(Reply::Value { value }, bytes),
        (Request::VirtToPhys { vaddr: address }).answered_by(
            Reply::Translated { paddr: address },
            bytes,
        ),
        (Request::InstallFd { range, cloexec }).answered_by(Reply::Installed { fd }, bytes),
{
}

} // verus!
