//! The character device `/dev/dri/card1`.
use crate::bytes::{
    get_u32, law_read_back_u32, law_read_back_u64, le32, le64, put32, put64, put_u32,
};
use crate::command::{command_for, RknpuCmd};
use crate::driver::{
    arg_len, inner_data, inner_next, inner_request, inner_start, known_action,
    law_npu_is_asked_what_the_user_asks, law_user_gets_what_the_npu_leaves,
    rknpu_driver_ioctl_inner, start_driver_ioctl, InnerStage, InnerStep,
};
use crate::drm::{
    c_len, drm_gem_flink_ioctl, drm_get_unique, drm_version, drm_version_from,
    law_copies_leave_lengths_alone, law_numbers_lie_first, law_texts_go_to_their_buffers,
    law_texts_to_come_stay_as_they_were, lemma_same_le64, next_copy, until_copy, wants_text,
    with_length, with_lengths, with_numbers, VersionStep,
};
use crate::error::{copied, copy_from_user, copy_to_user, VfsError};
use crate::gem::{
    exported_gem_buffer, exported_object, find_exported_object, flag_is_set, handle_at,
    law_offset_leads_to_handle, map_handle_from_offset, DeviceMmap, PhysAddrRange,
};
use crate::npu::{offset_of, NpuAccess};
use crate::outside;
use crate::request::{
    law_received_bytes_lie_first, receive, received, DrmField, Reply, Request, DATA_SIZE,
};
use crate::telemetry::{AccountReport, IoctlStats};
use vstd::prelude::*;

verus! {

/// The highest ioctl number that the device takes.
pub const MAX_IOCTL_NR: u32 = 0xcf;

/// The number of the version query.
pub const DRM_IOCTL_VERSION_NR: u32 = 0;

/// The number of the query for the unique name.
pub const DRM_IOCTL_GET_UNIQUE_NR: u32 = 1;

/// The number of the request to name a buffer globally.
pub const DRM_IOCTL_GEM_FLINK_NR: u32 = 10;

/// The number of the request to export a buffer as a file descriptor.
pub const DRM_IOCTL_PRIME_HANDLE_TO_FD_NR: u32 = 0x2d;

/// An ioctl command, taken apart.
#[derive(Debug, Clone, Copy, PartialEq, Eq)]
pub struct IoctlCommand {
    /// Its number.
    pub nr: u32,
    /// Whether that number lies in the range of the driver's own ioctls.
    pub driver: bool,
    /// The size of its argument.
    pub size: usize,
}

/// Whether an ioctl outside the driver's range has an answer here.
pub open spec fn is_core_ioctl(nr: u32) -> bool {
    ||| nr == DRM_IOCTL_VERSION_NR
    ||| nr == DRM_IOCTL_GET_UNIQUE_NR
    ||| nr == DRM_IOCTL_GEM_FLINK_NR
    ||| nr == DRM_IOCTL_PRIME_HANDLE_TO_FD_NR
}

/// How far an ioctl has come.
#[derive(Debug, Clone, Copy, PartialEq, Eq)]
pub enum CardState {
    /// A driver ioctl waits for the probe of the CPU clock.
    Probing { op: RknpuCmd },
    /// A driver ioctl waits for the time of its entry.
    Entering { op: RknpuCmd },
    /// A driver ioctl is at work.
    Running { op: RknpuCmd, entry_ns: u64, stage: InnerStage, request: Request },
    /// A driver ioctl waits for the time of its exit.
    Leaving { op: RknpuCmd, entry_ns: u64, result: Result<usize, VfsError> },
    /// Any other ioctl waits for its argument.
    CoreIn { nr: u32 },
    /// A version query waits for the copy of a text.
    Version { field: DrmField, dst: u64, len: usize },
    /// An export waits for the lookup of the buffer.
    PrimeObject { handle: u32 },
    /// An export waits for the physical address of the buffer.
    PrimePhys { vaddr: usize, size: usize },
    /// An export waits for the file descriptor.
    PrimeFd { range: PhysAddrRange, cloexec: bool },
    /// An ioctl other than the driver's waits for the way back of its argument.
    CoreOut,
    /// The ioctl is over.
    Finished { result: Result<usize, VfsError> },
}

/// What an ioctl does next.
#[derive(Debug, Clone, Copy, PartialEq, Eq)]
pub enum CardStep {
    /// It makes a request, and waits for the reply.
    Wait { request: Request },
    /// It returns.
    Finished { result: Result<usize, VfsError> },
}

/// An ioctl under way.
#[derive(Debug)]
pub struct IoctlSession {
    /// The user address of its argument.
    pub arg: usize,
    /// The size of its argument, for ioctls other than the driver's.
    pub size: usize,
    /// The flag that asks for a descriptor that closes on exec.
    pub cloexec_bit: u32,
    /// The buffer that it works on.
    pub data: Vec<u8>,
    /// How far it has come.
    pub state: CardState,
}

impl CardState {
    /// How a driver ioctl stands after a step of its inner work.
    pub open spec fn after_inner(op: RknpuCmd, entry_ns: u64, step: InnerStep) -> CardState {
        match step {
            InnerStep::Wait { request, stage } => CardState::Running {
                op,
                entry_ns,
                stage,
                request,
            },
            InnerStep::Finished { result } => CardState::Leaving { op, entry_ns, result },
        }
    }

    /// How a version query stands after a step.
    pub open spec fn after_version(step: VersionStep) -> CardState {
        match step {
            VersionStep::Copy { field, dst, len } => CardState::Version { field, dst, len },
            VersionStep::Complete => CardState::CoreOut,
        }
    }

    /// An ioctl that has failed.
    pub open spec fn failed(err: VfsError) -> CardState {
        CardState::Finished { result: Err(err) }
    }
}

impl IoctlSession {
    /// Whether the session is one that `ioctl` and `resume` can bring about.
    pub open spec fn wf(self) -> bool {
        &&& self.data@.len() == DATA_SIZE
        &&& self.size <= DATA_SIZE
        &&& self.cloexec_bit == 0x8_0000 || self.cloexec_bit == 0x40_0000
        &&& self.state matches CardState::Running { op, entry_ns, stage, request } ==> {
            &&& op != RknpuCmd::MemDestroy
            &&& request == inner_request(op, self.arg, stage, self.data@)
        }
    }

    /// What the ioctl does next.
    pub open spec fn next_step(self) -> CardStep {
        match self.state {
            CardState::Probing { op } => CardStep::Wait { request: Request::ProbeCpuClock },
            CardState::Entering { op } => CardStep::Wait { request: Request::ReadClock },
            CardState::Running { op, entry_ns, stage, request } => CardStep::Wait { request },
            CardState::Leaving { op, entry_ns, result } => CardStep::Wait {
                request: Request::ReadClock,
            },
            CardState::CoreIn { nr } => CardStep::Wait {
                request: Request::CopyFromUser { src: self.arg, len: self.size },
            },
            CardState::Version { field, dst, len } => CardStep::Wait {
                request: Request::CopyText { dst, field, len },
            },
            CardState::PrimeObject { handle } => CardStep::Wait {
                request: Request::FindObject { handle },
            },
            CardState::PrimePhys { vaddr, size } => CardStep::Wait {
                request: Request::VirtToPhys { vaddr },
            },
            CardState::PrimeFd { range, cloexec } => CardStep::Wait {
                request: Request::InstallFd { range, cloexec },
            },
            CardState::CoreOut => CardStep::Wait {
                request: Request::CopyToUser { dst: self.arg, len: self.size },
            },
            CardState::Finished { result } => CardStep::Finished { result },
        }
    }

    /// Whether `reply`, with `bytes`, is a reply that the ioctl can go on with: an answer to its
    /// request; where an argument has come in, one of an ioctl and of an action that there is;
    /// and where an address has come in, one at which the buffer does not pass the end of memory.
    pub open spec fn accepts(self, reply: Reply, bytes: Seq<u8>) -> bool {
        &&& self.next_step() matches CardStep::Wait { request } && request.answered_by(reply, bytes)
        &&& match self.state {
            CardState::Running { op, entry_ns, stage, request } => known_action(
                op,
                stage,
                reply,
                bytes,
            ),
            CardState::CoreIn { nr } => reply == (Reply::Copied { left_over: 0 })
                ==> is_core_ioctl(nr),
            CardState::PrimePhys { vaddr, size } => reply matches Reply::Translated { paddr }
                && paddr + size <= usize::MAX,
            _ => true,
        }
    }

    /// The state after a reply.
    pub open spec fn next_state(self, reply: Reply, bytes: Seq<u8>) -> CardState {
        match (self.state, reply) {
            (CardState::Probing { op }, _) => CardState::Entering { op },
            (CardState::Entering { op }, Reply::Clock { ns }) => CardState::after_inner(
                op,
                ns,
                inner_start(op, self.arg),
            ),
            (
                CardState::Running { op, entry_ns, stage, request },
                _,
            ) => CardState::after_inner(
                op,
                entry_ns,
                inner_next(op, self.arg, stage, self.data@, reply, bytes),
            ),
            (CardState::Leaving { op, entry_ns, result }, _) => CardState::Finished {
                result: match result {
                    Ok(_) => Ok(0),
                    Err(err) => Err(err),
                },
            },
            (CardState::CoreIn { nr }, Reply::Copied { left_over }) => {
                let arrived = received(self.data@, bytes);
                if left_over != 0 {
                    CardState::failed(VfsError::InvalidData)
                } else if nr == DRM_IOCTL_VERSION_NR {
                    CardState::after_version(next_copy(with_numbers(arrived), DrmField::Name))
                } else if nr == DRM_IOCTL_GET_UNIQUE_NR {
                    CardState::CoreOut
                } else if nr == DRM_IOCTL_GEM_FLINK_NR {
                    CardState::failed(VfsError::NotFound)
                } else {
                    CardState::PrimeObject { handle: le32(arrived, 0) }
                }
            },
            (CardState::Version { field, dst, len }, Reply::Copied { left_over }) => {
                if left_over != 0 {
                    CardState::failed(VfsError::InvalidData)
                } else {
                    match field.following() {
                        Some(next) => CardState::after_version(next_copy(self.data@, next)),
                        None => CardState::CoreOut,
                    }
                }
            },
            (CardState::PrimeObject { handle }, Reply::Object { found }) => match exported_object(
                found,
            ) {
                Ok((vaddr, size)) => CardState::PrimePhys { vaddr, size },
                Err(err) => CardState::failed(err),
            },
            (CardState::PrimePhys { vaddr, size }, Reply::Translated { paddr }) => {
                CardState::PrimeFd {
                    range: PhysAddrRange { start: paddr, end: (paddr + size) as usize },
                    cloexec: le32(self.data@, 4) & self.cloexec_bit != 0,
                }
            },
            (CardState::PrimeFd { range, cloexec }, Reply::Installed { fd }) => match fd {
                Some(_) => CardState::CoreOut,
                None => CardState::failed(VfsError::NoMemory),
            },
            (CardState::CoreOut, Reply::Copied { left_over }) => CardState::Finished {
                result: match copied(left_over) {
                    Ok(_) => Ok(0),
                    Err(err) => Err(err),
                },
            },
            _ => self.state,
        }
    }

    /// The buffer after a reply.
    pub open spec fn next_data(self, reply: Reply, bytes: Seq<u8>) -> Seq<u8> {
        match (self.state, reply) {
            (CardState::Running { op, entry_ns, stage, request }, _) => inner_data(
                op,
                stage,
                self.data@,
                reply,
                bytes,
            ),
            (CardState::CoreIn { nr }, Reply::Copied { left_over }) => {
                let arrived = received(self.data@, bytes);
                if left_over != 0 {
                    self.data@
                } else if nr == DRM_IOCTL_VERSION_NR {
                    until_copy(with_numbers(arrived), DrmField::Name)
                } else if nr == DRM_IOCTL_GET_UNIQUE_NR {
                    put64(arrived, 0, 0)
                } else {
                    arrived
                }
            },
            (CardState::Version { field, dst, len }, Reply::Copied { left_over }) => {
                match field.following() {
                    Some(next) if left_over == 0 => until_copy(self.data@, next),
                    _ => self.data@,
                }
            },
            (CardState::PrimeFd { range, cloexec }, Reply::Installed { fd: Some(fd) }) => put32(
                self.data@,
                8,
                fd as u32,
            ),
            _ => self.data@,
        }
    }

    /// Whether `after` is this session once it has gone on with a reply.
    pub open spec fn leads_to(self, reply: Reply, bytes: Seq<u8>, after: IoctlSession) -> bool {
        &&& after.arg == self.arg
        &&& after.size == self.size
        &&& after.cloexec_bit == self.cloexec_bit
        &&& after.state == self.next_state(reply, bytes)
        &&& after.data@ == self.next_data(reply, bytes)
    }

    /// What the ioctl does next.
    pub fn step(&self) -> (r: CardStep)
        ensures
            r == self.next_step(),
    {
        match self.state {
            CardState::Probing { .. } => CardStep::Wait { request: Request::ProbeCpuClock },
            CardState::Entering { .. } => CardStep::Wait { request: Request::ReadClock },
            CardState::Running { request, .. } => CardStep::Wait { request },
            CardState::Leaving { .. } => CardStep::Wait { request: Request::ReadClock },
            CardState::CoreIn { .. } => CardStep::Wait {
                request: Request::CopyFromUser { src: self.arg, len: self.size },
            },
            CardState::Version { field, dst, len } => CardStep::Wait {
                request: Request::CopyText { dst, field, len },
            },
            CardState::PrimeObject { handle } => CardStep::Wait {
                request: Request::FindObject { handle },
            },
            CardState::PrimePhys { vaddr, .. } => CardStep::Wait {
                request: Request::VirtToPhys { vaddr },
            },
            CardState::PrimeFd { range, cloexec } => CardStep::Wait {
                request: Request::InstallFd { range, cloexec },
            },
            CardState::CoreOut => CardStep::Wait {
                request: Request::CopyToUser { dst: self.arg, len: self.size },
            },
            CardState::Finished { result } => CardStep::Finished { result },
        }
    }

    /// Goes on with the ioctl, once the reply to its request is there. A driver ioctl that ends
    /// here is entered into `stats`, and what is to be reported of it is returned.
    pub fn resume(&mut self, stats: &mut IoctlStats, reply: Reply, bytes: &[u8]) -> (report: Option<
        AccountReport,
    >)
        requires
            old(self).wf(),
            old(self).accepts(reply, bytes@),
        ensures
            final(self).wf(),
            final(self).arg == old(self).arg,
            final(self).size == old(self).size,
            final(self).cloexec_bit == old(self).cloexec_bit,
            final(self).state == old(self).next_state(reply, bytes@),
            final(self).data@ == old(self).next_data(reply, bytes@),
            old(self).leads_to(reply, bytes@, *final(self)),
            match (old(self).state, reply) {
                (CardState::Leaving { op, entry_ns, result }, Reply::Clock { ns }) => {
                    &&& report matches Some(r)
                    &&& old(stats).accounts_for(op, entry_ns, ns, *final(stats), r)
                },
                _ => report is None && *final(stats) == *old(stats),
            },
    {
        match (self.state, reply) {
            (CardState::Leaving { op, entry_ns, result }, Reply::Clock { ns }) => {
                let report = stats.account_rknpu_ioctl(op, entry_ns, ns);
                self.state = CardState::Finished {
                    result: match result {
                        Ok(_) => Ok(0),
                        Err(err) => Err(err),
                    },
                };
                Some(report)
            },
            (CardState::Probing { op }, _) => {
                self.state = CardState::Entering { op };
                None
            },
            (CardState::Entering { op }, Reply::Clock { ns }) => {
                self.state = after_inner(op, ns, start_driver_ioctl(op, self.arg));
                None
            },
            (CardState::Running { op, entry_ns, stage, .. }, _) => {
                let step = rknpu_driver_ioctl_inner(op, self.arg, stage, &mut self.data, reply, bytes);
                self.state = after_inner(op, entry_ns, step);
                None
            },
            (CardState::CoreIn { nr }, Reply::Copied { left_over }) => {
                self.core_arrived(nr, left_over, bytes);
                None
            },
            (CardState::Version { field, .. }, Reply::Copied { left_over }) => {
                self.state = match copy_to_user(left_over) {
                    Err(_) => CardState::Finished { result: Err(VfsError::InvalidData) },
                    Ok(_) => match field.next() {
                        Some(next) => after_version(drm_version_from(&mut self.data, next)),
                        None => CardState::CoreOut,
                    },
                };
                None
            },
            (CardState::CoreOut, Reply::Copied { left_over }) => {
                self.state = CardState::Finished {
                    result: match copy_to_user(left_over) {
                        Ok(_) => Ok(0),
                        Err(err) => Err(err),
                    },
                };
                None
            },
            _ => {
                self.drm_prime_handle_to_fd_ioctl(reply);
                None
            },
        }
    }

    /// Handles the argument of an ioctl other than the driver's, once its copy is over.
    fn core_arrived(&mut self, nr: u32, left_over: usize, bytes: &[u8])
        requires
            old(self).wf(),
            old(self).state == (CardState::CoreIn { nr }),
            old(self).accepts(Reply::Copied { left_over }, bytes@),
        ensures
            final(self).wf(),
            final(self).arg == old(self).arg,
            final(self).size == old(self).size,
            final(self).cloexec_bit == old(self).cloexec_bit,
            final(self).state == old(self).next_state(Reply::Copied { left_over }, bytes@),
            final(self).data@ == old(self).next_data(Reply::Copied { left_over }, bytes@),
    {
        if let Err(err) = copy_from_user(left_over) {
            self.state = CardState::Finished { result: Err(err) };
            return;
        }
        receive(&mut self.data, bytes);
        match nr {
            DRM_IOCTL_VERSION_NR => {
                self.state = after_version(drm_version(&mut self.data));
            },
            DRM_IOCTL_GET_UNIQUE_NR => {
                self.state = match drm_get_unique(&mut self.data) {
                    Ok(_) => CardState::CoreOut,
                    Err(err) => CardState::Finished { result: Err(err) },
                };
            },
            DRM_IOCTL_GEM_FLINK_NR => {
                self.state = CardState::Finished { result: drm_gem_flink_ioctl() };
            },
            _ => {
                self.state = CardState::PrimeObject { handle: get_u32(self.data.as_slice(), 0) };
            },
        }
    }

    /// Goes on with the export of a buffer: the buffer is looked up, its memory is found, and
    /// its descriptor is put into the argument.
    fn drm_prime_handle_to_fd_ioctl(&mut self, reply: Reply)
        requires
            old(self).wf(),
            old(self).state is PrimeObject || old(self).state is PrimePhys || old(
                self,
            ).state is PrimeFd,
            old(self).accepts(reply, Seq::empty()),
        ensures
            final(self).wf(),
            final(self).arg == old(self).arg,
            final(self).size == old(self).size,
            final(self).cloexec_bit == old(self).cloexec_bit,
            final(self).state == old(self).next_state(reply, Seq::empty()),
            final(self).data@ == old(self).next_data(reply, Seq::empty()),
    {
        match (self.state, reply) {
            (CardState::PrimeObject { .. }, Reply::Object { found }) => {
                self.state = match find_exported_object(found) {
                    Ok((vaddr, size)) => CardState::PrimePhys { vaddr, size },
                    Err(err) => CardState::Finished { result: Err(err) },
                };
            },
            (CardState::PrimePhys { size, .. }, Reply::Translated { paddr }) => {
                let flags: u32 = get_u32(self.data.as_slice(), 4);
                let range = PhysAddrRange::from_start_size(paddr, size);
                self.state = CardState::PrimeFd {
                    range,
                    cloexec: flag_is_set(flags, self.cloexec_bit),
                };
            },
            (CardState::PrimeFd { .. }, Reply::Installed { fd }) => match fd {
                Some(fd) => {
                    put_u32(&mut self.data, 8, fd as u32);
                    self.state = CardState::CoreOut;
                },
                None => {
                    self.state = CardState::Finished { result: Err(VfsError::NoMemory) };
                },
            },
            _ => {},
        }
    }
}

fn after_inner(op: RknpuCmd, entry_ns: u64, step: InnerStep) -> (r: CardState)
    ensures
        r == CardState::after_inner(op, entry_ns, step),
{
    match step {
        InnerStep::Wait { request, stage } => CardState::Running { op, entry_ns, stage, request },
        InnerStep::Finished { result } => CardState::Leaving { op, entry_ns, result },
    }
}

fn after_version(step: VersionStep) -> (r: CardState)
    ensures
        r == CardState::after_version(step),
{
    match step {
        VersionStep::Copy { field, dst, len } => CardState::Version { field, dst, len },
        VersionStep::Complete => CardState::CoreOut,
    }
}

/// How a driver ioctl begins: with the probe of the CPU clock, if it is the first one ever, and
/// otherwise with the time of its entry.
pub open spec fn driver_start(op: RknpuCmd, stats: IoctlStats) -> CardState {
    if stats.cpu_mhz_probed {
        CardState::Entering { op }
    } else {
        CardState::Probing { op }
    }
}

/// Begins a driver ioctl. Its work is bracketed by two readings of the clock, whichever way it
/// ends, so that `stats` can account for all of it.
pub fn rknpu_driver_ioctl(op: RknpuCmd, stats: &mut IoctlStats) -> (r: CardState)
    ensures
        r == driver_start(op, *old(stats)),
        *final(stats) == (IoctlStats { cpu_mhz_probed: true, ..*old(stats) }),
{
    if stats.claim_cpu_probe() {
        CardState::Probing { op }
    } else {
        CardState::Entering { op }
    }
}

/// How an ioctl begins.
pub open spec fn ioctl_start(cmd: IoctlCommand, arg: usize, stats: IoctlStats) -> CardState {
    if arg == 0 {
        CardState::failed(VfsError::InvalidData)
    } else if !cmd.driver {
        CardState::CoreIn { nr: cmd.nr }
    } else {
        match command_for(cmd.nr) {
            Some(op) => driver_start(op, stats),
            None => CardState::failed(VfsError::NotATty),
        }
    }
}

/// How a request to map the device file stands.
#[derive(Debug, Clone, Copy, PartialEq, Eq)]
pub enum MmapState {
    /// It waits for the lookup of a buffer.
    Object { handle: u32 },
    /// It waits for the physical address of the buffer.
    Phys { vaddr: usize, size: usize },
    /// It is over.
    Finished { map: DeviceMmap },
}

impl MmapState {
    /// What the mapping asks for next.
    pub open spec fn wants(self) -> Option<Request> {
        match self {
            MmapState::Object { handle } => Some(Request::FindObject { handle }),
            MmapState::Phys { vaddr, size } => Some(Request::VirtToPhys { vaddr }),
            MmapState::Finished { map } => None,
        }
    }

    /// What the mapping asks for next, `None` when it is over.
    pub fn request(self) -> (r: Option<Request>)
        ensures
            r == self.wants(),
    {
        match self {
            MmapState::Object { handle } => Some(Request::FindObject { handle }),
            MmapState::Phys { vaddr, .. } => Some(Request::VirtToPhys { vaddr }),
            MmapState::Finished { .. } => None,
        }
    }

    /// Whether `reply` is one that the mapping can go on with: an answer to its request, and
    /// where that is an address, one at which the buffer does not pass the end of memory.
    pub open spec fn accepts(self, reply: Reply) -> bool {
        &&& self.wants() matches Some(request) && request.answered_by(reply, Seq::empty())
        &&& self matches MmapState::Phys { vaddr, size } ==> reply matches Reply::Translated {
            paddr,
        } && paddr + size <= usize::MAX
    }

    /// The state after a reply.
    pub open spec fn after(self, reply: Reply) -> MmapState {
        match (self, reply) {
            (MmapState::Object { handle }, Reply::Object { found }) => match exported_object(
                found,
            ) {
                Ok((vaddr, size)) => MmapState::Phys { vaddr, size },
                Err(_) => MmapState::Finished { map: DeviceMmap::Unmapped },
            },
            (MmapState::Phys { vaddr, size }, Reply::Translated { paddr }) => MmapState::Finished {
                map: DeviceMmap::Physical(
                    PhysAddrRange { start: paddr, end: (paddr + size) as usize },
                    None,
                ),
            },
            _ => self,
        }
    }

    /// Goes on with the mapping, once the reply to its request is there.
    pub fn resume(self, reply: Reply) -> (r: MmapState)
        requires
            self.accepts(reply),
        ensures
            r == self.after(reply),
    {
        match (self, reply) {
            (MmapState::Object { .. }, Reply::Object { found }) => match find_exported_object(
                found,
            ) {
                Ok((vaddr, size)) => MmapState::Phys { vaddr, size },
                Err(_) => MmapState::Finished { map: DeviceMmap::Unmapped },
            },
            (MmapState::Phys { size, .. }, Reply::Translated { paddr }) => {
                let exported = exported_gem_buffer(paddr, size);
                MmapState::Finished {
                    map: match exported.device_mmap(0, 0) {
                        Ok(map) => map,
                        Err(_) => DeviceMmap::Unmapped,
                    },
                }
            },
            _ => self,
        }
    }
}

/// How the mapping of `offset` begins: with the lookup of the buffer that the offset stands for.
pub open spec fn mmap_start(offset: u64) -> MmapState {
    match handle_at(offset) {
        Some(handle) => MmapState::Object { handle },
        None => MmapState::Finished { map: DeviceMmap::Unmapped },
    }
}

/// DRM card1 device implementation.
#[derive(Debug, Clone, Copy, PartialEq, Eq)]
pub struct Card1;

/// The device number of `/dev/dri/card1`: major 0xe2, minor 1.
pub fn card1_system_device_id() -> (id: u64)
    ensures
        id == 0xe201,
{
    let id: u64 = outside::device_id_new(0xe2, 1);
    assert((0xe2u64 & 0xffff_f000) << 32 | (0xe2u64 & 0x0000_0fff) << 8 | (1u64 & 0xffff_ff00) << 12
        | (1u64 & 0x0000_00ff) == 0xe201u64) by (bit_vector);
    id
}

impl Default for Card1 {
    fn default() -> (r: Self)
        ensures
            r == Card1,
    {
        Self::new()
    }
}

impl Card1 {
    /// Creates a new /dev/dri/card1 device.
    pub fn new() -> (r: Card1)
        ensures
            r == Card1,
    {
        Self
    }

    /// Reads data from the device, which it does not support.
    pub fn read_at(&self, buf: &mut [u8], offset: u64) -> (r: Result<usize, VfsError>)
        ensures
            r == Err::<usize, VfsError>(VfsError::InvalidInput),
            final(buf)@ == old(buf)@,
    {
        Err(VfsError::InvalidInput)
    }

    /// Writes data to the device, which it does not support.
    pub fn write_at(&self, buf: &[u8], offset: u64) -> (r: Result<usize, VfsError>)
        ensures
            r == Err::<usize, VfsError>(VfsError::InvalidInput),
    {
        Err(VfsError::InvalidInput)
    }

    /// The node flags of the device: it is not to be cached (2).
    pub fn flags(&self) -> (bits: u32)
        ensures
            bits == 2,
    {
        outside::node_flags_non_cacheable()
    }

    /// Begins an ioctl whose argument lies at the user address `arg`.
    pub fn ioctl(&self, stats: &mut IoctlStats, cmd: IoctlCommand, arg: usize) -> (r: IoctlSession)
        requires
            arg != 0 && !cmd.driver ==> cmd.nr <= MAX_IOCTL_NR && cmd.size <= DATA_SIZE,
        ensures
            r.wf(),
            r.state == ioctl_start(cmd, arg, *old(stats)),
            r.arg == arg,
            r.state is CoreIn ==> r.size == cmd.size,
            r.data@ == Seq::new(DATA_SIZE as nat, |i: int| 0u8),
            *final(stats) == (IoctlStats {
                cpu_mhz_probed: old(stats).cpu_mhz_probed || r.state is Probing,
                ..*old(stats)
            }),
    {
        let mut session = IoctlSession {
            arg,
            size: 0,
            cloexec_bit: outside::o_cloexec(),
            data: zeroed(),
            state: CardState::Finished { result: Err(VfsError::InvalidData) },
        };
        if arg == 0 {
            return session;
        }
        if cmd.driver {
            session.state =
            match RknpuCmd::try_from(cmd.nr) {
                Ok(op) => rknpu_driver_ioctl(op, stats),
                Err(_) => CardState::Finished { result: Err(VfsError::NotATty) },
            };
        } else {
            session.size = cmd.size;
            session.state = CardState::CoreIn { nr: cmd.nr };
        }
        session
    }

    /// Begins to map the exported GEM buffer that is selected by `offset`.
    pub fn mmap(&self, offset: u64, length: u64) -> (r: MmapState)
        ensures
            r == mmap_start(offset),
    {
        match map_handle_from_offset(offset) {
            Some(handle) => MmapState::Object { handle },
            None => MmapState::Finished { map: DeviceMmap::Unmapped },
        }
    }
}

fn zeroed() -> (r: Vec<u8>)
    ensures
        r@ == Seq::new(DATA_SIZE as nat, |i: int| 0u8),
{
    let mut data: Vec<u8> = Vec::new();
    while data.len() < DATA_SIZE
        invariant
            data@.len() <= DATA_SIZE,
            forall|i: int| 0 <= i < data@.len() ==> data@[i] == 0,
        decreases DATA_SIZE - data@.len(),
    {
        data.push(0);
    }
    data
}

/// A driver ioctl is always accounted for: whatever it is told on its way, early failures among
/// it, it only ever comes to an end by waiting for the time of its exit, and it keeps its command
/// and the time of its entry until then.
pub proof fn law_driver_ioctl_is_accounted_for(session: IoctlSession, reply: Reply, bytes: Seq<u8>)
    requires
        session.wf(),
        session.accepts(reply, bytes),
    ensures
        match session.state {
            CardState::Probing { op } => session.next_state(reply, bytes) == (CardState::Entering {
                op,
            }),
            CardState::Entering { op } => match session.next_state(reply, bytes) {
                CardState::Running { op: op2, entry_ns, stage, request } => op2 == op && reply == (
                Reply::Clock { ns: entry_ns }),
                CardState::Leaving { op: op2, entry_ns, result } => op2 == op && reply == (
                Reply::Clock { ns: entry_ns }),
                _ => false,
            },
            CardState::Running { op, entry_ns, stage, request } => match session.next_state(
                reply,
                bytes,
            ) {
                CardState::Running { op: op2, entry_ns: entry2, stage, request } => op2 == op
                    && entry2 == entry_ns,
                CardState::Leaving { op: op2, entry_ns: entry2, result } => op2 == op && entry2
                    == entry_ns,
                _ => false,
            },
            _ => true,
        },
{
}

/// The CPU clock is probed on the first driver ioctl only: once it has been probed, no ioctl asks
/// for it at its start, and none does on its way.
pub proof fn law_clock_is_probed_once(
    cmd: IoctlCommand,
    arg: usize,
    stats: IoctlStats,
    session: IoctlSession,
    reply: Reply,
    bytes: Seq<u8>,
)
    requires
        stats.cpu_mhz_probed,
        session.wf(),
        session.accepts(reply, bytes),
    ensures
        !(ioctl_start(cmd, arg, stats) is Probing),
        !(session.next_state(reply, bytes) is Probing),
{
}

/// How many replies an ioctl can still need.
pub open spec fn replies_left(state: CardState) -> nat {
    match state {
        CardState::Probing { op } => 6,
        CardState::Entering { op } => 5,
        CardState::Running { op, entry_ns, stage, request } => match stage {
            InnerStage::CopyIn => 4,
            InnerStage::Run => 3,
            InnerStage::CopyOut => 2,
        },
        CardState::Leaving { op, entry_ns, result } => 1,
        CardState::CoreIn { nr } => 5,
        CardState::Version { field, dst, len } => 2 + field.rest(),
        CardState::PrimeObject { handle } => 4,
        CardState::PrimePhys { vaddr, size } => 3,
        CardState::PrimeFd { range, cloexec } => 2,
        CardState::CoreOut => 1,
        CardState::Finished { result } => 0,
    }
}

proof fn lemma_next_copy_moves_on(data: Seq<u8>, field: DrmField)
    ensures
        next_copy(data, field) matches VersionStep::Copy { field: stop, dst, len } ==> stop.rest()
            <= field.rest(),
    decreases field.rest(),
{
    match field.following() {
        Some(next) => lemma_next_copy_moves_on(with_length(data, field), next),
        None => {},
    }
}

/// Every ioctl comes to an end: each reply brings it closer.
pub proof fn law_ioctl_ends(session: IoctlSession, reply: Reply, bytes: Seq<u8>)
    requires
        session.wf(),
        session.accepts(reply, bytes),
    ensures
        replies_left(session.next_state(reply, bytes)) < replies_left(session.state),
{
    let arrived = received(session.data@, bytes);
    match session.state {
        CardState::CoreIn { nr } => lemma_next_copy_moves_on(with_numbers(arrived), DrmField::Name),
        CardState::Version { field, dst, len } => match field.following() {
            Some(next) => lemma_next_copy_moves_on(session.data@, next),
            None => {},
        },
        _ => {},
    }
}

/// The argument that a version query will end with, seen from the state that it is in.
pub open spec fn version_answer(state: CardState, data: Seq<u8>) -> Seq<u8> {
    match state {
        CardState::Version { field, dst, len } => match field.following() {
            Some(next) => with_lengths(data, next),
            None => data,
        },
        _ => data,
    }
}

/// A version query that succeeds answers with the version numbers and the length of every text,
/// whichever texts have to be copied on the way: its argument, once it has come in, determines
/// the answer, and every text that is copied leaves the answer as it was.
pub proof fn law_version_query_answer(session: IoctlSession, bytes: Seq<u8>)
    requires
        session.wf(),
        session.state == (CardState::CoreIn { nr: DRM_IOCTL_VERSION_NR })
            || session.state is Version,
    ensures
        ({
            let reply = Reply::Copied { left_over: 0 };
            let next = session.next_state(reply, bytes);
            let answer = version_answer(next, session.next_data(reply, bytes));
            &&& next is Version || next is CoreOut
            &&& answer == if session.state is Version {
                version_answer(session.state, session.data@)
            } else {
                with_lengths(with_numbers(received(session.data@, bytes)), DrmField::Name)
            }
        }),
{
    let arrived = received(session.data@, bytes);
    match session.state {
        CardState::Version { field, dst, len } => match field.following() {
            Some(next) => law_copies_leave_lengths_alone(session.data@, next),
            None => {},
        },
        _ => law_copies_leave_lengths_alone(with_numbers(arrived), DrmField::Name),
    }
}

/// An export asks for the buffer whose handle is in the argument; a buffer that cannot be had is
/// not found, and a full descriptor table means that memory has run out.
pub proof fn law_export_failures(
    session: IoctlSession,
    handle: u32,
    range: PhysAddrRange,
    cloexec: bool,
    bytes: Seq<u8>,
)
    ensures
        session.state == (CardState::PrimeObject { handle }) ==> forall|reply: Reply|
            reply matches Reply::Object { found } && !(found matches NpuAccess::Answered(Some(_)))
                ==> #[trigger] session.next_state(reply, bytes) == CardState::failed(
                VfsError::NotFound,
            ),
        session.state == (CardState::PrimeFd { range, cloexec }) ==> session.next_state(
            Reply::Installed { fd: None },
            bytes,
        ) == CardState::failed(VfsError::NoMemory),
{
}

/// An export that succeeds leaves its descriptor in the argument, and handle and flags as they
/// were.
pub proof fn law_export_answer(session: IoctlSession, fd: i32, bytes: Seq<u8>)
    requires
        session.wf(),
        session.state is PrimeFd,
    ensures
        ({
            let reply = Reply::Installed { fd: Some(fd) };
            let answer = session.next_data(reply, bytes);
            &&& session.next_state(reply, bytes) == CardState::CoreOut
            &&& le32(answer, 8) as i32 == fd
            &&& le32(answer, 0) == le32(session.data@, 0)
            &&& le32(answer, 4) == le32(session.data@, 4)
        }),
{
    let data = session.data@;
    let answer = put32(data, 8, fd as u32);
    law_read_back_u32(data, 8, fd as u32);
    assert((fd as u32) as i32 == fd) by (bit_vector);
    assert(forall|i: int| 0 <= i < 8 ==> answer[i] == data[i]);
}

/// An export asks for a descriptor that closes on exec exactly if the flag for that is among its
/// flags.
pub proof fn law_export_honors_cloexec(session: IoctlSession, paddr: usize, bytes: Seq<u8>)
    requires
        session.wf(),
        session.state is PrimePhys,
    ensures
        ({
            let next = session.next_state(Reply::Translated { paddr }, bytes);
            let flags = le32(session.data@, 4);
            &&& next is PrimeFd
            &&& next->PrimeFd_cloexec == (flags & session.cloexec_bit != 0)
        }),
{
}

/// The offset that a mapping query hands out for a buffer selects that buffer when the device
/// file is mapped, and what is mapped then is the memory that an export of it would share.
pub proof fn law_mapping_selects_the_buffer(
    handle: u32,
    phys: NpuAccess<Option<(u64, usize)>>,
    found: NpuAccess<Option<(usize, usize)>>,
    paddr: usize,
    session: IoctlSession,
    bytes: Seq<u8>,
)
    requires
        handle != 0,
        offset_of(handle, phys) is Ok,
        session.state == (CardState::PrimeObject { handle }),
    ensures
        ({
            let start = mmap_start(offset_of(handle, phys)->Ok_0);
            let looked_up = start.after(Reply::Object { found });
            &&& start.wants() == Some(Request::FindObject { handle })
            &&& session.next_step() == (CardStep::Wait { request: Request::FindObject { handle } })
            &&& looked_up matches MmapState::Phys { vaddr, size } ==> {
                let export = IoctlSession {
                    state: session.next_state(Reply::Object { found }, bytes),
                    ..session
                };
                &&& export.state == (CardState::PrimePhys { vaddr, size })
                &&& export.next_state(Reply::Translated { paddr }, bytes) matches CardState::PrimeFd {
                    range,
                    cloexec,
                } && looked_up.after(Reply::Translated { paddr }) == (MmapState::Finished {
                    map: DeviceMmap::Physical(range, None),
                })
            }
        }),
{
    law_offset_leads_to_handle(handle, phys);
}

/// How ioctls begin: without an argument they fail at once, and so do driver ioctls whose number
/// stands for no command; a driver ioctl is the command that its number stands for, and the first
/// one ever probes the CPU clock; any other ioctl begins by fetching its argument.
pub proof fn law_how_ioctls_begin(
    cmd: IoctlCommand,
    arg: usize,
    stats: IoctlStats,
    op: RknpuCmd,
)
    ensures
        arg == 0 ==> ioctl_start(cmd, arg, stats) == (CardState::Finished {
            result: Err(VfsError::InvalidData),
        }),
        arg != 0 && !cmd.driver ==> ioctl_start(cmd, arg, stats) == (CardState::CoreIn {
            nr: cmd.nr,
        }),
        arg != 0 && cmd.driver && (5 < cmd.nr < 0x40 || cmd.nr > 0x45) ==> ioctl_start(
            cmd,
            arg,
            stats,
        ) == (CardState::Finished { result: Err(VfsError::NotATty) }),
        arg != 0 && cmd.driver && (cmd.nr == op.number() || cmd.nr == op.number() + 0x40)
            ==> ioctl_start(cmd, arg, stats) == if stats.cpu_mhz_probed {
            CardState::Entering { op }
        } else {
            CardState::Probing { op }
        },
{
}

/// What an ioctl asks for in each state. Its argument is fetched from and brought back to the one
/// address that it was given, and it returns exactly when it is over.
pub proof fn law_what_ioctls_ask_for(session: IoctlSession)
    requires
        session.wf(),
    ensures
        match session.state {
            CardState::Probing { op } => session.next_step() == (CardStep::Wait {
                request: Request::ProbeCpuClock,
            }),
            CardState::Entering { op } => session.next_step() == (CardStep::Wait {
                request: Request::ReadClock,
            }),
            CardState::Leaving { op, entry_ns, result } => session.next_step() == (CardStep::Wait {
                request: Request::ReadClock,
            }),
            CardState::CoreIn { nr } => session.next_step() == (CardStep::Wait {
                request: Request::CopyFromUser { src: session.arg, len: session.size },
            }),
            CardState::CoreOut => session.next_step() == (CardStep::Wait {
                request: Request::CopyToUser { dst: session.arg, len: session.size },
            }),
            CardState::Version { field, dst, len } => session.next_step() == (CardStep::Wait {
                request: Request::CopyText { dst, field, len },
            }),
            CardState::PrimeObject { handle } => session.next_step() == (CardStep::Wait {
                request: Request::FindObject { handle },
            }),
            CardState::PrimePhys { vaddr, size } => session.next_step() == (CardStep::Wait {
                request: Request::VirtToPhys { vaddr },
            }),
            CardState::PrimeFd { range, cloexec } => session.next_step() == (CardStep::Wait {
                request: Request::InstallFd { range, cloexec },
            }),
            CardState::Running { op, entry_ns, stage, request } => session.next_step() == (
            CardStep::Wait { request }) && request == inner_request(
                op,
                session.arg,
                stage,
                session.data@,
            ),
            CardState::Finished { result } => session.next_step() == (CardStep::Finished { result }),
        },
        session.next_step() matches CardStep::Wait { request } ==> {
            &&& request matches Request::CopyFromUser { src, len } ==> src == session.arg
            &&& request matches Request::CopyToUser { dst, len } ==> dst == session.arg
        },
{
}

/// A driver ioctl of the device is the driver's own ioctl, step by step, between two readings of
/// the clock: what the driver asks for is asked for, what it does to the buffer is done, and what
/// it ends with is handed to the user once the time of the exit is known.
pub proof fn law_device_follows_the_driver(
    session: IoctlSession,
    reply: Reply,
    bytes: Seq<u8>,
    after: IoctlSession,
    ns: u64,
)
    requires
        session.leads_to(reply, bytes, after),
    ensures
        session.state matches CardState::Probing { op } ==> after.state == (CardState::Entering {
            op,
        }) && after.data@ == session.data@,
        session.state matches CardState::Entering { op } ==> (reply == (Reply::Clock { ns }) ==> {
            &&& after.data@ == session.data@
            &&& after.state == match inner_start(op, session.arg) {
                InnerStep::Wait { request, stage } => CardState::Running {
                    op,
                    entry_ns: ns,
                    stage,
                    request,
                },
                InnerStep::Finished { result } => CardState::Leaving { op, entry_ns: ns, result },
            }
        }),
        session.state matches CardState::Running { op, entry_ns, stage, request } ==> {
            &&& after.data@ == inner_data(op, stage, session.data@, reply, bytes)
            &&& after.state == match inner_next(op, session.arg, stage, session.data@, reply, bytes) {
                InnerStep::Wait { request, stage } => CardState::Running {
                    op,
                    entry_ns,
                    stage,
                    request,
                },
                InnerStep::Finished { result } => CardState::Leaving { op, entry_ns, result },
            }
        },
        session.state matches CardState::Leaving { op, entry_ns, result } ==> match result {
            Ok(_) => after.state == (CardState::Finished { result: Ok(0) }),
            Err(err) => after.state == (CardState::Finished { result: Err(err) }),
        },
{
}

/// A job, a creation or a synchronization that the NPU carries out, from its entry to its end: the
/// NPU is given the bytes that lie at the user's address, the bytes that it leaves are brought
/// back there, and the ioctl succeeds.
pub proof fn law_job_run(
    entering: IoctlSession,
    op: RknpuCmd,
    entry_ns: u64,
    fetching: IoctlSession,
    given: Seq<u8>,
    running: IoctlSession,
    left: Seq<u8>,
    returning: IoctlSession,
    leaving: IoctlSession,
    exit_ns: u64,
    over: IoctlSession,
)
    requires
        entering.wf(),
        entering.state == (CardState::Entering { op }),
        op == RknpuCmd::Submit || op == RknpuCmd::MemCreate || op == RknpuCmd::MemSync,
        given.len() == arg_len(op),
        left.len() == arg_len(op),
        entering.leads_to(Reply::Clock { ns: entry_ns }, Seq::empty(), fetching),
        fetching.leads_to(Reply::Copied { left_over: 0 }, given, running),
        running.leads_to(
            Reply::Done { outcome: NpuAccess::Answered(Some(())) },
            left,
            returning,
        ),
        returning.leads_to(Reply::Copied { left_over: 0 }, Seq::empty(), leaving),
        leaving.leads_to(Reply::Clock { ns: exit_ns }, Seq::empty(), over),
    ensures
        fetching.next_step() == (CardStep::Wait {
            request: Request::CopyFromUser { src: entering.arg, len: arg_len(op) },
        }),
        running.data@.take(arg_len(op) as int) == given,
        running.next_step() == (CardStep::Wait {
            request: if op == RknpuCmd::Submit {
                Request::Submit { len: 104 }
            } else if op == RknpuCmd::MemCreate {
                Request::MemCreate { len: 48 }
            } else {
                Request::MemSync { len: 32 }
            },
        }),
        returning.data@.take(arg_len(op) as int) == left,
        returning.next_step() == (CardStep::Wait {
            request: Request::CopyToUser { dst: entering.arg, len: arg_len(op) },
        }),
        leaving.state == (CardState::Leaving { op, entry_ns, result: Ok(0) }),
        over.next_step() == (CardStep::Finished { result: Ok(0) }),
{
    law_npu_is_asked_what_the_user_asks(op, entering.arg, fetching.data@, given);
    law_user_gets_what_the_npu_leaves(
        op,
        entering.arg,
        running.data@,
        NpuAccess::Answered(Some(())),
        left,
    );
}

/// What becomes of the argument of an ioctl other than the driver's, once its copy is over. A
/// failed copy is invalid data; a query for the unique name answers with the length zero; naming
/// a buffer globally is refused; and an export looks for the buffer whose handle the argument
/// begins with.
pub proof fn law_what_core_ioctls_do(
    session: IoctlSession,
    nr: u32,
    left_over: usize,
    bytes: Seq<u8>,
    after: IoctlSession,
)
    requires
        session.wf(),
        session.state == (CardState::CoreIn { nr }),
        bytes.len() == session.size,
        session.leads_to(Reply::Copied { left_over }, bytes, after),
    ensures
        left_over != 0 ==> after.state == (CardState::Finished {
            result: Err(VfsError::InvalidData),
        }) && after.data@ == session.data@,
        left_over == 0 && nr == 0 ==> after.state is Version || after.state is CoreOut,
        left_over == 0 && nr == 1 ==> {
            &&& after.state == CardState::CoreOut
            &&& le64(after.data@, 0) == 0
            &&& forall|i: int|
                8 <= i < bytes.len() ==> #[trigger] after.data@[i] == bytes[i]
            &&& forall|i: int|
                8 <= i < DATA_SIZE && bytes.len() <= i ==> #[trigger] after.data@[i]
                    == session.data@[i]
        },
        left_over == 0 && nr == 10 ==> after.state == (CardState::Finished {
            result: Err(VfsError::NotFound),
        }),
        left_over == 0 && nr == 0x2d ==> {
            &&& after.data@.take(bytes.len() as int) == bytes
            &&& after.data@.skip(bytes.len() as int) == session.data@.skip(bytes.len() as int)
            &&& after.state == (CardState::PrimeObject { handle: le32(after.data@, 0) })
        },
{
    law_received_bytes_lie_first(session.data@, bytes);
    let arrived = received(session.data@, bytes);
    law_read_back_u64(arrived, 0, 0);
    if left_over == 0 && nr == 1 {
        assert forall|i: int| 8 <= i < bytes.len() implies #[trigger] after.data@[i] == bytes[i] by {
            assert(arrived[i] == bytes[i]);
        }
        assert forall|i: int| 8 <= i < DATA_SIZE && bytes.len() <= i implies #[trigger] after.data@[i]
            == session.data@[i] by {
            assert(arrived[i] == session.data@[i]);
        }
    }
}

/// An export that goes well, from the argument to the end: the buffer whose handle lies in bytes
/// 0 to 3 of the argument is looked up, its address is translated, the memory from there on as
/// long as the buffer is installed as a file, and the argument goes back with the descriptor in
/// bytes 8 to 11 and otherwise as it came.
pub proof fn law_export_run(
    fetching: IoctlSession,
    bytes: Seq<u8>,
    finding: IoctlSession,
    vaddr: usize,
    size: usize,
    translating: IoctlSession,
    paddr: usize,
    installing: IoctlSession,
    fd: i32,
    returning: IoctlSession,
    left_over: usize,
    over: IoctlSession,
)
    requires
        fetching.wf(),
        fetching.state == (CardState::CoreIn { nr: 0x2d }),
        bytes.len() == fetching.size,
        bytes.len() >= 12,
        paddr + size <= usize::MAX,
        fetching.leads_to(Reply::Copied { left_over: 0 }, bytes, finding),
        finding.leads_to(
            Reply::Object { found: NpuAccess::Answered(Some((vaddr, size))) },
            Seq::empty(),
            translating,
        ),
        translating.leads_to(Reply::Translated { paddr }, Seq::empty(), installing),
        installing.leads_to(Reply::Installed { fd: Some(fd) }, Seq::empty(), returning),
        returning.leads_to(Reply::Copied { left_over }, Seq::empty(), over),
    ensures
        finding.next_step() == (CardStep::Wait {
            request: Request::FindObject { handle: le32(bytes, 0) },
        }),
        translating.next_step() == (CardStep::Wait { request: Request::VirtToPhys { vaddr } }),
        ({
            let step = installing.next_step();
            &&& step matches CardStep::Wait { request }
            &&& request matches Request::InstallFd { range, cloexec }
            &&& range.start == paddr
            &&& range.end - range.start == size
            &&& cloexec == (le32(bytes, 4) & fetching.cloexec_bit != 0)
        }),
        returning.next_step() == (CardStep::Wait {
            request: Request::CopyToUser { dst: fetching.arg, len: fetching.size },
        }),
        le32(returning.data@, 8) as i32 == fd,
        forall|i: int|
            0 <= i < bytes.len() && !(8 <= i < 12) ==> #[trigger] returning.data@[i] == bytes[i],
        over.next_step() == (CardStep::Finished {
            result: if left_over == 0 {
                Ok(0)
            } else {
                Err(VfsError::InvalidData)
            },
        }),
{
    law_what_core_ioctls_do(fetching, 0x2d, 0, bytes, finding);
    law_received_bytes_lie_first(fetching.data@, bytes);
    let data = finding.data@;
    assert(forall|i: int| 0 <= i < bytes.len() ==> data[i] == bytes[i]);
    assert(data[0] == bytes[0] && data[1] == bytes[1] && data[2] == bytes[2] && data[3]
        == bytes[3]);
    assert(data[4] == bytes[4] && data[5] == bytes[5] && data[6] == bytes[6] && data[7]
        == bytes[7]);
    law_read_back_u32(data, 8, fd as u32);
    assert((fd as u32) as i32 == fd) by (bit_vector);
}

/// A version query copies the texts that the user has buffers for, and no others, in their order,
/// each to the 64-bit address that the argument held for it when it came in, and as much of it as
/// there is room for there. `arrived` is the argument as it came in, and `session` the query when
/// it has just come in or when a text has just been copied.
pub proof fn law_version_query_copies(
    session: IoctlSession,
    arrived: Seq<u8>,
    bytes: Seq<u8>,
    after: IoctlSession,
)
    requires
        session.wf(),
        session.leads_to(Reply::Copied { left_over: 0 }, bytes, after),
        match session.state {
            CardState::CoreIn { nr } => nr == 0 && bytes.len() == session.size && arrived
                == received(session.data@, bytes),
            CardState::Version { field, dst, len } => arrived.len() == DATA_SIZE && forall|i: int|
                field.at() + 8 <= i < DATA_SIZE ==> #[trigger] session.data@[i] == arrived[i],
            _ => false,
        },
    ensures
        ({
            let done = match session.state {
                CardState::Version { field, dst, len } => field.rest() as int,
                _ => 3,
            };
            match after.state {
                CardState::Version { field, dst, len } => {
                    &&& field.rest() < done
                    &&& wants_text(arrived, field)
                    &&& dst == le64(arrived, field.at() + 8)
                    &&& len <= le64(arrived, field.at())
                    &&& len <= c_len(field.text())
                    &&& len == le64(arrived, field.at()) || len == c_len(field.text())
                    &&& forall|f: DrmField|
                        field.rest() < f.rest() < done ==> !#[trigger] wants_text(arrived, f)
                    &&& forall|i: int|
                        field.at() + 8 <= i < DATA_SIZE ==> #[trigger] after.data@[i] == arrived[i]
                },
                CardState::CoreOut => forall|f: DrmField|
                    f.rest() < done ==> !#[trigger] wants_text(arrived, f),
                _ => false,
            }
        }),
{
    match session.state {
        CardState::Version { field, dst, len } => {
            match field.following() {
                Some(next) => {
                    lemma_copies_from(session.data@, arrived, next);
                },
                None => {},
            }
        },
        _ => {
            law_received_bytes_lie_first(session.data@, bytes);
            law_numbers_lie_first(arrived);
            lemma_copies_from(with_numbers(arrived), arrived, DrmField::Name);
        },
    }
}

proof fn lemma_copies_from(data: Seq<u8>, arrived: Seq<u8>, field: DrmField)
    requires
        data.len() == DATA_SIZE,
        arrived.len() == DATA_SIZE,
        forall|i: int| field.at() <= i < DATA_SIZE ==> #[trigger] data[i] == arrived[i],
    ensures
        match next_copy(data, field) {
            VersionStep::Copy { field: stop, dst, len } => {
                &&& stop.rest() <= field.rest()
                &&& wants_text(arrived, stop)
                &&& dst == le64(arrived, stop.at() + 8)
                &&& len <= le64(arrived, stop.at())
                &&& len <= c_len(stop.text())
                &&& len == le64(arrived, stop.at()) || len == c_len(stop.text())
                &&& forall|f: DrmField|
                    stop.rest() < f.rest() <= field.rest() ==> !#[trigger] wants_text(arrived, f)
                &&& forall|i: int|
                    stop.at() + 8 <= i < DATA_SIZE ==> #[trigger] until_copy(data, field)[i]
                        == arrived[i]
            },
            VersionStep::Complete => forall|f: DrmField|
                f.rest() <= field.rest() ==> !#[trigger] wants_text(arrived, f),
        },
{
    law_texts_go_to_their_buffers(data, field);
    assert forall|f: DrmField| f.rest() <= field.rest() implies #[trigger] wants_text(arrived, f)
        == wants_text(data, f) && le64(arrived, f.at()) == le64(data, f.at()) && le64(
        arrived,
        f.at() + 8,
    ) == le64(data, f.at() + 8) by {
        lemma_same_le64(data, arrived, f.at());
        lemma_same_le64(data, arrived, f.at() + 8);
    }
    match next_copy(data, field) {
        VersionStep::Copy { field: stop, dst, len } => {
            assert(wants_text(data, stop));
            assert(wants_text(arrived, stop));
            assert forall|i: int| stop.at() + 8 <= i < DATA_SIZE implies #[trigger] until_copy(
                data,
                field,
            )[i] == arrived[i] by {
                law_texts_to_come_stay_as_they_were(data, field, i);
                lemma_stop_is_not_before(data, field);
            }
        },
        VersionStep::Complete => {},
    }
}

proof fn lemma_stop_is_not_before(data: Seq<u8>, field: DrmField)
    ensures
        next_copy(data, field) matches VersionStep::Copy { field: stop, dst, len } ==> stop.at()
            >= field.at(),
    decreases field.rest(),
{
    match field.following() {
        Some(next) => lemma_stop_is_not_before(with_length(data, field), next),
        None => {},
    }
}

/// A text that cannot be copied ends a version query with invalid data, and so does an argument
/// that cannot be brought back; an argument that is brought back ends an ioctl well.
pub proof fn law_how_core_ioctls_end(
    session: IoctlSession,
    left_over: usize,
    bytes: Seq<u8>,
    after: IoctlSession,
)
    requires
        session.leads_to(Reply::Copied { left_over }, bytes, after),
    ensures
        session.state is Version && left_over != 0 ==> after.state == (CardState::Finished {
            result: Err(VfsError::InvalidData),
        }),
        session.state == CardState::CoreOut ==> after.data@ == session.data@ && after.state == (
        CardState::Finished {
            result: if left_over == 0 {
                Ok(0)
            } else {
                Err(VfsError::InvalidData)
            },
        }),
{
}

/// Mapping the device file, from beginning to end. An offset that is no multiple of 4096, or that
/// stands for handle zero or for one beyond 32 bits, maps nothing; any other asks for the buffer
/// with that handle, and, if the NPU knows it, maps the memory from its physical address on, as
/// long as the buffer is.
pub proof fn law_mapping_run(
    offset: u64,
    handle: u32,
    found: NpuAccess<Option<(usize, usize)>>,
    vaddr: usize,
    size: usize,
    paddr: usize,
)
    requires
        paddr + size <= usize::MAX,
    ensures
        offset % 4096 != 0 || offset / 4096 == 0 || offset / 4096 > u32::MAX ==> mmap_start(offset)
            == (MmapState::Finished { map: DeviceMmap::Unmapped }),
        handle != 0 && offset == handle * 4096 ==> {
            let start = mmap_start(offset);
            let looked_up = start.after(Reply::Object { found });
            &&& start.wants() == Some(Request::FindObject { handle })
            &&& start.accepts(Reply::Object { found })
            &&& !(found matches NpuAccess::Answered(Some(_))) ==> looked_up == (
            MmapState::Finished { map: DeviceMmap::Unmapped })
            &&& found == NpuAccess::Answered(Some((vaddr, size))) ==> {
                let end = looked_up.after(Reply::Translated { paddr });
                &&& looked_up.wants() == Some(Request::VirtToPhys { vaddr })
                &&& looked_up.accepts(Reply::Translated { paddr })
                &&& end matches MmapState::Finished { map }
                &&& map matches DeviceMmap::Physical(range, attributes)
                &&& range.start == paddr
                &&& range.end - range.start == size
                &&& attributes is None
                &&& end.wants() is None
            }
        },
{
}

/// An ioctl can go on with every answer to its request, but for an argument of an ioctl or of an
/// action that there is none of, and an address at which the buffer would pass the end of memory.
pub proof fn law_answers_that_ioctls_take(session: IoctlSession, reply: Reply, bytes: Seq<u8>)
    requires
        session.wf(),
        session.next_step() matches CardStep::Wait { request } && request.answered_by(reply, bytes),
    ensures
        match session.state {
            CardState::Running { op, entry_ns, stage, request } => op == RknpuCmd::Action && stage
                == InnerStage::CopyIn && reply == (Reply::Copied { left_over: 0 }) && le32(bytes, 0)
                >= 26 || session.accepts(reply, bytes),
            CardState::CoreIn { nr } => reply == (Reply::Copied { left_over: 0 }) && nr != 0 && nr
                != 1 && nr != 10 && nr != 0x2d || session.accepts(reply, bytes),
            CardState::PrimePhys { vaddr, size } => (reply matches Reply::Translated { paddr }
                && paddr + size > usize::MAX) || session.accepts(reply, bytes),
            _ => session.accepts(reply, bytes),
        },
{
}

} // verus!
