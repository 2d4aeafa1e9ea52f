//! Bringing the NPU up: its register windows, its power domains, and its clocks.
use vstd::prelude::*;

verus! {

/// The size of a page.
pub const PAGE_SIZE: usize = 0x1000;

/// The size of a register region that does not say it.
pub const DEFAULT_REG_SIZE: usize = 0x1000;

/// The pages that have to be mapped to reach a register region.
#[derive(Debug, Clone, Copy, PartialEq, Eq)]
pub struct RegWindow {
    /// The address of the first page.
    pub start: usize,
    /// The size of the pages together.
    pub size: usize,
    /// Where the region begins in them.
    pub offset: usize,
}

/// The size of a register region.
pub open spec fn reg_size(size: Option<usize>) -> usize {
    match size {
        Some(size) => size,
        None => DEFAULT_REG_SIZE,
    }
}

/// Whether a register region, rounded up to whole pages, ends within the address space.
pub open spec fn reg_fits(address: usize, size: Option<usize>) -> bool {
    address + reg_size(size) + PAGE_SIZE <= usize::MAX
}

/// `address` rounded down to a page.
pub open spec fn page_floor(address: int) -> int {
    address / (PAGE_SIZE as int) * PAGE_SIZE
}

/// `address` rounded up to a page.
pub open spec fn page_ceiling(address: int) -> int {
    (address + PAGE_SIZE - 1) / (PAGE_SIZE as int) * PAGE_SIZE
}

/// The window of a register region: from the page in which it begins to the end of the page in
/// which it ends.
pub open spec fn window_of(address: usize, size: Option<usize>) -> RegWindow {
    RegWindow {
        start: page_floor(address as int) as usize,
        size: (page_ceiling(address + reg_size(size)) - page_floor(address as int)) as usize,
        offset: (address - page_floor(address as int)) as usize,
    }
}

/// The window of the register region of `size` bytes at `address`.
pub fn reg_window(address: usize, size: Option<usize>) -> (r: RegWindow)
    requires
        reg_fits(address, size),
    ensures
        r == window_of(address, size),
{
    let len: usize = match size {
        Some(size) => size,
        None => DEFAULT_REG_SIZE,
    };
    let end: usize = address + len;
    let start: usize = address / PAGE_SIZE * PAGE_SIZE;
    let offset: usize = address - start;
    let end: usize = (end + PAGE_SIZE - 1) / PAGE_SIZE * PAGE_SIZE;
    RegWindow { start, size: end - start, offset }
}

/// A window consists of whole pages, holds its region, and has no page to spare on either side.
pub proof fn law_window_fits_region(address: usize, size: Option<usize>)
    requires
        reg_fits(address, size),
    ensures
        ({
            let w = window_of(address, size);
            &&& w.start % PAGE_SIZE == 0
            &&& w.size % PAGE_SIZE == 0
            &&& w.start + w.offset == address
            &&& address + reg_size(size) <= w.start + w.size
            &&& w.offset < PAGE_SIZE
            &&& w.start + w.size < address + reg_size(size) + PAGE_SIZE
        }),
{
}

/// A clock, by who sets it and by its number there.
#[derive(Debug, Clone, Copy, PartialEq, Eq, Structural)]
pub enum ClockId {
    /// The platform firmware.
    Scmi { id: u32 },
    /// The clock and reset unit.
    Cru { id: u32 },
}

/// Something that has to be done with a clock.
#[derive(Debug, Clone, Copy, PartialEq, Eq, Structural)]
pub enum ClockRequest {
    /// Read its rate.
    Read { clock: ClockId },
    /// Change its rate.
    Change { clock: ClockId, hz: u64 },
}

/// What came of it.
#[derive(Debug, Clone, Copy, PartialEq, Eq)]
pub enum ClockReply {
    /// The rate, if it could be read.
    Rate { hz: Option<u64> },
    /// Whether the rate was changed.
    Changed { done: bool },
}

/// What came of raising a clock.
#[derive(Debug, Clone, Copy, PartialEq, Eq)]
pub enum RaiseOutcome {
    /// It was set; these are the rates before and after. One that cannot be read counts as zero.
    Raised { before: u64, after: u64 },
    /// It could not be set.
    Refused,
}

/// How far the raising of a clock has come: its rate is read, it is set, and, if that worked, its
/// rate is read again.
#[derive(Debug, Clone, Copy, PartialEq, Eq)]
pub enum RaiseState {
    Before,
    Setting { before: u64 },
    After { before: u64 },
    Finished { outcome: RaiseOutcome },
}

/// A rate as it is reported.
pub open spec fn reported(hz: Option<u64>) -> u64 {
    match hz {
        Some(hz) => hz,
        None => 0,
    }
}

impl RaiseState {
    /// What is done next with `clock`, which is to be raised to `hz`.
    pub open spec fn wants(self, clock: ClockId, hz: u64) -> Option<ClockRequest> {
        match self {
            RaiseState::Before => Some(ClockRequest::Read { clock }),
            RaiseState::Setting { before } => Some(ClockRequest::Change { clock, hz }),
            RaiseState::After { before } => Some(ClockRequest::Read { clock }),
            RaiseState::Finished { outcome } => None,
        }
    }

    /// What is done next with `clock`, which is to be raised to `hz`; `None` when that is over.
    pub fn request(self, clock: ClockId, hz: u64) -> (r: Option<ClockRequest>)
        ensures
            r == self.wants(clock, hz),
    {
        match self {
            RaiseState::Before => Some(ClockRequest::Read { clock }),
            RaiseState::Setting { .. } => Some(ClockRequest::Change { clock, hz }),
            RaiseState::After { .. } => Some(ClockRequest::Read { clock }),
            RaiseState::Finished { .. } => None,
        }
    }

    /// Whether `reply` can come of what is done next.
    pub open spec fn accepts(self, reply: ClockReply) -> bool {
        match self {
            RaiseState::Before => reply is Rate,
            RaiseState::Setting { before } => reply is Changed,
            RaiseState::After { before } => reply is Rate,
            RaiseState::Finished { outcome } => false,
        }
    }

    /// The state after a reply.
    pub open spec fn after(self, reply: ClockReply) -> RaiseState {
        match (self, reply) {
            (RaiseState::Before, ClockReply::Rate { hz }) => RaiseState::Setting {
                before: reported(hz),
            },
            (RaiseState::Setting { before }, ClockReply::Changed { done }) => if done {
                RaiseState::After { before }
            } else {
                RaiseState::Finished { outcome: RaiseOutcome::Refused }
            },
            (RaiseState::After { before }, ClockReply::Rate { hz }) => RaiseState::Finished {
                outcome: RaiseOutcome::Raised { before, after: reported(hz) },
            },
            _ => self,
        }
    }

    /// Goes on after a reply.
    pub fn resume(self, reply: ClockReply) -> (r: RaiseState)
        requires
            self.accepts(reply),
        ensures
            r == self.after(reply),
    {
        match (self, reply) {
            (RaiseState::Before, ClockReply::Rate { hz }) => RaiseState::Setting {
                before: rate_or_zero(hz),
            },
            (RaiseState::Setting { before }, ClockReply::Changed { done }) => if done {
                RaiseState::After { before }
            } else {
                RaiseState::Finished { outcome: RaiseOutcome::Refused }
            },
            (RaiseState::After { before }, ClockReply::Rate { hz }) => RaiseState::Finished {
                outcome: RaiseOutcome::Raised { before, after: rate_or_zero(hz) },
            },
            _ => self,
        }
    }
}

fn rate_or_zero(hz: Option<u64>) -> (r: u64)
    ensures
        r == reported(hz),
{
    match hz {
        Some(hz) => hz,
        None => 0,
    }
}

/// The rate that the big CPU clusters are raised to.
pub const A76_MAX_HZ: u64 = 2_400_000_000;

/// How many big CPU clusters there are.
pub const A76_CLUSTERS: usize = 2;

/// The clock of a big CPU cluster.
pub open spec fn cluster_clock(cluster: usize) -> ClockId {
    ClockId::Scmi { id: (cluster + 2) as u32 }
}

/// How far the raising of the big CPU clusters has come: one after the other, whatever comes of
/// each.
#[derive(Debug, Clone, Copy, PartialEq, Eq)]
pub struct ClusterRaise {
    /// The cluster whose turn it is, `A76_CLUSTERS` when all have had theirs.
    pub cluster: usize,
    /// How far it has come.
    pub raise: RaiseState,
}

/// Begins to raise the big CPU clusters to their highest rate.
pub fn set_cpu_clusters_max() -> (r: ClusterRaise)
    ensures
        r == (ClusterRaise { cluster: 0, raise: RaiseState::Before }),
{
    ClusterRaise { cluster: 0, raise: RaiseState::Before }
}

impl ClusterRaise {
    /// Whether this is a state that raising the clusters can be in.
    pub open spec fn wf(self) -> bool {
        self.cluster <= A76_CLUSTERS && !(self.raise is Finished)
    }

    /// What is done next.
    pub open spec fn wants(self) -> Option<ClockRequest> {
        if self.cluster < A76_CLUSTERS {
            self.raise.wants(cluster_clock(self.cluster), A76_MAX_HZ)
        } else {
            None
        }
    }

    /// The name of the cluster whose turn it is.
    pub fn name(self) -> (r: &'static str)
        ensures
            r@ == if self.cluster == 0 {
                "A76_B0"@
            } else {
                "A76_B1"@
            },
    {
        if self.cluster == 0 {
            "A76_B0"
        } else {
            "A76_B1"
        }
    }

    /// What is done next, `None` when all clusters have had their turn.
    pub fn request(self) -> (r: Option<ClockRequest>)
        requires
            self.wf(),
        ensures
            r == self.wants(),
    {
        if self.cluster < A76_CLUSTERS {
            self.raise.request(ClockId::Scmi { id: self.cluster as u32 + 2 }, A76_MAX_HZ)
        } else {
            None
        }
    }

    /// The state after a reply.
    pub open spec fn after(self, reply: ClockReply) -> ClusterRaise {
        match self.raise.after(reply) {
            RaiseState::Finished { outcome } => ClusterRaise {
                cluster: (self.cluster + 1) as usize,
                raise: RaiseState::Before,
            },
            raise => ClusterRaise { cluster: self.cluster, raise },
        }
    }

    /// Goes on after a reply. Gives what came of the cluster whose turn ends with it.
    pub fn resume(&mut self, reply: ClockReply) -> (r: Option<RaiseOutcome>)
        requires
            old(self).wf(),
            old(self).cluster < A76_CLUSTERS,
            old(self).raise.accepts(reply),
        ensures
            *final(self) == old(self).after(reply),
            final(self).wf(),
            r == match old(self).raise.after(reply) {
                RaiseState::Finished { outcome } => Some(outcome),
                _ => None,
            },
    {
        self.raise = self.raise.resume(reply);
        match self.raise {
            RaiseState::Finished { outcome } => {
                self.cluster = self.cluster + 1;
                self.raise = RaiseState::Before;
                Some(outcome)
            },
            _ => None,
        }
    }
}

/// A cluster that cannot be raised does not keep the other one from being raised.
pub proof fn law_clusters_are_independent(state: ClusterRaise, before: u64)
    requires
        state.wf(),
        state.raise == (RaiseState::Setting { before }),
    ensures
        state.after(ClockReply::Changed { done: false }) == (ClusterRaise {
            cluster: (state.cluster + 1) as usize,
            raise: RaiseState::Before,
        }),
{
}

/// The power domains of the NPU, in the order in which they are switched on.
pub const NPU_POWER_DOMAINS: [usize; 4] = [9, 8, 10, 11];

/// The rate that the NPU's compute clock, which the firmware sets, is raised to.
pub const NPU_MAX_HZ: u64 = 1_000_000_000;

/// The NPU's data clock.
pub const CLK_NPU_DSU0: u32 = 304;

/// The rate that the NPU's data clock is raised to.
pub const NPU_DSU0_MAX_HZ: u64 = 1_188_000_000;

/// The bus and control clocks of the NPU, whose rates are only looked at.
pub const NPU_CLK_SNAPSHOT: [u32; 5] = [301, 290, 292, 303, 305];

/// Something that has to be done to bring the NPU up.
#[derive(Debug, Clone, Copy, PartialEq, Eq)]
pub enum ProbeRequest {
    /// Map the pages of a register window.
    MapPages { start: usize, size: usize },
    /// Switch a power domain on.
    PowerOn { domain: usize },
    /// Show which protocols the platform firmware offers.
    ShowProtocols,
    /// Look for the compute clock in the device tree.
    FindClock,
    /// Do something with a clock.
    Clock { request: ClockRequest },
    /// Register the device, with the addresses of its registers.
    Register,
}

/// What came of it; `E` is the kind of the errors of mapping.
#[derive(Debug, PartialEq, Eq)]
pub enum ProbeReply<E> {
    /// The address of the mapped pages, or why they could not be mapped.
    Mapped { base: Result<usize, E> },
    /// It is done.
    Done,
    /// Whether the compute clock is there and, if so, its number, if it has one.
    ClockFound { clock: Option<Option<u32>> },
    /// What came of a clock request.
    Clock { reply: ClockReply },
}

/// How far the bring-up has come.
#[derive(Debug, PartialEq, Eq)]
pub enum ProbeState<E> {
    /// A register window is mapped.
    Mapping { index: usize },
    /// A power domain is switched on.
    Powering { index: usize },
    /// The protocols of the firmware are shown.
    Protocols,
    /// The compute clock is looked for.
    Finding,
    /// A clock is raised.
    Raising { clock: ClockId, hz: u64, raise: RaiseState },
    /// The rate of a clock is looked at.
    Snapshot { index: usize },
    /// The device is registered.
    Registering,
    /// It is over: the device is registered, or its registers could not be mapped.
    Finished { result: Result<(), E> },
}

/// The bring-up of the NPU.
#[derive(Debug)]
pub struct NpuProbe<E> {
    /// Its register windows.
    pub windows: Vec<RegWindow>,
    /// The addresses of the registers that have been mapped.
    pub bases: Vec<usize>,
    /// How far it has come.
    pub state: ProbeState<E>,
}

impl<E> ProbeState<E> {
    /// How a clock is raised that is raised after the registers are mapped.
    pub open spec fn raising(clock: ClockId, hz: u64) -> ProbeState<E> {
        ProbeState::Raising { clock, hz, raise: RaiseState::Before }
    }

    /// The raising of the data clock.
    pub open spec fn raising_data_clock() -> ProbeState<E> {
        Self::raising(ClockId::Cru { id: CLK_NPU_DSU0 }, NPU_DSU0_MAX_HZ)
    }
}

impl<E> NpuProbe<E> {
    /// Whether this is a bring-up as `probe` and `resume` leave it: as many registers are mapped
    /// as windows have been gone through.
    pub open spec fn wf(self) -> bool {
        match self.state {
            ProbeState::Mapping { index } => index < self.windows.len() && self.bases@.len()
                == index,
            ProbeState::Powering { index } => self.mapped() && index < NPU_POWER_DOMAINS@.len(),
            ProbeState::Raising { clock, hz, raise } => self.mapped() && !(raise is Finished),
            ProbeState::Snapshot { index } => self.mapped() && index < NPU_CLK_SNAPSHOT@.len(),
            ProbeState::Finished { result } => result is Ok ==> self.mapped(),
            _ => self.mapped(),
        }
    }

    /// Whether all registers are mapped.
    pub open spec fn mapped(self) -> bool {
        self.bases@.len() == self.windows@.len()
    }

    /// What is done next.
    pub open spec fn wants(self) -> Option<ProbeRequest> {
        match self.state {
            ProbeState::Mapping { index } => {
                let window = self.windows@[index as int];
                Some(ProbeRequest::MapPages { start: window.start, size: window.size })
            },
            ProbeState::Powering { index } => Some(
                ProbeRequest::PowerOn { domain: NPU_POWER_DOMAINS@[index as int] },
            ),
            ProbeState::Protocols => Some(ProbeRequest::ShowProtocols),
            ProbeState::Finding => Some(ProbeRequest::FindClock),
            ProbeState::Raising { clock, hz, raise } => match raise.wants(clock, hz) {
                Some(request) => Some(ProbeRequest::Clock { request }),
                None => None,
            },
            ProbeState::Snapshot { index } => Some(
                ProbeRequest::Clock {
                    request: ClockRequest::Read {
                        clock: ClockId::Cru { id: NPU_CLK_SNAPSHOT@[index as int] },
                    },
                },
            ),
            ProbeState::Registering => Some(ProbeRequest::Register),
            ProbeState::Finished { result } => None,
        }
    }

    /// Whether `reply` can come of what is done next. A mapped address is one from which the
    /// registers can be reached.
    pub open spec fn accepts(self, reply: ProbeReply<E>) -> bool {
        match self.state {
            ProbeState::Mapping { index } => {
                &&& reply matches ProbeReply::Mapped { base }
                &&& base matches Ok(base) ==> base + self.windows@[index as int].offset
                    <= usize::MAX
            },
            ProbeState::Finding => reply is ClockFound,
            ProbeState::Raising { clock, hz, raise } => reply matches ProbeReply::Clock {
                reply: answer,
            } && raise.accepts(answer),
            ProbeState::Snapshot { index } => reply matches ProbeReply::Clock { reply: answer }
                && answer is Rate,
            ProbeState::Finished { result } => false,
            _ => reply is Done,
        }
    }

    /// The state after a reply.
    pub open spec fn next_state(self, reply: ProbeReply<E>) -> ProbeState<E> {
        match (self.state, reply) {
            (ProbeState::Mapping { index }, ProbeReply::Mapped { base: Err(err) }) => {
                ProbeState::Finished { result: Err(err) }
            },
            (ProbeState::Mapping { index }, ProbeReply::Mapped { base: Ok(_) }) => if index + 1 < self.windows@.len() {
                ProbeState::Mapping { index: (index + 1) as usize }
            } else {
                ProbeState::Powering { index: 0 }
            },
            (ProbeState::Powering { index }, _) => if index + 1 < NPU_POWER_DOMAINS@.len() {
                ProbeState::Powering { index: (index + 1) as usize }
            } else {
                ProbeState::Protocols
            },
            (ProbeState::Protocols, _) => ProbeState::Finding,
            (ProbeState::Finding, ProbeReply::ClockFound { clock }) => match clock {
                Some(Some(id)) => ProbeState::raising(ClockId::Scmi { id }, NPU_MAX_HZ),
                Some(None) => ProbeState::raising(ClockId::Scmi { id: 0 }, NPU_MAX_HZ),
                None => ProbeState::raising_data_clock(),
            },
            (
                ProbeState::Raising { clock, hz, raise },
                ProbeReply::Clock { reply: answer },
            ) => match raise.after(answer) {
                RaiseState::Finished { outcome } => if clock is Scmi {
                    ProbeState::raising_data_clock()
                } else {
                    ProbeState::Snapshot { index: 0 }
                },
                raise => ProbeState::Raising { clock, hz, raise },
            },
            (ProbeState::Snapshot { index }, _) => if index + 1 < NPU_CLK_SNAPSHOT@.len() {
                ProbeState::Snapshot { index: (index + 1) as usize }
            } else {
                ProbeState::Registering
            },
            (ProbeState::Registering, _) => ProbeState::Finished { result: Ok(()) },
            _ => self.state,
        }
    }

    /// The mapped addresses after a reply.
    pub open spec fn next_bases(self, reply: ProbeReply<E>) -> Seq<usize> {
        match (self.state, reply) {
            (ProbeState::Mapping { index }, ProbeReply::Mapped { base: Ok(base) }) => {
                self.bases@.push((base + self.windows@[index as int].offset) as usize)
            },
            _ => self.bases@,
        }
    }

    /// Begins to bring up an NPU with the given register regions, each an address and, if it is
    /// known, a size.
    pub fn probe(regs: &[(usize, Option<usize>)]) -> (r: Self)
        requires
            forall|i: int|
                0 <= i < regs@.len() ==> reg_fits(#[trigger] regs@[i].0, regs@[i].1),
        ensures
            r.wf(),
            r.windows@ == regs@.map_values(|reg: (usize, Option<usize>)| window_of(reg.0, reg.1)),
            r.bases@ == Seq::<usize>::empty(),
            r.state == if regs@.len() > 0 {
                ProbeState::<E>::Mapping { index: 0 }
            } else {
                ProbeState::<E>::Powering { index: 0 }
            },
    {
        let mut windows: Vec<RegWindow> = Vec::new();
        let mut i: usize = 0;
        while i < regs.len()
            invariant
                i <= regs@.len(),
                windows@.len() == i,
                forall|k: int|
                    0 <= k < regs@.len() ==> reg_fits(#[trigger] regs@[k].0, regs@[k].1),
                forall|k: int|
                    0 <= k < i ==> #[trigger] windows@[k] == window_of(regs@[k].0, regs@[k].1),
            decreases regs@.len() - i,
        {
            let reg = regs[i];
            assert(reg_fits(regs@[i as int].0, regs@[i as int].1));
            windows.push(reg_window(reg.0, reg.1));
            i = i + 1;
        }
        let state = if regs.len() > 0 {
            ProbeState::Mapping { index: 0 }
        } else {
            ProbeState::Powering { index: 0 }
        };
        NpuProbe { windows, bases: Vec::new(), state }
    }

    /// What is done next, `None` when the bring-up is over.
    pub fn request(&self) -> (r: Option<ProbeRequest>)
        requires
            self.wf(),
        ensures
            r == self.wants(),
    {
        match &self.state {
            ProbeState::Mapping { index } => {
                let window = self.windows[*index];
                Some(ProbeRequest::MapPages { start: window.start, size: window.size })
            },
            ProbeState::Powering { index } => Some(
                ProbeRequest::PowerOn { domain: NPU_POWER_DOMAINS[*index] },
            ),
            ProbeState::Protocols => Some(ProbeRequest::ShowProtocols),
            ProbeState::Finding => Some(ProbeRequest::FindClock),
            ProbeState::Raising { clock, hz, raise } => match raise.request(*clock, *hz) {
                Some(request) => Some(ProbeRequest::Clock { request }),
                None => None,
            },
            ProbeState::Snapshot { index } => Some(
                ProbeRequest::Clock {
                    request: ClockRequest::Read {
                        clock: ClockId::Cru { id: NPU_CLK_SNAPSHOT[*index] },
                    },
                },
            ),
            ProbeState::Registering => Some(ProbeRequest::Register),
            ProbeState::Finished { .. } => None,
        }
    }

    /// Goes on after a reply.
    pub fn resume(&mut self, reply: ProbeReply<E>)
        requires
            old(self).wf(),
            old(self).accepts(reply),
        ensures
            final(self).wf(),
            final(self).windows@ == old(self).windows@,
            final(self).state == old(self).next_state(reply),
            final(self).bases@ == old(self).next_bases(reply),
    {
        let next = match (&self.state, reply) {
            (ProbeState::Mapping { index }, ProbeReply::Mapped { base }) => match base {
                Err(err) => ProbeState::Finished { result: Err(err) },
                Ok(base) => {
                    self.bases.push(base + self.windows[*index].offset);
                    if *index + 1 < self.windows.len() {
                        ProbeState::Mapping { index: *index + 1 }
                    } else {
                        ProbeState::Powering { index: 0 }
                    }
                },
            },
            (ProbeState::Powering { index }, _) => if *index + 1 < NPU_POWER_DOMAINS.len() {
                ProbeState::Powering { index: *index + 1 }
            } else {
                ProbeState::Protocols
            },
            (ProbeState::Protocols, _) => ProbeState::Finding,
            (ProbeState::Finding, ProbeReply::ClockFound { clock }) => match clock {
                Some(select) => {
                    let id: u32 = match select {
                        Some(id) => id,
                        None => 0,
                    };
                    ProbeState::Raising {
                        clock: ClockId::Scmi { id },
                        hz: NPU_MAX_HZ,
                        raise: RaiseState::Before,
                    }
                },
                None => raise_data_clock(),
            },
            (ProbeState::Raising { clock, hz, raise }, ProbeReply::Clock { reply: answer }) => {
                match raise.resume(answer) {
                    RaiseState::Finished { .. } => match clock {
                        ClockId::Scmi { .. } => raise_data_clock(),
                        ClockId::Cru { .. } => ProbeState::Snapshot { index: 0 },
                    },
                    raise => ProbeState::Raising { clock: *clock, hz: *hz, raise },
                }
            },
            (ProbeState::Snapshot { index }, _) => if *index + 1 < NPU_CLK_SNAPSHOT.len() {
                ProbeState::Snapshot { index: *index + 1 }
            } else {
                ProbeState::Registering
            },
            (ProbeState::Registering, _) => ProbeState::Finished { result: Ok(()) },
            _ => {
                return;
            },
        };
        self.state = next;
    }
}

fn raise_data_clock<E>() -> (r: ProbeState<E>)
    ensures
        r == ProbeState::<E>::raising_data_clock(),
{
    ProbeState::Raising {
        clock: ClockId::Cru { id: CLK_NPU_DSU0 },
        hz: NPU_DSU0_MAX_HZ,
        raise: RaiseState::Before,
    }
}

/// How many of the steps that a bring-up can take lie behind it.
pub open spec fn position<E>(probe: NpuProbe<E>) -> int {
    let windows = probe.windows@.len() as int;
    match probe.state {
        ProbeState::Mapping { index } => index as int,
        ProbeState::Powering { index } => windows + index,
        ProbeState::Protocols => windows + 4,
        ProbeState::Finding => windows + 5,
        ProbeState::Raising { clock, hz, raise } => windows + (if clock is Scmi {
            6int
        } else {
            9
        }) + (match raise {
            RaiseState::Before => 0int,
            RaiseState::Setting { before } => 1,
            RaiseState::After { before } => 2,
            RaiseState::Finished { outcome } => 3,
        }),
        ProbeState::Snapshot { index } => windows + 12 + index,
        ProbeState::Registering => windows + 17,
        ProbeState::Finished { result } => windows + 18,
    }
}

/// A bring-up goes through its steps in order and comes to an end: first the registers, then the
/// power domains, then the clocks, and the device is registered last.
pub proof fn law_bring_up_moves_on<E>(probe: NpuProbe<E>, reply: ProbeReply<E>, after: NpuProbe<E>)
    requires
        probe.wf(),
        probe.accepts(reply),
        after.windows@ == probe.windows@,
        after.state == probe.next_state(reply),
    ensures
        position(probe) < position(after) <= probe.windows@.len() + 18,
        after.state == (ProbeState::Finished::<E> { result: Ok(()) }) ==> probe.state
            == ProbeState::<E>::Registering,
{
}

/// The addresses of the registers whose windows have been mapped to `mapped`.
pub open spec fn register_addresses(windows: Seq<RegWindow>, mapped: Seq<usize>) -> Seq<usize> {
    Seq::new(mapped.len(), |i: int| (mapped[i] + windows[i].offset) as usize)
}

/// The device is registered with the addresses of its registers, region for region: mapping one
/// more window adds the address of its region behind those that are there.
pub proof fn law_registers_keep_their_order<E>(probe: NpuProbe<E>, mapped: Seq<usize>, base: usize)
    requires
        probe.wf(),
        probe.state is Mapping,
        probe.bases@ == register_addresses(probe.windows@, mapped),
    ensures
        probe.next_bases(ProbeReply::Mapped { base: Ok(base) }) == register_addresses(
            probe.windows@,
            mapped.push(base),
        ),
{
    assert(probe.bases@.len() == mapped.len());
}

/// A register window that cannot be mapped ends the bring-up with the error that mapping gave:
/// nothing is switched on, and no device is registered. Nothing else ends it with an error.
pub proof fn law_only_mapping_fails<E>(probe: NpuProbe<E>, reply: ProbeReply<E>, err: E)
    requires
        probe.wf(),
        probe.accepts(reply),
    ensures
        probe.next_state(reply) == (ProbeState::Finished { result: Err(err) }) <==> reply == (
        ProbeReply::Mapped { base: Err(err) }),
{
}

/// A region that does not say its size takes one page of 4096 bytes.
pub proof fn law_size_of_a_region(size: Option<usize>)
    ensures
        size is None ==> reg_size(size) == 4096,
        size matches Some(n) ==> reg_size(size) == n,
        PAGE_SIZE == 4096,
{
}

/// Raising a clock, from beginning to end: its rate is read, it is set to the rate asked for, and
/// its rate is read again if that worked. What came of it holds the rates that were read, zero
/// where one could not be.
pub proof fn law_raise_run(
    clock: ClockId,
    hz: u64,
    before: Option<u64>,
    done: bool,
    after: Option<u64>,
)
    ensures
        ({
            let read = RaiseState::Before.after(ClockReply::Rate { hz: before });
            let set = read.after(ClockReply::Changed { done });
            let end = set.after(ClockReply::Rate { hz: after });
            &&& RaiseState::Before.wants(clock, hz) == Some(ClockRequest::Read { clock })
            &&& RaiseState::Before.accepts(ClockReply::Rate { hz: before })
            &&& read.wants(clock, hz) == Some(ClockRequest::Change { clock, hz })
            &&& read.accepts(ClockReply::Changed { done })
            &&& !done ==> set == (RaiseState::Finished { outcome: RaiseOutcome::Refused })
            &&& done ==> set.wants(clock, hz) == Some(ClockRequest::Read { clock })
            &&& done ==> set.accepts(ClockReply::Rate { hz: after })
            &&& done ==> end == (RaiseState::Finished {
                outcome: RaiseOutcome::Raised {
                    before: match before {
                        Some(rate) => rate,
                        None => 0,
                    },
                    after: match after {
                        Some(rate) => rate,
                        None => 0,
                    },
                },
            })
            &&& set is Finished ==> set.wants(clock, hz) is None
            &&& end is Finished ==> end.wants(clock, hz) is None
        }),
{
}

/// Whatever came of a cluster's turn, raised or refused, the turn of the next one follows; as long
/// as the turn goes on, the cluster stays the same.
pub proof fn law_next_cluster_follows(state: ClusterRaise, reply: ClockReply)
    requires
        state.wf(),
        state.cluster < 2,
        state.raise.accepts(reply),
    ensures
        state.raise.after(reply) is Finished ==> state.after(reply) == (ClusterRaise {
            cluster: (state.cluster + 1) as usize,
            raise: RaiseState::Before,
        }),
        !(state.raise.after(reply) is Finished) ==> state.after(reply) == (ClusterRaise {
            cluster: state.cluster,
            raise: state.raise.after(reply),
        }),
{
}

/// Every run raises both clusters, whatever is replied: first the clock 2 of the firmware and
/// then its clock 3 are set to 2.4 GHz, each between two readings, and only then the run is over.
pub proof fn law_both_clusters_are_raised(
    rate0: Option<u64>,
    done0: bool,
    rate1: Option<u64>,
    rate2: Option<u64>,
    done1: bool,
    rate3: Option<u64>,
)
    ensures
        ({
            let first = ClockId::Scmi { id: 2 };
            let second = ClockId::Scmi { id: 3 };
            let a0 = ClusterRaise { cluster: 0, raise: RaiseState::Before };
            let a1 = a0.after(ClockReply::Rate { hz: rate0 });
            let a2 = a1.after(ClockReply::Changed { done: done0 });
            let b0 = if done0 {
                a2.after(ClockReply::Rate { hz: rate1 })
            } else {
                a2
            };
            let b1 = b0.after(ClockReply::Rate { hz: rate2 });
            let b2 = b1.after(ClockReply::Changed { done: done1 });
            let end = if done1 {
                b2.after(ClockReply::Rate { hz: rate3 })
            } else {
                b2
            };
            &&& a0.wants() == Some(ClockRequest::Read { clock: first })
            &&& a1.wants() == Some(ClockRequest::Change { clock: first, hz: 2_400_000_000 })
            &&& done0 ==> a2.wants() == Some(ClockRequest::Read { clock: first })
            &&& b0.wants() == Some(ClockRequest::Read { clock: second })
            &&& b1.wants() == Some(ClockRequest::Change { clock: second, hz: 2_400_000_000 })
            &&& done1 ==> b2.wants() == Some(ClockRequest::Read { clock: second })
            &&& end.wants() is None
        }),
{
}

/// No step of a bring-up is left out. A reply leads to the very next step, but for three: a
/// mapping that fails ends it, a compute clock that is not there is not raised, and a clock that
/// cannot be set is not read again.
pub proof fn law_no_step_is_left_out<E>(probe: NpuProbe<E>, reply: ProbeReply<E>, after: NpuProbe<E>)
    requires
        probe.wf(),
        probe.accepts(reply),
        after.windows@ == probe.windows@,
        after.state == probe.next_state(reply),
    ensures
        !(reply matches ProbeReply::Mapped { base: Err(_) }) ==> position(after) == position(probe)
            + match reply {
            ProbeReply::ClockFound { clock: None } => 4int,
            ProbeReply::Clock { reply: ClockReply::Changed { done: false } } => 2,
            _ => 1,
        },
{
}

/// What a bring-up does at each step: with `n` windows to map, the first `n` steps map them, the
/// next four switch the power domains 9, 8, 10 and 11 on, and so on until the device is
/// registered.
pub proof fn law_steps_of_a_bring_up<E>(probe: NpuProbe<E>)
    requires
        probe.wf(),
    ensures
        ({
            let at = position(probe) - probe.windows@.len();
            &&& at < 0 ==> probe.wants() == Some(
                ProbeRequest::MapPages {
                    start: probe.windows@[position(probe)].start,
                    size: probe.windows@[position(probe)].size,
                },
            )
            &&& at == 0 ==> probe.wants() == Some(ProbeRequest::PowerOn { domain: 9 })
            &&& at == 1 ==> probe.wants() == Some(ProbeRequest::PowerOn { domain: 8 })
            &&& at == 2 ==> probe.wants() == Some(ProbeRequest::PowerOn { domain: 10 })
            &&& at == 3 ==> probe.wants() == Some(ProbeRequest::PowerOn { domain: 11 })
            &&& at == 4 ==> probe.wants() == Some(ProbeRequest::ShowProtocols)
            &&& at == 5 ==> probe.wants() == Some(ProbeRequest::FindClock)
            &&& at == 12 ==> probe.wants() == Some(reads_unit_clock(301))
            &&& at == 13 ==> probe.wants() == Some(reads_unit_clock(290))
            &&& at == 14 ==> probe.wants() == Some(reads_unit_clock(292))
            &&& at == 15 ==> probe.wants() == Some(reads_unit_clock(303))
            &&& at == 16 ==> probe.wants() == Some(reads_unit_clock(305))
            &&& at == 17 ==> probe.wants() == Some(ProbeRequest::Register)
            &&& at == 18 ==> probe.wants() is None
        }),
{
}

/// The reading of a clock of the clock and reset unit.
pub open spec fn reads_unit_clock(id: u32) -> ProbeRequest {
    ProbeRequest::Clock { request: ClockRequest::Read { clock: ClockId::Cru { id } } }
}

/// Which clocks a bring-up raises, and to what: first the compute clock, if it is there, under
/// its own number, or zero if it has none, to 1 GHz; then the data clock, which is clock 304, to
/// 1.188 GHz; nothing else. A clock keeps its number and its rate while it is raised.
pub proof fn law_clocks_of_a_bring_up<E>(
    probe: NpuProbe<E>,
    found: Option<Option<u32>>,
    clock: ClockId,
    hz: u64,
    raise: RaiseState,
    reply: ClockReply,
)
    ensures
        ({
            let data = ProbeState::<E>::Raising {
                clock: ClockId::Cru { id: 304 },
                hz: 1_188_000_000,
                raise: RaiseState::Before,
            };
            &&& probe.state == ProbeState::<E>::Finding ==> probe.next_state(
                ProbeReply::ClockFound { clock: found },
            ) == match found {
                None => data,
                Some(number) => ProbeState::<E>::Raising {
                    clock: ClockId::Scmi {
                        id: match number {
                            Some(id) => id,
                            None => 0,
                        },
                    },
                    hz: 1_000_000_000,
                    raise: RaiseState::Before,
                },
            }
            &&& probe.state == (ProbeState::<E>::Raising { clock, hz, raise }) ==> {
                let next = probe.next_state(ProbeReply::Clock { reply });
                &&& probe.wants() == match raise.wants(clock, hz) {
                    Some(request) => Some(ProbeRequest::Clock { request }),
                    None => None,
                }
                &&& raise.after(reply) is Finished && clock is Scmi ==> next == data
                &&& raise.after(reply) is Finished && clock is Cru ==> next == (ProbeState::<
                    E,
                >::Snapshot { index: 0 })
                &&& !(raise.after(reply) is Finished) ==> next == (ProbeState::<E>::Raising {
                    clock,
                    hz,
                    raise: raise.after(reply),
                })
            }
        }),
{
}

/// The address of a register is where its page was mapped to, plus how far into the page it lies.
pub proof fn law_registers_are_reached<E>(
    probe: NpuProbe<E>,
    index: usize,
    address: usize,
    size: Option<usize>,
    base: usize,
)
    requires
        probe.wf(),
        probe.state == (ProbeState::<E>::Mapping { index }),
        reg_fits(address, size),
        probe.windows@[index as int] == window_of(address, size),
        base + 4096 <= usize::MAX,
    ensures
        probe.accepts(ProbeReply::Mapped { base: Ok(base) }),
        ({
            let bases = probe.next_bases(ProbeReply::Mapped { base: Ok(base) });
            &&& bases.len() == index + 1
            &&& bases[index as int] == base + address % 4096
            &&& forall|i: int| 0 <= i < index ==> bases[i] == probe.bases@[i]
        }),
{
    law_window_fits_region(address, size);
}

/// Whatever comes of a step can be gone on with.
pub proof fn law_every_step_outcome_is_taken<E>(
    probe: NpuProbe<E>,
    err: E,
    found: Option<Option<u32>>,
    hz: Option<u64>,
)
    requires
        probe.wf(),
    ensures
        probe.state is Mapping ==> probe.accepts(ProbeReply::Mapped { base: Err(err) }),
        probe.state is Powering || probe.state is Protocols || probe.state is Registering
            ==> probe.accepts(ProbeReply::Done),
        probe.state is Finding ==> probe.accepts(ProbeReply::ClockFound { clock: found }),
        probe.state is Snapshot ==> probe.accepts(
            ProbeReply::Clock { reply: ClockReply::Rate { hz } },
        ),
        probe.state matches ProbeState::Raising { clock, hz: rate, raise } ==> forall|
            reply: ClockReply,
        |
            raise.accepts(reply) ==> #[trigger] probe.accepts(ProbeReply::Clock { reply }),
{
}

} // verus!
