//! Driver commands and NPU actions, as user space numbers them.
use vstd::prelude::*;

verus! {

/// RKNPU command types.
#[derive(Debug, Clone, Copy, PartialEq, Eq, Structural)]
pub enum RknpuCmd {
    /// Runs one of the `RknpuAction`s.
    Action,
    /// Submits a job.
    Submit,
    /// Creates a buffer.
    MemCreate,
    /// Asks for the mmap offset of a buffer.
    MemMap,
    /// Destroys a buffer.
    MemDestroy,
    /// Synchronizes a buffer with the device.
    MemSync,
}

/// How many command types there are.
pub const RKNPU_CMD_KINDS: usize = 6;

/// The first number of the range that DRM leaves to drivers. Every command is accepted under
/// its plain number and under the number that lies this much higher.
pub const DRIVER_BASE: u32 = 0x40;

impl RknpuCmd {
    /// The command's number, counted from zero.
    pub open spec fn number(self) -> int {
        match self {
            RknpuCmd::Action => 0,
            RknpuCmd::Submit => 1,
            RknpuCmd::MemCreate => 2,
            RknpuCmd::MemMap => 3,
            RknpuCmd::MemDestroy => 4,
            RknpuCmd::MemSync => 5,
        }
    }

    /// The command with a given number.
    pub open spec fn numbered(n: int) -> Option<RknpuCmd> {
        if n == 0 {
            Some(RknpuCmd::Action)
        } else if n == 1 {
            Some(RknpuCmd::Submit)
        } else if n == 2 {
            Some(RknpuCmd::MemCreate)
        } else if n == 3 {
            Some(RknpuCmd::MemMap)
        } else if n == 4 {
            Some(RknpuCmd::MemDestroy)
        } else if n == 5 {
            Some(RknpuCmd::MemSync)
        } else {
            None
        }
    }

    /// The command's number, as an index into per-command tables.
    pub fn index(self) -> (i: usize)
        ensures
            i == self.number(),
            i < RKNPU_CMD_KINDS,
    {
        match self {
            RknpuCmd::Action => 0,
            RknpuCmd::Submit => 1,
            RknpuCmd::MemCreate => 2,
            RknpuCmd::MemMap => 3,
            RknpuCmd::MemDestroy => 4,
            RknpuCmd::MemSync => 5,
        }
    }
}

/// What an ioctl number means: the command with that number, or with that number less
/// `DRIVER_BASE`.
pub open spec fn command_for(nr: u32) -> Option<RknpuCmd> {
    if nr >= DRIVER_BASE {
        RknpuCmd::numbered(nr - DRIVER_BASE)
    } else {
        RknpuCmd::numbered(nr as int)
    }
}

impl TryFrom<u32> for RknpuCmd {
    type Error = ();

    /// Tries to convert an ioctl number to a command.
    fn try_from(nr: u32) -> (r: Result<Self, ()>) {
        match nr {
            0x00 | 0x40 => Ok(RknpuCmd::Action),
            0x01 | 0x41 => Ok(RknpuCmd::Submit),
            0x02 | 0x42 => Ok(RknpuCmd::MemCreate),
            0x03 | 0x43 => Ok(RknpuCmd::MemMap),
            0x04 | 0x44 => Ok(RknpuCmd::MemDestroy),
            0x05 | 0x45 => Ok(RknpuCmd::MemSync),
            _ => Err(()),
        }
    }
}

impl vstd::std_specs::convert::TryFromSpecImpl<u32> for RknpuCmd {
    open spec fn obeys_try_from_spec() -> bool {
        true
    }

    open spec fn try_from_spec(nr: u32) -> Result<Self, ()> {
        match command_for(nr) {
            Some(cmd) => Ok(cmd),
            None => Err(()),
        }
    }
}

/// Every command is reached by exactly two ioctl numbers, which lie `DRIVER_BASE` apart.
pub proof fn law_command_numbers(cmd: RknpuCmd, nr: u32)
    ensures
        command_for(nr) == Some(cmd) <==> (nr == cmd.number() || nr == cmd.number() + DRIVER_BASE),
{
}

/// Human-readable name for a command's number.
pub open spec fn cmd_name(idx: int) -> Seq<char> {
    match RknpuCmd::numbered(idx) {
        Some(RknpuCmd::Action) => "action"@,
        Some(RknpuCmd::Submit) => "submit"@,
        Some(RknpuCmd::MemCreate) => "mem_create"@,
        Some(RknpuCmd::MemMap) => "mem_map"@,
        Some(RknpuCmd::MemDestroy) => "mem_destroy"@,
        Some(RknpuCmd::MemSync) => "mem_sync"@,
        None => "?"@,
    }
}

/// Human-readable name for a command's number, for the summary of `account_rknpu_ioctl`.
pub fn rknpu_cmd_name(idx: usize) -> (name: &'static str)
    ensures
        name@ == cmd_name(idx as int),
{
    match idx {
        0 => "action",
        1 => "submit",
        2 => "mem_create",
        3 => "mem_map",
        4 => "mem_destroy",
        5 => "mem_sync",
        _ => "?",
    }
}

/// Action flags for RKNPU operations.
#[derive(Debug, Clone, Copy, PartialEq, Eq, Structural)]
pub enum RknpuAction {
    GetHwVersion,
    GetDrvVersion,
    GetFreq,
    SetFreq,
    GetVolt,
    SetVolt,
    ActReset,
    GetBwPriority,
    SetBwPriority,
    GetBwExpect,
    SetBwExpect,
    GetBwTw,
    SetBwTw,
    ActClrTotalRwAmount,
    GetDtWrAmount,
    GetDtRdAmount,
    GetWtRdAmount,
    GetTotalRwAmount,
    GetIommuEn,
    SetProcNice,
    PowerOn,
    PowerOff,
    GetTotalSramSize,
    GetFreeSramSize,
    GetIommuDomainId,
    SetIommuDomainId,
}

/// How many actions there are; their codes are the numbers below this one.
pub const RKNPU_ACTIONS: u32 = 26;

impl RknpuAction {
    /// The number that stands for the action in user memory.
    pub open spec fn code(self) -> u32 {
        match self {
            RknpuAction::GetHwVersion => 0,
            RknpuAction::GetDrvVersion => 1,
            RknpuAction::GetFreq => 2,
            RknpuAction::SetFreq => 3,
            RknpuAction::GetVolt => 4,
            RknpuAction::SetVolt => 5,
            RknpuAction::ActReset => 6,
            RknpuAction::GetBwPriority => 7,
            RknpuAction::SetBwPriority => 8,
            RknpuAction::GetBwExpect => 9,
            RknpuAction::SetBwExpect => 10,
            RknpuAction::GetBwTw => 11,
            RknpuAction::SetBwTw => 12,
            RknpuAction::ActClrTotalRwAmount => 13,
            RknpuAction::GetDtWrAmount => 14,
            RknpuAction::GetDtRdAmount => 15,
            RknpuAction::GetWtRdAmount => 16,
            RknpuAction::GetTotalRwAmount => 17,
            RknpuAction::GetIommuEn => 18,
            RknpuAction::SetProcNice => 19,
            RknpuAction::PowerOn => 20,
            RknpuAction::PowerOff => 21,
            RknpuAction::GetTotalSramSize => 22,
            RknpuAction::GetFreeSramSize => 23,
            RknpuAction::GetIommuDomainId => 24,
            RknpuAction::SetIommuDomainId => 25,
        }
    }

    /// The action with a given code, if there is one.
    pub fn from_code(code: u32) -> (r: Option<RknpuAction>)
        ensures
            r is Some <==> code < RKNPU_ACTIONS,
            r matches Some(action) ==> action.code() == code,
    {
        match code {
            0 => Some(RknpuAction::GetHwVersion),
            1 => Some(RknpuAction::GetDrvVersion),
            2 => Some(RknpuAction::GetFreq),
            3 => Some(RknpuAction::SetFreq),
            4 => Some(RknpuAction::GetVolt),
            5 => Some(RknpuAction::SetVolt),
            6 => Some(RknpuAction::ActReset),
            7 => Some(RknpuAction::GetBwPriority),
            8 => Some(RknpuAction::SetBwPriority),
            9 => Some(RknpuAction::GetBwExpect),
            10 => Some(RknpuAction::SetBwExpect),
            11 => Some(RknpuAction::GetBwTw),
            12 => Some(RknpuAction::SetBwTw),
            13 => Some(RknpuAction::ActClrTotalRwAmount),
            14 => Some(RknpuAction::GetDtWrAmount),
            15 => Some(RknpuAction::GetDtRdAmount),
            16 => Some(RknpuAction::GetWtRdAmount),
            17 => Some(RknpuAction::GetTotalRwAmount),
            18 => Some(RknpuAction::GetIommuEn),
            19 => Some(RknpuAction::SetProcNice),
            20 => Some(RknpuAction::PowerOn),
            21 => Some(RknpuAction::PowerOff),
            22 => Some(RknpuAction::GetTotalSramSize),
            23 => Some(RknpuAction::GetFreeSramSize),
            24 => Some(RknpuAction::GetIommuDomainId),
            25 => Some(RknpuAction::SetIommuDomainId),
            _ => None,
        }
    }
}

/// No two actions share a code, and every action's code lies below `RKNPU_ACTIONS`.
pub proof fn law_action_codes(a: RknpuAction, b: RknpuAction)
    ensures
        a.code() < RKNPU_ACTIONS,
        a.code() == b.code() ==> a == b,
{
}

/// An RKNPU user action with flags and value.
#[derive(Debug, Clone, Copy, PartialEq, Eq)]
pub struct RknpuUserAction {
    /// Action flags.
    pub flags: RknpuAction,
    /// Action value.
    pub value: u32,
}

impl RknpuUserAction {
    /// Creates a new `RknpuUserAction` with default values: the driver version, and zero.
    pub fn default() -> (r: Self)
        ensures
            r.flags == RknpuAction::GetDrvVersion,
            r.value == 0,
    {
        Self { flags: RknpuAction::GetDrvVersion, value: 0 }
    }
}

/// Which numbers stand for which command; all other numbers stand for none.
pub proof fn law_ioctl_numbers(nr: u32)
    ensures
        command_for(nr) == Some(RknpuCmd::Action) <==> nr == 0x00 || nr == 0x40,
        command_for(nr) == Some(RknpuCmd::Submit) <==> nr == 0x01 || nr == 0x41,
        command_for(nr) == Some(RknpuCmd::MemCreate) <==> nr == 0x02 || nr == 0x42,
        command_for(nr) == Some(RknpuCmd::MemMap) <==> nr == 0x03 || nr == 0x43,
        command_for(nr) == Some(RknpuCmd::MemDestroy) <==> nr == 0x04 || nr == 0x44,
        command_for(nr) == Some(RknpuCmd::MemSync) <==> nr == 0x05 || nr == 0x45,
        command_for(nr) is None <==> 0x05 < nr < 0x40 || 0x45 < nr,
{
}

/// Every command has a place of its own in tables with one entry per command: its number.
pub proof fn law_command_indices(cmd: RknpuCmd, nr: u32)
    requires
        command_for(nr) == Some(cmd),
    ensures
        cmd.number() == if nr >= 0x40 {
            nr - 0x40
        } else {
            nr as int
        },
        0 <= cmd.number() < 6,
{
}

/// Which code stands for which action.
pub proof fn law_action_code_values(a: RknpuAction)
    ensures
        a.code() == 0 <==> a == RknpuAction::GetHwVersion,
        a.code() == 1 <==> a == RknpuAction::GetDrvVersion,
        a.code() == 2 <==> a == RknpuAction::GetFreq,
        a.code() == 3 <==> a == RknpuAction::SetFreq,
        a.code() == 4 <==> a == RknpuAction::GetVolt,
        a.code() == 5 <==> a == RknpuAction::SetVolt,
        a.code() == 6 <==> a == RknpuAction::ActReset,
        a.code() == 7 <==> a == RknpuAction::GetBwPriority,
        a.code() == 8 <==> a == RknpuAction::SetBwPriority,
        a.code() == 9 <==> a == RknpuAction::GetBwExpect,
        a.code() == 10 <==> a == RknpuAction::SetBwExpect,
        a.code() == 11 <==> a == RknpuAction::GetBwTw,
        a.code() == 12 <==> a == RknpuAction::SetBwTw,
        a.code() == 13 <==> a == RknpuAction::ActClrTotalRwAmount,
        a.code() == 14 <==> a == RknpuAction::GetDtWrAmount,
        a.code() == 15 <==> a == RknpuAction::GetDtRdAmount,
        a.code() == 16 <==> a == RknpuAction::GetWtRdAmount,
        a.code() == 17 <==> a == RknpuAction::GetTotalRwAmount,
        a.code() == 18 <==> a == RknpuAction::GetIommuEn,
        a.code() == 19 <==> a == RknpuAction::SetProcNice,
        a.code() == 20 <==> a == RknpuAction::PowerOn,
        a.code() == 21 <==> a == RknpuAction::PowerOff,
        a.code() == 22 <==> a == RknpuAction::GetTotalSramSize,
        a.code() == 23 <==> a == RknpuAction::GetFreeSramSize,
        a.code() == 24 <==> a == RknpuAction::GetIommuDomainId,
        a.code() == 25 <==> a == RknpuAction::SetIommuDomainId,
{
}

/// The names of the commands, by the number under which the summary knows them.
pub proof fn law_command_names(cmd: RknpuCmd, idx: int)
    ensures
        cmd_name(cmd.number()) == match cmd {
            RknpuCmd::Action => "action"@,
            RknpuCmd::Submit => "submit"@,
            RknpuCmd::MemCreate => "mem_create"@,
            RknpuCmd::MemMap => "mem_map"@,
            RknpuCmd::MemDestroy => "mem_destroy"@,
            RknpuCmd::MemSync => "mem_sync"@,
        },
        idx >= 6 ==> cmd_name(idx) == "?"@,
{
}

} // verus!
