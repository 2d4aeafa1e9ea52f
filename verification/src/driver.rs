//! The ioctls of the RKNPU driver itself.
//!
//! Each one brings its argument in from user space, lets the NPU work on it, and brings it back:
//! `rknpu_mem_map` is a handle at 0 and an offset at 8, `rknpu_action` is an action code at 0 and
//! a value at 4; the other arguments are handed on as they are.
use crate::bytes::{
    get_u32, law_read_back_u32, law_read_back_u64, le32, le64, put32, put64, put_u32, put_u64,
};
use crate::command::{RknpuAction, RknpuCmd, RKNPU_ACTIONS};
use crate::error::{copy_from_user, copy_to_user, map_rknpu_err, vfs_error, VfsError};
use crate::gem::{handle_at, law_offset_leads_to_handle};
use crate::npu::{
    action, answer_or, mem_create, mem_map_offset, mem_sync, offset_of, submit, Error, NpuAccess,
};
use crate::outside;
use crate::request::{
    law_received_bytes_lie_first, receive, received, Reply, Request, DATA_SIZE,
};
use vstd::prelude::*;

verus! {

/// What a driver ioctl is waiting for.
#[derive(Debug, Clone, Copy, PartialEq, Eq, Structural)]
pub enum InnerStage {
    /// Its argument.
    CopyIn,
    /// The NPU.
    Run,
    /// The way back of its argument.
    CopyOut,
}

/// How a driver ioctl goes on.
#[derive(Debug, Clone, Copy, PartialEq, Eq)]
pub enum InnerStep {
    /// It makes a request, and waits for the reply.
    Wait { request: Request, stage: InnerStage },
    /// It is over.
    Finished { result: Result<usize, VfsError> },
}

/// The size of a command's argument.
pub open spec fn arg_len(op: RknpuCmd) -> usize {
    match op {
        RknpuCmd::Action => 8,
        RknpuCmd::Submit => 104,
        RknpuCmd::MemCreate => 48,
        RknpuCmd::MemMap => 16,
        RknpuCmd::MemDestroy => 0,
        RknpuCmd::MemSync => 32,
    }
}

/// The size of a command's argument.
pub fn argument_len(op: RknpuCmd) -> (len: usize)
    ensures
        len == arg_len(op),
        len <= DATA_SIZE,
{
    match op {
        RknpuCmd::Action => 8,
        RknpuCmd::Submit => outside::size_of_submit(),
        RknpuCmd::MemCreate => outside::size_of_mem_create(),
        RknpuCmd::MemMap => outside::size_of_mem_map(),
        RknpuCmd::MemDestroy => 0,
        RknpuCmd::MemSync => outside::size_of_mem_sync(),
    }
}

/// The action whose code is `code`.
pub open spec fn action_with(code: u32) -> RknpuAction {
    choose|action: RknpuAction| action.code() == code
}

/// The request that a driver ioctl makes at `stage`, with `data` in the buffer.
pub open spec fn inner_request(op: RknpuCmd, arg: usize, stage: InnerStage, data: Seq<u8>) -> Request {
    match stage {
        InnerStage::CopyIn => Request::CopyFromUser { src: arg, len: arg_len(op) },
        InnerStage::CopyOut => Request::CopyToUser { dst: arg, len: arg_len(op) },
        InnerStage::Run => match op {
            RknpuCmd::Submit => Request::Submit { len: arg_len(op) },
            RknpuCmd::MemCreate => Request::MemCreate { len: arg_len(op) },
            RknpuCmd::MemSync => Request::MemSync { len: arg_len(op) },
            RknpuCmd::MemMap => Request::FindPhys { handle: le32(data, 0) },
            RknpuCmd::Action => Request::RunAction { action: action_with(le32(data, 0)) },
            RknpuCmd::MemDestroy => Request::CopyToUser { dst: arg, len: 0 },
        },
    }
}

/// What the NPU's answer means to the ioctl: whether it fails, and with which error. A failed
/// job, creation or action does not: its argument goes back to the user all the same.
pub open spec fn run_error(op: RknpuCmd, handle: u32, reply: Reply) -> Option<VfsError> {
    match (op, reply) {
        (RknpuCmd::MemMap, Reply::Phys { found }) => match offset_of(handle, found) {
            Ok(_) => None,
            Err(err) => Some(vfs_error(err)),
        },
        (RknpuCmd::MemSync, Reply::Done { outcome }) => match answer_or(
            outcome,
            Error::InvalidData,
        ) {
            Ok(_) => None,
            Err(err) => Some(vfs_error(err)),
        },
        _ => None,
    }
}

/// The buffer after the NPU's answer, which came with `bytes`.
pub open spec fn run_data(op: RknpuCmd, data: Seq<u8>, reply: Reply, bytes: Seq<u8>) -> Seq<u8> {
    match (op, reply) {
        (RknpuCmd::MemMap, Reply::Phys { found }) => match offset_of(le32(data, 0), found) {
            Ok(offset) => put64(data, 8, offset),
            Err(_) => data,
        },
        (RknpuCmd::Action, Reply::Value { value }) => match answer_or(value, Error::InvalidData) {
            Ok(val) => put32(data, 4, val),
            Err(_) => data,
        },
        (RknpuCmd::Submit, _) => received(data, bytes),
        (RknpuCmd::MemCreate, _) => received(data, bytes),
        (RknpuCmd::MemSync, _) => received(data, bytes),
        _ => data,
    }
}

/// The buffer after a reply.
pub open spec fn inner_data(
    op: RknpuCmd,
    stage: InnerStage,
    data: Seq<u8>,
    reply: Reply,
    bytes: Seq<u8>,
) -> Seq<u8> {
    match stage {
        InnerStage::CopyIn => if reply == (Reply::Copied { left_over: 0 }) {
            received(data, bytes)
        } else {
            data
        },
        InnerStage::Run => run_data(op, data, reply, bytes),
        InnerStage::CopyOut => data,
    }
}

/// How a driver ioctl goes on after a reply; `data` is the buffer before it.
pub open spec fn inner_next(
    op: RknpuCmd,
    arg: usize,
    stage: InnerStage,
    data: Seq<u8>,
    reply: Reply,
    bytes: Seq<u8>,
) -> InnerStep {
    let after = inner_data(op, stage, data, reply, bytes);
    match stage {
        InnerStage::CopyIn => if reply == (Reply::Copied { left_over: 0 }) {
            InnerStep::Wait {
                request: inner_request(op, arg, InnerStage::Run, after),
                stage: InnerStage::Run,
            }
        } else {
            InnerStep::Finished { result: Err(VfsError::InvalidData) }
        },
        InnerStage::Run => match run_error(op, le32(data, 0), reply) {
            Some(err) => InnerStep::Finished { result: Err(err) },
            None => InnerStep::Wait {
                request: inner_request(op, arg, InnerStage::CopyOut, after),
                stage: InnerStage::CopyOut,
            },
        },
        InnerStage::CopyOut => InnerStep::Finished {
            result: if reply == (Reply::Copied { left_over: 0 }) {
                Ok(0)
            } else {
                Err(VfsError::InvalidData)
            },
        },
    }
}

/// How a driver ioctl begins.
pub open spec fn inner_start(op: RknpuCmd, arg: usize) -> InnerStep {
    if op == RknpuCmd::MemDestroy {
        InnerStep::Finished { result: Ok(0) }
    } else {
        InnerStep::Wait {
            request: Request::CopyFromUser { src: arg, len: arg_len(op) },
            stage: InnerStage::CopyIn,
        }
    }
}

/// Begins a driver ioctl. Destroying a buffer asks for nothing and is over at once.
pub fn start_driver_ioctl(op: RknpuCmd, arg: usize) -> (r: InnerStep)
    ensures
        r == inner_start(op, arg),
{
    if op == RknpuCmd::MemDestroy {
        InnerStep::Finished { result: Ok(0) }
    } else {
        InnerStep::Wait {
            request: Request::CopyFromUser { src: arg, len: argument_len(op) },
            stage: InnerStage::CopyIn,
        }
    }
}

/// Whether an action code that has just been brought in is one that there is.
pub open spec fn known_action(op: RknpuCmd, stage: InnerStage, reply: Reply, bytes: Seq<u8>) -> bool {
    op == RknpuCmd::Action && stage == InnerStage::CopyIn && reply == (Reply::Copied {
        left_over: 0,
    }) ==> le32(bytes, 0) < RKNPU_ACTIONS
}

fn copy_back(op: RknpuCmd, arg: usize) -> (r: InnerStep)
    ensures
        r == (InnerStep::Wait {
            request: Request::CopyToUser { dst: arg, len: arg_len(op) },
            stage: InnerStage::CopyOut,
        }),
{
    InnerStep::Wait {
        request: Request::CopyToUser { dst: arg, len: argument_len(op) },
        stage: InnerStage::CopyOut,
    }
}

fn run_request(op: RknpuCmd, arg: usize, data: &Vec<u8>) -> (r: Request)
    requires
        op != RknpuCmd::MemDestroy,
        data@.len() == DATA_SIZE,
        op == RknpuCmd::Action ==> le32(data@, 0) < RKNPU_ACTIONS,
    ensures
        r == inner_request(op, arg, InnerStage::Run, data@),
{
    match op {
        RknpuCmd::Submit => Request::Submit { len: argument_len(op) },
        RknpuCmd::MemCreate => Request::MemCreate { len: argument_len(op) },
        RknpuCmd::MemSync => Request::MemSync { len: argument_len(op) },
        RknpuCmd::MemMap => Request::FindPhys { handle: get_u32(data.as_slice(), 0) },
        _ => {
            let code: u32 = get_u32(data.as_slice(), 0);
            match RknpuAction::from_code(code) {
                Some(action) => {
                    assert(action.code() == code);
                    assert(action_with(code).code() == code);
                    Request::RunAction { action }
                },
                None => Request::CopyToUser { dst: arg, len: 0 },
            }
        },
    }
}

/// Goes on with a driver ioctl that was waiting at `stage`, once the reply to its request is
/// there.
pub fn rknpu_driver_ioctl_inner(
    op: RknpuCmd,
    arg: usize,
    stage: InnerStage,
    data: &mut Vec<u8>,
    reply: Reply,
    bytes: &[u8],
) -> (r: InnerStep)
    requires
        op != RknpuCmd::MemDestroy,
        old(data)@.len() == DATA_SIZE,
        inner_request(op, arg, stage, old(data)@).answered_by(reply, bytes@),
        known_action(op, stage, reply, bytes@),
    ensures
        r == inner_next(op, arg, stage, old(data)@, reply, bytes@),
        final(data)@ == inner_data(op, stage, old(data)@, reply, bytes@),
        final(data)@.len() == DATA_SIZE,
{
    match (stage, reply) {
        (InnerStage::CopyIn, Reply::Copied { left_over }) => {
            if let Err(err) = copy_from_user(left_over) {
                return InnerStep::Finished { result: Err(err) };
            }
            receive(data, bytes);
            InnerStep::Wait { request: run_request(op, arg, data), stage: InnerStage::Run }
        },
        (InnerStage::Run, Reply::Done { outcome }) => {
            receive(data, bytes);
            match op {
                RknpuCmd::Submit => {
                    let _ = submit(outcome);
                    copy_back(op, arg)
                },
                RknpuCmd::MemCreate => {
                    let _ = mem_create(outcome);
                    copy_back(op, arg)
                },
                _ => match mem_sync(outcome) {
                    Ok(_) => copy_back(op, arg),
                    Err(err) => InnerStep::Finished { result: Err(map_rknpu_err(err)) },
                },
            }
        },
        (InnerStage::Run, Reply::Phys { found }) => {
            let handle: u32 = get_u32(data.as_slice(), 0);
            match mem_map_offset(handle, found) {
                Ok(offset) => {
                    put_u64(data, 8, offset);
                    copy_back(op, arg)
                },
                Err(err) => InnerStep::Finished { result: Err(map_rknpu_err(err)) },
            }
        },
        (InnerStage::Run, Reply::Value { value }) => {
            if let Ok(val) = action(value) {
                put_u32(data, 4, val);
            }
            copy_back(op, arg)
        },
        (_, Reply::Copied { left_over }) => match copy_to_user(left_over) {
            Ok(_) => InnerStep::Finished { result: Ok(0) },
            Err(err) => InnerStep::Finished { result: Err(err) },
        },
        _ => InnerStep::Finished { result: Err(VfsError::InvalidData) },
    }
}

/// A copy that leaves bytes over ends a driver ioctl at once, with invalid data, on the way in as
/// on the way out.
pub proof fn law_failed_copy(
    op: RknpuCmd,
    arg: usize,
    stage: InnerStage,
    data: Seq<u8>,
    left_over: usize,
    bytes: Seq<u8>,
)
    requires
        stage != InnerStage::Run,
        left_over != 0,
    ensures
        inner_next(op, arg, stage, data, Reply::Copied { left_over }, bytes) == (
        InnerStep::Finished { result: Err(VfsError::InvalidData) }),
{
}

/// A job or a creation is answered in the same way whether or not the NPU accepted it: the
/// argument, as the NPU left it, goes back to where it came from, and the ioctl succeeds.
pub proof fn law_job_is_always_answered(
    op: RknpuCmd,
    arg: usize,
    data: Seq<u8>,
    outcome: NpuAccess<Option<()>>,
    bytes: Seq<u8>,
)
    requires
        op == RknpuCmd::Submit || op == RknpuCmd::MemCreate,
        bytes.len() == arg_len(op),
    ensures
        ({
            let reply = Reply::Done { outcome };
            let after = inner_data(op, InnerStage::Run, data, reply, bytes);
            &&& inner_next(op, arg, InnerStage::Run, data, reply, bytes) == (InnerStep::Wait {
                request: Request::CopyToUser { dst: arg, len: arg_len(op) },
                stage: InnerStage::CopyOut,
            })
            &&& after.take(arg_len(op) as int) == bytes
            &&& inner_next(
                op,
                arg,
                InnerStage::CopyOut,
                after,
                Reply::Copied { left_over: 0 },
                Seq::empty(),
            ) == (InnerStep::Finished { result: Ok(0) })
        }),
{
    assert(received(data, bytes).take(arg_len(op) as int) == bytes);
}

/// A synchronization that the NPU refuses fails the ioctl with the matching error; one that it
/// carries out is answered like a job.
pub proof fn law_sync_failure_is_reported(
    arg: usize,
    data: Seq<u8>,
    outcome: NpuAccess<Option<()>>,
    bytes: Seq<u8>,
)
    ensures
        inner_next(
            RknpuCmd::MemSync,
            arg,
            InnerStage::Run,
            data,
            Reply::Done { outcome },
            bytes,
        ) == match answer_or(outcome, Error::InvalidData) {
            Ok(_) => InnerStep::Wait {
                request: Request::CopyToUser { dst: arg, len: arg_len(RknpuCmd::MemSync) },
                stage: InnerStage::CopyOut,
            },
            Err(err) => InnerStep::Finished { result: Err(vfs_error(err)) },
        },
{
}

/// The argument of a mapping query asks about the handle in it; it comes back with an offset
/// that leads to that handle, and otherwise unchanged. The ioctl fails if the NPU does not know
/// the handle.
pub proof fn law_mem_map_answer(
    arg: usize,
    data: Seq<u8>,
    found: NpuAccess<Option<(u64, usize)>>,
)
    requires
        data.len() == DATA_SIZE,
    ensures
        ({
            let op = RknpuCmd::MemMap;
            let reply = Reply::Phys { found };
            let handle = le32(data, 0);
            let after = inner_data(op, InnerStage::Run, data, reply, Seq::empty());
            let step = inner_next(op, arg, InnerStage::Run, data, reply, Seq::empty());
            &&& inner_request(op, arg, InnerStage::Run, data) == (Request::FindPhys { handle })
            &&& match answer_or(found, Error::InvalidData) {
                Ok(_) => {
                    &&& step is Wait
                    &&& le32(after, 0) == handle
                    &&& handle != 0 ==> handle_at(le64(after, 8)) == Some(handle)
                    &&& forall|i: int|
                        0 <= i < DATA_SIZE && !(8 <= i < 16) ==> after[i] == data[i]
                },
                Err(err) => step == (InnerStep::Finished { result: Err(vfs_error(err)) }),
            }
        }),
{
    let handle = le32(data, 0);
    if answer_or(found, Error::InvalidData) is Ok {
        law_read_back_u64(data, 8, offset_of(handle, found)->Ok_0);
        law_offset_leads_to_handle(handle, found);
        let after = put64(data, 8, offset_of(handle, found)->Ok_0);
        assert(after[0] == data[0] && after[1] == data[1] && after[2] == data[2] && after[3]
            == data[3]);
    }
}

/// An action is always answered: with its value in place where there is one, and with the
/// argument unchanged where the NPU refused.
pub proof fn law_action_answer(arg: usize, data: Seq<u8>, value: NpuAccess<Option<u32>>)
    requires
        data.len() == DATA_SIZE,
    ensures
        ({
            let op = RknpuCmd::Action;
            let reply = Reply::Value { value };
            let after = inner_data(op, InnerStage::Run, data, reply, Seq::empty());
            &&& inner_next(op, arg, InnerStage::Run, data, reply, Seq::empty()) == (
            InnerStep::Wait {
                request: Request::CopyToUser { dst: arg, len: 8 },
                stage: InnerStage::CopyOut,
            })
            &&& match answer_or(value, Error::InvalidData) {
                Ok(val) => {
                    &&& le32(after, 4) == val
                    &&& forall|i: int|
                        0 <= i < DATA_SIZE && !(4 <= i < 8) ==> after[i] == data[i]
                },
                Err(_) => after == data,
            }
        }),
{
    if let Ok(val) = answer_or(value, Error::InvalidData) {
        law_read_back_u32(data, 4, val);
    }
}

/// What each command takes from its user address, and that destroying a buffer takes nothing.
pub proof fn law_arguments_are_fetched(op: RknpuCmd, arg: usize)
    ensures
        arg_len(RknpuCmd::Action) == 8,
        arg_len(RknpuCmd::Submit) == 104,
        arg_len(RknpuCmd::MemCreate) == 48,
        arg_len(RknpuCmd::MemMap) == 16,
        arg_len(RknpuCmd::MemSync) == 32,
        inner_start(op, arg) == (InnerStep::Finished { result: Ok(0) }) <==> op
            == RknpuCmd::MemDestroy,
        op != RknpuCmd::MemDestroy ==> inner_start(op, arg) == (InnerStep::Wait {
            request: Request::CopyFromUser { src: arg, len: arg_len(op) },
            stage: InnerStage::CopyIn,
        }),
        inner_start(op, arg) matches InnerStep::Wait { request, stage } ==> inner_request(
            op,
            arg,
            stage,
            Seq::empty(),
        ) == request,
{
}

/// What the NPU is asked to do is what the user asked for: after the argument has come in, it
/// lies at the start of the buffer byte for byte, the rest of the buffer is as it was, and the
/// request is the one of the command, about the handle or the action that the first four bytes of
/// the argument name.
pub proof fn law_npu_is_asked_what_the_user_asks(
    op: RknpuCmd,
    arg: usize,
    data: Seq<u8>,
    bytes: Seq<u8>,
)
    requires
        op != RknpuCmd::MemDestroy,
        data.len() == DATA_SIZE,
        bytes.len() == arg_len(op),
        op == RknpuCmd::Action ==> le32(bytes, 0) < 26,
    ensures
        ({
            let arrived = Reply::Copied { left_over: 0 };
            let after = inner_data(op, InnerStage::CopyIn, data, arrived, bytes);
            let number = bytes[0] + 0x100 * bytes[1] + 0x1_0000 * bytes[2] + 0x100_0000 * bytes[3];
            let step = inner_next(op, arg, InnerStage::CopyIn, data, arrived, bytes);
            &&& after.len() == data.len()
            &&& after.take(arg_len(op) as int) == bytes
            &&& after.skip(arg_len(op) as int) == data.skip(arg_len(op) as int)
            &&& step matches InnerStep::Wait { request, stage }
            &&& stage == InnerStage::Run
            &&& request == inner_request(op, arg, InnerStage::Run, after)
            &&& op == RknpuCmd::Submit <==> request == (Request::Submit { len: 104 })
            &&& op == RknpuCmd::MemCreate <==> request == (Request::MemCreate { len: 48 })
            &&& op == RknpuCmd::MemSync <==> request == (Request::MemSync { len: 32 })
            &&& op == RknpuCmd::MemMap <==> request is FindPhys
            &&& op == RknpuCmd::MemMap ==> request->FindPhys_handle == number
            &&& op == RknpuCmd::Action <==> request is RunAction
            &&& op == RknpuCmd::Action ==> request->RunAction_action.code() == number
        }),
{
    law_received_bytes_lie_first(data, bytes);
    let after = received(data, bytes);
    assert(after[0] == bytes[0] && after[1] == bytes[1] && after[2] == bytes[2] && after[3]
        == bytes[3]);
    if op == RknpuCmd::Action {
        lemma_code_is_taken(le32(bytes, 0));
    }
}

proof fn lemma_code_is_taken(code: u32)
    requires
        code < 26,
    ensures
        action_with(code).code() == code,
{
    let action = if code == 0 {
        RknpuAction::GetHwVersion
    } else if code == 1 {
        RknpuAction::GetDrvVersion
    } else if code == 2 {
        RknpuAction::GetFreq
    } else if code == 3 {
        RknpuAction::SetFreq
    } else if code == 4 {
        RknpuAction::GetVolt
    } else if code == 5 {
        RknpuAction::SetVolt
    } else if code == 6 {
        RknpuAction::ActReset
    } else if code == 7 {
        RknpuAction::GetBwPriority
    } else if code == 8 {
        RknpuAction::SetBwPriority
    } else if code == 9 {
        RknpuAction::GetBwExpect
    } else if code == 10 {
        RknpuAction::SetBwExpect
    } else if code == 11 {
        RknpuAction::GetBwTw
    } else if code == 12 {
        RknpuAction::SetBwTw
    } else if code == 13 {
        RknpuAction::ActClrTotalRwAmount
    } else if code == 14 {
        RknpuAction::GetDtWrAmount
    } else if code == 15 {
        RknpuAction::GetDtRdAmount
    } else if code == 16 {
        RknpuAction::GetWtRdAmount
    } else if code == 17 {
        RknpuAction::GetTotalRwAmount
    } else if code == 18 {
        RknpuAction::GetIommuEn
    } else if code == 19 {
        RknpuAction::SetProcNice
    } else if code == 20 {
        RknpuAction::PowerOn
    } else if code == 21 {
        RknpuAction::PowerOff
    } else if code == 22 {
        RknpuAction::GetTotalSramSize
    } else if code == 23 {
        RknpuAction::GetFreeSramSize
    } else if code == 24 {
        RknpuAction::GetIommuDomainId
    } else {
        RknpuAction::SetIommuDomainId
    };
    assert(action.code() == code);
}

/// Whatever the NPU leaves in the argument of a job, a creation or a synchronization goes back to
/// the user: it lies at the start of the buffer byte for byte, the rest of the buffer is as it
/// was, and where the ioctl goes on, that much of the buffer is copied to where the argument came
/// from. A job and a creation always go on, a synchronization exactly if the NPU carried it out.
pub proof fn law_user_gets_what_the_npu_leaves(
    op: RknpuCmd,
    arg: usize,
    data: Seq<u8>,
    outcome: NpuAccess<Option<()>>,
    bytes: Seq<u8>,
)
    requires
        op == RknpuCmd::Submit || op == RknpuCmd::MemCreate || op == RknpuCmd::MemSync,
        data.len() == DATA_SIZE,
        bytes.len() == arg_len(op),
    ensures
        ({
            let reply = Reply::Done { outcome };
            let after = inner_data(op, InnerStage::Run, data, reply, bytes);
            let step = inner_next(op, arg, InnerStage::Run, data, reply, bytes);
            let back = InnerStep::Wait {
                request: Request::CopyToUser { dst: arg, len: arg_len(op) },
                stage: InnerStage::CopyOut,
            };
            &&& after.len() == data.len()
            &&& after.take(arg_len(op) as int) == bytes
            &&& after.skip(arg_len(op) as int) == data.skip(arg_len(op) as int)
            &&& op != RknpuCmd::MemSync ==> step == back
            &&& op == RknpuCmd::MemSync ==> (step == back <==> outcome == NpuAccess::Answered(
                Some(()),
            ))
            &&& op == RknpuCmd::MemSync && outcome is Absent ==> step == (InnerStep::Finished {
                result: Err(VfsError::NotFound),
            })
            &&& op == RknpuCmd::MemSync && outcome is Locked ==> step == (InnerStep::Finished {
                result: Err(VfsError::AlreadyExists),
            })
            &&& op == RknpuCmd::MemSync && outcome == NpuAccess::Answered(None::<()>) ==> step == (
            InnerStep::Finished { result: Err(VfsError::InvalidData) })
        }),
{
    law_received_bytes_lie_first(data, bytes);
}

/// The answer to a mapping query, for every handle: bytes 8 to 15 of the argument become the
/// handle in pages of 4096 bytes, all other bytes stay, and the 16 bytes go back to where they
/// came from; without a buffer of that handle the query fails with the error that says why.
pub proof fn law_mapping_query_run(
    arg: usize,
    data: Seq<u8>,
    found: NpuAccess<Option<(u64, usize)>>,
    bytes: Seq<u8>,
)
    requires
        data.len() == DATA_SIZE,
    ensures
        ({
            let op = RknpuCmd::MemMap;
            let reply = Reply::Phys { found };
            let after = inner_data(op, InnerStage::Run, data, reply, bytes);
            let step = inner_next(op, arg, InnerStage::Run, data, reply, bytes);
            &&& found matches NpuAccess::Answered(Some(_)) ==> {
                &&& le64(after, 8) == le32(data, 0) * 4096
                &&& step == (InnerStep::Wait {
                    request: Request::CopyToUser { dst: arg, len: 16 },
                    stage: InnerStage::CopyOut,
                })
            }
            &&& found is Absent ==> step == (InnerStep::Finished {
                result: Err(VfsError::NotFound),
            })
            &&& found is Locked ==> step == (InnerStep::Finished {
                result: Err(VfsError::AlreadyExists),
            })
            &&& found == NpuAccess::Answered(None::<(u64, usize)>) ==> step == (
            InnerStep::Finished { result: Err(VfsError::InvalidData) })
            &&& after.len() == data.len()
            &&& forall|i: int|
                0 <= i < data.len() && !(8 <= i < 16) ==> #[trigger] after[i] == data[i]
        }),
{
    if found matches NpuAccess::Answered(Some(_)) {
        law_read_back_u64(data, 8, (le32(data, 0) * 4096) as u64);
    }
}

/// The answer to an action: bytes 4 to 7 of the argument become its value where it has one, all
/// other bytes stay, and the 8 bytes go back to where they came from in any case.
pub proof fn law_action_run(
    arg: usize,
    data: Seq<u8>,
    value: NpuAccess<Option<u32>>,
    bytes: Seq<u8>,
)
    requires
        data.len() == DATA_SIZE,
    ensures
        ({
            let op = RknpuCmd::Action;
            let reply = Reply::Value { value };
            let after = inner_data(op, InnerStage::Run, data, reply, bytes);
            &&& inner_next(op, arg, InnerStage::Run, data, reply, bytes) == (InnerStep::Wait {
                request: Request::CopyToUser { dst: arg, len: 8 },
                stage: InnerStage::CopyOut,
            })
            &&& value matches NpuAccess::Answered(Some(v)) ==> le32(after, 4) == v
            &&& !(value matches NpuAccess::Answered(Some(_))) ==> after == data
            &&& after.len() == data.len()
            &&& forall|i: int|
                0 <= i < data.len() && !(4 <= i < 8) ==> #[trigger] after[i] == data[i]
        }),
{
    if let NpuAccess::Answered(Some(v)) = value {
        law_read_back_u32(data, 4, v);
    }
}

/// The way back of an argument leaves the buffer alone and ends the ioctl: well if nothing is left
/// over, with invalid data otherwise. A failed way in leaves the buffer alone, too.
pub proof fn law_copies_end_or_go_on(
    op: RknpuCmd,
    arg: usize,
    data: Seq<u8>,
    left_over: usize,
    bytes: Seq<u8>,
)
    ensures
        inner_data(op, InnerStage::CopyOut, data, Reply::Copied { left_over }, bytes) == data,
        inner_next(op, arg, InnerStage::CopyOut, data, Reply::Copied { left_over }, bytes) == (
        InnerStep::Finished {
            result: if left_over == 0 {
                Ok(0)
            } else {
                Err(VfsError::InvalidData)
            },
        }),
        left_over != 0 ==> inner_data(
            op,
            InnerStage::CopyIn,
            data,
            Reply::Copied { left_over },
            bytes,
        ) == data,
        inner_request(op, arg, InnerStage::CopyIn, data) == (Request::CopyFromUser {
            src: arg,
            len: arg_len(op),
        }),
        inner_request(op, arg, InnerStage::CopyOut, data) == (Request::CopyToUser {
            dst: arg,
            len: arg_len(op),
        }),
{
}

/// An argument can be gone on with unless it names an action that there is none of.
pub proof fn law_only_unknown_actions_are_shut_out(
    op: RknpuCmd,
    stage: InnerStage,
    reply: Reply,
    bytes: Seq<u8>,
)
    ensures
        known_action(op, stage, reply, bytes) || (op == RknpuCmd::Action && stage
            == InnerStage::CopyIn && reply == (Reply::Copied { left_over: 0 }) && le32(bytes, 0)
            >= 26),
{
}

} // verus!
