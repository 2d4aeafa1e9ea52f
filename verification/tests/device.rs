use rk3588_support::bringup::{
    reg_window, set_cpu_clusters_max, ClockId, ClockReply, ClockRequest, NpuProbe, ProbeReply,
    ProbeRequest, ProbeState, RaiseOutcome, RaiseState,
};
use rk3588_support::bytes::{get_u32, get_u64, put_u32, put_u64};
use rk3588_support::card::{
    card1_system_device_id, Card1, CardState, CardStep, IoctlCommand, IoctlSession, MmapState,
};
use rk3588_support::command::{rknpu_cmd_name, RknpuAction, RknpuCmd, RknpuUserAction};
use rk3588_support::drm::{
    drm_copy_field, drm_gem_flink_ioctl, drm_get_unique, drm_version, VersionStep,
};
use rk3588_support::error::{copy_from_user, copy_to_user, map_rknpu_err, VfsError};
use rk3588_support::gem::{
    find_exported_object, map_handle_from_offset, prime_fd_cloexec, DeviceMmap, ExportedGemBuffer,
    PhysAddrRange,
};
use rk3588_support::npu::{
    action, mem_create, mem_map_offset, mem_sync, obj_addr_and_size, submit, Error, NpuAccess,
};
use rk3588_support::request::{DrmField, Reply, Request, DATA_SIZE};
use rk3588_support::telemetry::{
    elapsed_us, measure_and_log_cpu_mhz, AccountReport, BurstReport, IoctlStats, LogCounters,
    PartRow, Percent,
};

#[test]
fn prime_export_honors_cloexec_flag() {
    assert!(prime_fd_cloexec(linux_raw_sys::general::O_CLOEXEC as u32));
    assert!(!prime_fd_cloexec(0));
}

#[test]
fn mem_map_offset_decodes_to_handle() {
    assert_eq!(map_handle_from_offset(0x1000), Some(1));
    assert_eq!(map_handle_from_offset(0x2000), Some(2));
    assert_eq!(map_handle_from_offset(0), None);
    assert_eq!(map_handle_from_offset(0x1001), None);
}

#[test]
fn exported_buffer_reports_physical_device_mmap() {
    let range = PhysAddrRange::from_start_size(0x1234_5000, 0x4000);
    let exported = ExportedGemBuffer::new(range);

    assert!(
        matches!(exported.device_mmap(0, 0).unwrap(), DeviceMmap::Physical(actual, None) if actual == range)
    );
}

#[test]
fn only_the_cloexec_bit_counts() {
    let bit = linux_raw_sys::general::O_CLOEXEC as u32;
    assert!(!prime_fd_cloexec(!bit));
    assert!(prime_fd_cloexec(bit | 2));
}

#[test]
fn ranges_end_after_their_size() {
    let range = PhysAddrRange::from_start_size(0x1234_5000, 0x4000);
    assert_eq!((range.start, range.end), (0x1234_5000, 0x1234_9000));
    let empty = PhysAddrRange::from_start_size(7, 0);
    assert_eq!((empty.start, empty.end), (7, 7));
}

#[test]
fn offsets_beyond_the_handles_select_nothing() {
    assert_eq!(map_handle_from_offset(0xffff_ffff_000), Some(0xffff_ffff));
    assert_eq!(map_handle_from_offset(0x1000_0000_0000), None);
    assert_eq!(map_handle_from_offset(0xfff), None);
}

#[test]
fn offsets_lead_back_to_their_handles() {
    for handle in [1u32, 2, 77, 0x8000_0000, u32::MAX] {
        let offset = mem_map_offset(handle, NpuAccess::Answered(Some((0x4000_0000, 64)))).unwrap();
        assert_eq!(map_handle_from_offset(offset), Some(handle));
    }
    assert_eq!(mem_map_offset(3, NpuAccess::Answered(Some((1, 1)))), Ok(0x3000));
    assert_eq!(mem_map_offset(3, NpuAccess::Answered(None)), Err(Error::InvalidData));
    assert_eq!(mem_map_offset(3, NpuAccess::Locked), Err(Error::Busy));
    assert_eq!(mem_map_offset(3, NpuAccess::Absent), Err(Error::NotFound));
}

#[test]
fn handles_lead_back_to_their_offsets() {
    for offset in [0x1000u64, 0x7000, 0xffff_ffff_000] {
        let handle = map_handle_from_offset(offset).unwrap();
        let found = NpuAccess::Answered(Some((1, 1)));
        assert_eq!(mem_map_offset(handle, found), Ok(offset));
    }
}

#[test]
fn npu_answers_are_read() {
    assert_eq!(obj_addr_and_size(NpuAccess::Answered(Some((5, 6)))), Ok((5, 6)));
    assert_eq!(obj_addr_and_size(NpuAccess::Answered(None)), Err(Error::NotFound));
    assert_eq!(obj_addr_and_size(NpuAccess::Locked), Err(Error::Busy));
    assert_eq!(submit(NpuAccess::Answered(None)), Err(Error::InvalidData));
    assert_eq!(submit(NpuAccess::Answered(Some(()))), Ok(()));
    assert_eq!(mem_create(NpuAccess::Absent), Err(Error::NotFound));
    assert_eq!(mem_sync(NpuAccess::Locked), Err(Error::Busy));
    assert_eq!(action(NpuAccess::Answered(Some(908))), Ok(908));
    assert_eq!(action(NpuAccess::Answered(None)), Err(Error::InvalidData));
}

#[test]
fn npu_errors_are_mapped() {
    assert_eq!(map_rknpu_err(Error::NotFound), VfsError::NotFound);
    assert_eq!(map_rknpu_err(Error::Busy), VfsError::AlreadyExists);
    assert_eq!(map_rknpu_err(Error::InvalidData), VfsError::InvalidData);
    assert_eq!(copy_from_user(0), Ok(()));
    assert_eq!(copy_from_user(1), Err(VfsError::InvalidData));
    assert_eq!(copy_to_user(0), Ok(()));
    assert_eq!(copy_to_user(usize::MAX), Err(VfsError::InvalidData));
    assert_eq!(find_exported_object(NpuAccess::Locked), Err(VfsError::NotFound));
    assert_eq!(find_exported_object(NpuAccess::Answered(Some((1, 2)))), Ok((1, 2)));
}

#[test]
fn commands_have_two_numbers() {
    assert_eq!(RknpuCmd::try_from(0x00), Ok(RknpuCmd::Action));
    assert_eq!(RknpuCmd::try_from(0x40), Ok(RknpuCmd::Action));
    assert_eq!(RknpuCmd::try_from(0x41), Ok(RknpuCmd::Submit));
    assert_eq!(RknpuCmd::try_from(0x05), Ok(RknpuCmd::MemSync));
    assert_eq!(RknpuCmd::try_from(0x44), Ok(RknpuCmd::MemDestroy));
    assert_eq!(RknpuCmd::try_from(0x06), Err(()));
    assert_eq!(RknpuCmd::try_from(0x46), Err(()));
    assert_eq!(RknpuCmd::try_from(0x3f), Err(()));
    assert_eq!(RknpuCmd::try_from(u32::MAX), Err(()));
    assert_eq!(RknpuCmd::MemMap.index(), 3);
}

#[test]
fn commands_have_names() {
    let names: Vec<&str> = (0..7).map(rknpu_cmd_name).collect();
    assert_eq!(
        names,
        vec!["action", "submit", "mem_create", "mem_map", "mem_destroy", "mem_sync", "?"]
    );
}

#[test]
fn actions_have_codes() {
    assert_eq!(RknpuAction::from_code(0), Some(RknpuAction::GetHwVersion));
    assert_eq!(RknpuAction::from_code(25), Some(RknpuAction::SetIommuDomainId));
    assert_eq!(RknpuAction::from_code(26), None);
    let outside = [
        (rockchip_npu::RknpuAction::GetDrvVersion as u32, RknpuAction::GetDrvVersion),
        (rockchip_npu::RknpuAction::ActClrTotalRwAmount as u32, RknpuAction::ActClrTotalRwAmount),
        (rockchip_npu::RknpuAction::PowerOff as u32, RknpuAction::PowerOff),
        (rockchip_npu::RknpuAction::GetFreeSramSize as u32, RknpuAction::GetFreeSramSize),
    ];
    for (code, action) in outside {
        assert_eq!(RknpuAction::from_code(code), Some(action));
    }
    let user = RknpuUserAction::default();
    assert_eq!((user.flags, user.value), (RknpuAction::GetDrvVersion, 0));
}

#[test]
fn integers_are_little_endian() {
    let mut data = vec![0xffu8; 12];
    put_u32(&mut data, 1, 0x1234_5678);
    assert_eq!(&data[0..6], &[0xff, 0x78, 0x56, 0x34, 0x12, 0xff]);
    assert_eq!(get_u32(&data, 1), 0x1234_5678);
    put_u64(&mut data, 4, 0x0102_0304_0506_0708);
    assert_eq!(&data[4..12], &[8, 7, 6, 5, 4, 3, 2, 1]);
    assert_eq!(get_u64(&data, 4), 0x0102_0304_0506_0708);
}

#[test]
fn device_constants() {
    assert_eq!(card1_system_device_id(), 0xe201);
    let card = Card1::new();
    assert_eq!(card, Card1::default());
    assert_eq!(card.flags(), axfs_ng_vfs::NodeFlags::NON_CACHEABLE.bits());
    assert_eq!(card.flags(), 2);
    let mut buf = [1u8, 2];
    assert_eq!(card.read_at(&mut buf, 0), Err(VfsError::InvalidInput));
    assert_eq!(buf, [1, 2]);
    assert_eq!(card.write_at(&buf, 0), Err(VfsError::InvalidInput));
    let exported = ExportedGemBuffer::new(PhysAddrRange::from_start_size(0, 1));
    assert_eq!(exported.poll(), 5);
    assert_eq!(exported.path(), "anon_inode:[rknpu-gem]");
}

const ARG: usize = 0x7000_0000;

fn driver(nr: u32) -> IoctlCommand {
    IoctlCommand { nr, driver: true, size: 0 }
}

fn core_ioctl(nr: u32, size: usize) -> IoctlCommand {
    IoctlCommand { nr, driver: false, size }
}

fn request(session: &IoctlSession) -> Request {
    match session.step() {
        CardStep::Wait { request } => request,
        CardStep::Finished { result } => panic!("over already: {result:?}"),
    }
}

fn result(session: &IoctlSession) -> Result<usize, VfsError> {
    match session.step() {
        CardStep::Wait { request } => panic!("still waiting: {request:?}"),
        CardStep::Finished { result } => result,
    }
}

const COPIED: Reply = Reply::Copied { left_over: 0 };
const CUT: Reply = Reply::Copied { left_over: 3 };

fn probed() -> IoctlStats {
    let mut stats = IoctlStats::new();
    assert!(stats.claim_cpu_probe());
    assert!(!stats.claim_cpu_probe());
    stats
}

fn enter(stats: &mut IoctlStats, nr: u32) -> IoctlSession {
    let mut session = Card1::new().ioctl(stats, driver(nr), ARG);
    assert_eq!(request(&session), Request::ReadClock);
    assert!(session.resume(stats, Reply::Clock { ns: 1_000 }, &[]).is_none());
    session
}

fn leave(stats: &mut IoctlStats, mut session: IoctlSession) -> (Result<usize, VfsError>, AccountReport) {
    assert_eq!(request(&session), Request::ReadClock);
    let report = session.resume(stats, Reply::Clock { ns: 4_000 }, &[]).unwrap();
    (result(&session), report)
}

#[test]
fn null_argument_is_refused() {
    let mut stats = IoctlStats::new();
    for cmd in [driver(0x41), core_ioctl(0, 64), core_ioctl(0xff, 500)] {
        let session = Card1::new().ioctl(&mut stats, cmd, 0);
        assert_eq!(result(&session), Err(VfsError::InvalidData));
    }
    assert_eq!(stats, IoctlStats::new());
}

#[test]
fn unknown_driver_ioctl_is_refused() {
    let mut stats = IoctlStats::new();
    let session = Card1::new().ioctl(&mut stats, driver(0x46), ARG);
    assert_eq!(result(&session), Err(VfsError::NotATty));
    assert_eq!(stats, IoctlStats::new());
}

#[test]
fn first_driver_ioctl_probes_the_clock() {
    let mut stats = IoctlStats::new();
    let mut session = Card1::new().ioctl(&mut stats, driver(0x44), ARG);
    assert_eq!(request(&session), Request::ProbeCpuClock);
    session.resume(&mut stats, Reply::ClockProbed, &[]);
    assert_eq!(request(&session), Request::ReadClock);
    assert!(stats.cpu_mhz_probed);
    let again = Card1::new().ioctl(&mut stats, driver(0x44), ARG);
    assert_eq!(request(&again), Request::ReadClock);
}

#[test]
fn destroying_asks_for_nothing() {
    let mut stats = probed();
    let session = enter(&mut stats, 0x44);
    let (result, report) = leave(&mut stats, session);
    assert_eq!(result, Ok(0));
    assert!(report.summary.is_none());
    assert_eq!(stats.cmd_count, [0, 0, 0, 0, 1, 0]);
    assert_eq!(stats.cmd_ns, [0, 0, 0, 0, 3_000, 0]);
    assert_eq!(stats.last_exit_ns, 4_000);
    assert_eq!(stats.total, 1);
}

#[test]
fn jobs_are_answered_even_if_refused() {
    let outcomes = [
        NpuAccess::Answered(Some(())),
        NpuAccess::Answered(None),
        NpuAccess::Locked,
        NpuAccess::Absent,
    ];
    for outcome in outcomes {
        for (nr, len) in [(0x41u32, 104usize), (0x42, 48)] {
            let mut stats = probed();
            let mut session = enter(&mut stats, nr);
            assert_eq!(request(&session), Request::CopyFromUser { src: ARG, len });
            session.resume(&mut stats, COPIED, &vec![7u8; len]);
            let expected = if nr == 0x41 {
                Request::Submit { len }
            } else {
                Request::MemCreate { len }
            };
            assert_eq!(request(&session), expected);
            assert_eq!(&session.data[..len], &vec![7u8; len][..]);
            session.resume(&mut stats, Reply::Done { outcome }, &vec![9u8; len]);
            assert_eq!(request(&session), Request::CopyToUser { dst: ARG, len });
            assert_eq!(&session.data[..len], &vec![9u8; len][..]);
            session.resume(&mut stats, COPIED, &[]);
            assert_eq!(leave(&mut stats, session).0, Ok(0));
            assert_eq!(stats.cmd_count[(nr - 0x40) as usize], 1);
        }
    }
}

#[test]
fn argument_sizes_are_those_of_the_npu_crate() {
    assert_eq!(core::mem::size_of::<rockchip_npu::ioctrl::RknpuSubmit>(), 104);
    assert_eq!(core::mem::size_of::<rockchip_npu::ioctrl::RknpuMemCreate>(), 48);
    assert_eq!(core::mem::size_of::<rockchip_npu::ioctrl::RknpuMemMap>(), 16);
    assert_eq!(core::mem::size_of::<rockchip_npu::ioctrl::RknpuMemSync>(), 32);
    let mut stats = probed();
    for (nr, len) in [(0x40u32, 8usize), (0x41, 104), (0x42, 48), (0x43, 16), (0x45, 32)] {
        let session = enter(&mut stats, nr);
        assert_eq!(request(&session), Request::CopyFromUser { src: ARG, len });
    }
}

#[test]
fn failed_copies_end_a_driver_ioctl() {
    let mut stats = probed();
    let mut session = enter(&mut stats, 0x41);
    session.resume(&mut stats, CUT, &[]);
    assert_eq!(leave(&mut stats, session).0, Err(VfsError::InvalidData));
    assert_eq!(stats.cmd_count[1], 1);

    let mut session = enter(&mut stats, 0x41);
    session.resume(&mut stats, COPIED, &[1; 104]);
    session.resume(&mut stats, Reply::Done { outcome: NpuAccess::Answered(Some(())) }, &[1; 104]);
    session.resume(&mut stats, CUT, &[]);
    assert_eq!(leave(&mut stats, session).0, Err(VfsError::InvalidData));
    assert_eq!(stats.total, 2);
}

#[test]
fn refused_synchronization_is_reported() {
    let cases = [
        (NpuAccess::Answered(None), VfsError::InvalidData),
        (NpuAccess::Locked, VfsError::AlreadyExists),
        (NpuAccess::Absent, VfsError::NotFound),
    ];
    for (outcome, err) in cases {
        let mut stats = probed();
        let mut session = enter(&mut stats, 0x45);
        session.resume(&mut stats, COPIED, &[1; 32]);
        assert_eq!(request(&session), Request::MemSync { len: 32 });
        session.resume(&mut stats, Reply::Done { outcome }, &[1; 32]);
        assert_eq!(leave(&mut stats, session).0, Err(err));
    }
}

#[test]
fn mapping_query_returns_an_offset() {
    let mut stats = probed();
    let mut session = enter(&mut stats, 0x43);
    let mut args = [0u8; 16];
    args[0] = 5;
    args[4] = 0xaa;
    session.resume(&mut stats, COPIED, &args);
    assert_eq!(request(&session), Request::FindPhys { handle: 5 });
    let found = NpuAccess::Answered(Some((0x8000_0000, 4096)));
    session.resume(&mut stats, Reply::Phys { found }, &[]);
    assert_eq!(request(&session), Request::CopyToUser { dst: ARG, len: 16 });
    assert_eq!(get_u64(&session.data, 8), 0x5000);
    assert_eq!(get_u32(&session.data, 0), 5);
    assert_eq!(session.data[4], 0xaa);
    session.resume(&mut stats, COPIED, &[]);
    assert_eq!(leave(&mut stats, session).0, Ok(0));

    let mut session = enter(&mut stats, 0x43);
    session.resume(&mut stats, COPIED, &args);
    session.resume(&mut stats, Reply::Phys { found: NpuAccess::Answered(None) }, &[]);
    assert_eq!(leave(&mut stats, session).0, Err(VfsError::InvalidData));
}

#[test]
fn action_returns_its_value() {
    let mut stats = probed();
    let mut session = enter(&mut stats, 0x40);
    session.resume(&mut stats, COPIED, &[1, 0, 0, 0, 0xee, 0xee, 0, 0]);
    assert_eq!(request(&session), Request::RunAction { action: RknpuAction::GetDrvVersion });
    session.resume(&mut stats, Reply::Value { value: NpuAccess::Answered(Some(908)) }, &[]);
    assert_eq!(get_u32(&session.data, 4), 908);
    session.resume(&mut stats, COPIED, &[]);
    assert_eq!(leave(&mut stats, session).0, Ok(0));

    let mut session = enter(&mut stats, 0x40);
    session.resume(&mut stats, COPIED, &[5, 0, 0, 0, 0xee, 0xee, 0, 0]);
    session.resume(&mut stats, Reply::Value { value: NpuAccess::Answered(None) }, &[]);
    assert_eq!(request(&session), Request::CopyToUser { dst: ARG, len: 8 });
    assert_eq!(&session.data[..8], &[5, 0, 0, 0, 0xee, 0xee, 0, 0]);
}

fn version_args(rooms: [u64; 3], buffers: [u64; 3]) -> Vec<u8> {
    let mut args = vec![0xabu8; 64];
    for i in 0..3 {
        put_u64(&mut args, 16 + 16 * i, rooms[i]);
        put_u64(&mut args, 24 + 16 * i, buffers[i]);
    }
    args
}

#[test]
fn version_query_copies_the_texts() {
    let mut stats = IoctlStats::new();
    let mut session = Card1::new().ioctl(&mut stats, core_ioctl(0, 64), ARG);
    assert_eq!(request(&session), Request::CopyFromUser { src: ARG, len: 64 });
    session.resume(&mut stats, COPIED, &version_args([64, 3, 64], [0x100, 0x200, 0x300]));
    assert_eq!(request(&session), Request::CopyText { dst: 0x100, field: DrmField::Name, len: 5 });
    session.resume(&mut stats, COPIED, &[]);
    assert_eq!(request(&session), Request::CopyText { dst: 0x200, field: DrmField::Date, len: 3 });
    session.resume(&mut stats, COPIED, &[]);
    assert_eq!(request(&session), Request::CopyText { dst: 0x300, field: DrmField::Desc, len: 12 });
    session.resume(&mut stats, COPIED, &[]);
    assert_eq!(request(&session), Request::CopyToUser { dst: ARG, len: 64 });
    let data = &session.data;
    assert_eq!((get_u32(data, 0), get_u32(data, 4), get_u32(data, 8)), (0, 9, 8));
    assert_eq!((get_u64(data, 16), get_u64(data, 32), get_u64(data, 48)), (5, 8, 12));
    assert_eq!((get_u64(data, 24), get_u64(data, 40), get_u64(data, 56)), (0x100, 0x200, 0x300));
    assert_eq!(data[12], 0xab);
    session.resume(&mut stats, COPIED, &[]);
    assert_eq!(result(&session), Ok(0));
    assert_eq!(stats, IoctlStats::new());
}

#[test]
fn version_query_without_buffers_reports_lengths() {
    let mut stats = IoctlStats::new();
    let mut session = Card1::new().ioctl(&mut stats, core_ioctl(0, 64), ARG);
    session.resume(&mut stats, COPIED, &version_args([0, 9, 0], [1, 0, 1]));
    assert_eq!(request(&session), Request::CopyToUser { dst: ARG, len: 64 });
    let data = &session.data;
    assert_eq!((get_u64(data, 16), get_u64(data, 32), get_u64(data, 48)), (5, 8, 12));
    session.resume(&mut stats, CUT, &[]);
    assert_eq!(result(&session), Err(VfsError::InvalidData));
}

#[test]
fn version_query_fails_with_its_copies() {
    let mut stats = IoctlStats::new();
    let mut session = Card1::new().ioctl(&mut stats, core_ioctl(0, 64), ARG);
    session.resume(&mut stats, CUT, &[]);
    assert_eq!(result(&session), Err(VfsError::InvalidData));
    let mut session = Card1::new().ioctl(&mut stats, core_ioctl(0, 64), ARG);
    session.resume(&mut stats, COPIED, &version_args([0, 8, 8], [1, 2, 3]));
    assert_eq!(request(&session), Request::CopyText { dst: 2, field: DrmField::Date, len: 8 });
    session.resume(&mut stats, CUT, &[]);
    assert_eq!(result(&session), Err(VfsError::InvalidData));
}

#[test]
fn texts_are_what_they_say() {
    assert_eq!(DrmField::Name.value(), b"rknpu\0".to_vec());
    assert_eq!(DrmField::Date.value(), b"20240828\0".to_vec());
    assert_eq!(DrmField::Desc.value(), b"RKNPU driver\0".to_vec());
}

#[test]
fn fields_are_cut_to_the_buffer() {
    let mut len = 3u64;
    assert_eq!(drm_copy_field(1, &mut len, Some(b"rknpu\0")), Some(3));
    assert_eq!(len, 5);
    let mut len = 9u64;
    assert_eq!(drm_copy_field(1, &mut len, Some(b"rk\0pu\0")), Some(2));
    assert_eq!(len, 2);
    let mut len = 9u64;
    assert_eq!(drm_copy_field(0, &mut len, Some(b"rknpu\0")), None);
    assert_eq!(len, 5);
    let mut len = 9u64;
    assert_eq!(drm_copy_field(1, &mut len, Some(b"\0")), None);
    assert_eq!(len, 0);
    let mut len = 9u64;
    assert_eq!(drm_copy_field(1, &mut len, None), None);
    assert_eq!(len, 0);
}

#[test]
fn version_starts_with_its_first_copy() {
    let mut data = vec![0u8; DATA_SIZE];
    put_u64(&mut data, 32, 2);
    put_u64(&mut data, 40, 0x99);
    let step = drm_version(&mut data);
    assert_eq!(step, VersionStep::Copy { field: DrmField::Date, dst: 0x99, len: 2 });
    assert_eq!((get_u64(&data, 16), get_u64(&data, 32), get_u64(&data, 48)), (5, 8, 0));
}

#[test]
fn version_fits_its_structure() {
    let mut data = version_args([9, 0, 0], [0, 0, 0]);
    assert_eq!(data.len(), 64);
    assert_eq!(drm_version(&mut data), VersionStep::Complete);
    assert_eq!((get_u64(&data, 16), get_u64(&data, 32), get_u64(&data, 48)), (5, 8, 12));
    assert_eq!(data.len(), 64);
}

#[test]
fn unique_name_is_empty() {
    let mut data = vec![0xffu8; DATA_SIZE];
    assert_eq!(drm_get_unique(&mut data), Ok(()));
    assert_eq!(get_u64(&data, 0), 0);
    assert!(data[8..].iter().all(|b| *b == 0xff));
    let mut short = vec![0xffu8; 24];
    assert_eq!(drm_get_unique(&mut short), Ok(()));
    assert_eq!(&short[..8], &[0; 8]);
    assert_eq!(&short[8..], &[0xff; 16]);

    let mut stats = IoctlStats::new();
    let mut session = Card1::new().ioctl(&mut stats, core_ioctl(1, 16), ARG);
    session.resume(&mut stats, COPIED, &[0x11; 16]);
    assert_eq!(request(&session), Request::CopyToUser { dst: ARG, len: 16 });
    assert_eq!(&session.data[..16], &[0, 0, 0, 0, 0, 0, 0, 0, 17, 17, 17, 17, 17, 17, 17, 17]);
}

#[test]
fn global_names_are_refused() {
    assert_eq!(drm_gem_flink_ioctl(), Err(VfsError::NotFound));
    let mut stats = IoctlStats::new();
    let mut session = Card1::new().ioctl(&mut stats, core_ioctl(10, 8), ARG);
    session.resume(&mut stats, COPIED, &[0; 8]);
    assert_eq!(result(&session), Err(VfsError::NotFound));
}

fn export(stats: &mut IoctlStats, flags: u32) -> IoctlSession {
    let mut args = vec![0u8; 12];
    put_u32(&mut args, 0, 6);
    put_u32(&mut args, 4, flags);
    let mut session = Card1::new().ioctl(stats, core_ioctl(0x2d, 12), ARG);
    session.resume(stats, COPIED, &args);
    assert_eq!(request(&session), Request::FindObject { handle: 6 });
    session
}

#[test]
fn export_installs_a_descriptor() {
    for cloexec in [false, true] {
        let flags = if cloexec {
            linux_raw_sys::general::O_CLOEXEC as u32
        } else {
            2
        };
        let mut stats = IoctlStats::new();
        let mut session = export(&mut stats, flags);
        let found = NpuAccess::Answered(Some((0xffff_0000, 0x2000)));
        session.resume(&mut stats, Reply::Object { found }, &[]);
        assert_eq!(request(&session), Request::VirtToPhys { vaddr: 0xffff_0000 });
        session.resume(&mut stats, Reply::Translated { paddr: 0x4000_0000 }, &[]);
        let range = PhysAddrRange { start: 0x4000_0000, end: 0x4000_2000 };
        assert_eq!(request(&session), Request::InstallFd { range, cloexec });
        session.resume(&mut stats, Reply::Installed { fd: Some(-2) }, &[]);
        assert_eq!(request(&session), Request::CopyToUser { dst: ARG, len: 12 });
        assert_eq!(get_u32(&session.data, 8) as i32, -2);
        assert_eq!(get_u32(&session.data, 0), 6);
        assert_eq!(get_u32(&session.data, 4), flags);
        session.resume(&mut stats, COPIED, &[]);
        assert_eq!(result(&session), Ok(0));
    }
}

#[test]
fn export_fails_without_a_buffer_or_a_descriptor() {
    for found in [NpuAccess::Absent, NpuAccess::Locked, NpuAccess::Answered(None)] {
        let mut stats = IoctlStats::new();
        let mut session = export(&mut stats, 0);
        session.resume(&mut stats, Reply::Object { found }, &[]);
        assert_eq!(result(&session), Err(VfsError::NotFound));
    }
    let mut stats = IoctlStats::new();
    let mut session = export(&mut stats, 0);
    session.resume(&mut stats, Reply::Object { found: NpuAccess::Answered(Some((1, 1))) }, &[]);
    session.resume(&mut stats, Reply::Translated { paddr: 1 }, &[]);
    session.resume(&mut stats, Reply::Installed { fd: None }, &[]);
    assert_eq!(result(&session), Err(VfsError::NoMemory));
}

#[test]
fn mapping_selects_the_buffer() {
    let card = Card1::new();
    let start = card.mmap(0x6000, 0x1000);
    assert_eq!(start.request(), Some(Request::FindObject { handle: 6 }));
    let found = NpuAccess::Answered(Some((0xffff_0000, 0x2000)));
    let phys = start.resume(Reply::Object { found });
    assert_eq!(phys.request(), Some(Request::VirtToPhys { vaddr: 0xffff_0000 }));
    let end = phys.resume(Reply::Translated { paddr: 0x4000_0000 });
    let range = PhysAddrRange { start: 0x4000_0000, end: 0x4000_2000 };
    assert_eq!(end, MmapState::Finished { map: DeviceMmap::Physical(range, None) });
    assert_eq!(end.request(), None);

    let unmapped = MmapState::Finished { map: DeviceMmap::Unmapped };
    assert_eq!(card.mmap(0, 0), unmapped);
    assert_eq!(card.mmap(0x6001, 0), unmapped);
    assert_eq!(start.resume(Reply::Object { found: NpuAccess::Locked }), unmapped);
}

#[test]
fn driver_ioctls_keep_their_entry_time() {
    let mut stats = probed();
    let mut session = enter(&mut stats, 0x40);
    session.resume(&mut stats, CUT, &[]);
    assert_eq!(
        session.state,
        CardState::Leaving {
            op: RknpuCmd::Action,
            entry_ns: 1_000,
            result: Err(VfsError::InvalidData),
        }
    );
}

#[test]
fn elapsed_time_is_never_negative() {
    assert_eq!(elapsed_us(1_000, 5_999), 4);
    assert_eq!(elapsed_us(5_000, 1_000), 0);
}

#[test]
fn cpu_clock_is_derived_from_the_probe() {
    let probe = measure_and_log_cpu_mhz(1_000, 100_001_000);
    assert_eq!((probe.iters, probe.dt_ns, probe.mhz), (200_000_000, 100_000_000, 2_000));
    let stuck = measure_and_log_cpu_mhz(5, 5);
    assert_eq!((stuck.dt_ns, stuck.mhz), (1, 200_000_000_000));
}

#[test]
fn gaps_lie_between_ioctls() {
    let mut stats = IoctlStats::new();
    stats.account_rknpu_ioctl(RknpuCmd::Action, 1_000, 2_000);
    assert_eq!((stats.gap_ns, stats.gap_count), (0, 0));
    stats.account_rknpu_ioctl(RknpuCmd::MemSync, 2_500, 2_600);
    assert_eq!((stats.gap_ns, stats.gap_count), (500, 1));
    stats.account_rknpu_ioctl(RknpuCmd::MemSync, 2_600, 2_700);
    assert_eq!((stats.gap_ns, stats.gap_count), (500, 1));
    assert_eq!(stats.cmd_ns, [1_000, 0, 0, 0, 0, 200]);
    assert_eq!(stats.cmd_count, [1, 0, 0, 0, 0, 2]);
}

#[test]
fn bursts_are_reported_when_the_next_one_starts() {
    let mut stats = IoctlStats::new();
    for i in 0..10u64 {
        let entry = 1_000_000 + i * 2_000_000;
        let report = stats.account_rknpu_ioctl(RknpuCmd::Submit, entry, entry + 10);
        assert_eq!(report.burst, None);
    }
    let report = stats.account_rknpu_ioctl(RknpuCmd::Submit, 100_000_000, 100_000_010);
    assert_eq!(
        report.burst,
        Some(BurstReport { submits: 10, span_us: 18_000, us_per_submit: 1_800 })
    );
    assert_eq!(stats.bursts.count, 1);
    let report = stats.account_rknpu_ioctl(RknpuCmd::Submit, 200_000_000, 200_000_010);
    assert_eq!(report.burst, None);
    assert_eq!(stats.bursts.count, 1);
    let report = stats.account_rknpu_ioctl(RknpuCmd::Submit, 230_000_000, 230_000_010);
    assert_eq!(report.burst, None);
    assert_eq!(stats.bursts.count, 2);
}

#[test]
fn reports_give_the_burst_that_is_over() {
    let mut stats = IoctlStats::new();
    let mut reports = Vec::new();
    let mut entry = 0u64;
    for (gap_ns, submits) in [(50_000_000u64, 12u64), (31_000_000, 4), (30_000_001, 10), (40_000_000, 1)] {
        for k in 0..submits {
            entry += if k == 0 { gap_ns } else { 30_000_000 };
            stats.account_rknpu_ioctl(RknpuCmd::Action, entry, entry);
            reports.extend(stats.account_rknpu_ioctl(RknpuCmd::Submit, entry, entry).burst);
        }
    }
    assert_eq!(
        reports,
        vec![
            BurstReport { submits: 12, span_us: 330_000, us_per_submit: 27_500 },
            BurstReport { submits: 10, span_us: 270_000, us_per_submit: 27_000 },
        ]
    );
}

#[test]
fn clocks_are_raised_once() {
    let mut stats = IoctlStats::new();
    let mut raised = Vec::new();
    for i in 1..=200u64 {
        let report = stats.account_rknpu_ioctl(RknpuCmd::Submit, i, i);
        if report.raise_clocks {
            raised.push(i);
        }
    }
    assert_eq!(raised, vec![60]);
}

#[test]
fn no_time_is_lost() {
    let mut stats = IoctlStats::new();
    let calls = [
        (RknpuCmd::Action, 700u64, 900u64),
        (RknpuCmd::Submit, 1_000, 5_000),
        (RknpuCmd::MemSync, 5_000, 5_001),
        (RknpuCmd::Submit, 9_000, 9_500),
    ];
    for (op, entry, exit) in calls {
        stats.account_rknpu_ioctl(op, entry, exit);
        assert_eq!(stats.cmd_ns.iter().sum::<u64>() + stats.gap_ns, exit - 700);
        assert!(stats.gap_count < stats.total);
        assert!(stats.bursts.count <= stats.bursts.total);
    }
    assert_eq!((stats.gap_count, stats.total), (2, 4));
    assert_eq!((stats.bursts.count, stats.bursts.total), (2, 2));
}

#[test]
fn summaries_come_at_intervals() {
    let mut stats = IoctlStats::new();
    let mut summaries = 0;
    for i in 1..=8192u64 {
        let op = if i % 2 == 0 {
            RknpuCmd::MemSync
        } else {
            RknpuCmd::Action
        };
        let report = stats.account_rknpu_ioctl(op, i * 4_000, i * 4_000 + 1_000);
        if let Some(summary) = report.summary {
            summaries += 1;
            assert_eq!(summary.ioctls, i);
            assert_eq!(summary.rows.iter().map(|row| row.count).sum::<u64>(), i);
            if i == 4096 {
                assert_eq!(
                    summary.rows,
                    vec![
                        PartRow { kind: 0, count: 2048, total_us: 2048, avg_us: 1 },
                        PartRow { kind: 5, count: 2048, total_us: 2048, avg_us: 1 },
                    ]
                );
                assert_eq!(summary.kernel_us, 4096);
                assert_eq!(summary.gap_us, 12_285);
                assert_eq!((summary.gap_count, summary.gap_avg_us), (4095, 3));
                assert_eq!(summary.wall_us, 16_381);
                assert_eq!(summary.kernel_share, Percent { whole: 25, tenths: 0 });
                assert_eq!(summary.gap_share, Percent { whole: 75, tenths: 0 });
            }
        }
    }
    assert_eq!(summaries, 2);
}

#[test]
fn summary_of_nothing() {
    let summary = IoctlStats::new().summary();
    assert!(summary.rows.is_empty());
    assert_eq!((summary.kernel_us, summary.wall_us, summary.gap_avg_us), (0, 0, 0));
    assert_eq!(summary.kernel_share, Percent { whole: 0, tenths: 0 });
    assert_eq!(summary.gap_share, Percent { whole: 100, tenths: 0 });
}

#[test]
fn counters_wrap() {
    let mut stats = IoctlStats::new();
    stats.cmd_count[0] = u64::MAX;
    stats.total = u64::MAX;
    let report = stats.account_rknpu_ioctl(RknpuCmd::Action, 1, 2);
    assert_eq!((stats.cmd_count[0], stats.total), (0, 0));
    assert!(report.summary.is_some());
}

#[test]
fn only_the_first_calls_are_logged() {
    let mut counters = LogCounters::new();
    let submits: Vec<Option<usize>> = (0..18).map(|_| counters.next(RknpuCmd::Submit)).collect();
    assert_eq!((submits[0], submits[15], submits[16]), (Some(0), Some(15), None));
    let syncs: Vec<Option<usize>> = (0..34).map(|_| counters.next(RknpuCmd::MemSync)).collect();
    assert_eq!((syncs[31], syncs[32]), (Some(31), None));
    assert_eq!(counters.next(RknpuCmd::MemMap), None);
    assert_eq!(counters.next(RknpuCmd::Action), Some(0));
    assert_eq!(counters.seen, [1, 18, 0, 1, 0, 34]);
}

#[test]
fn register_windows_are_whole_pages() {
    let window = reg_window(0xfdab_0010, Some(0x1000));
    assert_eq!((window.start, window.size, window.offset), (0xfdab_0000, 0x2000, 0x10));
    let window = reg_window(0xfdab_0000, None);
    assert_eq!((window.start, window.size, window.offset), (0xfdab_0000, 0x1000, 0));
    let window = reg_window(0x1fff, Some(1));
    assert_eq!((window.start, window.size, window.offset), (0x1000, 0x1000, 0xfff));
    let window = reg_window(0x2000, Some(0));
    assert_eq!((window.start, window.size, window.offset), (0x2000, 0, 0));
}

fn rate(hz: Option<u64>) -> ProbeReply<u8> {
    ProbeReply::Clock { reply: ClockReply::Rate { hz } }
}

fn answer(request: ProbeRequest) -> ProbeReply<u8> {
    match request {
        ProbeRequest::MapPages { start, .. } => ProbeReply::Mapped { base: Ok(start + 0x1000_0000) },
        ProbeRequest::FindClock => ProbeReply::ClockFound { clock: Some(Some(6)) },
        ProbeRequest::Clock { request: ClockRequest::Read { .. } } => rate(None),
        ProbeRequest::Clock { request: ClockRequest::Change { clock, .. } } => ProbeReply::Clock {
            reply: ClockReply::Changed { done: matches!(clock, ClockId::Scmi { .. }) },
        },
        _ => ProbeReply::Done,
    }
}

#[test]
fn bring_up_goes_through_its_steps() {
    let mut probe = NpuProbe::probe(&[(0x1010, Some(0x10)), (0x5000, None)]);
    let mut steps = Vec::new();
    while let Some(request) = probe.request() {
        steps.push(request);
        probe.resume(answer(request));
    }
    let read = |clock| ProbeRequest::Clock { request: ClockRequest::Read { clock } };
    let change = |clock, hz| ProbeRequest::Clock { request: ClockRequest::Change { clock, hz } };
    let npu = ClockId::Scmi { id: 6 };
    let data = ClockId::Cru { id: 304 };
    assert_eq!(
        steps,
        vec![
            ProbeRequest::MapPages { start: 0x1000, size: 0x1000 },
            ProbeRequest::MapPages { start: 0x5000, size: 0x1000 },
            ProbeRequest::PowerOn { domain: 9 },
            ProbeRequest::PowerOn { domain: 8 },
            ProbeRequest::PowerOn { domain: 10 },
            ProbeRequest::PowerOn { domain: 11 },
            ProbeRequest::ShowProtocols,
            ProbeRequest::FindClock,
            read(npu),
            change(npu, 1_000_000_000),
            read(npu),
            read(data),
            change(data, 1_188_000_000),
            read(ClockId::Cru { id: 301 }),
            read(ClockId::Cru { id: 290 }),
            read(ClockId::Cru { id: 292 }),
            read(ClockId::Cru { id: 303 }),
            read(ClockId::Cru { id: 305 }),
            ProbeRequest::Register,
        ]
    );
    assert_eq!(probe.bases, vec![0x1000_1010, 0x1000_5000]);
    assert_eq!(probe.state, ProbeState::Finished { result: Ok(()) });
}

#[test]
fn bring_up_without_a_compute_clock() {
    let mut probe = NpuProbe::<u8>::probe(&[]);
    assert_eq!(probe.state, ProbeState::Powering { index: 0 });
    while probe.state != ProbeState::Finding {
        probe.resume(ProbeReply::Done);
    }
    let mut unnumbered: NpuProbe<u8> = NpuProbe { windows: vec![], bases: vec![], state: ProbeState::Finding };
    unnumbered.resume(ProbeReply::ClockFound { clock: Some(None) });
    let read = |clock| Some(ProbeRequest::Clock { request: ClockRequest::Read { clock } });
    assert_eq!(unnumbered.request(), read(ClockId::Scmi { id: 0 }));
    probe.resume(ProbeReply::ClockFound { clock: None });
    assert_eq!(probe.request(), read(ClockId::Cru { id: 304 }));
}

#[test]
fn bring_up_stops_at_a_mapping_failure() {
    let mut probe = NpuProbe::probe(&[(0x1000, None), (0x5000, None)]);
    probe.resume(ProbeReply::Mapped { base: Ok(0) });
    probe.resume(ProbeReply::Mapped { base: Err(77u8) });
    assert_eq!(probe.state, ProbeState::Finished { result: Err(77) });
    assert_eq!(probe.bases, vec![0]);
    assert_eq!(probe.request(), None);
}

#[test]
fn clusters_are_raised_one_after_the_other() {
    let mut clusters = set_cpu_clusters_max();
    let mut done = Vec::new();
    assert_eq!(clusters.name(), "A76_B0");
    let b0 = ClockId::Scmi { id: 2 };
    assert_eq!(clusters.request(), Some(ClockRequest::Read { clock: b0 }));
    assert_eq!(clusters.resume(ClockReply::Rate { hz: Some(816_000_000) }), None);
    assert_eq!(clusters.request(), Some(ClockRequest::Change { clock: b0, hz: 2_400_000_000 }));
    done.extend(clusters.resume(ClockReply::Changed { done: false }));
    assert_eq!(clusters.name(), "A76_B1");
    let b1 = ClockId::Scmi { id: 3 };
    assert_eq!(clusters.request(), Some(ClockRequest::Read { clock: b1 }));
    done.extend(clusters.resume(ClockReply::Rate { hz: None }));
    done.extend(clusters.resume(ClockReply::Changed { done: true }));
    assert_eq!(clusters.raise, RaiseState::After { before: 0 });
    done.extend(clusters.resume(ClockReply::Rate { hz: Some(2_256_000_000) }));
    assert_eq!(clusters.request(), None);
    assert_eq!(
        done,
        vec![
            RaiseOutcome::Refused,
            RaiseOutcome::Raised { before: 0, after: 2_256_000_000 },
        ]
    );
}
