use rk3588_support::mbr::{
    has_mbr_signature, has_room_for_mbr, scan_mbr_partitions, DevError, PartitionRegion, PartitionTableKind,
};
use rk3588_support::pinctrl::{
    GetStage, GetStep, GpioDirection, IomuxKind, PinConfig, PinCtrl, PinId, PinReply, PinRequest,
    SetStage, SetStep,
};
use rk3588_support::soc::{
    rk3588_enable_clock, rk3588_enable_power_domain, rk3588_reset_deassert, rk3588_set_pin_mux,
    PinCtrlAccess, PinMuxOutcome, PinMuxState,
};
use rk3588_support::text::append_numeral;

const IOC: usize = 0xfd5f_0000;
const GPIO: [usize; 5] = [0xfd8a_0000, 0xfec2_0000, 0xfec3_0000, 0xfec4_0000, 0xfec5_0000];

fn pin(bank: u32, number: u32) -> PinId {
    PinId::from_bank_pin(bank, number).unwrap()
}

#[test]
fn pins_are_limited() {
    assert_eq!((pin(4, 31).bank(), pin(4, 31).pin_in_bank()), (4, 31));
    assert!(PinId::from_bank_pin(5, 0).is_none());
    assert!(PinId::from_bank_pin(0, 32).is_none());
}

#[test]
fn multiplexer_registers_follow_each_other() {
    let ctrl = PinCtrl::new(IOC, &GPIO);
    let offsets: Vec<Vec<usize>> = ctrl
        .gpio_banks
        .iter()
        .map(|bank| bank.iomux.iter().map(|reg| reg.offset).collect())
        .collect();
    assert_eq!(
        offsets,
        vec![
            vec![0x00, 0x08, 0x10, 0x18],
            vec![0x20, 0x28, 0x30, 0x38],
            vec![0x40, 0x48, 0x50, 0x58],
            vec![0x60, 0x68, 0x70, 0x78],
            vec![0x80, 0x88, 0x90, 0x98],
        ]
    );
    assert_eq!(ctrl.gpio_banks[3].iomux[2].ty, IomuxKind::Width4Bit);
    assert_eq!(ctrl.bank(pin(2, 9)).base, GPIO[2]);
}

#[test]
fn pins_of_a_group_share_a_register() {
    let ctrl = PinCtrl::new(IOC, &GPIO);
    let register = |p: PinId| match ctrl.get_config::<u8>(p) {
        GetStep::Wait { request: PinRequest::GetMux { iomux, .. }, .. } => iomux,
        other => panic!("{other:?}"),
    };
    assert_eq!(register(pin(2, 8)), register(pin(2, 15)));
    assert_ne!(register(pin(2, 8)), register(pin(2, 16)));
    assert_ne!(register(pin(2, 8)), register(pin(3, 8)));
}

#[test]
fn gpio_accesses_go_to_the_bank_of_the_pin() {
    let ctrl = PinCtrl::new(IOC, &GPIO);
    let p = pin(3, 7);
    let base = GPIO[3];
    assert_eq!(ctrl.read_gpio(p), PinRequest::ReadLevel { base, pin: p });
    assert_eq!(ctrl.write_gpio(p, true), PinRequest::WriteLevel { base, pin: p, high: true });
    assert_eq!(ctrl.gpio_direction(p), PinRequest::ReadDirection { base, pin: p });
    assert_eq!(
        ctrl.set_gpio_direction(p, GpioDirection::Output),
        PinRequest::WriteDirection { base, pin: p, direction: GpioDirection::Output }
    );
}

fn configure(config: PinConfig, gpio_only: bool, fail_at: Option<SetStage>) -> (Vec<PinRequest>, Result<(), u8>) {
    let ctrl = PinCtrl::new(IOC, &GPIO);
    let mut requests = Vec::new();
    let mut step: SetStep<u8> = ctrl.set_config(config);
    loop {
        match step {
            SetStep::Wait { request, stage } => {
                requests.push(request);
                let reply = if stage == SetStage::GpioOnly {
                    PinReply::GpioOnly { only: gpio_only }
                } else if fail_at == Some(stage) {
                    PinReply::Status { status: Err(42) }
                } else {
                    PinReply::Status { status: Ok(()) }
                };
                step = ctrl.set_config_next(config, stage, reply);
            }
            SetStep::Finished { result } => return (requests, result),
        }
    }
}

#[test]
fn settings_are_made_in_order() {
    let p = pin(1, 18);
    let config = PinConfig { id: p, mux: 3, pull: 1, drive: Some(5) };
    let base = GPIO[1];
    let (requests, result) = configure(config, false, None);
    assert_eq!(result, Ok(()));
    let iomux = PinCtrl::new(IOC, &GPIO).gpio_banks[1].iomux[2];
    assert_eq!(
        requests,
        vec![
            PinRequest::VerifyMux { base, pin: p, mux: 3 },
            PinRequest::IsGpioOnly { base, pin: p },
            PinRequest::SetMux { ioc: IOC, pin: p, mux: 3, iomux },
            PinRequest::SetPull { ioc: IOC, pin: p, pull: 1 },
            PinRequest::SetDrive { ioc: IOC, pin: p, drive: 5 },
        ]
    );
    assert_eq!(iomux.offset, 0x30);
}

#[test]
fn fixed_pins_are_not_multiplexed() {
    let p = pin(0, 0);
    let config = PinConfig { id: p, mux: 0, pull: 2, drive: None };
    let (requests, result) = configure(config, true, None);
    assert_eq!(result, Ok(()));
    assert_eq!(
        requests,
        vec![
            PinRequest::VerifyMux { base: GPIO[0], pin: p, mux: 0 },
            PinRequest::IsGpioOnly { base: GPIO[0], pin: p },
            PinRequest::SetPull { ioc: IOC, pin: p, pull: 2 },
        ]
    );
}

#[test]
fn failed_settings_end_the_configuration() {
    let config = PinConfig { id: pin(0, 0), mux: 0, pull: 2, drive: Some(1) };
    let stages = [
        (SetStage::VerifyMux, 1),
        (SetStage::Mux, 3),
        (SetStage::Pull, 4),
        (SetStage::Drive, 5),
    ];
    for (stage, count) in stages {
        let (requests, result) = configure(config, false, Some(stage));
        assert_eq!((requests.len(), result), (count, Err(42)));
    }
}

#[test]
fn settings_are_read_back() {
    let ctrl = PinCtrl::new(IOC, &GPIO);
    let p = pin(4, 31);
    let iomux = ctrl.gpio_banks[4].iomux[3];
    let step: GetStep<u8> = ctrl.get_config(p);
    assert_eq!(
        step,
        GetStep::Wait { request: PinRequest::GetMux { ioc: IOC, pin: p, iomux }, stage: GetStage::Mux }
    );
    let step: GetStep<u8> = ctrl.get_config_next(p, GetStage::Mux, PinReply::Mux { mux: Ok(7) });
    let stage = GetStage::Pull { mux: 7 };
    assert_eq!(step, GetStep::Wait { request: PinRequest::GetPull { ioc: IOC, pin: p }, stage });
    let step: GetStep<u8> = ctrl.get_config_next(p, stage, PinReply::Code { code: Ok(2) });
    let stage = GetStage::Drive { mux: 7, pull: 2 };
    assert_eq!(step, GetStep::Wait { request: PinRequest::GetDrive { ioc: IOC, pin: p }, stage });
    let step: GetStep<u8> = ctrl.get_config_next(p, stage, PinReply::Code { code: Ok(9) });
    let config = PinConfig { id: p, mux: 7, pull: 2, drive: Some(9) };
    assert_eq!(step, GetStep::Finished { result: Ok(config) });

    let step: GetStep<u8> = ctrl.get_config_next(p, GetStage::Mux, PinReply::Mux { mux: Err(1) });
    assert_eq!(step, GetStep::Finished { result: Err(1) });
    let step: GetStep<u8> = ctrl.get_config_next(p, stage, PinReply::Code { code: Err(1) });
    assert_eq!(step, GetStep::Finished { result: Err(1) });
}

#[test]
fn pin_mux_requests_are_best_effort() {
    let over = |outcome| PinMuxState::Finished { outcome };
    assert_eq!(rk3588_set_pin_mux(false, 1, 1, 1), over(PinMuxOutcome::Unsupported));
    assert_eq!(rk3588_set_pin_mux(true, 5, 1, 1), over(PinMuxOutcome::InvalidPin));
    assert_eq!(rk3588_set_pin_mux(true, 1, 32, 1), over(PinMuxOutcome::InvalidPin));
    let start = rk3588_set_pin_mux(true, 1, 2, 0x10a);
    assert_eq!(start, PinMuxState::Acquire { id: pin(1, 2), mux: 0x0a });
    assert_eq!(start.accessed(PinCtrlAccess::Missing), over(PinMuxOutcome::NotRegistered));
    assert_eq!(start.accessed(PinCtrlAccess::LockFailed), over(PinMuxOutcome::LockFailed));
    let apply = start.accessed(PinCtrlAccess::Locked);
    assert_eq!(apply, PinMuxState::Apply { id: pin(1, 2), mux: 0x0a });
    assert_eq!(apply.applied(true), over(PinMuxOutcome::Applied));
    assert_eq!(apply.applied(false), over(PinMuxOutcome::Refused));
}

#[test]
fn missing_support_is_explained() {
    assert_eq!(
        rk3588_enable_clock(0x12f),
        Err("RK3588 clock support is not enabled for clock 0x12f".to_string())
    );
    assert_eq!(
        rk3588_enable_power_domain(10),
        Err("RK3588 power-domain support is not enabled for power domain 10".to_string())
    );
    assert_eq!(
        rk3588_reset_deassert(u64::MAX),
        Err(format!("RK3588 reset support is not enabled for reset {:#x}", u64::MAX))
    );
    assert_eq!(
        rk3588_reset_deassert(0),
        Err("RK3588 reset support is not enabled for reset 0x0".to_string())
    );
}

#[test]
fn numerals() {
    for n in [0u64, 9, 10, 255, 4096, u64::MAX] {
        let mut text = String::from("n=");
        append_numeral(&mut text, n, 10);
        assert_eq!(text, format!("n={n}"));
        let mut text = String::new();
        append_numeral(&mut text, n, 16);
        assert_eq!(text, format!("{n:x}"));
        let mut text = String::new();
        append_numeral(&mut text, n, 2);
        assert_eq!(text, format!("{n:b}"));
    }
}

fn disk(slots: [(u8, u32, u32); 4]) -> Vec<u8> {
    let mut block = vec![0u8; 512];
    for (i, (kind, start, size)) in slots.into_iter().enumerate() {
        let at = 446 + 16 * i;
        block[at + 4] = kind;
        block[at + 8..at + 12].copy_from_slice(&start.to_le_bytes());
        block[at + 12..at + 16].copy_from_slice(&size.to_le_bytes());
    }
    block[510] = 0x55;
    block[511] = 0xaa;
    block
}

#[test]
fn partitions_are_listed() {
    let block = disk([(0x83, 2048, 1000), (0, 7, 7), (0x0c, u32::MAX, u32::MAX), (0, 0, 0)]);
    let table = scan_mbr_partitions(512, Some(&block)).unwrap().unwrap();
    assert_eq!(table.kind, PartitionTableKind::Mbr);
    assert_eq!(table.partitions.len(), 2);
    let first = &table.partitions[0];
    assert_eq!(first.index, 0);
    assert_eq!(first.region, PartitionRegion { start_lba: 2048, end_lba: 3048 });
    assert_eq!(first.name.as_deref(), Some("mbr1"));
    assert_eq!(first.part_uuid, None);
    let second = &table.partitions[1];
    assert_eq!(second.index, 2);
    assert_eq!(
        second.region,
        PartitionRegion { start_lba: 0xffff_ffff, end_lba: 0x1_ffff_fffe }
    );
    assert_eq!(second.name.as_deref(), Some("mbr3"));
    assert_eq!(second.table_kind, PartitionTableKind::Mbr);
}

#[test]
fn larger_blocks_are_searched_too() {
    let mut block = disk([(0, 0, 0), (0, 0, 0), (0, 0, 0), (1, 5, 0)]);
    block.resize(4096, 0);
    let table = scan_mbr_partitions(4096, Some(&block)).unwrap().unwrap();
    assert_eq!(table.partitions[0].name.as_deref(), Some("mbr4"));
    assert_eq!(table.partitions[0].region, PartitionRegion { start_lba: 5, end_lba: 5 });
}

#[test]
fn disks_without_a_table() {
    assert!(!has_room_for_mbr(511));
    assert!(has_room_for_mbr(512));
    assert_eq!(scan_mbr_partitions(511, None), Ok(None));
    assert_eq!(scan_mbr_partitions(512, None), Err(DevError::Io));
    let empty = disk([(0, 1, 1); 4]);
    assert_eq!(scan_mbr_partitions(512, Some(&empty)), Ok(None));
    let mut unsigned = disk([(1, 1, 1); 4]);
    assert!(has_mbr_signature(&unsigned));
    unsigned[511] = 0x55;
    assert!(!has_mbr_signature(&unsigned));
    assert_eq!(scan_mbr_partitions(512, Some(&unsigned)), Ok(None));
}
