//! Pin multiplexing, pin configuration and GPIO of the RK3588.
//!
//! The functions here decide which register block serves a pin and in which order its settings
//! are made; the register accesses themselves are requests that the caller carries out.
use vstd::prelude::*;

verus! {

/// How many GPIO banks there are.
pub const GPIO_BANKS: usize = 5;

/// How many pins a bank has.
pub const PINS_PER_BANK: u32 = 32;

/// How many groups of eight pins, each with a multiplexer register, a bank has.
pub const GROUPS_PER_BANK: usize = 4;

/// How many bytes of multiplexer registers a bank occupies.
pub const BANK_STRIDE: usize = 0x20;

/// How many of them a group occupies.
pub const GROUP_STRIDE: usize = 8;

/// A pin, by its bank and its number in the bank.
#[derive(Debug, Clone, Copy, PartialEq, Eq)]
pub struct PinId {
    bank: u32,
    pin: u32,
}

impl PinId {
    /// Whether the pin is one that there is, as every `PinId` is.
    #[verifier::type_invariant]
    pub closed spec fn wf(self) -> bool {
        self.bank < GPIO_BANKS && self.pin < PINS_PER_BANK
    }

    /// The number of the bank.
    pub closed spec fn bank_number(self) -> int {
        self.bank as int
    }

    /// The number of the pin in its bank.
    pub closed spec fn pin_number(self) -> int {
        self.pin as int
    }

    /// The group of the pin in its bank.
    pub open spec fn group_number(self) -> int {
        self.pin_number() / 8
    }

    /// The pin with the given numbers, if there is one.
    pub fn from_bank_pin(bank: u32, pin_in_bank: u32) -> (r: Option<PinId>)
        ensures
            r is Some <==> bank < GPIO_BANKS && pin_in_bank < PINS_PER_BANK,
            r matches Some(id) ==> id.bank_number() == bank && id.pin_number() == pin_in_bank,
    {
        if (bank as usize) < GPIO_BANKS && pin_in_bank < PINS_PER_BANK {
            Some(PinId { bank, pin: pin_in_bank })
        } else {
            None
        }
    }

    /// The number of the bank.
    pub fn bank(&self) -> (r: u32)
        ensures
            r == self.bank_number(),
            r < GPIO_BANKS,
    {
        proof {
            use_type_invariant(self);
        }
        self.bank
    }

    /// The number of the pin in its bank.
    pub fn pin_in_bank(&self) -> (r: u32)
        ensures
            r == self.pin_number(),
            r < PINS_PER_BANK,
    {
        proof {
            use_type_invariant(self);
        }
        self.pin
    }
}

/// How wide the fields of a multiplexer register are.
#[derive(Debug, Clone, Copy, PartialEq, Eq, Structural)]
pub enum IomuxKind {
    /// Four bits per pin.
    Width4Bit,
}

/// The multiplexer register of a group of pins.
#[derive(Debug, Clone, Copy, PartialEq, Eq, Structural)]
pub struct IomuxReg {
    pub ty: IomuxKind,
    /// Its offset in the register block.
    pub offset: usize,
}

/// A GPIO bank.
#[derive(Debug, Clone, Copy, PartialEq, Eq)]
pub struct GpioBank {
    /// The address of its registers.
    pub base: usize,
    /// The multiplexer registers of its groups.
    pub iomux: [IomuxReg; 4],
}

/// The direction of a GPIO pin.
#[derive(Debug, Clone, Copy, PartialEq, Eq, Structural)]
pub enum GpioDirection {
    Input,
    Output,
}

/// The settings of a pin.
#[derive(Debug, Clone, Copy, PartialEq, Eq)]
pub struct PinConfig {
    pub id: PinId,
    /// The function that the pin is multiplexed to.
    pub mux: u8,
    /// The code of the pull resistor.
    pub pull: u32,
    /// The code of the drive strength, if it is to be set.
    pub drive: Option<u32>,
}

/// A register access.
#[derive(Debug, Clone, Copy, PartialEq, Eq)]
pub enum PinRequest {
    /// Read the level of a pin through the bank at `base`.
    ReadLevel { base: usize, pin: PinId },
    /// Drive a pin through the bank at `base`.
    WriteLevel { base: usize, pin: PinId, high: bool },
    /// Read the direction of a pin through the bank at `base`.
    ReadDirection { base: usize, pin: PinId },
    /// Set the direction of a pin through the bank at `base`.
    WriteDirection { base: usize, pin: PinId, direction: GpioDirection },
    /// Check that the bank at `base` lets the pin take a function.
    VerifyMux { base: usize, pin: PinId, mux: u8 },
    /// Ask the bank at `base` whether the pin is fixed to GPIO.
    IsGpioOnly { base: usize, pin: PinId },
    /// Multiplex a pin, through its register in the block at `ioc`.
    SetMux { ioc: usize, pin: PinId, mux: u8, iomux: IomuxReg },
    /// Set the pull resistor of a pin in the block at `ioc`.
    SetPull { ioc: usize, pin: PinId, pull: u32 },
    /// Set the drive strength of a pin in the block at `ioc`.
    SetDrive { ioc: usize, pin: PinId, drive: u32 },
    /// Read the function of a pin from its register in the block at `ioc`.
    GetMux { ioc: usize, pin: PinId, iomux: IomuxReg },
    /// Read the pull resistor of a pin in the block at `ioc`.
    GetPull { ioc: usize, pin: PinId },
    /// Read the drive strength of a pin in the block at `ioc`.
    GetDrive { ioc: usize, pin: PinId },
}

/// What came of a register access; `E` is the kind of its errors.
#[derive(Debug, PartialEq, Eq)]
pub enum PinReply<E> {
    /// A check, or a setting.
    Status { status: Result<(), E> },
    /// Whether the pin is fixed to GPIO.
    GpioOnly { only: bool },
    /// The function that the pin is multiplexed to.
    Mux { mux: Result<u8, E> },
    /// The code of a pull resistor or of a drive strength.
    Code { code: Result<u32, E> },
}

/// How far the configuration of a pin has come.
#[derive(Debug, Clone, Copy, PartialEq, Eq, Structural)]
pub enum SetStage {
    VerifyMux,
    GpioOnly,
    Mux,
    Pull,
    Drive,
}

/// How the configuration of a pin goes on.
#[derive(Debug, PartialEq, Eq)]
pub enum SetStep<E> {
    /// It makes an access, and waits for what comes of it.
    Wait { request: PinRequest, stage: SetStage },
    /// It is over.
    Finished { result: Result<(), E> },
}

/// How far the query of a pin's settings has come, with what is known by then.
#[derive(Debug, Clone, Copy, PartialEq, Eq)]
pub enum GetStage {
    Mux,
    Pull { mux: u8 },
    Drive { mux: u8, pull: u32 },
}

/// How the query of a pin's settings goes on.
#[derive(Debug, PartialEq, Eq)]
pub enum GetStep<E> {
    /// It makes an access, and waits for what comes of it.
    Wait { request: PinRequest, stage: GetStage },
    /// It is over.
    Finished { result: Result<PinConfig, E> },
}

/// The pin controller.
#[derive(Debug, Clone, Copy, PartialEq, Eq)]
pub struct PinCtrl {
    /// The address of the I/O controller's registers.
    pub ioc: usize,
    /// The GPIO banks.
    pub gpio_banks: [GpioBank; 5],
}

/// The multiplexer register of group `group` in bank `bank`. The registers of the banks follow
/// each other, as do those of the groups in a bank.
pub open spec fn iomux_at(bank: int, group: int) -> IomuxReg {
    IomuxReg {
        ty: IomuxKind::Width4Bit,
        offset: (bank * BANK_STRIDE + group * GROUP_STRIDE) as usize,
    }
}

/// The multiplexer registers of a bank that begin at `bank_bus_offset`.
fn iomux_for_bank(bank_bus_offset: usize) -> (r: [IomuxReg; 4])
    requires
        bank_bus_offset + GROUPS_PER_BANK * GROUP_STRIDE <= usize::MAX,
    ensures
        forall|g: int|
            0 <= g < GROUPS_PER_BANK ==> #[trigger] r@[g] == (IomuxReg {
                ty: IomuxKind::Width4Bit,
                offset: (bank_bus_offset + g * GROUP_STRIDE) as usize,
            }),
{
    [
        IomuxReg { ty: IomuxKind::Width4Bit, offset: bank_bus_offset },
        IomuxReg { ty: IomuxKind::Width4Bit, offset: bank_bus_offset + GROUP_STRIDE },
        IomuxReg { ty: IomuxKind::Width4Bit, offset: bank_bus_offset + 2 * GROUP_STRIDE },
        IomuxReg { ty: IomuxKind::Width4Bit, offset: bank_bus_offset + 3 * GROUP_STRIDE },
    ]
}

impl PinCtrl {
    /// Whether the multiplexer registers lie where the RK3588 has them.
    pub open spec fn laid_out(self) -> bool {
        forall|b: int, g: int|
            0 <= b < GPIO_BANKS && 0 <= g < GROUPS_PER_BANK
                ==> #[trigger] self.gpio_banks@[b].iomux@[g] == iomux_at(b, g)
    }

    /// The bank of a pin.
    pub open spec fn bank_of(self, pin: PinId) -> GpioBank {
        self.gpio_banks@[pin.bank_number()]
    }

    /// The multiplexer register of a pin.
    pub open spec fn iomux_of(self, pin: PinId) -> IomuxReg {
        self.bank_of(pin).iomux@[pin.group_number()]
    }

    /// The controller with its registers at `ioc` and the registers of its banks at `gpio`.
    pub fn new(ioc: usize, gpio: &[usize]) -> (r: Self)
        requires
            gpio@.len() == GPIO_BANKS,
        ensures
            r.ioc == ioc,
            forall|b: int| 0 <= b < GPIO_BANKS ==> #[trigger] r.gpio_banks@[b].base == gpio@[b],
            r.laid_out(),
    {
        PinCtrl {
            ioc,
            gpio_banks: [
                GpioBank { base: gpio[0], iomux: iomux_for_bank(0x00) },
                GpioBank { base: gpio[1], iomux: iomux_for_bank(0x20) },
                GpioBank { base: gpio[2], iomux: iomux_for_bank(0x40) },
                GpioBank { base: gpio[3], iomux: iomux_for_bank(0x60) },
                GpioBank { base: gpio[4], iomux: iomux_for_bank(0x80) },
            ],
        }
    }

    /// The bank of a pin.
    pub fn bank(&self, pin: PinId) -> (r: GpioBank)
        ensures
            r == self.bank_of(pin),
    {
        self.gpio_banks[pin.bank() as usize]
    }

    fn iomux(&self, pin: PinId) -> (r: IomuxReg)
        ensures
            r == self.iomux_of(pin),
    {
        self.bank(pin).iomux[pin.pin_in_bank() as usize / 8]
    }

    /// The access that reads the level of a GPIO pin.
    pub fn read_gpio(&self, pin: PinId) -> (r: PinRequest)
        ensures
            r == (PinRequest::ReadLevel { base: self.bank_of(pin).base, pin }),
    {
        PinRequest::ReadLevel { base: self.bank(pin).base, pin }
    }

    /// The access that drives a GPIO pin.
    pub fn write_gpio(&self, pin: PinId, value: bool) -> (r: PinRequest)
        ensures
            r == (PinRequest::WriteLevel { base: self.bank_of(pin).base, pin, high: value }),
    {
        PinRequest::WriteLevel { base: self.bank(pin).base, pin, high: value }
    }

    /// The access that reads the direction of a GPIO pin.
    pub fn gpio_direction(&self, pin: PinId) -> (r: PinRequest)
        ensures
            r == (PinRequest::ReadDirection { base: self.bank_of(pin).base, pin }),
    {
        PinRequest::ReadDirection { base: self.bank(pin).base, pin }
    }

    /// The access that sets the direction of a GPIO pin.
    pub fn set_gpio_direction(&self, pin: PinId, direction: GpioDirection) -> (r: PinRequest)
        ensures
            r == (PinRequest::WriteDirection { base: self.bank_of(pin).base, pin, direction }),
    {
        PinRequest::WriteDirection { base: self.bank(pin).base, pin, direction }
    }

    /// The access that the configuration of a pin makes at a stage.
    pub open spec fn set_request(self, config: PinConfig, stage: SetStage) -> PinRequest {
        let pin = config.id;
        match stage {
            SetStage::VerifyMux => PinRequest::VerifyMux {
                base: self.bank_of(pin).base,
                pin,
                mux: config.mux,
            },
            SetStage::GpioOnly => PinRequest::IsGpioOnly { base: self.bank_of(pin).base, pin },
            SetStage::Mux => PinRequest::SetMux {
                ioc: self.ioc,
                pin,
                mux: config.mux,
                iomux: self.iomux_of(pin),
            },
            SetStage::Pull => PinRequest::SetPull { ioc: self.ioc, pin, pull: config.pull },
            SetStage::Drive => PinRequest::SetDrive {
                ioc: self.ioc,
                pin,
                drive: config.drive->Some_0,
            },
        }
    }

    /// The stage that comes after one that has succeeded, if any does: a pin that is fixed to
    /// GPIO is not multiplexed, and a drive strength is set only if there is one.
    pub open spec fn set_following(config: PinConfig, stage: SetStage, gpio_only: bool) -> Option<
        SetStage,
    > {
        match stage {
            SetStage::VerifyMux => Some(SetStage::GpioOnly),
            SetStage::GpioOnly => Some(
                if gpio_only {
                    SetStage::Pull
                } else {
                    SetStage::Mux
                },
            ),
            SetStage::Mux => Some(SetStage::Pull),
            SetStage::Pull => if config.drive is Some {
                Some(SetStage::Drive)
            } else {
                None
            },
            SetStage::Drive => None,
        }
    }

    /// Whether `reply` can come of the access at a stage.
    pub open spec fn set_accepts<E>(config: PinConfig, stage: SetStage, reply: PinReply<E>) -> bool {
        &&& stage == SetStage::GpioOnly ==> reply is GpioOnly
        &&& stage != SetStage::GpioOnly ==> reply is Status
        &&& stage == SetStage::Drive ==> config.drive is Some
    }

    /// How the configuration of a pin goes on after a reply.
    pub open spec fn set_after<E>(
        self,
        config: PinConfig,
        stage: SetStage,
        reply: PinReply<E>,
    ) -> SetStep<E> {
        match reply {
            PinReply::Status { status: Err(err) } => SetStep::Finished { result: Err(err) },
            _ => match Self::set_following(
                config,
                stage,
                reply matches PinReply::GpioOnly { only } && only,
            ) {
                Some(next) => SetStep::Wait {
                    request: self.set_request(config, next),
                    stage: next,
                },
                None => SetStep::Finished { result: Ok(()) },
            },
        }
    }

    /// Begins to multiplex a pin: the function is verified first.
    fn set_mux(&self, config: &PinConfig) -> (r: PinRequest)
        ensures
            r == self.set_request(*config, SetStage::VerifyMux),
    {
        PinRequest::VerifyMux { base: self.bank(config.id).base, pin: config.id, mux: config.mux }
    }

    /// Begins to configure a pin. The settings are made one after the other: the function, the
    /// pull resistor, and the drive strength.
    pub fn set_config<E>(&self, config: PinConfig) -> (r: SetStep<E>)
        ensures
            r == (SetStep::<E>::Wait {
                request: self.set_request(config, SetStage::VerifyMux),
                stage: SetStage::VerifyMux,
            }),
    {
        SetStep::Wait { request: self.set_mux(&config), stage: SetStage::VerifyMux }
    }

    /// Goes on with the configuration of a pin, once it is known what came of its access.
    pub fn set_config_next<E>(&self, config: PinConfig, stage: SetStage, reply: PinReply<E>) -> (r:
        SetStep<E>)
        requires
            Self::set_accepts(config, stage, reply),
        ensures
            r == self.set_after(config, stage, reply),
    {
        let mut gpio_only: bool = false;
        match reply {
            PinReply::Status { status: Err(err) } => {
                return SetStep::Finished { result: Err(err) };
            },
            PinReply::GpioOnly { only } => {
                gpio_only = only;
            },
            _ => {},
        }
        let pin = config.id;
        match stage {
            SetStage::VerifyMux => SetStep::Wait {
                request: PinRequest::IsGpioOnly { base: self.bank(pin).base, pin },
                stage: SetStage::GpioOnly,
            },
            SetStage::GpioOnly if !gpio_only => SetStep::Wait {
                request: PinRequest::SetMux {
                    ioc: self.ioc,
                    pin,
                    mux: config.mux,
                    iomux: self.iomux(pin),
                },
                stage: SetStage::Mux,
            },
            SetStage::GpioOnly | SetStage::Mux => SetStep::Wait {
                request: PinRequest::SetPull { ioc: self.ioc, pin, pull: config.pull },
                stage: SetStage::Pull,
            },
            SetStage::Pull => match config.drive {
                Some(drive) => SetStep::Wait {
                    request: PinRequest::SetDrive { ioc: self.ioc, pin, drive },
                    stage: SetStage::Drive,
                },
                None => SetStep::Finished { result: Ok(()) },
            },
            SetStage::Drive => SetStep::Finished { result: Ok(()) },
        }
    }

    /// Begins to query the settings of a pin.
    pub fn get_config<E>(&self, pin: PinId) -> (r: GetStep<E>)
        ensures
            r == (GetStep::<E>::Wait {
                request: PinRequest::GetMux { ioc: self.ioc, pin, iomux: self.iomux_of(pin) },
                stage: GetStage::Mux,
            }),
    {
        GetStep::Wait {
            request: PinRequest::GetMux { ioc: self.ioc, pin, iomux: self.iomux(pin) },
            stage: GetStage::Mux,
        }
    }

    /// Whether `reply` can come of the access at a stage.
    pub open spec fn get_accepts<E>(stage: GetStage, reply: PinReply<E>) -> bool {
        match stage {
            GetStage::Mux => reply is Mux,
            _ => reply is Code,
        }
    }

    /// How the query of a pin's settings goes on after a reply.
    pub open spec fn get_after<E>(self, pin: PinId, stage: GetStage, reply: PinReply<E>) -> GetStep<
        E,
    > {
        match (stage, reply) {
            (GetStage::Mux, PinReply::Mux { mux: Ok(mux) }) => GetStep::Wait {
                request: PinRequest::GetPull { ioc: self.ioc, pin },
                stage: GetStage::Pull { mux },
            },
            (GetStage::Pull { mux }, PinReply::Code { code: Ok(pull) }) => GetStep::Wait {
                request: PinRequest::GetDrive { ioc: self.ioc, pin },
                stage: GetStage::Drive { mux, pull },
            },
            (
                GetStage::Drive { mux, pull },
                PinReply::Code { code: Ok(drive) },
            ) => GetStep::Finished {
                result: Ok(PinConfig { id: pin, mux, pull, drive: Some(drive) }),
            },
            (_, PinReply::Mux { mux: Err(err) }) => GetStep::Finished { result: Err(err) },
            (_, PinReply::Code { code: Err(err) }) => GetStep::Finished { result: Err(err) },
            _ => arbitrary(),
        }
    }

    /// Goes on with the query of a pin's settings, once it is known what came of its access.
    pub fn get_config_next<E>(&self, pin: PinId, stage: GetStage, reply: PinReply<E>) -> (r:
        GetStep<E>)
        requires
            Self::get_accepts(stage, reply),
        ensures
            r == self.get_after(pin, stage, reply),
    {
        match stage {
            GetStage::Mux => match reply {
                PinReply::Mux { mux: Ok(mux) } => GetStep::Wait {
                    request: PinRequest::GetPull { ioc: self.ioc, pin },
                    stage: GetStage::Pull { mux },
                },
                PinReply::Mux { mux: Err(err) } => GetStep::Finished { result: Err(err) },
                _ => self.get_config(pin),
            },
            GetStage::Pull { mux } => match reply {
                PinReply::Code { code: Ok(pull) } => GetStep::Wait {
                    request: PinRequest::GetDrive { ioc: self.ioc, pin },
                    stage: GetStage::Drive { mux, pull },
                },
                PinReply::Code { code: Err(err) } => GetStep::Finished { result: Err(err) },
                _ => self.get_config(pin),
            },
            GetStage::Drive { mux, pull } => match reply {
                PinReply::Code { code: Ok(drive) } => GetStep::Finished {
                    result: Ok(PinConfig { id: pin, mux, pull, drive: Some(drive) }),
                },
                PinReply::Code { code: Err(err) } => GetStep::Finished { result: Err(err) },
                _ => self.get_config(pin),
            },
        }
    }
}

/// No two groups of pins share a multiplexer register, and the registers of a bank stay within
/// the bytes that belong to the bank.
pub proof fn law_iomux_registers_apart(ctrl: PinCtrl, b1: int, g1: int, b2: int, g2: int)
    requires
        ctrl.laid_out(),
        0 <= b1 < GPIO_BANKS,
        0 <= g1 < GROUPS_PER_BANK,
        0 <= b2 < GPIO_BANKS,
        0 <= g2 < GROUPS_PER_BANK,
    ensures
        ({
            let first = ctrl.gpio_banks@[b1].iomux@[g1].offset;
            let second = ctrl.gpio_banks@[b2].iomux@[g2].offset;
            &&& b1 * BANK_STRIDE <= first
            &&& first + GROUP_STRIDE <= (b1 + 1) * BANK_STRIDE
            &&& (b1, g1) != (b2, g2) ==> first + GROUP_STRIDE <= second || second + GROUP_STRIDE
                <= first
        }),
{
}

/// Pins of the same group, and only those, are multiplexed through the same register.
pub proof fn law_pins_of_a_group_share_a_register(ctrl: PinCtrl, p: PinId, q: PinId)
    requires
        ctrl.laid_out(),
        p.wf(),
        q.wf(),
    ensures
        ctrl.iomux_of(p) == ctrl.iomux_of(q) <==> p.bank_number() == q.bank_number()
            && p.group_number() == q.group_number(),
{
    law_iomux_registers_apart(
        ctrl,
        p.bank_number(),
        p.group_number(),
        q.bank_number(),
        q.group_number(),
    );
}

/// An access that fails ends the configuration of a pin with its error, and nothing more is set.
pub proof fn law_failed_setting_ends_configuration<E>(
    ctrl: PinCtrl,
    config: PinConfig,
    stage: SetStage,
    err: E,
)
    ensures
        ctrl.set_after(config, stage, PinReply::Status { status: Err(err) }) == (
        SetStep::<E>::Finished { result: Err(err) }),
{
}

/// The stages of a configuration in which every access succeeds, from `stage` on.
pub open spec fn stages_from(config: PinConfig, stage: SetStage, gpio_only: bool) -> Seq<SetStage>
    decreases 5 - stage_rank(stage),
{
    match PinCtrl::set_following(config, stage, gpio_only) {
        Some(next) => seq![stage] + stages_from(config, next, gpio_only),
        None => seq![stage],
    }
}

/// The place of a stage in the order.
pub open spec fn stage_rank(stage: SetStage) -> int {
    match stage {
        SetStage::VerifyMux => 0,
        SetStage::GpioOnly => 1,
        SetStage::Mux => 2,
        SetStage::Pull => 3,
        SetStage::Drive => 4,
    }
}

/// A configuration whose accesses succeed sets the function, unless the pin is fixed to GPIO,
/// then the pull resistor, and then the drive strength, if there is one to set.
pub proof fn law_configuration_order(config: PinConfig, gpio_only: bool)
    ensures
        stages_from(config, SetStage::VerifyMux, gpio_only) == seq![
            SetStage::VerifyMux,
            SetStage::GpioOnly,
        ] + (if gpio_only {
            Seq::empty()
        } else {
            seq![SetStage::Mux]
        }) + seq![SetStage::Pull] + (if config.drive is Some {
            seq![SetStage::Drive]
        } else {
            Seq::empty()
        }),
{
    reveal_with_fuel(stages_from, 5);
}

/// A query that is answered throughout gives the settings that were read, each in its place.
pub proof fn law_query_gives_what_was_read<E>(
    ctrl: PinCtrl,
    pin: PinId,
    mux: u8,
    pull: u32,
    drive: u32,
)
    ensures
        ctrl.get_after(pin, GetStage::Mux, PinReply::<E>::Mux { mux: Ok(mux) }) == (GetStep::<
            E,
        >::Wait {
            request: PinRequest::GetPull { ioc: ctrl.ioc, pin },
            stage: GetStage::Pull { mux },
        }),
        ctrl.get_after(pin, GetStage::Pull { mux }, PinReply::<E>::Code { code: Ok(pull) }) == (
        GetStep::<E>::Wait {
            request: PinRequest::GetDrive { ioc: ctrl.ioc, pin },
            stage: GetStage::Drive { mux, pull },
        }),
        ctrl.get_after(
            pin,
            GetStage::Drive { mux, pull },
            PinReply::<E>::Code { code: Ok(drive) },
        ) == (GetStep::<E>::Finished {
            result: Ok(PinConfig { id: pin, mux, pull, drive: Some(drive) }),
        }),
{
}

/// A pin is served by the bank that it names, and multiplexed through the register of its group
/// of eight: 0x20 bytes further per bank, 8 bytes further per group, four bits per pin.
pub proof fn law_where_a_pin_is_served(ctrl: PinCtrl, pin: PinId)
    requires
        ctrl.laid_out(),
        pin.wf(),
    ensures
        ctrl.bank_of(pin) == ctrl.gpio_banks@[pin.bank_number()],
        ctrl.iomux_of(pin).offset == 0x20 * pin.bank_number() + 8 * (pin.pin_number() / 8),
        ctrl.iomux_of(pin).ty == IomuxKind::Width4Bit,
{
    assert(ctrl.gpio_banks@[pin.bank_number()].iomux@[pin.pin_number() / 8] == iomux_at(
        pin.bank_number(),
        pin.pin_number() / 8,
    ));
}

/// A configuration whose accesses succeed, access by access: each one is about the pin and
/// carries its setting, the checks go to the bank of the pin and the settings to the I/O
/// controller. A pin that is fixed to GPIO skips its multiplexing.
pub proof fn law_configuration_run<E>(ctrl: PinCtrl, config: PinConfig, only: bool)
    ensures
        ({
            let pin = config.id;
            let base = ctrl.gpio_banks@[pin.bank_number()].base;
            let iomux = ctrl.gpio_banks@[pin.bank_number()].iomux@[pin.pin_number() / 8];
            let ok = PinReply::<E>::Status { status: Ok(()) };
            let pull = SetStep::<E>::Wait {
                request: PinRequest::SetPull { ioc: ctrl.ioc, pin, pull: config.pull },
                stage: SetStage::Pull,
            };
            &&& ctrl.set_request(config, SetStage::VerifyMux) == (PinRequest::VerifyMux {
                base,
                pin,
                mux: config.mux,
            })
            &&& ctrl.set_after(config, SetStage::VerifyMux, ok) == (SetStep::<E>::Wait {
                request: PinRequest::IsGpioOnly { base, pin },
                stage: SetStage::GpioOnly,
            })
            &&& ctrl.set_after(
                config,
                SetStage::GpioOnly,
                PinReply::<E>::GpioOnly { only: false },
            ) == (SetStep::<E>::Wait {
                request: PinRequest::SetMux { ioc: ctrl.ioc, pin, mux: config.mux, iomux },
                stage: SetStage::Mux,
            })
            &&& ctrl.set_after(config, SetStage::GpioOnly, PinReply::<E>::GpioOnly { only: true })
                == pull
            &&& ctrl.set_after(config, SetStage::Mux, ok) == pull
            &&& config.drive is None ==> ctrl.set_after(config, SetStage::Pull, ok) == (SetStep::<
                E,
            >::Finished { result: Ok(()) })
            &&& config.drive matches Some(drive) ==> ctrl.set_after(config, SetStage::Pull, ok) == (
            SetStep::<E>::Wait {
                request: PinRequest::SetDrive { ioc: ctrl.ioc, pin, drive },
                stage: SetStage::Drive,
            })
            &&& ctrl.set_after(config, SetStage::Drive, ok) == (SetStep::<E>::Finished {
                result: Ok(()),
            })
        }),
{
}

/// An access that fails ends the query of a pin's settings with its error.
pub proof fn law_failed_reading_ends_query<E>(ctrl: PinCtrl, pin: PinId, mux: u8, pull: u32, err: E)
    ensures
        ctrl.get_after(pin, GetStage::Mux, PinReply::<E>::Mux { mux: Err(err) }) == (GetStep::<
            E,
        >::Finished { result: Err(err) }),
        ctrl.get_after(pin, GetStage::Pull { mux }, PinReply::<E>::Code { code: Err(err) }) == (
        GetStep::<E>::Finished { result: Err(err) }),
        ctrl.get_after(
            pin,
            GetStage::Drive { mux, pull },
            PinReply::<E>::Code { code: Err(err) },
        ) == (GetStep::<E>::Finished { result: Err(err) }),
{
}

/// Whatever comes of an access can be gone on with.
pub proof fn law_every_access_outcome_is_taken<E>(
    config: PinConfig,
    stage: SetStage,
    query: GetStage,
    only: bool,
    status: Result<(), E>,
    mux: Result<u8, E>,
    code: Result<u32, E>,
)
    ensures
        PinCtrl::set_accepts(config, SetStage::GpioOnly, PinReply::<E>::GpioOnly { only }),
        stage != SetStage::GpioOnly && (stage == SetStage::Drive ==> config.drive is Some)
            ==> PinCtrl::set_accepts(config, stage, PinReply::<E>::Status { status }),
        PinCtrl::get_accepts(GetStage::Mux, PinReply::<E>::Mux { mux }),
        query != GetStage::Mux ==> PinCtrl::get_accepts(query, PinReply::<E>::Code { code }),
{
}

} // verus!
