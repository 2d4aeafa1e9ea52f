//! RK3588 helpers for drivers that must not depend on the SoC support being there.
use crate::pinctrl::{PinId, GPIO_BANKS, PINS_PER_BANK};
use crate::text::{append_numeral, numeral};
use vstd::prelude::*;
use vstd::string::*;

verus! {

/// What became of a request to multiplex a pin. All but the last leave the pin as it was, and
/// none of them is an error to the caller.
#[derive(Debug, Clone, Copy, PartialEq, Eq, Structural)]
pub enum PinMuxOutcome {
    /// The support for the SoC is not enabled.
    Unsupported,
    /// There is no such pin.
    InvalidPin,
    /// The pin controller is not registered.
    NotRegistered,
    /// The pin controller could not be locked.
    LockFailed,
    /// The pin controller refused.
    Refused,
    /// The pin is multiplexed.
    Applied,
}

/// How far a request to multiplex a pin has come.
#[derive(Debug, Clone, Copy, PartialEq, Eq)]
pub enum PinMuxState {
    /// It needs the pin controller, locked.
    Acquire { id: PinId, mux: u8 },
    /// It has it, and needs the pin set.
    Apply { id: PinId, mux: u8 },
    /// It is over.
    Finished { outcome: PinMuxOutcome },
}

/// What came of looking up and locking the pin controller.
#[derive(Debug, Clone, Copy, PartialEq, Eq, Structural)]
pub enum PinCtrlAccess {
    /// It is not registered.
    Missing,
    /// It could not be locked.
    LockFailed,
    /// It is locked now.
    Locked,
}

/// Whether `state` is how a request to set the function of a pin begins. Only the low eight bits
/// of `mux` count.
pub open spec fn pin_mux_starts(
    supported: bool,
    bank: u32,
    pin_in_bank: u32,
    mux: u32,
    state: PinMuxState,
) -> bool {
    if !supported {
        state == (PinMuxState::Finished { outcome: PinMuxOutcome::Unsupported })
    } else if bank < GPIO_BANKS && pin_in_bank < PINS_PER_BANK {
        &&& state matches PinMuxState::Acquire { id, mux: bits }
        &&& id.bank_number() == bank
        &&& id.pin_number() == pin_in_bank
        &&& bits == mux % 0x100
    } else {
        state == (PinMuxState::Finished { outcome: PinMuxOutcome::InvalidPin })
    }
}

/// Begins to set the function of the pin that is identified by a bank and a number in it.
/// `supported` says whether the support for the SoC is enabled.
pub fn rk3588_set_pin_mux(supported: bool, bank: u32, pin_in_bank: u32, mux: u32) -> (r:
    PinMuxState)
    ensures
        pin_mux_starts(supported, bank, pin_in_bank, mux, r),
{
    if !supported {
        return PinMuxState::Finished { outcome: PinMuxOutcome::Unsupported };
    }
    match PinId::from_bank_pin(bank, pin_in_bank) {
        Some(id) => PinMuxState::Acquire { id, mux: (mux % 0x100) as u8 },
        None => PinMuxState::Finished { outcome: PinMuxOutcome::InvalidPin },
    }
}

impl PinMuxState {
    /// The state after the pin controller was looked up and locked, or was not.
    pub open spec fn after_access(self, access: PinCtrlAccess) -> PinMuxState {
        match (self, access) {
            (PinMuxState::Acquire { id, mux }, PinCtrlAccess::Locked) => PinMuxState::Apply {
                id,
                mux,
            },
            (PinMuxState::Acquire { id, mux }, PinCtrlAccess::Missing) => PinMuxState::Finished {
                outcome: PinMuxOutcome::NotRegistered,
            },
            (PinMuxState::Acquire { id, mux }, PinCtrlAccess::LockFailed) => PinMuxState::Finished {
                outcome: PinMuxOutcome::LockFailed,
            },
            _ => self,
        }
    }

    /// Goes on once the pin controller was looked up and locked, or was not.
    pub fn accessed(self, access: PinCtrlAccess) -> (r: PinMuxState)
        ensures
            r == self.after_access(access),
    {
        match (self, access) {
            (PinMuxState::Acquire { id, mux }, PinCtrlAccess::Locked) => PinMuxState::Apply {
                id,
                mux,
            },
            (PinMuxState::Acquire { .. }, PinCtrlAccess::Missing) => PinMuxState::Finished {
                outcome: PinMuxOutcome::NotRegistered,
            },
            (PinMuxState::Acquire { .. }, PinCtrlAccess::LockFailed) => PinMuxState::Finished {
                outcome: PinMuxOutcome::LockFailed,
            },
            _ => self,
        }
    }

    /// The state after the pin controller set the pin, or refused to.
    pub open spec fn after_setting(self, done: bool) -> PinMuxState {
        match self {
            PinMuxState::Apply { id, mux } => PinMuxState::Finished {
                outcome: if done {
                    PinMuxOutcome::Applied
                } else {
                    PinMuxOutcome::Refused
                },
            },
            _ => self,
        }
    }

    /// Goes on once the pin controller set the pin, or refused to.
    pub fn applied(self, done: bool) -> (r: PinMuxState)
        ensures
            r == self.after_setting(done),
    {
        match self {
            PinMuxState::Apply { .. } => PinMuxState::Finished {
                outcome: if done {
                    PinMuxOutcome::Applied
                } else {
                    PinMuxOutcome::Refused
                },
            },
            _ => self,
        }
    }
}

/// A pin is set exactly if the support is enabled, the pin exists, its controller can be had and
/// does not refuse; in every other case the request ends quietly.
pub proof fn law_pin_mux_is_best_effort(
    supported: bool,
    bank: u32,
    pin_in_bank: u32,
    mux: u32,
    start: PinMuxState,
    access: PinCtrlAccess,
    done: bool,
)
    requires
        pin_mux_starts(supported, bank, pin_in_bank, mux, start),
    ensures
        ({
            let end = start.after_access(access).after_setting(done);
            &&& end is Finished
            &&& end->outcome == PinMuxOutcome::Applied <==> supported && bank < GPIO_BANKS
                && pin_in_bank < PINS_PER_BANK && access == PinCtrlAccess::Locked && done
        }),
{
}

/// Why a clock cannot be enabled where the support for the SoC is not.
pub fn rk3588_enable_clock(id: u32) -> (r: Result<(), String>)
    ensures
        r matches Err(text) && text@ == "RK3588 clock support is not enabled for clock 0x"@ + numeral(
            id as nat,
            16,
        ),
{
    let mut text = String::from_str("RK3588 clock support is not enabled for clock 0x");
    append_numeral(&mut text, id as u64, 16);
    Err(text)
}

/// Why a power domain cannot be enabled where the support for the SoC is not.
pub fn rk3588_enable_power_domain(domain: usize) -> (r: Result<(), String>)
    ensures
        r matches Err(text) && text@
            == "RK3588 power-domain support is not enabled for power domain "@ + numeral(
            domain as nat,
            10,
        ),
{
    let mut text = String::from_str(
        "RK3588 power-domain support is not enabled for power domain ",
    );
    append_numeral(&mut text, domain as u64, 10);
    Err(text)
}

/// Why a reset cannot be released where the support for the SoC is not enabled.
pub fn rk3588_reset_deassert(id: u64) -> (r: Result<(), String>)
    ensures
        r matches Err(text) && text@ == "RK3588 reset support is not enabled for reset 0x"@ + numeral(
            id as nat,
            16,
        ),
{
    let mut text = String::from_str("RK3588 reset support is not enabled for reset 0x");
    append_numeral(&mut text, id, 16);
    Err(text)
}

/// How a request to multiplex a pin ends, for every reason that there is, and what the pin
/// controller is asked for where it comes to that: the pin with the numbers that were given, and
/// the low eight bits of the function.
pub proof fn law_pin_mux_outcomes(
    supported: bool,
    bank: u32,
    pin_in_bank: u32,
    mux: u32,
    start: PinMuxState,
    done: bool,
)
    requires
        pin_mux_starts(supported, bank, pin_in_bank, mux, start),
    ensures
        start == (PinMuxState::Finished { outcome: PinMuxOutcome::Unsupported }) <==> !supported,
        start == (PinMuxState::Finished { outcome: PinMuxOutcome::InvalidPin }) <==> supported && (
        bank >= 5 || pin_in_bank >= 32),
        start is Acquire <==> supported && bank < 5 && pin_in_bank < 32,
        start is Acquire ==> {
            let locked = start.after_access(PinCtrlAccess::Locked);
            &&& locked is Apply
            &&& locked->Apply_id.bank_number() == bank
            &&& locked->Apply_id.pin_number() == pin_in_bank
            &&& locked->Apply_mux == mux % 256
            &&& locked.after_setting(done) == (PinMuxState::Finished {
                outcome: if done {
                    PinMuxOutcome::Applied
                } else {
                    PinMuxOutcome::Refused
                },
            })
            &&& start.after_access(PinCtrlAccess::Missing) == (PinMuxState::Finished {
                outcome: PinMuxOutcome::NotRegistered,
            })
            &&& start.after_access(PinCtrlAccess::LockFailed) == (PinMuxState::Finished {
                outcome: PinMuxOutcome::LockFailed,
            })
        },
{
}

} // verus!
