//! Support for boards with a Rockchip RK3588: the NPU and its character device `card1`, pin
//! multiplexing and GPIO, and the partition scan of block devices.
//!
//! Every operation that has to wait for something outside (user memory, a register, a clock, a
//! device) is a small state machine: it says what it needs next, and goes on once it is told what
//! came of it.
pub mod bringup;
pub mod bytes;
pub mod card;
pub mod command;
pub mod driver;
pub mod drm;
pub mod error;
pub mod gem;
pub mod mbr;
pub mod npu;
mod outside;
pub mod pinctrl;
pub mod request;
pub mod soc;
pub mod telemetry;
pub mod text;
