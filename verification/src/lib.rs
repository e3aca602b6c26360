//! Verified core of an RT-Thread binding: kernel object names, console
//! output framing, GPIO and SPI decisions, and message-queue bookkeeping.
//! The kernel itself is reached from the surrounding application; this crate
//! holds what is decided on either side of each kernel call.

pub mod cstr;
pub mod delay;
pub mod fmt;
pub mod gpio;
pub mod spi;
pub mod spi_example;
pub mod sync;

pub use cstr::{RtName, RtNameRef, RT_NAME_MAX};
pub use delay::Delay;
pub use fmt::RtConsole;
pub use gpio::{PinCall, RtInputPin, RtOutputPin, RtPin, RtPinMode};
pub use spi::{RtSpiDevice, RtSpiError, SpiErrorKind, SpiOperation, SpiStep, SpiTransaction, SpiTransfer, RT_DEVICE_CLASS_SPI_DEVICE};
pub use spi_example::{SpiExample, VirtualCS};
pub use sync::mq::MessageQueue;
