//! GPIO pins: pin lookup results, pin modes and pin levels.

use vstd::prelude::*;
use vstd::string::*;

verus! {

/// Operating mode of a pin, as the kernel's pin mode numbers.
#[derive(Debug, Clone, Copy, PartialEq, Eq, Structural)]
pub enum RtPinMode {
    Output,
    Input,
    InputPullUp,
    InputPullDown,
    OutputOpenDrain,
}

/// The kernel's number for a pin mode (`PIN_MODE_*`).
pub open spec fn pin_mode_value(mode: RtPinMode) -> u8 {
    match mode {
        RtPinMode::Output => 0,
        RtPinMode::Input => 1,
        RtPinMode::InputPullUp => 2,
        RtPinMode::InputPullDown => 3,
        RtPinMode::OutputOpenDrain => 4,
    }
}

impl From<RtPinMode> for u8 {
    fn from(mode: RtPinMode) -> (r: u8) {
        match mode {
            RtPinMode::Output => 0,
            RtPinMode::Input => 1,
            RtPinMode::InputPullUp => 2,
            RtPinMode::InputPullDown => 3,
            RtPinMode::OutputOpenDrain => 4,
        }
    }
}

impl vstd::std_specs::convert::FromSpecImpl<RtPinMode> for u8 {
    open spec fn obeys_from_spec() -> bool {
        true
    }

    open spec fn from_spec(v: RtPinMode) -> u8 {
        pin_mode_value(v)
    }
}

/// Distinct modes have distinct kernel numbers, all below five.
pub proof fn lemma_pin_mode_value_injective(a: RtPinMode, b: RtPinMode)
    ensures
        pin_mode_value(a) < 5,
        pin_mode_value(a) == pin_mode_value(b) ==> a == b,
{
}

/// Kernel level written to drive a pin high (`PIN_HIGH`).
pub const PIN_HIGH: isize = 1;

/// Kernel level written to drive a pin low (`PIN_LOW`).
pub const PIN_LOW: isize = 0;

/// One call into the kernel's pin interface.
#[derive(Debug, Clone, Copy, PartialEq, Eq, Structural)]
pub enum PinCall {
    /// `rt_pin_mode(pin, mode)`.
    Mode { pin: isize, mode: u8 },
    /// `rt_pin_write(pin, value)`.
    Write { pin: isize, value: isize },
}

/// The message of a failed pin lookup.
pub open spec fn pin_not_found_message(name: Seq<char>) -> Seq<char> {
    "pin "@ + name + " not found"@
}

/// A pin number as the kernel hands it out.
pub struct RtPin {
    pin: isize,
}

impl RtPin {
    /// The kernel's number of this pin.
    pub closed spec fn number(&self) -> isize {
        self.pin
    }

    /// The pin the kernel looked up, taken as it is, with the call that sets
    /// its mode.
    pub fn new(pin: isize, mode: RtPinMode) -> (r: (Self, PinCall))
        ensures
            r.0.number() == pin,
            r.1 == (PinCall::Mode { pin: pin, mode: pin_mode_value(mode) }),
    {
        let this = RtPin { pin };
        let call = this.set_mode(mode);
        (this, call)
    }

    /// The call that sets this pin's mode.
    pub fn set_mode(&self, mode: RtPinMode) -> (r: PinCall)
        ensures
            r == (PinCall::Mode { pin: self.number(), mode: pin_mode_value(mode) }),
    {
        PinCall::Mode { pin: self.pin, mode: u8::from(mode) }
    }

    /// The kernel's number of this pin.
    pub fn pin(&self) -> (r: isize)
        ensures
            r == self.number(),
    {
        self.pin
    }

    /// The outcome of looking `name` up: the pin where the kernel found one
    /// (a number of zero or more), else the message that it was not found.
    pub fn try_from_lookup(name: &str, pin: isize) -> (r: Result<Self, String>)
        ensures
            pin >= 0 <==> r is Ok,
            r matches Ok(p) ==> p.number() == pin,
            r matches Err(msg) ==> msg@ == pin_not_found_message(name@),
    {
        if pin < 0 {
            let mut msg = String::from_str("pin ");
            msg.append(name);
            msg.append(" not found");
            return Err(msg);
        }
        Ok(RtPin { pin })
    }
}

/// A pin driven as an output.
pub struct RtOutputPin {
    inner: RtPin,
}

/// A pin read as an input.
pub struct RtInputPin {
    inner: RtPin,
}

impl RtOutputPin {
    /// The kernel's number of this pin.
    pub closed spec fn number(&self) -> isize {
        self.inner.number()
    }

    /// The output pin for a pin the kernel found, with the call that makes it
    /// an output. A pin number below zero means that the lookup failed.
    pub fn new(pin: isize) -> (r: (Self, PinCall))
        requires
            pin >= 0,
        ensures
            r.0.number() == pin,
            r.1 == (PinCall::Mode { pin: pin, mode: pin_mode_value(RtPinMode::Output) }),
    {
        let inner = RtPin { pin };
        let call = inner.set_mode(RtPinMode::Output);
        (RtOutputPin { inner }, call)
    }

    /// The kernel's number of this pin.
    pub fn pin(&self) -> (r: isize)
        ensures
            r == self.number(),
    {
        self.inner.pin
    }

    /// The call that drives the pin high.
    pub fn set_high(&self) -> (r: PinCall)
        ensures
            r == (PinCall::Write { pin: self.number(), value: PIN_HIGH }),
    {
        PinCall::Write { pin: self.inner.pin, value: PIN_HIGH }
    }

    /// The call that drives the pin low.
    pub fn set_low(&self) -> (r: PinCall)
        ensures
            r == (PinCall::Write { pin: self.number(), value: PIN_LOW }),
    {
        PinCall::Write { pin: self.inner.pin, value: PIN_LOW }
    }

    /// Whether the level read back from the pin is the high level.
    pub fn is_set_high(&self, level: isize) -> (r: bool)
        ensures
            r == (level == PIN_HIGH),
    {
        level == PIN_HIGH
    }

    /// Whether the level read back from the pin is the low level.
    pub fn is_set_low(&self, level: isize) -> (r: bool)
        ensures
            r == (level == PIN_LOW),
    {
        level == PIN_LOW
    }
}

impl RtInputPin {
    /// The kernel's number of this pin.
    pub closed spec fn number(&self) -> isize {
        self.inner.number()
    }

    /// The input pin for a pin the kernel found, with the call that makes it
    /// an input. A pin number below zero means that the lookup failed.
    pub fn new(pin: isize) -> (r: (Self, PinCall))
        requires
            pin >= 0,
        ensures
            r.0.number() == pin,
            r.1 == (PinCall::Mode { pin: pin, mode: pin_mode_value(RtPinMode::Input) }),
    {
        let inner = RtPin { pin };
        let call = inner.set_mode(RtPinMode::Input);
        (RtInputPin { inner }, call)
    }

    /// The kernel's number of this pin.
    pub fn pin(&self) -> (r: isize)
        ensures
            r == self.number(),
    {
        self.inner.pin
    }

    /// Whether the level read from the pin is the high level.
    pub fn is_high(&self, level: isize) -> (r: bool)
        ensures
            r == (level == PIN_HIGH),
    {
        level == PIN_HIGH
    }

    /// Whether the level read from the pin is the low level.
    pub fn is_low(&self, level: isize) -> (r: bool)
        ensures
            r == (level == PIN_LOW),
    {
        level == PIN_LOW
    }
}

} // verus!
