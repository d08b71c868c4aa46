//! The parts of rppal's GPIO interface that the actuator relies on, and a
//! model of each output line that only the calls into rppal change.
use vstd::prelude::*;
use rppal::gpio::{Bias, Gpio, IoPin, Mode, Pin};

verus! {

/// rppal's handle on the GPIO peripheral.
#[verifier::external_type_specification]
#[verifier::external_body]
pub struct ExGpio(Gpio);

/// An owned GPIO pin of rppal, not yet configured.
#[verifier::external_type_specification]
#[verifier::external_body]
pub struct ExPin(Pin);

/// An owned GPIO pin of rppal whose mode and pull resistors can be changed.
#[verifier::external_type_specification]
#[verifier::external_body]
pub struct ExIoPin(IoPin);

/// rppal's GPIO error.
#[verifier::external_type_specification]
#[verifier::external_body]
pub struct ExGpioError(rppal::gpio::Error);

/// rppal's pull resistor setting of a pin.
#[verifier::external_type_specification]
pub struct ExBias(Bias);

/// rppal's pin mode.
#[verifier::external_type_specification]
pub struct ExMode(Mode);

/// Relies on rppal's `Gpio::new`, which opens the GPIO peripheral; whether it
/// succeeds depends on the machine.
pub assume_specification[ Gpio::new ]() -> (r: Result<Gpio, rppal::gpio::Error>);

/// A pin claimed from the peripheral, with the BCM number it was claimed by.
pub struct Claim {
    pin: Pin,
    number: u8,
}

impl Claim {
    /// The BCM number of the claimed pin.
    pub closed spec fn number(&self) -> u8 {
        self.number
    }
}

/// One output line: an rppal pin in a fixed mode, with every pull setting
/// that has been applied to it since it was configured, oldest first.
pub struct Line {
    io: IoPin,
    number: u8,
    mode: Mode,
    pulls: Ghost<Seq<Bias>>,
}

impl Line {
    /// The BCM number of the line's pin.
    pub closed spec fn number(&self) -> u8 {
        self.number
    }

    /// The mode the pin was put in.
    pub closed spec fn mode(&self) -> Mode {
        self.mode
    }

    /// The pull settings applied to the pin, oldest first.
    pub closed spec fn pulls(&self) -> Seq<Bias> {
        self.pulls@
    }

    /// The line is an input whose pull resistors were last switched off: the
    /// button is not pressed.
    pub open spec fn is_safe(&self) -> bool {
        &&& self.mode() == Mode::Input
        &&& self.pulls().len() > 0
        &&& self.pulls().last() == Bias::Off
    }

    /// The BCM number of the line's pin.
    pub fn pin_number(&self) -> (r: u8)
        ensures
            r == self.number(),
    {
        self.number
    }

    /// Relies on rppal's `IoPin::set_bias`, which sets the pin's pull
    /// resistors to `b` and cannot fail.
    #[verifier::external_body]
    pub(crate) fn set_bias(&mut self, b: Bias)
        ensures
            final(self).pulls() == old(self).pulls().push(b),
            final(self).number() == old(self).number(),
            final(self).mode() == old(self).mode(),
    {
        self.io.set_bias(b);
    }
}

/// Relies on rppal's `Gpio::get`, which hands out the pin with BCM number `n`,
/// or fails when there is no such pin or it is already claimed.
#[verifier::external_body]
pub(crate) fn claim(gpio: &Gpio, n: u8) -> (r: Result<Claim, rppal::gpio::Error>)
    ensures
        r matches Ok(c) ==> c.number() == n,
{
    match gpio.get(n) {
        Ok(pin) => Ok(Claim { pin, number: n }),
        Err(e) => Err(e),
    }
}

/// Relies on rppal's `Pin::into_io`, which puts the pin in mode `m` and leaves
/// its pull resistors alone.
#[verifier::external_body]
pub(crate) fn into_line(c: Claim, m: Mode) -> (r: Line)
    ensures
        r.number() == c.number(),
        r.mode() == m,
        r.pulls() == Seq::<Bias>::empty(),
{
    Line { io: c.pin.into_io(m), number: c.number, mode: m, pulls: Ghost(Seq::empty()) }
}

} // verus!
