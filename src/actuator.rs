//! The actuator: three output lines, pulsed one at a time.
use vstd::prelude::*;
use rppal::gpio::{Bias, Gpio, Mode};
use crate::command::Command;
use crate::gpio::{Claim, Line, claim, into_line};

verus! {

/// Why the actuator could not be set up.
#[derive(Debug)]
pub enum StartupError {
    /// The GPIO peripheral could not be opened.
    Controller(rppal::gpio::Error),
    /// The pin with this number could not be claimed.
    PinUnavailable(u8, rppal::gpio::Error),
}

/// A freshly configured line: pin `n`, an input, pull resistors switched off
/// once and never touched since.
pub open spec fn configured(l: Line, n: u8) -> bool {
    &&& l.number() == n
    &&& l.mode() == Mode::Input
    &&& l.pulls() == seq![Bias::Off]
}

/// Turns the outcome of claiming pin `n` into a configured line: a claimed pin
/// becomes an input with its pull resistors off; a refused claim becomes
/// `PinUnavailable(n, e)`.
pub fn configure(claimed: Result<Claim, rppal::gpio::Error>, n: u8) -> (r: Result<
    Line,
    StartupError,
>)
    ensures
        match claimed {
            Ok(c) => r matches Ok(l) && l.number() == c.number() && l.mode() == Mode::Input
                && l.pulls() == seq![Bias::Off],
            Err(e) => r == Err::<Line, StartupError>(StartupError::PinUnavailable(n, e)),
        },
{
    match claimed {
        Ok(c) => {
            let mut line = into_line(c, Mode::Input);
            line.set_bias(Bias::Off);
            assert(line.pulls() =~= seq![Bias::Off]);
            Ok(line)
        },
        Err(e) => Err(StartupError::PinUnavailable(n, e)),
    }
}

/// Claims pin `n` and configures it as an input with the pull resistors off.
fn make_pin(gpio: &Gpio, n: u8) -> (r: Result<Line, StartupError>)
    ensures
        r matches Ok(l) ==> configured(l, n),
        r matches Err(e) ==> e matches StartupError::PinUnavailable(m, _) && m == n,
{
    configure(claim(gpio, n), n)
}

/// Owns the three output lines, each bound to one command for its whole life.
pub struct Movement {
    up: Line,
    down: Line,
    stop: Line,
    pulse_ms: u64,
}

impl Movement {
    /// The line bound to `cmd`.
    pub closed spec fn line(&self, cmd: Command) -> Line {
        match cmd {
            Command::Up => self.up,
            Command::Down => self.down,
            Command::Stop => self.stop,
        }
    }

    /// How long each press is held, in milliseconds.
    pub closed spec fn pulse_ms(&self) -> u64 {
        self.pulse_ms
    }

    /// Every line is safe: no button is pressed.
    pub open spec fn wf(&self) -> bool {
        forall|c: Command| #[trigger] self.line(c).is_safe()
    }

    /// Puts three configured lines together. The result is `Ok` exactly when
    /// all three are; otherwise it is the first error, in the order up, down,
    /// stop, and the lines that were handed in are dropped, which releases
    /// their pins.
    pub fn from_lines(
        up: Result<Line, StartupError>,
        down: Result<Line, StartupError>,
        stop: Result<Line, StartupError>,
        pulse_ms: u64,
    ) -> (r: Result<Movement, StartupError>)
        ensures
            match (up, down, stop) {
                (Ok(u), Ok(d), Ok(s)) => r matches Ok(m) && m.line(Command::Up) == u
                    && m.line(Command::Down) == d && m.line(Command::Stop) == s
                    && m.pulse_ms() == pulse_ms,
                (Err(e), _, _) => r == Err::<Movement, StartupError>(e),
                (Ok(_), Err(e), _) => r == Err::<Movement, StartupError>(e),
                (Ok(_), Ok(_), Err(e)) => r == Err::<Movement, StartupError>(e),
            },
    {
        match (up, down, stop) {
            (Ok(up), Ok(down), Ok(stop)) => Ok(Movement { up, down, stop, pulse_ms }),
            (Err(e), _, _) => Err(e),
            (Ok(_), Err(e), _) => Err(e),
            (Ok(_), Ok(_), Err(e)) => Err(e),
        }
    }

    /// Opens the GPIO peripheral and claims the up, down and stop pins, each as
    /// an input with pull resistors off. Either all three are claimed or no
    /// actuator comes out: the first failure is returned.
    pub fn new(up: u8, down: u8, stop: u8, pulse_ms: u64) -> (r: Result<Movement, StartupError>)
        ensures
            r matches Ok(m) ==> {
                &&& m.wf()
                &&& configured(m.line(Command::Up), up)
                &&& configured(m.line(Command::Down), down)
                &&& configured(m.line(Command::Stop), stop)
                &&& m.pulse_ms() == pulse_ms
            },
            r matches Err(StartupError::PinUnavailable(n, _)) ==> n == up || n == down || n == stop,
    {
        let gpio = match Gpio::new() {
            Ok(g) => g,
            Err(e) => return Err(StartupError::Controller(e)),
        };
        let pin_up = make_pin(&gpio, up);
        let pin_down = make_pin(&gpio, down);
        let pin_stop = make_pin(&gpio, stop);
        let r = Movement::from_lines(pin_up, pin_down, pin_stop, pulse_ms);
        proof {
            if r is Ok {
                let m = r->Ok_0;
                assert forall|c: Command| #[trigger] m.line(c).is_safe() by {
                    assert(m.line(c).pulls().last() == Bias::Off);
                }
            }
        }
        r
    }

    /// The BCM number of the pin bound to `cmd`.
    pub fn pin_number(&self, cmd: Command) -> (r: u8)
        ensures
            r == self.line(cmd).number(),
    {
        match cmd {
            Command::Up => self.up.pin_number(),
            Command::Down => self.down.pin_number(),
            Command::Stop => self.stop.pin_number(),
        }
    }

    /// Sets the pull resistors of the line of `cmd` to `bias`, touching no
    /// other line.
    fn set_pin(&mut self, cmd: Command, bias: Bias)
        ensures
            final(self).line(cmd).pulls() == old(self).line(cmd).pulls().push(bias),
            final(self).line(cmd).number() == old(self).line(cmd).number(),
            final(self).line(cmd).mode() == old(self).line(cmd).mode(),
            forall|c: Command| c != cmd ==> #[trigger] final(self).line(c) == old(self).line(c),
            final(self).pulse_ms() == old(self).pulse_ms(),
    {
        match cmd {
            Command::Up => self.up.set_bias(bias),
            Command::Down => self.down.set_bias(bias),
            Command::Stop => self.stop.set_bias(bias),
        }
    }

    /// Presses the button of `cmd`: pulls its line up, lets `hold` wait for
    /// the pulse length, then switches the pull resistors off again. Every
    /// line is safe before and after the call, and no other line is touched.
    pub fn perform_command<F: FnOnce(u64)>(&mut self, cmd: Command, hold: F)
        requires
            old(self).wf(),
            hold.requires((old(self).pulse_ms(),)),
        ensures
            pressed(*old(self), cmd, *final(self)),
            hold.ensures((old(self).pulse_ms(),), ()),
    {
        let ghost p0 = self.line(cmd).pulls();
        let ms = self.pulse_ms;
        self.set_pin(cmd, Bias::PullUp);
        hold(ms);
        self.set_pin(cmd, Bias::Off);
        assert(p0.push(Bias::PullUp).push(Bias::Off) =~= p0 + seq![Bias::PullUp, Bias::Off]);
        assert forall|c: Command| #[trigger] self.line(c).is_safe() by {
            assert(old(self).line(c).is_safe());
        }
    }
}

/// `m1` is `m0` after one press of `cmd`: the line of `cmd` was pulled up and
/// then released, keeping its pin and mode; the other lines and the pulse
/// length are unchanged; every line is safe before and after.
pub open spec fn pressed(m0: Movement, cmd: Command, m1: Movement) -> bool {
    &&& m0.wf()
    &&& m1.wf()
    &&& m1.line(cmd).pulls() == m0.line(cmd).pulls() + seq![Bias::PullUp, Bias::Off]
    &&& m1.line(cmd).number() == m0.line(cmd).number()
    &&& m1.line(cmd).mode() == m0.line(cmd).mode()
    &&& forall|c: Command| c != cmd ==> #[trigger] m1.line(c) == m0.line(c)
    &&& m1.pulse_ms() == m0.pulse_ms()
}

/// Each press leaves the lines as it found them, safe: before the press and
/// after it every line is an input with its pull resistors off, and the only
/// pull settings the press applies are one pull-up of its own line followed
/// by its release.
pub proof fn lemma_press_safe(m0: Movement, cmd: Command, m1: Movement)
    requires
        pressed(m0, cmd, m1),
    ensures
        forall|c: Command| #[trigger] m0.line(c).is_safe() && m1.line(c).is_safe(),
        m1.line(cmd).pulls().len() == m0.line(cmd).pulls().len() + 2,
        m1.line(cmd).pulls()[m0.line(cmd).pulls().len() as int] == Bias::PullUp,
        m1.line(cmd).pulls().last() == Bias::Off,
{
    assert forall|c: Command| #[trigger] m0.line(c).is_safe() && m1.line(c).is_safe() by {
        assert(m0.line(c).is_safe());
        assert(m1.line(c).is_safe());
    }
}

/// Two presses one after the other, of the same button or of different ones,
/// never overlap: the first line is released before the second is pulled up,
/// each press touches only its own line, and the second press leaves the
/// first line released.
pub proof fn lemma_presses_never_overlap(
    m0: Movement,
    a: Command,
    m1: Movement,
    b: Command,
    m2: Movement,
)
    requires
        pressed(m0, a, m1),
        pressed(m1, b, m2),
    ensures
        m1.line(a).pulls().last() == Bias::Off,
        m2.line(b).pulls()[m1.line(b).pulls().len() as int] == Bias::PullUp,
        forall|c: Command| c != a && c != b ==> #[trigger] m2.line(c) == m0.line(c),
        a != b ==> m2.line(a) == m1.line(a),
        a == b ==> m2.line(a).pulls() == m0.line(a).pulls() + seq![
            Bias::PullUp,
            Bias::Off,
            Bias::PullUp,
            Bias::Off,
        ],
        forall|c: Command| #[trigger] m2.line(c).is_safe(),
{
    lemma_press_safe(m0, a, m1);
    lemma_press_safe(m1, b, m2);
    if a == b {
        assert(m0.line(a).pulls() + seq![Bias::PullUp, Bias::Off] + seq![Bias::PullUp, Bias::Off]
            =~= m0.line(a).pulls() + seq![Bias::PullUp, Bias::Off, Bias::PullUp, Bias::Off]);
    }
}

} // verus!
