use vstd::prelude::*;

verus! {

/// A logic level on a pin.
#[derive(Debug, Clone, Copy, PartialEq, Eq, Structural)]
pub enum Level {
    Low,
    High,
}

impl Level {
    pub fn as_u8(self) -> (r: u8)
        ensures
            r == (if self == Level::High { 1u8 } else { 0u8 }),
    {
        match self {
            Level::Low => 0,
            Level::High => 1,
        }
    }

    /// The level that a raw pin value stands for: 0 is low, 1 is high.
    pub fn from_u8(value: u8) -> (r: Level)
        requires
            value <= 1,
        ensures
            value == 0 ==> r == Level::Low,
            value == 1 ==> r == Level::High,
    {
        if value == 0 {
            Level::Low
        } else {
            Level::High
        }
    }
}

/// The eight signals between the host and the panel.
#[derive(Debug, Clone, Copy, PartialEq, Eq, Structural)]
pub enum GpioPin {
    /// Serial clock.
    SerialClockPin,
    /// Serial data.
    SerialDataPin,
    /// Chip select of the main controller, active low.
    SerialSelectMainPin,
    /// Chip select of the peripheral controller, active low.
    SerialSelectPeriPin,
    /// Data/command select; held low.
    DataCommandPin,
    /// Controller reset.
    ResetPin,
    /// Low while the controllers are busy; the one input.
    BusyPin,
    /// Panel power.
    PowerPin,
}

/// BCM GPIO number of a pin.
pub open spec fn pin_number(p: GpioPin) -> u8 {
    match p {
        GpioPin::SerialClockPin => 11,
        GpioPin::SerialDataPin => 10,
        GpioPin::SerialSelectMainPin => 8,
        GpioPin::SerialSelectPeriPin => 7,
        GpioPin::DataCommandPin => 25,
        GpioPin::ResetPin => 17,
        GpioPin::BusyPin => 24,
        GpioPin::PowerPin => 18,
    }
}

impl GpioPin {
    pub fn number(self) -> (r: u8)
        ensures
            r == pin_number(self),
    {
        match self {
            GpioPin::SerialClockPin => 11,
            GpioPin::SerialDataPin => 10,
            GpioPin::SerialSelectMainPin => 8,
            GpioPin::SerialSelectPeriPin => 7,
            GpioPin::DataCommandPin => 25,
            GpioPin::ResetPin => 17,
            GpioPin::BusyPin => 24,
            GpioPin::PowerPin => 18,
        }
    }

    /// Whether the host drives the pin; only BUSY is read.
    pub fn is_output(self) -> (r: bool)
        ensures
            r == (self != GpioPin::BusyPin),
    {
        match self {
            GpioPin::BusyPin => false,
            _ => true,
        }
    }
}

/// One action on the pins.
#[derive(Debug, Clone, Copy, PartialEq, Eq, Structural)]
pub enum WireOp {
    /// The pin's direction was set: output, or input for BUSY.
    Mode(GpioPin),
    /// An output pin was driven to a level.
    Write(GpioPin, Level),
    /// An input pin was read and showed a level.
    Read(GpioPin, Level),
    /// A pause of this many milliseconds.
    Delay(u64),
}

/// The pin layer that the driver runs on: directions, levels, the BUSY
/// input, and a clock to wait on.
///
/// `record` is what the methods promise to keep: every direction set,
/// level driven, level read and pause, in order. A verified implementation
/// (such as `WireRecorder`) must define it, since the default cannot meet
/// the methods' contracts. The default exists only so that a back-end
/// written outside Verus (a hardware one) can implement the trait; for such
/// a back-end nothing proved about the driver's record carries over, and
/// the contracts are only what it is expected to do.
pub trait GpioReadWrite {
    /// Every action taken so far, oldest first.
    closed spec fn record(&self) -> Seq<WireOp> {
        Seq::empty()
    }

    /// Sets the pin's direction: input for BUSY, output for the others.
    fn set_mode(&mut self, pin: GpioPin)
        ensures
            final(self).record() == old(self).record().push(WireOp::Mode(pin)),
    ;

    /// Drives an output pin to `level`.
    fn write(&mut self, pin: GpioPin, level: Level)
        requires
            pin != GpioPin::BusyPin,
        ensures
            final(self).record() == old(self).record().push(WireOp::Write(pin, level)),
    ;

    /// Reads the BUSY input.
    fn read(&mut self, pin: GpioPin) -> (r: Level)
        requires
            pin == GpioPin::BusyPin,
        ensures
            final(self).record() == old(self).record().push(WireOp::Read(pin, r)),
    ;

    /// Waits for `ms` milliseconds.
    fn delay_ms(&mut self, ms: u64)
        ensures
            final(self).record() == old(self).record().push(WireOp::Delay(ms)),
    ;
}

/// A pin layer that touches no hardware: it keeps every action, and reads
/// BUSY low a given number of times, then high.
pub struct WireRecorder {
    ops: Vec<WireOp>,
    busy_reads_left: u64,
}

impl WireRecorder {
    pub fn new(busy_reads: u64) -> (r: WireRecorder)
        ensures
            r.record() == Seq::<WireOp>::empty(),
    {
        WireRecorder { ops: Vec::new(), busy_reads_left: busy_reads }
    }

    /// Every action taken so far, oldest first.
    pub fn ops(&self) -> (r: &Vec<WireOp>)
        ensures
            r@ == self.record(),
    {
        &self.ops
    }
}

impl GpioReadWrite for WireRecorder {
    closed spec fn record(&self) -> Seq<WireOp> {
        self.ops@
    }

    fn set_mode(&mut self, pin: GpioPin) {
        self.ops.push(WireOp::Mode(pin));
    }

    fn write(&mut self, pin: GpioPin, level: Level) {
        self.ops.push(WireOp::Write(pin, level));
    }

    fn read(&mut self, pin: GpioPin) -> (r: Level) {
        let level = if self.busy_reads_left > 0 {
            self.busy_reads_left = self.busy_reads_left - 1;
            Level::Low
        } else {
            Level::High
        };
        self.ops.push(WireOp::Read(pin, level));
        level
    }

    fn delay_ms(&mut self, ms: u64) {
        self.ops.push(WireOp::Delay(ms));
    }
}

} // verus!
