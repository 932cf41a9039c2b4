use vstd::prelude::*;
use crate::command_code::{command_bytes, CommandCode};
use crate::frame::{main_half, peri_half, split_halves};
use crate::gpio_pin::{GpioPin, GpioReadWrite, Level, WireOp};

verus! {

/// Which controllers a transfer is addressed to.
#[derive(Debug, Clone, Copy, PartialEq, Eq, Structural)]
pub enum SelectedChip {
    Main,
    Peri,
    Both,
    Neither,
}

pub open spec fn write_op(pin: GpioPin, level: Level) -> WireOp {
    WireOp::Write(pin, level)
}

pub open spec fn level_of_bit(bit: bool) -> Level {
    if bit {
        Level::High
    } else {
        Level::Low
    }
}

/// Bit `i` of `b`, counting from the most significant (`i == 0`).
pub open spec fn msb_bit(b: u8, i: int) -> bool {
    ((b >> ((7 - i) as u8)) & 1u8) == 1u8
}

/// Clocking out one bit: clock low, data to the bit, clock high.
pub open spec fn bit_wire(b: u8, i: int) -> Seq<WireOp> {
    seq![
        write_op(GpioPin::SerialClockPin, Level::Low),
        write_op(GpioPin::SerialDataPin, level_of_bit(msb_bit(b, i))),
        write_op(GpioPin::SerialClockPin, Level::High),
    ]
}

/// The first `n` bits of `b`, most significant first.
pub open spec fn bits_wire(b: u8, n: int) -> Seq<WireOp>
    decreases n,
{
    if n <= 0 {
        Seq::empty()
    } else {
        bits_wire(b, n - 1) + bit_wire(b, n - 1)
    }
}

/// One byte on the serial lines: eight bits, then the clock left low.
pub open spec fn byte_wire(b: u8) -> Seq<WireOp> {
    bits_wire(b, 8).push(write_op(GpioPin::SerialClockPin, Level::Low))
}

/// A run of bytes on the serial lines, in order.
pub open spec fn bytes_wire(bs: Seq<u8>) -> Seq<WireOp>
    decreases bs.len(),
{
    if bs.len() == 0 {
        Seq::empty()
    } else {
        bytes_wire(bs.drop_last()) + byte_wire(bs.last())
    }
}

pub open spec fn selects_main(c: SelectedChip) -> bool {
    c == SelectedChip::Main || c == SelectedChip::Both
}

pub open spec fn selects_peri(c: SelectedChip) -> bool {
    c == SelectedChip::Peri || c == SelectedChip::Both
}

/// Both chip selects driven: low for a selected controller, high otherwise.
pub open spec fn select_wire(c: SelectedChip) -> Seq<WireOp> {
    seq![
        write_op(GpioPin::SerialSelectMainPin, level_of_bit(!selects_main(c))),
        write_op(GpioPin::SerialSelectPeriPin, level_of_bit(!selects_peri(c))),
    ]
}

/// A command: select, opcode and payload, deselect, then the 10 ms gap
/// that the controllers need between commands.
pub open spec fn command_wire(cmd: CommandCode, chip: SelectedChip) -> Seq<WireOp> {
    select_wire(chip) + bytes_wire(command_bytes(cmd)) + select_wire(SelectedChip::Neither).push(
        WireOp::Delay(10),
    )
}

/// Pin directions, then every output parked low but power, which goes high.
pub open spec fn setup_wire() -> Seq<WireOp> {
    seq![
        WireOp::Mode(GpioPin::SerialClockPin),
        WireOp::Mode(GpioPin::SerialDataPin),
        WireOp::Mode(GpioPin::SerialSelectMainPin),
        WireOp::Mode(GpioPin::SerialSelectPeriPin),
        WireOp::Mode(GpioPin::DataCommandPin),
        WireOp::Mode(GpioPin::ResetPin),
        WireOp::Mode(GpioPin::BusyPin),
        WireOp::Mode(GpioPin::PowerPin),
        write_op(GpioPin::SerialClockPin, Level::Low),
        write_op(GpioPin::SerialDataPin, Level::Low),
        write_op(GpioPin::SerialSelectMainPin, Level::Low),
        write_op(GpioPin::SerialSelectPeriPin, Level::Low),
        write_op(GpioPin::DataCommandPin, Level::Low),
        write_op(GpioPin::ResetPin, Level::Low),
        write_op(GpioPin::PowerPin, Level::High),
    ]
}

/// The reset pulse: high, low, high, low, high, 30 ms per level.
pub open spec fn reset_wire() -> Seq<WireOp> {
    seq![
        write_op(GpioPin::ResetPin, Level::High),
        WireOp::Delay(30),
        write_op(GpioPin::ResetPin, Level::Low),
        WireOp::Delay(30),
        write_op(GpioPin::ResetPin, Level::High),
        WireOp::Delay(30),
        write_op(GpioPin::ResetPin, Level::Low),
        WireOp::Delay(30),
        write_op(GpioPin::ResetPin, Level::High),
        WireOp::Delay(30),
    ]
}

/// `n` polls of BUSY that found it low, each followed by 5 ms.
pub open spec fn low_polls(n: nat) -> Seq<WireOp>
    decreases n,
{
    if n == 0 {
        Seq::empty()
    } else {
        low_polls((n - 1) as nat) + seq![WireOp::Read(GpioPin::BusyPin, Level::Low), WireOp::Delay(5)]
    }
}

/// A BUSY handshake that ended on a high read after `n` low ones, with
/// 20 ms before and after.
pub open spec fn busy_wait_idle(n: nat) -> Seq<WireOp> {
    seq![WireOp::Delay(20)] + low_polls(n) + seq![WireOp::Read(GpioPin::BusyPin, Level::High), WireOp::Delay(20)]
}

/// A BUSY handshake that read low `u64::MAX` times, the most the driver
/// polls.
pub open spec fn busy_wait_exhausted() -> Seq<WireOp> {
    seq![WireOp::Delay(20)] + low_polls(u64::MAX as nat) + seq![WireOp::Delay(20)]
}

/// `b` is what one BUSY handshake does: poll every 5 ms until BUSY reads
/// high (or the poll limit is reached).
pub open spec fn is_busy_wait(b: Seq<WireOp>) -> bool {
    (exists|n: nat| b == #[trigger] busy_wait_idle(n)) || b == busy_wait_exhausted()
}

/// The boot sequence, step by step.
pub open spec fn boot_step(i: int) -> (CommandCode, SelectedChip) {
    if i == 0 {
        (CommandCode::AnTm, SelectedChip::Main)
    } else if i == 1 {
        (CommandCode::Cmd66, SelectedChip::Both)
    } else if i == 2 {
        (CommandCode::Psr, SelectedChip::Both)
    } else if i == 3 {
        (CommandCode::Cdi, SelectedChip::Both)
    } else if i == 4 {
        (CommandCode::Tcon, SelectedChip::Both)
    } else if i == 5 {
        (CommandCode::Agid, SelectedChip::Both)
    } else if i == 6 {
        (CommandCode::Pws, SelectedChip::Both)
    } else if i == 7 {
        (CommandCode::Ccset, SelectedChip::Both)
    } else if i == 8 {
        (CommandCode::Tres, SelectedChip::Both)
    } else if i == 9 {
        (CommandCode::Pwr, SelectedChip::Main)
    } else if i == 10 {
        (CommandCode::EnBuf, SelectedChip::Main)
    } else if i == 11 {
        (CommandCode::BtstP, SelectedChip::Main)
    } else if i == 12 {
        (CommandCode::BoostVddpEn, SelectedChip::Main)
    } else if i == 13 {
        (CommandCode::BtstN, SelectedChip::Main)
    } else if i == 14 {
        (CommandCode::BuckBoostVddn, SelectedChip::Main)
    } else {
        (CommandCode::TftVcomPower, SelectedChip::Main)
    }
}

/// The first `n` commands of the boot sequence.
pub open spec fn boot_wire(n: int) -> Seq<WireOp>
    decreases n,
{
    if n <= 0 {
        Seq::empty()
    } else {
        boot_wire(n - 1) + command_wire(boot_step(n - 1).0, boot_step(n - 1).1)
    }
}

/// Everything `init` does, with BUSY handshake `b`: pin setup, reset, the
/// handshake, boot sequence.
pub open spec fn init_wire(b: Seq<WireOp>) -> Seq<WireOp> {
    setup_wire() + reset_wire() + b + boot_wire(16)
}

/// Power on, BUSY handshake `b1`, 50 ms, refresh, BUSY handshake `b2`,
/// power off; each command addressed to both controllers.
pub open spec fn display_on_wire(b1: Seq<WireOp>, b2: Seq<WireOp>) -> Seq<WireOp> {
    command_wire(CommandCode::PowerOn, SelectedChip::Both) + b1.push(WireOp::Delay(50)) + command_wire(
        CommandCode::Drf,
        SelectedChip::Both,
    ) + b2 + command_wire(CommandCode::Pof, SelectedChip::Both)
}

/// One half-frame to one controller: select it, the data-transmission
/// opcode, the bytes, deselect.
pub open spec fn half_wire(chip: SelectedChip, half: Seq<u8>) -> Seq<WireOp> {
    select_wire(chip) + bytes_wire(seq![0x10u8]) + bytes_wire(half) + select_wire(SelectedChip::Neither)
}

/// Everything `display` does for frame `f`, with BUSY handshakes `b1` and
/// `b2`: both halves, 100 ms to settle, then the refresh.
pub open spec fn frame_wire(f: Seq<u8>, b1: Seq<WireOp>, b2: Seq<WireOp>) -> Seq<WireOp> {
    (half_wire(SelectedChip::Main, main_half(f)) + half_wire(SelectedChip::Peri, peri_half(f))).push(
        WireOp::Delay(100),
    ) + display_on_wire(b1, b2)
}

/// A frame of white pixels: every byte 0x11.
pub open spec fn white_frame() -> Seq<u8> {
    Seq::new(960000, |k: int| 0x11u8)
}

/// Chip selects, data/command, reset and power all driven low.
pub open spec fn park_wire() -> Seq<WireOp> {
    seq![
        write_op(GpioPin::SerialSelectMainPin, Level::Low),
        write_op(GpioPin::SerialSelectPeriPin, Level::Low),
        write_op(GpioPin::DataCommandPin, Level::Low),
        write_op(GpioPin::ResetPin, Level::Low),
        write_op(GpioPin::PowerPin, Level::Low),
    ]
}

/// The level that the last write to `pin` in `w` left it at, if any.
pub open spec fn last_level(w: Seq<WireOp>, pin: GpioPin) -> Option<Level>
    decreases w.len(),
{
    if w.len() == 0 {
        None
    } else {
        match w.last() {
            WireOp::Write(p, l) => if p == pin {
                Some(l)
            } else {
                last_level(w.drop_last(), pin)
            },
            _ => last_level(w.drop_last(), pin),
        }
    }
}

fn boot_command(i: usize) -> (r: (CommandCode, SelectedChip))
    ensures
        r == boot_step(i as int),
{
    match i {
        0 => (CommandCode::AnTm, SelectedChip::Main),
        1 => (CommandCode::Cmd66, SelectedChip::Both),
        2 => (CommandCode::Psr, SelectedChip::Both),
        3 => (CommandCode::Cdi, SelectedChip::Both),
        4 => (CommandCode::Tcon, SelectedChip::Both),
        5 => (CommandCode::Agid, SelectedChip::Both),
        6 => (CommandCode::Pws, SelectedChip::Both),
        7 => (CommandCode::Ccset, SelectedChip::Both),
        8 => (CommandCode::Tres, SelectedChip::Both),
        9 => (CommandCode::Pwr, SelectedChip::Main),
        10 => (CommandCode::EnBuf, SelectedChip::Main),
        11 => (CommandCode::BtstP, SelectedChip::Main),
        12 => (CommandCode::BoostVddpEn, SelectedChip::Main),
        13 => (CommandCode::BtstN, SelectedChip::Main),
        14 => (CommandCode::BuckBoostVddn, SelectedChip::Main),
        _ => (CommandCode::TftVcomPower, SelectedChip::Main),
    }
}

/// Drives the panel's two controllers over a bit-banged serial bus.
///
/// Dropping the driver does not touch the pins: call `park` (or `sleep`,
/// which ends with it) on every way out, so that the chip selects, data/command,
/// reset and power are left low.
pub struct EPaperDisplayBBDriver<P: GpioReadWrite> {
    pins: P,
    initialized: bool,
}

proof fn lemma_bytes_wire_push(bs: Seq<u8>, b: u8)
    ensures
        bytes_wire(bs.push(b)) == bytes_wire(bs) + byte_wire(b),
{
    assert(bs.push(b).drop_last() =~= bs);
}

impl<P: GpioReadWrite> EPaperDisplayBBDriver<P> {
    /// The pin layer's record: every direction and level set so far,
    /// oldest first.
    pub closed spec fn wire(&self) -> Seq<WireOp> {
        self.pins.record()
    }

    /// Takes over a pin layer; nothing is driven until `init`.
    pub fn new(pins: P) -> (r: Self)
        ensures
            r.wire() == pins.record(),
            !r.initialized(),
    {
        EPaperDisplayBBDriver { pins, initialized: false }
    }

    /// Whether `init` has booted the controllers since the driver was made
    /// or last put to sleep or parked.
    pub closed spec fn initialized(&self) -> bool {
        self.initialized
    }

    pub fn is_initialized(&self) -> (r: bool)
        ensures
            r == self.initialized(),
    {
        self.initialized
    }

    /// The pin layer.
    pub fn pins(&self) -> (r: &P)
        ensures
            r.record() == self.wire(),
    {
        &self.pins
    }

    /// Gives the pin layer back; the caller then owns parking it.
    pub fn into_pins(self) -> (r: P)
        ensures
            r.record() == self.wire(),
    {
        self.pins
    }

    fn spi_write_byte(&mut self, byte: u8)
        ensures
            final(self).initialized() == old(self).initialized(),
            final(self).wire() == old(self).wire() + byte_wire(byte),
    {
        let ghost w0 = self.wire();
        let mut i: u8 = 0;
        while i < 8
            invariant
                i <= 8,
                self.wire() == w0 + bits_wire(byte, i as int),
                self.initialized() == old(self).initialized(),
            decreases 8 - i,
        {
            self.pins.write(GpioPin::SerialClockPin, Level::Low);
            let bit = (byte >> (7 - i)) & 1;
            let level = if bit == 1 {
                Level::High
            } else {
                Level::Low
            };
            self.pins.write(GpioPin::SerialDataPin, level);
            self.pins.write(GpioPin::SerialClockPin, Level::High);
            assert(self.wire() =~= w0 + bits_wire(byte, i as int + 1));
            i += 1;
        }
        self.pins.write(GpioPin::SerialClockPin, Level::Low);
        assert(self.wire() =~= w0 + byte_wire(byte));
    }

    /// Clocks bytes out most significant bit first.
    fn spi_write(&mut self, bytes: &[u8])
        ensures
            final(self).initialized() == old(self).initialized(),
            final(self).wire() == old(self).wire() + bytes_wire(bytes@),
    {
        let ghost w0 = self.wire();
        let mut k: usize = 0;
        while k < bytes.len()
            invariant
                k <= bytes@.len(),
                self.wire() == w0 + bytes_wire(bytes@.subrange(0, k as int)),
                self.initialized() == old(self).initialized(),
            decreases bytes@.len() - k,
        {
            proof {
                lemma_bytes_wire_push(bytes@.subrange(0, k as int), bytes@[k as int]);
                assert(bytes@.subrange(0, k as int).push(bytes@[k as int]) =~= bytes@.subrange(
                    0,
                    k as int + 1,
                ));
            }
            self.spi_write_byte(bytes[k]);
            assert(self.wire() =~= w0 + bytes_wire(bytes@.subrange(0, k as int + 1)));
            k += 1;
        }
        assert(bytes@.subrange(0, bytes@.len() as int) =~= bytes@);
    }

    /// Drives both chip selects for `chip`.
    fn select_chip(&mut self, chip: SelectedChip)
        ensures
            final(self).initialized() == old(self).initialized(),
            final(self).wire() == old(self).wire() + select_wire(chip),
    {
        let ghost w0 = self.wire();
        let main = match chip {
            SelectedChip::Main | SelectedChip::Both => Level::Low,
            _ => Level::High,
        };
        let peri = match chip {
            SelectedChip::Peri | SelectedChip::Both => Level::Low,
            _ => Level::High,
        };
        self.pins.write(GpioPin::SerialSelectMainPin, main);
        self.pins.write(GpioPin::SerialSelectPeriPin, peri);
        assert(self.wire() =~= w0 + select_wire(chip));
    }

    /// Sends a command with its payload to `chip`, then deselects and leaves
    /// the gap between commands.
    fn send_command(&mut self, command: CommandCode, chip: SelectedChip)
        ensures
            final(self).initialized() == old(self).initialized(),
            final(self).wire() == old(self).wire() + command_wire(command, chip),
    {
        let ghost w0 = self.wire();
        self.select_chip(chip);
        let mut full_cmd: Vec<u8> = vec![command.cmd()];
        match command.data() {
            Some(data) => {
                let mut k: usize = 0;
                while k < data.len()
                    invariant
                        k <= data@.len(),
                        full_cmd@ =~= seq![crate::command_code::opcode(command)] + data@.subrange(0, k as int),
                    decreases data@.len() - k,
                {
                    full_cmd.push(data[k]);
                    k += 1;
                }
                assert(data@.subrange(0, data@.len() as int) =~= data@);
            },
            None => {},
        }
        assert(full_cmd@ =~= command_bytes(command));
        self.spi_write(full_cmd.as_slice());
        self.select_chip(SelectedChip::Neither);
        self.pins.delay_ms(10);
        assert(self.wire() =~= w0 + command_wire(command, chip));
    }

    /// Waits until BUSY reads high, polling every 5 ms, with 20 ms before and
    /// after. Gives up only after `u64::MAX` polls.
    fn wait_for_not_busy(&mut self) -> (b: Ghost<Seq<WireOp>>)
        ensures
            final(self).initialized() == old(self).initialized(),
            is_busy_wait(b@),
            final(self).wire() == old(self).wire() + b@,
    {
        let ghost w0 = self.wire();
        self.pins.delay_ms(20);
        let mut polls: u64 = 0;
        let mut idle = false;
        while !idle && polls < u64::MAX
            invariant
                !idle ==> self.wire() == w0 + seq![WireOp::Delay(20)] + low_polls(polls as nat),
                self.initialized() == old(self).initialized(),
                idle ==> self.wire() == w0 + seq![WireOp::Delay(20)] + low_polls(polls as nat) + seq![
                    WireOp::Read(GpioPin::BusyPin, Level::High),
                ],
            decreases u64::MAX - polls + (if idle { 0int } else { 1int }),
        {
            let level = self.pins.read(GpioPin::BusyPin);
            if level == Level::High {
                idle = true;
                assert(self.wire() =~= w0 + seq![WireOp::Delay(20)] + low_polls(polls as nat) + seq![
                    WireOp::Read(GpioPin::BusyPin, Level::High),
                ]);
            } else {
                self.pins.delay_ms(5);
                assert(self.wire() =~= w0 + seq![WireOp::Delay(20)] + low_polls(polls as nat + 1));
                polls += 1;
            }
        }
        self.pins.delay_ms(20);
        let ghost b = if idle {
            busy_wait_idle(polls as nat)
        } else {
            busy_wait_exhausted()
        };
        assert(self.wire() =~= w0 + b);
        Ghost(b)
    }

    /// Sets every pin's direction, parks the outputs low and powers the
    /// panel.
    fn module_init(&mut self)
        ensures
            final(self).wire() == old(self).wire() + setup_wire(),
    {
        let ghost w0 = self.wire();
        self.pins.set_mode(GpioPin::SerialClockPin);
        self.pins.set_mode(GpioPin::SerialDataPin);
        self.pins.set_mode(GpioPin::SerialSelectMainPin);
        self.pins.set_mode(GpioPin::SerialSelectPeriPin);
        self.pins.set_mode(GpioPin::DataCommandPin);
        self.pins.set_mode(GpioPin::ResetPin);
        self.pins.set_mode(GpioPin::BusyPin);
        self.pins.set_mode(GpioPin::PowerPin);
        self.pins.write(GpioPin::SerialClockPin, Level::Low);
        self.pins.write(GpioPin::SerialDataPin, Level::Low);
        self.pins.write(GpioPin::SerialSelectMainPin, Level::Low);
        self.pins.write(GpioPin::SerialSelectPeriPin, Level::Low);
        self.pins.write(GpioPin::DataCommandPin, Level::Low);
        self.pins.write(GpioPin::ResetPin, Level::Low);
        self.pins.write(GpioPin::PowerPin, Level::High);
        assert(self.wire() =~= w0 + setup_wire());
    }

    /// Pulses reset high, low, high, low, high, 30 ms per level.
    fn reset(&mut self)
        ensures
            final(self).wire() == old(self).wire() + reset_wire(),
    {
        let ghost w0 = self.wire();
        self.pins.write(GpioPin::ResetPin, Level::High);
        self.pins.delay_ms(30);
        self.pins.write(GpioPin::ResetPin, Level::Low);
        self.pins.delay_ms(30);
        self.pins.write(GpioPin::ResetPin, Level::High);
        self.pins.delay_ms(30);
        self.pins.write(GpioPin::ResetPin, Level::Low);
        self.pins.delay_ms(30);
        self.pins.write(GpioPin::ResetPin, Level::High);
        self.pins.delay_ms(30);
        assert(self.wire() =~= w0 + reset_wire());
    }

    /// Brings the panel up: pin setup, reset, wait for BUSY, boot sequence.
    pub fn init(&mut self)
        ensures
            exists|b: Seq<WireOp>| #[trigger] is_busy_wait(b) && final(self).wire() == old(self).wire() + init_wire(b),
            final(self).initialized(),
    {
        let ghost w0 = self.wire();
        self.module_init();
        self.reset();
        let b = self.wait_for_not_busy();
        let ghost w1 = self.wire();
        assert(w1 =~= w0 + setup_wire() + reset_wire() + b@);
        let mut i: usize = 0;
        while i < 16
            invariant
                i <= 16,
                self.wire() == w1 + boot_wire(i as int),
            decreases 16 - i,
        {
            let (command, chip) = boot_command(i);
            self.send_command(command, chip);
            assert(self.wire() =~= w1 + boot_wire(i as int + 1));
            i += 1;
        }
        assert(self.wire() =~= w0 + init_wire(b@));
        self.initialized = true;
    }

    /// Power on, refresh and power off, waiting for BUSY in between.
    fn turn_display_on(&mut self) -> (b: Ghost<(Seq<WireOp>, Seq<WireOp>)>)
        ensures
            final(self).initialized() == old(self).initialized(),
            is_busy_wait(b@.0),
            is_busy_wait(b@.1),
            final(self).wire() == old(self).wire() + display_on_wire(b@.0, b@.1),
    {
        let ghost w0 = self.wire();
        self.send_command(CommandCode::PowerOn, SelectedChip::Both);
        let b1 = self.wait_for_not_busy();
        self.pins.delay_ms(50);
        self.send_command(CommandCode::Drf, SelectedChip::Both);
        let b2 = self.wait_for_not_busy();
        self.send_command(CommandCode::Pof, SelectedChip::Both);
        assert(self.wire() =~= w0 + display_on_wire(b1@, b2@));
        Ghost((b1@, b2@))
    }

    fn send_half(&mut self, chip: SelectedChip, half: &[u8])
        ensures
            final(self).initialized() == old(self).initialized(),
            final(self).wire() == old(self).wire() + half_wire(chip, half@),
    {
        let ghost w0 = self.wire();
        self.select_chip(chip);
        let dtm = [CommandCode::Dtm.cmd()];
        assert(dtm@ =~= seq![0x10u8]);
        self.spi_write(&dtm);
        self.spi_write(half);
        self.select_chip(SelectedChip::Neither);
        assert(self.wire() =~= w0 + half_wire(chip, half@));
    }

    fn show_frame(&mut self, image: &[u8]) -> (b: Ghost<(Seq<WireOp>, Seq<WireOp>)>)
        requires
            image@.len() == 960000,
        ensures
            final(self).initialized() == old(self).initialized(),
            is_busy_wait(b@.0),
            is_busy_wait(b@.1),
            final(self).wire() == old(self).wire() + frame_wire(image@, b@.0, b@.1),
    {
        let ghost w0 = self.wire();
        let (main, peri) = split_halves(image);
        self.send_half(SelectedChip::Main, main.as_slice());
        self.send_half(SelectedChip::Peri, peri.as_slice());
        self.pins.delay_ms(100);
        let b = self.turn_display_on();
        assert(self.wire() =~= w0 + frame_wire(image@, b@.0, b@.1));
        b
    }

    /// Shows a packed frame: the main half to the main controller, the
    /// peripheral half to the other, 100 ms to settle, then the refresh.
    pub fn display(&mut self, image: &[u8])
        requires
            image@.len() == 960000,
            old(self).initialized(),
        ensures
            final(self).initialized(),
            exists|b1: Seq<WireOp>, b2: Seq<WireOp>|
                #[trigger] is_busy_wait(b1) && #[trigger] is_busy_wait(b2) && final(self).wire() == old(
                    self,
                ).wire() + frame_wire(image@, b1, b2),
    {
        let b = self.show_frame(image);
        assert(is_busy_wait(b@.0) && is_busy_wait(b@.1));
    }

    /// Shows an all-white frame.
    pub fn clear(&mut self)
        requires
            old(self).initialized(),
        ensures
            final(self).initialized(),
            exists|b1: Seq<WireOp>, b2: Seq<WireOp>|
                #[trigger] is_busy_wait(b1) && #[trigger] is_busy_wait(b2) && final(self).wire() == old(
                    self,
                ).wire() + frame_wire(white_frame(), b1, b2),
    {
        let white: Vec<u8> = vec![0x11u8; 960000];
        assert(white@ =~= white_frame());
        let b = self.show_frame(white.as_slice());
        assert(is_busy_wait(b@.0) && is_busy_wait(b@.1));
    }

    /// Drives chip selects, data/command, reset and power low, leaving the
    /// panel safe to let go of.
    pub fn park(&mut self)
        ensures
            !final(self).initialized(),
            final(self).wire() == old(self).wire() + park_wire(),
    {
        let ghost w0 = self.wire();
        self.pins.write(GpioPin::SerialSelectMainPin, Level::Low);
        self.pins.write(GpioPin::SerialSelectPeriPin, Level::Low);
        self.pins.write(GpioPin::DataCommandPin, Level::Low);
        self.pins.write(GpioPin::ResetPin, Level::Low);
        self.pins.write(GpioPin::PowerPin, Level::Low);
        self.initialized = false;
        assert(self.wire() =~= w0 + park_wire());
    }

    /// Puts the controllers into deep sleep, waits 2 s, then parks the pins.
    pub fn sleep(&mut self)
        ensures
            !final(self).initialized(),
            final(self).wire() == old(self).wire() + command_wire(CommandCode::DeepSleep, SelectedChip::Both).push(
                WireOp::Delay(2000),
            ) + park_wire(),
    {
        let ghost w0 = self.wire();
        self.send_command(CommandCode::DeepSleep, SelectedChip::Both);
        self.pins.delay_ms(2000);
        self.park();
        assert(self.wire() =~= w0 + command_wire(CommandCode::DeepSleep, SelectedChip::Both).push(
            WireOp::Delay(2000),
        ) + park_wire());
    }
}

/// Parking leaves both chip selects, data/command, reset and power low,
/// whatever was driven before.
pub proof fn lemma_park_leaves_pins_low(w: Seq<WireOp>)
    ensures
        last_level(w + park_wire(), GpioPin::SerialSelectMainPin) == Some(Level::Low),
        last_level(w + park_wire(), GpioPin::SerialSelectPeriPin) == Some(Level::Low),
        last_level(w + park_wire(), GpioPin::DataCommandPin) == Some(Level::Low),
        last_level(w + park_wire(), GpioPin::ResetPin) == Some(Level::Low),
        last_level(w + park_wire(), GpioPin::PowerPin) == Some(Level::Low),
{
    let s = w + park_wire();
    let n = s.len();
    assert(s.drop_last() =~= w + park_wire().subrange(0, 4));
    assert(s.drop_last().drop_last() =~= w + park_wire().subrange(0, 3));
    assert(s.drop_last().drop_last().drop_last() =~= w + park_wire().subrange(0, 2));
    assert(s.drop_last().drop_last().drop_last().drop_last() =~= w + park_wire().subrange(0, 1));
    reveal_with_fuel(last_level, 5);
}

/// Showing the all-white frame does exactly what `clear` does.
pub proof fn lemma_display_white_is_clear(f: Seq<u8>, b1: Seq<WireOp>, b2: Seq<WireOp>)
    requires
        f.len() == 960000,
        forall|k: int| 0 <= k < 960000 ==> f[k] == 0x11u8,
    ensures
        frame_wire(f, b1, b2) == frame_wire(white_frame(), b1, b2),
{
    assert(f =~= white_frame());
}

/// The directions set and levels driven in `s`, in order: what the panel
/// sees, without the reads and pauses.
pub open spec fn pin_writes(s: Seq<WireOp>) -> Seq<WireOp>
    decreases s.len(),
{
    if s.len() == 0 {
        Seq::empty()
    } else {
        let rest = pin_writes(s.drop_last());
        match s.last() {
            WireOp::Mode(_) => rest.push(s.last()),
            WireOp::Write(_, _) => rest.push(s.last()),
            _ => rest,
        }
    }
}

proof fn lemma_pin_writes_add(a: Seq<WireOp>, b: Seq<WireOp>)
    ensures
        pin_writes(a + b) == pin_writes(a) + pin_writes(b),
    decreases b.len(),
{
    if b.len() == 0 {
        assert(a + b =~= a);
        assert(pin_writes(b) =~= Seq::<WireOp>::empty());
        assert(pin_writes(a) + pin_writes(b) =~= pin_writes(a));
    } else {
        lemma_pin_writes_add(a, b.drop_last());
        assert((a + b).drop_last() =~= a + b.drop_last());
        assert((a + b).last() == b.last());
        assert(pin_writes(a) + pin_writes(b.drop_last()).push(b.last()) =~= (pin_writes(a) + pin_writes(
            b.drop_last(),
        )).push(b.last()));
    }
}

proof fn lemma_low_polls_write_nothing(n: nat)
    ensures
        pin_writes(low_polls(n)) == Seq::<WireOp>::empty(),
    decreases n,
{
    if n > 0 {
        let step = seq![WireOp::Read(GpioPin::BusyPin, Level::Low), WireOp::Delay(5)];
        lemma_low_polls_write_nothing((n - 1) as nat);
        lemma_pin_writes_add(low_polls((n - 1) as nat), step);
        assert(step.drop_last() =~= seq![WireOp::Read(GpioPin::BusyPin, Level::Low)]);
        assert(step.drop_last().drop_last() =~= Seq::<WireOp>::empty());
        reveal_with_fuel(pin_writes, 3);
        assert(pin_writes(step) =~= Seq::<WireOp>::empty());
        assert(pin_writes(low_polls(n)) =~= Seq::<WireOp>::empty());
    }
}

/// A BUSY handshake only reads and waits: it drives no pin.
pub proof fn lemma_busy_wait_writes_nothing(b: Seq<WireOp>)
    requires
        is_busy_wait(b),
    ensures
        pin_writes(b) == Seq::<WireOp>::empty(),
{
    let d = seq![WireOp::Delay(20)];
    reveal_with_fuel(pin_writes, 3);
    assert(d.drop_last() =~= Seq::<WireOp>::empty());
    assert(pin_writes(d) =~= Seq::<WireOp>::empty());
    let tail = seq![WireOp::Read(GpioPin::BusyPin, Level::High), WireOp::Delay(20)];
    assert(tail.drop_last() =~= seq![WireOp::Read(GpioPin::BusyPin, Level::High)]);
    assert(tail.drop_last().drop_last() =~= Seq::<WireOp>::empty());
    assert(pin_writes(tail) =~= Seq::<WireOp>::empty());
    if b == busy_wait_exhausted() {
        lemma_low_polls_write_nothing(u64::MAX as nat);
        lemma_pin_writes_add(d, low_polls(u64::MAX as nat));
        lemma_pin_writes_add(d + low_polls(u64::MAX as nat), d);
        assert(pin_writes(b) =~= Seq::<WireOp>::empty());
    } else {
        let n = choose|n: nat| b == #[trigger] busy_wait_idle(n);
        lemma_low_polls_write_nothing(n);
        lemma_pin_writes_add(d, low_polls(n));
        lemma_pin_writes_add(d + low_polls(n), tail);
        assert(pin_writes(b) =~= Seq::<WireOp>::empty());
    }
}

/// What the panel sees of `init` followed by `display(f)`, the directions
/// and levels in order, depends on `f` alone: however long BUSY stays low,
/// it is the same as when every handshake is empty.
pub proof fn lemma_session_wire_is_function_of_frame(
    b0: Seq<WireOp>,
    b1: Seq<WireOp>,
    b2: Seq<WireOp>,
    f: Seq<u8>,
)
    requires
        is_busy_wait(b0),
        is_busy_wait(b1),
        is_busy_wait(b2),
    ensures
        pin_writes(init_wire(b0) + frame_wire(f, b1, b2)) == pin_writes(
            init_wire(Seq::empty()) + frame_wire(f, Seq::empty(), Seq::empty()),
        ),
{
    let e = Seq::<WireOp>::empty();
    lemma_busy_wait_writes_nothing(b0);
    lemma_busy_wait_writes_nothing(b1);
    lemma_busy_wait_writes_nothing(b2);
    assert(pin_writes(e) =~= e);
    let sr = setup_wire() + reset_wire();
    let boot = boot_wire(16);
    let halves = (half_wire(SelectedChip::Main, main_half(f)) + half_wire(SelectedChip::Peri, peri_half(f))).push(
        WireOp::Delay(100),
    );
    let on = command_wire(CommandCode::PowerOn, SelectedChip::Both);
    let drf = command_wire(CommandCode::Drf, SelectedChip::Both);
    let pof = command_wire(CommandCode::Pof, SelectedChip::Both);
    let d50 = seq![WireOp::Delay(50)];
    assert forall|x: Seq<WireOp>, y: Seq<WireOp>, z: Seq<WireOp>|
        pin_writes(x) == Seq::<WireOp>::empty() && pin_writes(y) == Seq::<WireOp>::empty()
            && pin_writes(z) == Seq::<WireOp>::empty() implies #[trigger] pin_writes(
        init_wire(x) + frame_wire(f, y, z),
    ) == pin_writes(sr) + pin_writes(boot) + pin_writes(halves) + pin_writes(on) + pin_writes(d50)
        + pin_writes(drf) + pin_writes(pof) by {
        assert(init_wire(x) + frame_wire(f, y, z) =~= sr + x + boot + halves + on + y + d50 + drf + z
            + pof);
        lemma_pin_writes_add(sr, x);
        lemma_pin_writes_add(sr + x, boot);
        lemma_pin_writes_add(sr + x + boot, halves);
        lemma_pin_writes_add(sr + x + boot + halves, on);
        lemma_pin_writes_add(sr + x + boot + halves + on, y);
        lemma_pin_writes_add(sr + x + boot + halves + on + y, d50);
        lemma_pin_writes_add(sr + x + boot + halves + on + y + d50, drf);
        lemma_pin_writes_add(sr + x + boot + halves + on + y + d50 + drf, z);
        lemma_pin_writes_add(sr + x + boot + halves + on + y + d50 + drf + z, pof);
        assert(pin_writes(sr) + pin_writes(x) =~= pin_writes(sr));
    }
}

} // verus!
