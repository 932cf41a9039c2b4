use eink::command_code::CommandCode;
use eink::driver::EPaperDisplayBBDriver;
use eink::gpio_pin::{GpioPin, Level, WireOp, WireRecorder};

#[derive(Debug, Clone, Copy, PartialEq, Eq)]
enum Cs {
    Main,
    Peri,
    Both,
}

/// Groups the bytes clocked out into (selection, bytes) transfers.
fn transfers(ops: &[WireOp]) -> Vec<(Cs, Vec<u8>)> {
    let mut out = Vec::new();
    let mut main_low = false;
    let mut peri_low = false;
    let mut sda = Level::Low;
    let mut current: Vec<u8> = Vec::new();
    let mut byte: u8 = 0;
    let mut bits = 0;
    let mut flush = |main_low: bool, peri_low: bool, current: &mut Vec<u8>, out: &mut Vec<(Cs, Vec<u8>)>| {
        if !current.is_empty() {
            let cs = match (main_low, peri_low) {
                (true, true) => Cs::Both,
                (true, false) => Cs::Main,
                (false, true) => Cs::Peri,
                (false, false) => panic!("bytes clocked with no chip selected"),
            };
            out.push((cs, std::mem::take(current)));
        }
    };
    for op in ops {
        match *op {
            WireOp::Write(GpioPin::SerialSelectMainPin, l) => {
                let low = l == Level::Low;
                if low != main_low {
                    flush(main_low, peri_low, &mut current, &mut out);
                    main_low = low;
                }
            }
            WireOp::Write(GpioPin::SerialSelectPeriPin, l) => {
                let low = l == Level::Low;
                if low != peri_low {
                    flush(main_low, peri_low, &mut current, &mut out);
                    peri_low = low;
                }
            }
            WireOp::Write(GpioPin::SerialDataPin, l) => sda = l,
            WireOp::Write(GpioPin::SerialClockPin, Level::High) => {
                byte = (byte << 1) | if sda == Level::High { 1 } else { 0 };
                bits += 1;
                if bits == 8 {
                    current.push(byte);
                    byte = 0;
                    bits = 0;
                }
            }
            _ => {}
        }
    }
    flush(main_low, peri_low, &mut current, &mut out);
    out
}

fn last_level(ops: &[WireOp], pin: GpioPin) -> Option<Level> {
    ops.iter().rev().find_map(|op| match *op {
        WireOp::Write(p, l) if p == pin => Some(l),
        _ => None,
    })
}

fn waited(ops: &[WireOp]) -> u64 {
    ops.iter().map(|op| if let WireOp::Delay(ms) = op { *ms } else { 0 }).sum()
}

fn writes(ops: &[WireOp]) -> Vec<WireOp> {
    ops.iter().copied().filter(|op| matches!(op, WireOp::Mode(_) | WireOp::Write(_, _))).collect()
}

fn busy_reads(ops: &[WireOp]) -> Vec<Level> {
    ops.iter().filter_map(|op| if let WireOp::Read(GpioPin::BusyPin, l) = op { Some(*l) } else { None }).collect()
}

/// Position of the first op at or after `from` equal to `op`.
fn find(ops: &[WireOp], from: usize, op: WireOp) -> usize {
    from + ops[from..].iter().position(|o| *o == op).expect("op not found")
}

fn command(cmd: CommandCode) -> Vec<u8> {
    let mut v = vec![cmd.cmd()];
    if let Some(d) = cmd.data() {
        v.extend_from_slice(d);
    }
    v
}

#[test]
fn boot_sequence_wire_trace() {
    let mut driver = EPaperDisplayBBDriver::new(WireRecorder::new(3));
    driver.init();
    let pins = driver.into_pins();
    let t = transfers(pins.ops());
    assert_eq!(t.len(), 16);
    assert_eq!(t[0], (Cs::Main, vec![0x74, 0xC0, 0x1C, 0x1C, 0xCC, 0xCC, 0xCC, 0x15, 0x15, 0x55]));
    assert_eq!(t[1], (Cs::Both, vec![0xF0, 0x49, 0x55, 0x13, 0x5D, 0x05, 0x10]));
    assert_eq!(t[2], (Cs::Both, vec![0x00, 0xDF, 0x69]));
    let order = [
        (CommandCode::AnTm, Cs::Main),
        (CommandCode::Cmd66, Cs::Both),
        (CommandCode::Psr, Cs::Both),
        (CommandCode::Cdi, Cs::Both),
        (CommandCode::Tcon, Cs::Both),
        (CommandCode::Agid, Cs::Both),
        (CommandCode::Pws, Cs::Both),
        (CommandCode::Ccset, Cs::Both),
        (CommandCode::Tres, Cs::Both),
        (CommandCode::Pwr, Cs::Main),
        (CommandCode::EnBuf, Cs::Main),
        (CommandCode::BtstP, Cs::Main),
        (CommandCode::BoostVddpEn, Cs::Main),
        (CommandCode::BtstN, Cs::Main),
        (CommandCode::BuckBoostVddn, Cs::Main),
        (CommandCode::TftVcomPower, Cs::Main),
    ];
    for (i, (c, cs)) in order.iter().enumerate() {
        assert_eq!(t[i], (*cs, command(*c)));
    }
    // Setup, then the reset pulse, before any byte.
    let ops = pins.ops();
    assert_eq!(ops[7], WireOp::Mode(GpioPin::PowerPin));
    assert_eq!(ops[14], WireOp::Write(GpioPin::PowerPin, Level::High));
    let reset: Vec<WireOp> = ops[15..25].to_vec();
    assert_eq!(
        reset,
        vec![
            WireOp::Write(GpioPin::ResetPin, Level::High),
            WireOp::Delay(30),
            WireOp::Write(GpioPin::ResetPin, Level::Low),
            WireOp::Delay(30),
            WireOp::Write(GpioPin::ResetPin, Level::High),
            WireOp::Delay(30),
            WireOp::Write(GpioPin::ResetPin, Level::Low),
            WireOp::Delay(30),
            WireOp::Write(GpioPin::ResetPin, Level::High),
            WireOp::Delay(30),
        ]
    );
    // Then the BUSY handshake: three low polls, a high read, before any byte.
    let handshake: Vec<WireOp> = ops[25..34].to_vec();
    assert_eq!(
        handshake,
        vec![
            WireOp::Delay(20),
            WireOp::Read(GpioPin::BusyPin, Level::Low),
            WireOp::Delay(5),
            WireOp::Read(GpioPin::BusyPin, Level::Low),
            WireOp::Delay(5),
            WireOp::Read(GpioPin::BusyPin, Level::Low),
            WireOp::Delay(5),
            WireOp::Read(GpioPin::BusyPin, Level::High),
            WireOp::Delay(20),
        ]
    );
    // Both chip selects end high after a successful operation.
    assert_eq!(last_level(ops, GpioPin::SerialSelectMainPin), Some(Level::High));
    assert_eq!(last_level(ops, GpioPin::SerialSelectPeriPin), Some(Level::High));
    assert_eq!(waited(ops), 150 + 40 + 15 + 16 * 10);
}

#[test]
fn display_frame_wire_trace() {
    let mut driver = EPaperDisplayBBDriver::new(WireRecorder::new(2));
    driver.init();
    let frame = vec![0u8; 960_000];
    driver.display(&frame);
    let pins = driver.into_pins();
    let t = transfers(pins.ops());
    assert_eq!(t.len(), 16 + 5);
    let mut main = vec![0x10u8];
    main.extend(std::iter::repeat(0u8).take(480_000));
    assert_eq!(t[16].0, Cs::Main);
    assert_eq!(t[16].1, main);
    assert_eq!(t[17].0, Cs::Peri);
    assert_eq!(t[17].1, main);
    assert_eq!(t[18], (Cs::Both, vec![0x04]));
    assert_eq!(t[19], (Cs::Both, vec![0x12, 0x00]));
    assert_eq!(t[20], (Cs::Both, vec![0x02, 0x00]));
    // BUSY reads high after power-on and after refresh, and 50 ms pass
    // before the refresh is clocked.
    let ops = pins.ops();
    let on = find(ops, 0, WireOp::Delay(100));
    let high1 = find(ops, on, WireOp::Read(GpioPin::BusyPin, Level::High));
    assert_eq!(ops[high1 + 1], WireOp::Delay(20));
    assert_eq!(ops[high1 + 2], WireOp::Delay(50));
    let high2 = find(ops, high1 + 3, WireOp::Read(GpioPin::BusyPin, Level::High));
    assert_eq!(ops[high2 + 1], WireOp::Delay(20));
    assert_eq!(ops[high2 + 2], WireOp::Write(GpioPin::SerialSelectMainPin, Level::Low));
    assert_eq!(busy_reads(ops).iter().filter(|l| **l == Level::High).count(), 3);
}

#[test]
fn display_streams_halves_in_chunk_order() {
    let mut driver = EPaperDisplayBBDriver::new(WireRecorder::new(0));
    let frame: Vec<u8> = (0..960_000usize).map(|k| (k % 256) as u8).collect();
    driver.init();
    assert!(driver.is_initialized());
    let booted = driver.pins().ops().len();
    driver.display(&frame);
    assert!(driver.is_initialized());
    let pins = driver.into_pins();
    let shown = &pins.ops()[booted..];
    let t = transfers(shown);
    assert_eq!(t.len(), 5);
    assert_eq!(t[0].1.len(), 480_001);
    assert_eq!(t[1].1.len(), 480_001);
    for j in 0..480_000usize {
        assert_eq!(t[0].1[j + 1], frame[(j / 600) * 1200 + j % 600]);
        assert_eq!(t[1].1[j + 1], frame[(j / 600) * 1200 + 600 + j % 600]);
    }
    assert_eq!(waited(shown), 100 + 50 + 3 * 10 + 2 * 40);
}

#[test]
fn byte_is_clocked_msb_first() {
    let mut driver = EPaperDisplayBBDriver::new(WireRecorder::new(0));
    driver.sleep();
    let pins = driver.into_pins();
    let ops = pins.ops();
    // Select both, then the opcode 0x07: bits 0,0,0,0,0,1,1,1.
    assert_eq!(ops[0], WireOp::Write(GpioPin::SerialSelectMainPin, Level::Low));
    assert_eq!(ops[1], WireOp::Write(GpioPin::SerialSelectPeriPin, Level::Low));
    let bits = [0, 0, 0, 0, 0, 1, 1, 1];
    for (i, b) in bits.iter().enumerate() {
        let level = if *b == 1 { Level::High } else { Level::Low };
        assert_eq!(ops[2 + 3 * i], WireOp::Write(GpioPin::SerialClockPin, Level::Low));
        assert_eq!(ops[3 + 3 * i], WireOp::Write(GpioPin::SerialDataPin, level));
        assert_eq!(ops[4 + 3 * i], WireOp::Write(GpioPin::SerialClockPin, Level::High));
    }
    assert_eq!(ops[26], WireOp::Write(GpioPin::SerialClockPin, Level::Low));
    let t = transfers(ops);
    assert_eq!(t, vec![(Cs::Both, vec![0x07, 0xA5])]);
    assert_eq!(waited(ops), 2000 + 10);
}

#[test]
fn sleep_and_park_leave_pins_low() {
    let mut driver = EPaperDisplayBBDriver::new(WireRecorder::new(1));
    driver.init();
    driver.sleep();
    let pins = driver.into_pins();
    for pin in [
        GpioPin::SerialSelectMainPin,
        GpioPin::SerialSelectPeriPin,
        GpioPin::DataCommandPin,
        GpioPin::ResetPin,
        GpioPin::PowerPin,
    ] {
        assert_eq!(last_level(pins.ops(), pin), Some(Level::Low));
    }
    let mut fresh = EPaperDisplayBBDriver::new(WireRecorder::new(0));
    assert!(!fresh.is_initialized());
    fresh.park();
    assert!(!fresh.is_initialized());
    let n = fresh.pins().ops().len();
    assert_eq!(n, 5);
    assert_eq!(last_level(fresh.pins().ops(), GpioPin::PowerPin), Some(Level::Low));
}

#[test]
fn white_frame_display_equals_clear() {
    let mut a = EPaperDisplayBBDriver::new(WireRecorder::new(0));
    a.init();
    a.display(&vec![0x11u8; 960_000]);
    let mut b = EPaperDisplayBBDriver::new(WireRecorder::new(4));
    b.init();
    b.clear();
    assert_eq!(writes(a.pins().ops()), writes(b.pins().ops()));
    let t = transfers(b.pins().ops());
    assert!(t[16].1[1..].iter().all(|x| *x == 0x11));
}

#[test]
fn session_wire_depends_only_on_frame() {
    let frame: Vec<u8> = (0..960_000usize).map(|k| (k / 7 % 256) as u8).collect();
    let mut a = EPaperDisplayBBDriver::new(WireRecorder::new(0));
    a.init();
    a.display(&frame);
    let mut b = EPaperDisplayBBDriver::new(WireRecorder::new(9));
    b.park();
    b.init();
    b.display(&frame);
    let oa = writes(a.pins().ops());
    let ob = writes(b.pins().ops());
    assert!(oa[..] == ob[5..]);
    assert_ne!(a.pins().ops().len() + 5, b.pins().ops().len());
}

#[test]
fn command_catalog() {
    let table: [(CommandCode, u8, Option<&[u8]>); 21] = [
        (CommandCode::Psr, 0x00, Some(&[0xDF, 0x69])),
        (CommandCode::Pwr, 0x01, Some(&[0x0F, 0x00, 0x28, 0x2C, 0x28, 0x38])),
        (CommandCode::Pof, 0x02, Some(&[0x00])),
        (CommandCode::PowerOn, 0x04, None),
        (CommandCode::BtstN, 0x05, Some(&[0xE8, 0x28])),
        (CommandCode::BtstP, 0x06, Some(&[0xE8, 0x28])),
        (CommandCode::DeepSleep, 0x07, Some(&[0xA5])),
        (CommandCode::Dtm, 0x10, None),
        (CommandCode::Drf, 0x12, Some(&[0x00])),
        (CommandCode::Cdi, 0x50, Some(&[0xF7])),
        (CommandCode::Tcon, 0x60, Some(&[0x03, 0x03])),
        (CommandCode::Tres, 0x61, Some(&[0x04, 0xB0, 0x03, 0x20])),
        (CommandCode::AnTm, 0x74, Some(&[0xC0, 0x1C, 0x1C, 0xCC, 0xCC, 0xCC, 0x15, 0x15, 0x55])),
        (CommandCode::Agid, 0x86, Some(&[0x10])),
        (CommandCode::BuckBoostVddn, 0xB0, Some(&[0x01])),
        (CommandCode::TftVcomPower, 0xB1, Some(&[0x02])),
        (CommandCode::EnBuf, 0xB6, Some(&[0x07])),
        (CommandCode::BoostVddpEn, 0xB7, Some(&[0x01])),
        (CommandCode::Ccset, 0xE0, Some(&[0x01])),
        (CommandCode::Pws, 0xE3, Some(&[0x22])),
        (CommandCode::Cmd66, 0xF0, Some(&[0x49, 0x55, 0x13, 0x5D, 0x05, 0x10])),
    ];
    for (c, op, data) in table {
        assert_eq!(c.cmd(), op);
        assert_eq!(c.data(), data);
    }
}

#[test]
fn pin_numbers_and_levels() {
    let pins = [
        (GpioPin::SerialClockPin, 11),
        (GpioPin::SerialDataPin, 10),
        (GpioPin::SerialSelectMainPin, 8),
        (GpioPin::SerialSelectPeriPin, 7),
        (GpioPin::DataCommandPin, 25),
        (GpioPin::ResetPin, 17),
        (GpioPin::BusyPin, 24),
        (GpioPin::PowerPin, 18),
    ];
    for (p, n) in pins {
        assert_eq!(p.number(), n);
        assert_eq!(p.is_output(), p != GpioPin::BusyPin);
    }
    assert_eq!(Level::Low.as_u8(), 0);
    assert_eq!(Level::High.as_u8(), 1);
    assert_eq!(Level::from_u8(0), Level::Low);
    assert_eq!(Level::from_u8(1), Level::High);
    for l in [Level::Low, Level::High] {
        assert_eq!(Level::from_u8(l.as_u8()), l);
    }
}
