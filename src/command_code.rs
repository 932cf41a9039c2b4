use vstd::prelude::*;

verus! {

/// The controller commands that the driver issues.
#[derive(Debug, Clone, Copy, PartialEq, Eq, Structural)]
pub enum CommandCode {
    Psr,
    Pwr,
    Pof,
    PowerOn,
    BtstN,
    BtstP,
    DeepSleep,
    Dtm,
    Drf,
    Cdi,
    Tcon,
    Tres,
    AnTm,
    Agid,
    BuckBoostVddn,
    TftVcomPower,
    EnBuf,
    BoostVddpEn,
    Ccset,
    Pws,
    Cmd66,
}

/// The opcode byte of a command.
pub open spec fn opcode(c: CommandCode) -> u8 {
    match c {
        CommandCode::Psr => 0x00,
        CommandCode::Pwr => 0x01,
        CommandCode::Pof => 0x02,
        CommandCode::PowerOn => 0x04,
        CommandCode::BtstN => 0x05,
        CommandCode::BtstP => 0x06,
        CommandCode::DeepSleep => 0x07,
        CommandCode::Dtm => 0x10,
        CommandCode::Drf => 0x12,
        CommandCode::Cdi => 0x50,
        CommandCode::Tcon => 0x60,
        CommandCode::Tres => 0x61,
        CommandCode::AnTm => 0x74,
        CommandCode::Agid => 0x86,
        CommandCode::BuckBoostVddn => 0xB0,
        CommandCode::TftVcomPower => 0xB1,
        CommandCode::EnBuf => 0xB6,
        CommandCode::BoostVddpEn => 0xB7,
        CommandCode::Ccset => 0xE0,
        CommandCode::Pws => 0xE3,
        CommandCode::Cmd66 => 0xF0,
    }
}

/// The fixed parameter bytes of a command; `None` for the two commands
/// that carry none (power-on, and data transmission, whose bytes are the frame).
pub open spec fn payload(c: CommandCode) -> Option<Seq<u8>> {
    match c {
        CommandCode::Psr => Some(seq![0xDFu8, 0x69]),
        CommandCode::Pwr => Some(seq![0x0Fu8, 0x00, 0x28, 0x2C, 0x28, 0x38]),
        CommandCode::Pof => Some(seq![0x00u8]),
        CommandCode::PowerOn => None,
        CommandCode::BtstN => Some(seq![0xE8u8, 0x28]),
        CommandCode::BtstP => Some(seq![0xE8u8, 0x28]),
        CommandCode::DeepSleep => Some(seq![0xA5u8]),
        CommandCode::Dtm => None,
        CommandCode::Drf => Some(seq![0x00u8]),
        CommandCode::Cdi => Some(seq![0xF7u8]),
        CommandCode::Tcon => Some(seq![0x03u8, 0x03]),
        CommandCode::Tres => Some(seq![0x04u8, 0xB0, 0x03, 0x20]),
        CommandCode::AnTm => Some(seq![0xC0u8, 0x1C, 0x1C, 0xCC, 0xCC, 0xCC, 0x15, 0x15, 0x55]),
        CommandCode::Agid => Some(seq![0x10u8]),
        CommandCode::BuckBoostVddn => Some(seq![0x01u8]),
        CommandCode::TftVcomPower => Some(seq![0x02u8]),
        CommandCode::EnBuf => Some(seq![0x07u8]),
        CommandCode::BoostVddpEn => Some(seq![0x01u8]),
        CommandCode::Ccset => Some(seq![0x01u8]),
        CommandCode::Pws => Some(seq![0x22u8]),
        CommandCode::Cmd66 => Some(seq![0x49u8, 0x55, 0x13, 0x5D, 0x05, 0x10]),
    }
}

/// Everything clocked out for a command: the opcode, then its payload.
pub open spec fn command_bytes(c: CommandCode) -> Seq<u8> {
    match payload(c) {
        Some(p) => seq![opcode(c)] + p,
        None => seq![opcode(c)],
    }
}

impl CommandCode {
    pub fn cmd(self) -> (r: u8)
        ensures
            r == opcode(self),
    {
        match self {
            CommandCode::Psr => 0x00,
            CommandCode::Pwr => 0x01,
            CommandCode::Pof => 0x02,
            CommandCode::PowerOn => 0x04,
            CommandCode::BtstN => 0x05,
            CommandCode::BtstP => 0x06,
            CommandCode::DeepSleep => 0x07,
            CommandCode::Dtm => 0x10,
            CommandCode::Drf => 0x12,
            CommandCode::Cdi => 0x50,
            CommandCode::Tcon => 0x60,
            CommandCode::Tres => 0x61,
            CommandCode::AnTm => 0x74,
            CommandCode::Agid => 0x86,
            CommandCode::BuckBoostVddn => 0xB0,
            CommandCode::TftVcomPower => 0xB1,
            CommandCode::EnBuf => 0xB6,
            CommandCode::BoostVddpEn => 0xB7,
            CommandCode::Ccset => 0xE0,
            CommandCode::Pws => 0xE3,
            CommandCode::Cmd66 => 0xF0,
        }
    }

    pub fn data(&self) -> (r: Option<&'static [u8]>)
        ensures
            r matches Some(d) ==> payload(*self) == Some(d@),
            r is None <==> payload(*self) is None,
    {
        match self {
            CommandCode::Psr => Some(&[0xDF, 0x69]),
            CommandCode::Pwr => Some(&[0x0F, 0x00, 0x28, 0x2C, 0x28, 0x38]),
            CommandCode::Pof => Some(&[0x00]),
            CommandCode::PowerOn => None,
            CommandCode::BtstN => Some(&[0xE8, 0x28]),
            CommandCode::BtstP => Some(&[0xE8, 0x28]),
            CommandCode::DeepSleep => Some(&[0xA5]),
            CommandCode::Dtm => None,
            CommandCode::Drf => Some(&[0x00]),
            CommandCode::Cdi => Some(&[0xF7]),
            CommandCode::Tcon => Some(&[0x03, 0x03]),
            CommandCode::Tres => Some(&[0x04, 0xB0, 0x03, 0x20]),
            CommandCode::AnTm => Some(&[0xC0, 0x1C, 0x1C, 0xCC, 0xCC, 0xCC, 0x15, 0x15, 0x55]),
            CommandCode::Agid => Some(&[0x10]),
            CommandCode::BuckBoostVddn => Some(&[0x01]),
            CommandCode::TftVcomPower => Some(&[0x02]),
            CommandCode::EnBuf => Some(&[0x07]),
            CommandCode::BoostVddpEn => Some(&[0x01]),
            CommandCode::Ccset => Some(&[0x01]),
            CommandCode::Pws => Some(&[0x22]),
            CommandCode::Cmd66 => Some(&[0x49, 0x55, 0x13, 0x5D, 0x05, 0x10]),
        }
    }
}

} // verus!
