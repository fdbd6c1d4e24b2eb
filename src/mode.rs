use vstd::prelude::*;

verus! {

/// The measurement function selected on the meter, as announced by the first
/// byte of each frame.
#[derive(Debug, Clone, Copy, PartialEq, Eq, Structural)]
pub enum Mode {
    DcVoltage,
    AcVoltage,
    DcMicroAmpere,
    DcMilliAmpere,
    DcAmpere,
    AcMicroAmpere,
    AcMilliAmpere,
    AcAmpere,
    Resistance,
    Capacitance,
    FrequencySeconds,
    FrequencyHz,
    FrequencyPercent,
    Diode,
    Continuinty,
    CurrentGain,
    Logic,
    PowerLevel,
    Tempature,
}

impl Mode {
    /// The byte by which the meter announces this mode.
    pub open spec fn code(self) -> u8 {
        match self {
            Mode::DcVoltage => 0x00,
            Mode::AcVoltage => 0x01,
            Mode::DcMicroAmpere => 0x02,
            Mode::DcMilliAmpere => 0x03,
            Mode::DcAmpere => 0x04,
            Mode::AcMicroAmpere => 0x05,
            Mode::AcMilliAmpere => 0x06,
            Mode::AcAmpere => 0x07,
            Mode::Resistance => 0x08,
            Mode::Capacitance => 0x09,
            Mode::FrequencySeconds => 0x10,
            Mode::FrequencyHz => 0x0a,
            Mode::FrequencyPercent => 0x0d,
            Mode::Diode => 0x13,
            Mode::Continuinty => 0x14,
            Mode::CurrentGain => 0x15,
            Mode::Logic => 0x16,
            Mode::PowerLevel => 0x17,
            Mode::Tempature => 0x19,
        }
    }

    /// Looks a code up in the mode table; a code that names no mode gives
    /// `None`.
    pub fn from_u8(code: u8) -> (r: Option<Mode>)
        ensures
            r == mode_of(code),
    {
        match code {
            0x00 => Some(Mode::DcVoltage),
            0x01 => Some(Mode::AcVoltage),
            0x02 => Some(Mode::DcMicroAmpere),
            0x03 => Some(Mode::DcMilliAmpere),
            0x04 => Some(Mode::DcAmpere),
            0x05 => Some(Mode::AcMicroAmpere),
            0x06 => Some(Mode::AcMilliAmpere),
            0x07 => Some(Mode::AcAmpere),
            0x08 => Some(Mode::Resistance),
            0x09 => Some(Mode::Capacitance),
            0x10 => Some(Mode::FrequencySeconds),
            0x0a => Some(Mode::FrequencyHz),
            0x0d => Some(Mode::FrequencyPercent),
            0x13 => Some(Mode::Diode),
            0x14 => Some(Mode::Continuinty),
            0x15 => Some(Mode::CurrentGain),
            0x16 => Some(Mode::Logic),
            0x17 => Some(Mode::PowerLevel),
            0x19 => Some(Mode::Tempature),
            _ => None,
        }
    }
}

/// The mode whose code is `b`, if there is one.
pub open spec fn mode_of(b: u8) -> Option<Mode> {
    match b {
        0x00 => Some(Mode::DcVoltage),
        0x01 => Some(Mode::AcVoltage),
        0x02 => Some(Mode::DcMicroAmpere),
        0x03 => Some(Mode::DcMilliAmpere),
        0x04 => Some(Mode::DcAmpere),
        0x05 => Some(Mode::AcMicroAmpere),
        0x06 => Some(Mode::AcMilliAmpere),
        0x07 => Some(Mode::AcAmpere),
        0x08 => Some(Mode::Resistance),
        0x09 => Some(Mode::Capacitance),
        0x10 => Some(Mode::FrequencySeconds),
        0x0a => Some(Mode::FrequencyHz),
        0x0d => Some(Mode::FrequencyPercent),
        0x13 => Some(Mode::Diode),
        0x14 => Some(Mode::Continuinty),
        0x15 => Some(Mode::CurrentGain),
        0x16 => Some(Mode::Logic),
        0x17 => Some(Mode::PowerLevel),
        0x19 => Some(Mode::Tempature),
        _ => None,
    }
}

/// The table and the codes agree: each mode is found under its own code, and
/// what is found under a byte has that byte as its code.
pub proof fn lemma_mode_table(b: u8)
    ensures
        forall|m: Mode| #[trigger] mode_of(m.code()) == Some(m),
        mode_of(b) is Some ==> mode_of(b)->Some_0.code() == b,
        mode_of(b) is None <==> forall|m: Mode| m.code() != b,
{
    assert forall|m: Mode| #[trigger] mode_of(m.code()) == Some(m) by {}
    if mode_of(b) is None {
        assert forall|m: Mode| m.code() != b by {
            if m.code() == b {
                assert(mode_of(m.code()) == Some(m));
            }
        }
    } else {
        let m = mode_of(b)->Some_0;
        assert(m.code() == b);
    }
}

} // verus!
