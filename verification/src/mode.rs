//! Device mode codes: the exhaustive bidirectional table between the
//! meter's 16-bit little-endian mode codes and its measuring modes, used in
//! both directions (decoding telemetry, encoding mode-change commands).

use vstd::prelude::*;

use crate::error::ErrorKind;
use crate::utils::spec_le_u16;

verus! {

/// Mode and submode of the meter.
#[allow(non_camel_case_types)]
#[derive(Clone, Copy, Debug, PartialEq, Eq, Structural)]
pub enum Mode {
    VAC_Normal,
    VAC_Normal_Rel,
    VAC_Hz,
    VAC_Peak,
    VAC_LowPass,
    VAC_LowPass_Rel,
    VAC_dBV,
    VAC_dBV_Rel,
    VAC_dBm,
    VAC_dBm_Rel,
    mVAC_Normal,
    mVAC_Normal_Rel,
    mVAC_Hz,
    mVAC_Peak,
    mVAC_AC_DC,
    mVAC_AC_DC_Rel,
    VDC_Normal,
    VDC_Normal_Rel,
    VDC_AC_DC,
    VDC_AC_DC_Rel,
    VDC_Peak,
    mVDC_Normal,
    mVDC_Normal_Rel,
    mVDC_Peak,
    TempC_T1_T2,
    TempC_T1_T2_Rel,
    TempC_T2_T1,
    TempC_T2_T1_Rel,
    TempC_T1_T2_Diff,
    TempC_T2_T1_Diff,
    TempF_T1_T2,
    TempF_T1_T2_Rel,
    TempF_T2_T1,
    TempF_T2_T1_Rel,
    TempF_T1_T2_Diff,
    TempF_T2_T1_Diff,
    Resistance,
    Resistance_Rel,
    Beeper_Short,
    Beeper_Open,
    Admittance,
    Admittance_Rel,
    Diode_Normal,
    Diode_Alarm,
    Capacitance,
    Capacitance_Rel,
    Frequency,
    Frequency_Rel,
    DutyCycle,
    DutyCycle_Rel,
    PulseWidth,
    PulseWidth_Rel,
    uADC_Normal,
    uADC_Normal_Rel,
    uADC_AC_DC,
    uADC_AC_DC_Rel,
    uADC_Peak,
    uAAC_Normal,
    uAAC_Normal_Rel,
    uAAC_Hz,
    uAAC_Peak,
    mADC_Normal,
    mADC_Normal_Rel,
    mADC_AC_DC,
    mADC_AC_DC_Rel,
    mADC_Peak,
    mAAC_Normal,
    mAAC_Normal_Rel,
    mAAC_Hz,
    mAAC_Peak,
    ADC_Normal,
    ADC_Normal_Rel,
    ADC_AC_DC,
    ADC_AC_DC_Rel,
    ADC_Peak,
    AAC_Normal,
    AAC_Normal_Rel,
    AAC_Hz,
    AAC_Peak,
}

/// The 16-bit wire code of each mode.
pub open spec fn mode_code(m: Mode) -> u16 {
    match m {
        Mode::VAC_Normal => 0x1111,
        Mode::VAC_Normal_Rel => 0x1112,
        Mode::VAC_Hz => 0x1121,
        Mode::VAC_Peak => 0x1131,
        Mode::VAC_LowPass => 0x1141,
        Mode::VAC_LowPass_Rel => 0x1142,
        Mode::VAC_dBV => 0x1151,
        Mode::VAC_dBV_Rel => 0x1152,
        Mode::VAC_dBm => 0x1161,
        Mode::VAC_dBm_Rel => 0x1162,
        Mode::mVAC_Normal => 0x2111,
        Mode::mVAC_Normal_Rel => 0x2112,
        Mode::mVAC_Hz => 0x2121,
        Mode::mVAC_Peak => 0x2131,
        Mode::mVAC_AC_DC => 0x2141,
        Mode::mVAC_AC_DC_Rel => 0x2142,
        Mode::VDC_Normal => 0x3111,
        Mode::VDC_Normal_Rel => 0x3112,
        Mode::VDC_AC_DC => 0x3121,
        Mode::VDC_AC_DC_Rel => 0x3122,
        Mode::VDC_Peak => 0x3131,
        Mode::mVDC_Normal => 0x4111,
        Mode::mVDC_Normal_Rel => 0x4112,
        Mode::mVDC_Peak => 0x4121,
        Mode::TempC_T1_T2 => 0x4211,
        Mode::TempC_T1_T2_Rel => 0x4212,
        Mode::TempC_T2_T1 => 0x4221,
        Mode::TempC_T2_T1_Rel => 0x4222,
        Mode::TempC_T1_T2_Diff => 0x4231,
        Mode::TempC_T2_T1_Diff => 0x4241,
        Mode::TempF_T1_T2 => 0x4311,
        Mode::TempF_T1_T2_Rel => 0x4312,
        Mode::TempF_T2_T1 => 0x4321,
        Mode::TempF_T2_T1_Rel => 0x4322,
        Mode::TempF_T1_T2_Diff => 0x4331,
        Mode::TempF_T2_T1_Diff => 0x4341,
        Mode::Resistance => 0x5111,
        Mode::Resistance_Rel => 0x5112,
        Mode::Beeper_Short => 0x5211,
        Mode::Beeper_Open => 0x5212,
        Mode::Admittance => 0x5311,
        Mode::Admittance_Rel => 0x5312,
        Mode::Diode_Normal => 0x6111,
        Mode::Diode_Alarm => 0x6112,
        Mode::Capacitance => 0x6211,
        Mode::Capacitance_Rel => 0x6212,
        Mode::Frequency => 0x7111,
        Mode::Frequency_Rel => 0x7112,
        Mode::DutyCycle => 0x7211,
        Mode::DutyCycle_Rel => 0x7212,
        Mode::PulseWidth => 0x7311,
        Mode::PulseWidth_Rel => 0x7312,
        Mode::uADC_Normal => 0x8111,
        Mode::uADC_Normal_Rel => 0x8112,
        Mode::uADC_AC_DC => 0x8121,
        Mode::uADC_AC_DC_Rel => 0x8122,
        Mode::uADC_Peak => 0x8131,
        Mode::uAAC_Normal => 0x8211,
        Mode::uAAC_Normal_Rel => 0x8212,
        Mode::uAAC_Hz => 0x8221,
        Mode::uAAC_Peak => 0x8231,
        Mode::mADC_Normal => 0x9111,
        Mode::mADC_Normal_Rel => 0x9112,
        Mode::mADC_AC_DC => 0x9121,
        Mode::mADC_AC_DC_Rel => 0x9122,
        Mode::mADC_Peak => 0x9131,
        Mode::mAAC_Normal => 0x9211,
        Mode::mAAC_Normal_Rel => 0x9212,
        Mode::mAAC_Hz => 0x9221,
        Mode::mAAC_Peak => 0x9231,
        Mode::ADC_Normal => 0xA111,
        Mode::ADC_Normal_Rel => 0xA112,
        Mode::ADC_AC_DC => 0xA121,
        Mode::ADC_AC_DC_Rel => 0xA122,
        Mode::ADC_Peak => 0xA131,
        Mode::AAC_Normal => 0xA211,
        Mode::AAC_Normal_Rel => 0xA212,
        Mode::AAC_Hz => 0xA221,
        Mode::AAC_Peak => 0xA231,
    }
}

/// The mode a 16-bit wire code selects, if any.
pub open spec fn mode_of_code(code: u16) -> Option<Mode> {
    if code == 0x1111 {
        Some(Mode::VAC_Normal)
    } else if code == 0x1112 {
        Some(Mode::VAC_Normal_Rel)
    } else if code == 0x1121 {
        Some(Mode::VAC_Hz)
    } else if code == 0x1131 {
        Some(Mode::VAC_Peak)
    } else if code == 0x1141 {
        Some(Mode::VAC_LowPass)
    } else if code == 0x1142 {
        Some(Mode::VAC_LowPass_Rel)
    } else if code == 0x1151 {
        Some(Mode::VAC_dBV)
    } else if code == 0x1152 {
        Some(Mode::VAC_dBV_Rel)
    } else if code == 0x1161 {
        Some(Mode::VAC_dBm)
    } else if code == 0x1162 {
        Some(Mode::VAC_dBm_Rel)
    } else if code == 0x2111 {
        Some(Mode::mVAC_Normal)
    } else if code == 0x2112 {
        Some(Mode::mVAC_Normal_Rel)
    } else if code == 0x2121 {
        Some(Mode::mVAC_Hz)
    } else if code == 0x2131 {
        Some(Mode::mVAC_Peak)
    } else if code == 0x2141 {
        Some(Mode::mVAC_AC_DC)
    } else if code == 0x2142 {
        Some(Mode::mVAC_AC_DC_Rel)
    } else if code == 0x3111 {
        Some(Mode::VDC_Normal)
    } else if code == 0x3112 {
        Some(Mode::VDC_Normal_Rel)
    } else if code == 0x3121 {
        Some(Mode::VDC_AC_DC)
    } else if code == 0x3122 {
        Some(Mode::VDC_AC_DC_Rel)
    } else if code == 0x3131 {
        Some(Mode::VDC_Peak)
    } else if code == 0x4111 {
        Some(Mode::mVDC_Normal)
    } else if code == 0x4112 {
        Some(Mode::mVDC_Normal_Rel)
    } else if code == 0x4121 {
        Some(Mode::mVDC_Peak)
    } else if code == 0x4211 {
        Some(Mode::TempC_T1_T2)
    } else if code == 0x4212 {
        Some(Mode::TempC_T1_T2_Rel)
    } else if code == 0x4221 {
        Some(Mode::TempC_T2_T1)
    } else if code == 0x4222 {
        Some(Mode::TempC_T2_T1_Rel)
    } else if code == 0x4231 {
        Some(Mode::TempC_T1_T2_Diff)
    } else if code == 0x4241 {
        Some(Mode::TempC_T2_T1_Diff)
    } else if code == 0x4311 {
        Some(Mode::TempF_T1_T2)
    } else if code == 0x4312 {
        Some(Mode::TempF_T1_T2_Rel)
    } else if code == 0x4321 {
        Some(Mode::TempF_T2_T1)
    } else if code == 0x4322 {
        Some(Mode::TempF_T2_T1_Rel)
    } else if code == 0x4331 {
        Some(Mode::TempF_T1_T2_Diff)
    } else if code == 0x4341 {
        Some(Mode::TempF_T2_T1_Diff)
    } else if code == 0x5111 {
        Some(Mode::Resistance)
    } else if code == 0x5112 {
        Some(Mode::Resistance_Rel)
    } else if code == 0x5211 {
        Some(Mode::Beeper_Short)
    } else if code == 0x5212 {
        Some(Mode::Beeper_Open)
    } else if code == 0x5311 {
        Some(Mode::Admittance)
    } else if code == 0x5312 {
        Some(Mode::Admittance_Rel)
    } else if code == 0x6111 {
        Some(Mode::Diode_Normal)
    } else if code == 0x6112 {
        Some(Mode::Diode_Alarm)
    } else if code == 0x6211 {
        Some(Mode::Capacitance)
    } else if code == 0x6212 {
        Some(Mode::Capacitance_Rel)
    } else if code == 0x7111 {
        Some(Mode::Frequency)
    } else if code == 0x7112 {
        Some(Mode::Frequency_Rel)
    } else if code == 0x7211 {
        Some(Mode::DutyCycle)
    } else if code == 0x7212 {
        Some(Mode::DutyCycle_Rel)
    } else if code == 0x7311 {
        Some(Mode::PulseWidth)
    } else if code == 0x7312 {
        Some(Mode::PulseWidth_Rel)
    } else if code == 0x8111 {
        Some(Mode::uADC_Normal)
    } else if code == 0x8112 {
        Some(Mode::uADC_Normal_Rel)
    } else if code == 0x8121 {
        Some(Mode::uADC_AC_DC)
    } else if code == 0x8122 {
        Some(Mode::uADC_AC_DC_Rel)
    } else if code == 0x8131 {
        Some(Mode::uADC_Peak)
    } else if code == 0x8211 {
        Some(Mode::uAAC_Normal)
    } else if code == 0x8212 {
        Some(Mode::uAAC_Normal_Rel)
    } else if code == 0x8221 {
        Some(Mode::uAAC_Hz)
    } else if code == 0x8231 {
        Some(Mode::uAAC_Peak)
    } else if code == 0x9111 {
        Some(Mode::mADC_Normal)
    } else if code == 0x9112 {
        Some(Mode::mADC_Normal_Rel)
    } else if code == 0x9121 {
        Some(Mode::mADC_AC_DC)
    } else if code == 0x9122 {
        Some(Mode::mADC_AC_DC_Rel)
    } else if code == 0x9131 {
        Some(Mode::mADC_Peak)
    } else if code == 0x9211 {
        Some(Mode::mAAC_Normal)
    } else if code == 0x9212 {
        Some(Mode::mAAC_Normal_Rel)
    } else if code == 0x9221 {
        Some(Mode::mAAC_Hz)
    } else if code == 0x9231 {
        Some(Mode::mAAC_Peak)
    } else if code == 0xA111 {
        Some(Mode::ADC_Normal)
    } else if code == 0xA112 {
        Some(Mode::ADC_Normal_Rel)
    } else if code == 0xA121 {
        Some(Mode::ADC_AC_DC)
    } else if code == 0xA122 {
        Some(Mode::ADC_AC_DC_Rel)
    } else if code == 0xA131 {
        Some(Mode::ADC_Peak)
    } else if code == 0xA211 {
        Some(Mode::AAC_Normal)
    } else if code == 0xA212 {
        Some(Mode::AAC_Normal_Rel)
    } else if code == 0xA221 {
        Some(Mode::AAC_Hz)
    } else if code == 0xA231 {
        Some(Mode::AAC_Peak)
    } else {
        None
    }
}

/// Encoding a mode and then decoding its code yields the mode back: the two
/// directions of the table agree.
pub proof fn lemma_mode_code_round_trip(m: Mode)
    ensures
        mode_of_code(mode_code(m)) == Some(m),
{
}

/// Decoding a wire code and then encoding the mode yields the code back:
/// no two modes share a code, and each decoded mode encodes to what it was
/// decoded from.
pub proof fn lemma_mode_of_code_round_trip(code: u16)
    ensures
        mode_of_code(code) matches Some(m) ==> mode_code(m) == code,
{
}

impl Mode {
    /// Decodes the mode selected by the 16-bit little-endian code in the
    /// first two bytes of `data`.
    pub fn from_bin(data: &[u8]) -> (r: Result<Mode, ErrorKind>)
        requires
            data@.len() >= 2,
        ensures
            match mode_of_code(spec_le_u16(data@[0], data@[1])) {
                Some(m) => r == Ok::<Mode, ErrorKind>(m),
                None => r == Err::<Mode, ErrorKind>(
                    ErrorKind::UnknownMeasurementMode(spec_le_u16(data@[0], data@[1])),
                ),
            },
    {
        let code = crate::utils::le_u16(data[0], data[1]);
        match code {
            0x1111 => Ok(Mode::VAC_Normal),
            0x1112 => Ok(Mode::VAC_Normal_Rel),
            0x1121 => Ok(Mode::VAC_Hz),
            0x1131 => Ok(Mode::VAC_Peak),
            0x1141 => Ok(Mode::VAC_LowPass),
            0x1142 => Ok(Mode::VAC_LowPass_Rel),
            0x1151 => Ok(Mode::VAC_dBV),
            0x1152 => Ok(Mode::VAC_dBV_Rel),
            0x1161 => Ok(Mode::VAC_dBm),
            0x1162 => Ok(Mode::VAC_dBm_Rel),
            0x2111 => Ok(Mode::mVAC_Normal),
            0x2112 => Ok(Mode::mVAC_Normal_Rel),
            0x2121 => Ok(Mode::mVAC_Hz),
            0x2131 => Ok(Mode::mVAC_Peak),
            0x2141 => Ok(Mode::mVAC_AC_DC),
            0x2142 => Ok(Mode::mVAC_AC_DC_Rel),
            0x3111 => Ok(Mode::VDC_Normal),
            0x3112 => Ok(Mode::VDC_Normal_Rel),
            0x3121 => Ok(Mode::VDC_AC_DC),
            0x3122 => Ok(Mode::VDC_AC_DC_Rel),
            0x3131 => Ok(Mode::VDC_Peak),
            0x4111 => Ok(Mode::mVDC_Normal),
            0x4112 => Ok(Mode::mVDC_Normal_Rel),
            0x4121 => Ok(Mode::mVDC_Peak),
            0x4211 => Ok(Mode::TempC_T1_T2),
            0x4212 => Ok(Mode::TempC_T1_T2_Rel),
            0x4221 => Ok(Mode::TempC_T2_T1),
            0x4222 => Ok(Mode::TempC_T2_T1_Rel),
            0x4231 => Ok(Mode::TempC_T1_T2_Diff),
            0x4241 => Ok(Mode::TempC_T2_T1_Diff),
            0x4311 => Ok(Mode::TempF_T1_T2),
            0x4312 => Ok(Mode::TempF_T1_T2_Rel),
            0x4321 => Ok(Mode::TempF_T2_T1),
            0x4322 => Ok(Mode::TempF_T2_T1_Rel),
            0x4331 => Ok(Mode::TempF_T1_T2_Diff),
            0x4341 => Ok(Mode::TempF_T2_T1_Diff),
            0x5111 => Ok(Mode::Resistance),
            0x5112 => Ok(Mode::Resistance_Rel),
            0x5211 => Ok(Mode::Beeper_Short),
            0x5212 => Ok(Mode::Beeper_Open),
            0x5311 => Ok(Mode::Admittance),
            0x5312 => Ok(Mode::Admittance_Rel),
            0x6111 => Ok(Mode::Diode_Normal),
            0x6112 => Ok(Mode::Diode_Alarm),
            0x6211 => Ok(Mode::Capacitance),
            0x6212 => Ok(Mode::Capacitance_Rel),
            0x7111 => Ok(Mode::Frequency),
            0x7112 => Ok(Mode::Frequency_Rel),
            0x7211 => Ok(Mode::DutyCycle),
            0x7212 => Ok(Mode::DutyCycle_Rel),
            0x7311 => Ok(Mode::PulseWidth),
            0x7312 => Ok(Mode::PulseWidth_Rel),
            0x8111 => Ok(Mode::uADC_Normal),
            0x8112 => Ok(Mode::uADC_Normal_Rel),
            0x8121 => Ok(Mode::uADC_AC_DC),
            0x8122 => Ok(Mode::uADC_AC_DC_Rel),
            0x8131 => Ok(Mode::uADC_Peak),
            0x8211 => Ok(Mode::uAAC_Normal),
            0x8212 => Ok(Mode::uAAC_Normal_Rel),
            0x8221 => Ok(Mode::uAAC_Hz),
            0x8231 => Ok(Mode::uAAC_Peak),
            0x9111 => Ok(Mode::mADC_Normal),
            0x9112 => Ok(Mode::mADC_Normal_Rel),
            0x9121 => Ok(Mode::mADC_AC_DC),
            0x9122 => Ok(Mode::mADC_AC_DC_Rel),
            0x9131 => Ok(Mode::mADC_Peak),
            0x9211 => Ok(Mode::mAAC_Normal),
            0x9212 => Ok(Mode::mAAC_Normal_Rel),
            0x9221 => Ok(Mode::mAAC_Hz),
            0x9231 => Ok(Mode::mAAC_Peak),
            0xA111 => Ok(Mode::ADC_Normal),
            0xA112 => Ok(Mode::ADC_Normal_Rel),
            0xA121 => Ok(Mode::ADC_AC_DC),
            0xA122 => Ok(Mode::ADC_AC_DC_Rel),
            0xA131 => Ok(Mode::ADC_Peak),
            0xA211 => Ok(Mode::AAC_Normal),
            0xA212 => Ok(Mode::AAC_Normal_Rel),
            0xA221 => Ok(Mode::AAC_Hz),
            0xA231 => Ok(Mode::AAC_Peak),
            m => Err(ErrorKind::UnknownMeasurementMode(m)),
        }
    }

    /// The 16-bit wire code of this mode.
    pub fn code(self) -> (r: u16)
        ensures
            r == mode_code(self),
    {
        match self {
            Mode::VAC_Normal => 0x1111,
            Mode::VAC_Normal_Rel => 0x1112,
            Mode::VAC_Hz => 0x1121,
            Mode::VAC_Peak => 0x1131,
            Mode::VAC_LowPass => 0x1141,
            Mode::VAC_LowPass_Rel => 0x1142,
            Mode::VAC_dBV => 0x1151,
            Mode::VAC_dBV_Rel => 0x1152,
            Mode::VAC_dBm => 0x1161,
            Mode::VAC_dBm_Rel => 0x1162,
            Mode::mVAC_Normal => 0x2111,
            Mode::mVAC_Normal_Rel => 0x2112,
            Mode::mVAC_Hz => 0x2121,
            Mode::mVAC_Peak => 0x2131,
            Mode::mVAC_AC_DC => 0x2141,
            Mode::mVAC_AC_DC_Rel => 0x2142,
            Mode::VDC_Normal => 0x3111,
            Mode::VDC_Normal_Rel => 0x3112,
            Mode::VDC_AC_DC => 0x3121,
            Mode::VDC_AC_DC_Rel => 0x3122,
            Mode::VDC_Peak => 0x3131,
            Mode::mVDC_Normal => 0x4111,
            Mode::mVDC_Normal_Rel => 0x4112,
            Mode::mVDC_Peak => 0x4121,
            Mode::TempC_T1_T2 => 0x4211,
            Mode::TempC_T1_T2_Rel => 0x4212,
            Mode::TempC_T2_T1 => 0x4221,
            Mode::TempC_T2_T1_Rel => 0x4222,
            Mode::TempC_T1_T2_Diff => 0x4231,
            Mode::TempC_T2_T1_Diff => 0x4241,
            Mode::TempF_T1_T2 => 0x4311,
            Mode::TempF_T1_T2_Rel => 0x4312,
            Mode::TempF_T2_T1 => 0x4321,
            Mode::TempF_T2_T1_Rel => 0x4322,
            Mode::TempF_T1_T2_Diff => 0x4331,
            Mode::TempF_T2_T1_Diff => 0x4341,
            Mode::Resistance => 0x5111,
            Mode::Resistance_Rel => 0x5112,
            Mode::Beeper_Short => 0x5211,
            Mode::Beeper_Open => 0x5212,
            Mode::Admittance => 0x5311,
            Mode::Admittance_Rel => 0x5312,
            Mode::Diode_Normal => 0x6111,
            Mode::Diode_Alarm => 0x6112,
            Mode::Capacitance => 0x6211,
            Mode::Capacitance_Rel => 0x6212,
            Mode::Frequency => 0x7111,
            Mode::Frequency_Rel => 0x7112,
            Mode::DutyCycle => 0x7211,
            Mode::DutyCycle_Rel => 0x7212,
            Mode::PulseWidth => 0x7311,
            Mode::PulseWidth_Rel => 0x7312,
            Mode::uADC_Normal => 0x8111,
            Mode::uADC_Normal_Rel => 0x8112,
            Mode::uADC_AC_DC => 0x8121,
            Mode::uADC_AC_DC_Rel => 0x8122,
            Mode::uADC_Peak => 0x8131,
            Mode::uAAC_Normal => 0x8211,
            Mode::uAAC_Normal_Rel => 0x8212,
            Mode::uAAC_Hz => 0x8221,
            Mode::uAAC_Peak => 0x8231,
            Mode::mADC_Normal => 0x9111,
            Mode::mADC_Normal_Rel => 0x9112,
            Mode::mADC_AC_DC => 0x9121,
            Mode::mADC_AC_DC_Rel => 0x9122,
            Mode::mADC_Peak => 0x9131,
            Mode::mAAC_Normal => 0x9211,
            Mode::mAAC_Normal_Rel => 0x9212,
            Mode::mAAC_Hz => 0x9221,
            Mode::mAAC_Peak => 0x9231,
            Mode::ADC_Normal => 0xA111,
            Mode::ADC_Normal_Rel => 0xA112,
            Mode::ADC_AC_DC => 0xA121,
            Mode::ADC_AC_DC_Rel => 0xA122,
            Mode::ADC_Peak => 0xA131,
            Mode::AAC_Normal => 0xA211,
            Mode::AAC_Normal_Rel => 0xA212,
            Mode::AAC_Hz => 0xA221,
            Mode::AAC_Peak => 0xA231,
        }
    }

    /// The two little-endian bytes that select this mode in a command.
    pub fn to_bin(self) -> (r: [u8; 2])
        ensures
            r@.len() == 2,
            r@[0] == mode_code(self) as u8,
            r@[1] == (mode_code(self) / 256) as u8,
    {
        let code = self.code();
        assert(code as u8 == code % 256) by (bit_vector);
        [(code % 256) as u8, (code / 256) as u8]
    }

    /// A human-readable name for this mode.
    pub fn label(&self) -> (r: &'static str)
        ensures
            r@ == mode_label(*self),
    {
        match self {
            Mode::VAC_Normal => "VAC",
            Mode::VAC_Normal_Rel => "VAC/Rel",
            Mode::VAC_Hz => "VAC/Hz",
            Mode::VAC_Peak => "VAC/Peak",
            Mode::VAC_LowPass => "VAC/Low Pass",
            Mode::VAC_LowPass_Rel => "VAC/Low Pass/Rel",
            Mode::VAC_dBV => "VAC/dBV",
            Mode::VAC_dBV_Rel => "VAC/dBV/Rel",
            Mode::VAC_dBm => "VAC/dBm",
            Mode::VAC_dBm_Rel => "VAC/dBm/Rel",
            Mode::mVAC_Normal => "mVAC",
            Mode::mVAC_Normal_Rel => "mVAC/Rel",
            Mode::mVAC_Hz => "mVAC/Hz",
            Mode::mVAC_Peak => "mVAC/Peak",
            Mode::mVAC_AC_DC => "mVAC/AC+DC",
            Mode::mVAC_AC_DC_Rel => "mVAC/AC+DC/Rel",
            Mode::VDC_Normal => "VDC",
            Mode::VDC_Normal_Rel => "VDC/Rel",
            Mode::VDC_AC_DC => "VDC/AC+DC",
            Mode::VDC_AC_DC_Rel => "VDC/AC+DC/Rel",
            Mode::VDC_Peak => "VDC/Peak",
            Mode::mVDC_Normal => "mVDC",
            Mode::mVDC_Normal_Rel => "mVDC/Rel",
            Mode::mVDC_Peak => "mVDC/Peak",
            Mode::TempC_T1_T2 => "Temp C/T1,T2",
            Mode::TempC_T1_T2_Rel => "Temp C/T1,T2/Rel",
            Mode::TempC_T2_T1 => "Temp C/T2,T1",
            Mode::TempC_T2_T1_Rel => "Temp C/T2,T1/Rel",
            Mode::TempC_T1_T2_Diff => "Temp C/T1-T2",
            Mode::TempC_T2_T1_Diff => "Temp C/T2-T1",
            Mode::TempF_T1_T2 => "Temp F/T1,T2",
            Mode::TempF_T1_T2_Rel => "Temp F/T1,T2/Rel",
            Mode::TempF_T2_T1 => "Temp F/T2,T1",
            Mode::TempF_T2_T1_Rel => "Temp F/T2,T1/Rel",
            Mode::TempF_T1_T2_Diff => "Temp F/T1-T2",
            Mode::TempF_T2_T1_Diff => "Temp F/T2-T1",
            Mode::Resistance => "Resistance",
            Mode::Resistance_Rel => "Resistance/Rel",
            Mode::Beeper_Short => "Beeper/Short",
            Mode::Beeper_Open => "Beeper/Open",
            Mode::Admittance => "Admittance",
            Mode::Admittance_Rel => "Admittance/Rel",
            Mode::Diode_Normal => "Diode",
            Mode::Diode_Alarm => "Diode/Alarm",
            Mode::Capacitance => "Capacitance",
            Mode::Capacitance_Rel => "Capacitance/Rel",
            Mode::Frequency => "Frequency",
            Mode::Frequency_Rel => "Frequency/Rel",
            Mode::DutyCycle => "Duty Cycle",
            Mode::DutyCycle_Rel => "Duty cycle/Rel",
            Mode::PulseWidth => "Pulse width",
            Mode::PulseWidth_Rel => "Pulse width/Rel",
            Mode::uADC_Normal => "uADC",
            Mode::uADC_Normal_Rel => "uADC/Rel",
            Mode::uADC_AC_DC => "uADC/AC+DC",
            Mode::uADC_AC_DC_Rel => "uADC/AC+DC/Rel",
            Mode::uADC_Peak => "uADC/Peak",
            Mode::uAAC_Normal => "uAAC",
            Mode::uAAC_Normal_Rel => "uAAC/Rel",
            Mode::uAAC_Hz => "uAAC/Hz",
            Mode::uAAC_Peak => "uAAC/Peak",
            Mode::mADC_Normal => "mADC",
            Mode::mADC_Normal_Rel => "mADC/Rel",
            Mode::mADC_AC_DC => "mADC/AC+DC",
            Mode::mADC_AC_DC_Rel => "mADC/AC+DC/Rel",
            Mode::mADC_Peak => "mADC/Peak",
            Mode::mAAC_Normal => "mAAC",
            Mode::mAAC_Normal_Rel => "mAAC/Rel",
            Mode::mAAC_Hz => "mAAC/Hz",
            Mode::mAAC_Peak => "mAAC/Peak",
            Mode::ADC_Normal => "ADC",
            Mode::ADC_Normal_Rel => "ADC/Rel",
            Mode::ADC_AC_DC => "ADC/AC+DC",
            Mode::ADC_AC_DC_Rel => "ADC/AC+DC/Rel",
            Mode::ADC_Peak => "ADC/Peak",
            Mode::AAC_Normal => "AAC",
            Mode::AAC_Normal_Rel => "AAC/Rel",
            Mode::AAC_Hz => "AAC/Hz",
            Mode::AAC_Peak => "AAC/Peak",
        }
    }
}

/// The human-readable name of each mode.
pub open spec fn mode_label(m: Mode) -> Seq<char> {
    match m {
        Mode::VAC_Normal => "VAC"@,
        Mode::VAC_Normal_Rel => "VAC/Rel"@,
        Mode::VAC_Hz => "VAC/Hz"@,
        Mode::VAC_Peak => "VAC/Peak"@,
        Mode::VAC_LowPass => "VAC/Low Pass"@,
        Mode::VAC_LowPass_Rel => "VAC/Low Pass/Rel"@,
        Mode::VAC_dBV => "VAC/dBV"@,
        Mode::VAC_dBV_Rel => "VAC/dBV/Rel"@,
        Mode::VAC_dBm => "VAC/dBm"@,
        Mode::VAC_dBm_Rel => "VAC/dBm/Rel"@,
        Mode::mVAC_Normal => "mVAC"@,
        Mode::mVAC_Normal_Rel => "mVAC/Rel"@,
        Mode::mVAC_Hz => "mVAC/Hz"@,
        Mode::mVAC_Peak => "mVAC/Peak"@,
        Mode::mVAC_AC_DC => "mVAC/AC+DC"@,
        Mode::mVAC_AC_DC_Rel => "mVAC/AC+DC/Rel"@,
        Mode::VDC_Normal => "VDC"@,
        Mode::VDC_Normal_Rel => "VDC/Rel"@,
        Mode::VDC_AC_DC => "VDC/AC+DC"@,
        Mode::VDC_AC_DC_Rel => "VDC/AC+DC/Rel"@,
        Mode::VDC_Peak => "VDC/Peak"@,
        Mode::mVDC_Normal => "mVDC"@,
        Mode::mVDC_Normal_Rel => "mVDC/Rel"@,
        Mode::mVDC_Peak => "mVDC/Peak"@,
        Mode::TempC_T1_T2 => "Temp C/T1,T2"@,
        Mode::TempC_T1_T2_Rel => "Temp C/T1,T2/Rel"@,
        Mode::TempC_T2_T1 => "Temp C/T2,T1"@,
        Mode::TempC_T2_T1_Rel => "Temp C/T2,T1/Rel"@,
        Mode::TempC_T1_T2_Diff => "Temp C/T1-T2"@,
        Mode::TempC_T2_T1_Diff => "Temp C/T2-T1"@,
        Mode::TempF_T1_T2 => "Temp F/T1,T2"@,
        Mode::TempF_T1_T2_Rel => "Temp F/T1,T2/Rel"@,
        Mode::TempF_T2_T1 => "Temp F/T2,T1"@,
        Mode::TempF_T2_T1_Rel => "Temp F/T2,T1/Rel"@,
        Mode::TempF_T1_T2_Diff => "Temp F/T1-T2"@,
        Mode::TempF_T2_T1_Diff => "Temp F/T2-T1"@,
        Mode::Resistance => "Resistance"@,
        Mode::Resistance_Rel => "Resistance/Rel"@,
        Mode::Beeper_Short => "Beeper/Short"@,
        Mode::Beeper_Open => "Beeper/Open"@,
        Mode::Admittance => "Admittance"@,
        Mode::Admittance_Rel => "Admittance/Rel"@,
        Mode::Diode_Normal => "Diode"@,
        Mode::Diode_Alarm => "Diode/Alarm"@,
        Mode::Capacitance => "Capacitance"@,
        Mode::Capacitance_Rel => "Capacitance/Rel"@,
        Mode::Frequency => "Frequency"@,
        Mode::Frequency_Rel => "Frequency/Rel"@,
        Mode::DutyCycle => "Duty Cycle"@,
        Mode::DutyCycle_Rel => "Duty cycle/Rel"@,
        Mode::PulseWidth => "Pulse width"@,
        Mode::PulseWidth_Rel => "Pulse width/Rel"@,
        Mode::uADC_Normal => "uADC"@,
        Mode::uADC_Normal_Rel => "uADC/Rel"@,
        Mode::uADC_AC_DC => "uADC/AC+DC"@,
        Mode::uADC_AC_DC_Rel => "uADC/AC+DC/Rel"@,
        Mode::uADC_Peak => "uADC/Peak"@,
        Mode::uAAC_Normal => "uAAC"@,
        Mode::uAAC_Normal_Rel => "uAAC/Rel"@,
        Mode::uAAC_Hz => "uAAC/Hz"@,
        Mode::uAAC_Peak => "uAAC/Peak"@,
        Mode::mADC_Normal => "mADC"@,
        Mode::mADC_Normal_Rel => "mADC/Rel"@,
        Mode::mADC_AC_DC => "mADC/AC+DC"@,
        Mode::mADC_AC_DC_Rel => "mADC/AC+DC/Rel"@,
        Mode::mADC_Peak => "mADC/Peak"@,
        Mode::mAAC_Normal => "mAAC"@,
        Mode::mAAC_Normal_Rel => "mAAC/Rel"@,
        Mode::mAAC_Hz => "mAAC/Hz"@,
        Mode::mAAC_Peak => "mAAC/Peak"@,
        Mode::ADC_Normal => "ADC"@,
        Mode::ADC_Normal_Rel => "ADC/Rel"@,
        Mode::ADC_AC_DC => "ADC/AC+DC"@,
        Mode::ADC_AC_DC_Rel => "ADC/AC+DC/Rel"@,
        Mode::ADC_Peak => "ADC/Peak"@,
        Mode::AAC_Normal => "AAC"@,
        Mode::AAC_Normal_Rel => "AAC/Rel"@,
        Mode::AAC_Hz => "AAC/Hz"@,
        Mode::AAC_Peak => "AAC/Peak"@,
    }
}

} // verus!
