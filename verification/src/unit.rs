//! Measurement units: decodes the NUL-terminated unit string a device sends
//! into a base unit and a decimal exponent, through a fixed dictionary.
//!
//! Every key in the dictionary is plain ASCII except the degree glyph, which
//! the device sends as one single non-ASCII byte before `C` or `F`.

use vstd::prelude::*;
use vstd::string::StringExecFns;

use crate::error::{DecodeErr, ErrorKind};
use crate::utils::spec_stringz;

verus! {

/// Measurement unit.
#[allow(non_camel_case_types)]
#[derive(Clone, Copy, Debug, PartialEq, Eq, Structural)]
pub enum Unit {
    /// Volts, direct current
    VDC,
    /// Volts, alternating current
    VAC,
    /// Volts, AC+DC
    VAcDc,
    /// Ampers, direct current
    ADC,
    /// Ampers, alternating current
    AAC,
    /// Ampers, AC+DC
    AAcDc,
    /// Celsius degrees
    Celsius,
    /// Fahrenheit degrees
    Fahrenheit,
    /// Farad
    F,
    /// Hertz
    Hz,
    /// seconds
    s,
    /// Percents
    Percent,
    /// Siemens
    S,
    /// Ohms
    Ohm,
    /// Decibels referenced to 1 milliwatt
    dBm,
    /// Decibels referenced to 1 Volt
    dBV,
}

/// A unit together with a decimal power-of-ten scale factor.
#[derive(Clone, Copy, Debug, PartialEq, Eq, Structural)]
pub struct UnitExp {
    pub unit: Unit,
    pub exponent: isize,
}

/// The unit and exponent that a NUL-stripped unit string selects, if any.
/// A first byte of 0x80 or above is the device's single-byte degree glyph.
pub open spec fn unit_of_bytes(z: Seq<u8>) -> Option<UnitExp> {
    if z.len() == 4 && z[0] == 109 && z[1] == 86 && z[2] == 68 && z[3] == 67 {  // "mVDC"
        Some(UnitExp { unit: Unit::VDC, exponent: -3isize })
    } else if z.len() == 3 && z[0] == 86 && z[1] == 68 && z[2] == 67 {  // "VDC"
        Some(UnitExp { unit: Unit::VDC, exponent: 0isize })
    } else if z.len() == 1 && z[0] == 86 {  // "V"
        Some(UnitExp { unit: Unit::VDC, exponent: 0isize })
    } else if z.len() == 4 && z[0] == 109 && z[1] == 86 && z[2] == 65 && z[3] == 67 {  // "mVAC"
        Some(UnitExp { unit: Unit::VAC, exponent: -3isize })
    } else if z.len() == 3 && z[0] == 86 && z[1] == 65 && z[2] == 67 {  // "VAC"
        Some(UnitExp { unit: Unit::VAC, exponent: 0isize })
    } else if z.len() == 7 && z[0] == 109 && z[1] == 86 && z[2] == 97 && z[3] == 99 && z[4] == 43 && z[5] == 100 && z[6] == 99 {  // "mVac+dc"
        Some(UnitExp { unit: Unit::VAcDc, exponent: -3isize })
    } else if z.len() == 6 && z[0] == 86 && z[1] == 97 && z[2] == 99 && z[3] == 43 && z[4] == 100 && z[5] == 99 {  // "Vac+dc"
        Some(UnitExp { unit: Unit::VAcDc, exponent: 0isize })
    } else if z.len() == 4 && z[0] == 117 && z[1] == 65 && z[2] == 68 && z[3] == 67 {  // "uADC"
        Some(UnitExp { unit: Unit::ADC, exponent: -6isize })
    } else if z.len() == 4 && z[0] == 109 && z[1] == 65 && z[2] == 68 && z[3] == 67 {  // "mADC"
        Some(UnitExp { unit: Unit::ADC, exponent: -3isize })
    } else if z.len() == 3 && z[0] == 65 && z[1] == 68 && z[2] == 67 {  // "ADC"
        Some(UnitExp { unit: Unit::ADC, exponent: 0isize })
    } else if z.len() == 4 && z[0] == 117 && z[1] == 65 && z[2] == 65 && z[3] == 67 {  // "uAAC"
        Some(UnitExp { unit: Unit::AAC, exponent: -6isize })
    } else if z.len() == 4 && z[0] == 109 && z[1] == 65 && z[2] == 65 && z[3] == 67 {  // "mAAC"
        Some(UnitExp { unit: Unit::AAC, exponent: -3isize })
    } else if z.len() == 3 && z[0] == 65 && z[1] == 65 && z[2] == 67 {  // "AAC"
        Some(UnitExp { unit: Unit::AAC, exponent: 0isize })
    } else if z.len() == 7 && z[0] == 117 && z[1] == 65 && z[2] == 97 && z[3] == 99 && z[4] == 43 && z[5] == 100 && z[6] == 99 {  // "uAac+dc"
        Some(UnitExp { unit: Unit::AAcDc, exponent: -6isize })
    } else if z.len() == 7 && z[0] == 109 && z[1] == 65 && z[2] == 97 && z[3] == 99 && z[4] == 43 && z[5] == 100 && z[6] == 99 {  // "mAac+dc"
        Some(UnitExp { unit: Unit::AAcDc, exponent: -3isize })
    } else if z.len() == 6 && z[0] == 65 && z[1] == 97 && z[2] == 99 && z[3] == 43 && z[4] == 100 && z[5] == 99 {  // "Aac+dc"
        Some(UnitExp { unit: Unit::AAcDc, exponent: 0isize })
    } else if z.len() == 2 && z[0] == 72 && z[1] == 122 {  // "Hz"
        Some(UnitExp { unit: Unit::Hz, exponent: 0isize })
    } else if z.len() == 3 && z[0] == 107 && z[1] == 72 && z[2] == 122 {  // "kHz"
        Some(UnitExp { unit: Unit::Hz, exponent: 3isize })
    } else if z.len() == 3 && z[0] == 77 && z[1] == 72 && z[2] == 122 {  // "MHz"
        Some(UnitExp { unit: Unit::Hz, exponent: 6isize })
    } else if z.len() == 2 && z[0] == 109 && z[1] == 115 {  // "ms"
        Some(UnitExp { unit: Unit::s, exponent: -3isize })
    } else if z.len() == 1 && z[0] == 37 {  // "%"
        Some(UnitExp { unit: Unit::Percent, exponent: 0isize })
    } else if z.len() == 2 && z[0] == 110 && z[1] == 83 {  // "nS"
        Some(UnitExp { unit: Unit::S, exponent: -9isize })
    } else if z.len() == 1 && z[0] == 126 {  // "~"
        Some(UnitExp { unit: Unit::Ohm, exponent: 0isize })
    } else if z.len() == 2 && z[0] == 107 && z[1] == 126 {  // "k~"
        Some(UnitExp { unit: Unit::Ohm, exponent: 3isize })
    } else if z.len() == 2 && z[0] == 77 && z[1] == 126 {  // "M~"
        Some(UnitExp { unit: Unit::Ohm, exponent: 6isize })
    } else if z.len() == 3 && z[0] == 100 && z[1] == 66 && z[2] == 109 {  // "dBm"
        Some(UnitExp { unit: Unit::dBm, exponent: 0isize })
    } else if z.len() == 3 && z[0] == 100 && z[1] == 66 && z[2] == 86 {  // "dBV"
        Some(UnitExp { unit: Unit::dBV, exponent: 0isize })
    } else if z.len() == 2 && z[0] == 110 && z[1] == 70 {  // "nF"
        Some(UnitExp { unit: Unit::F, exponent: -9isize })
    } else if z.len() == 2 && z[0] == 117 && z[1] == 70 {  // "uF"
        Some(UnitExp { unit: Unit::F, exponent: -6isize })
    } else if z.len() == 2 && z[0] == 109 && z[1] == 70 {  // "mF"
        Some(UnitExp { unit: Unit::F, exponent: -3isize })
    } else if z.len() == 2 && z[0] >= 0x80 && z[1] == 67 {
        Some(UnitExp { unit: Unit::Celsius, exponent: 0isize })
    } else if z.len() == 2 && z[0] >= 0x80 && z[1] == 70 {
        Some(UnitExp { unit: Unit::Fahrenheit, exponent: 0isize })
    } else {
        None
    }
}

/// The unit and exponent encoded at the head of `data` as a NUL-terminated
/// string, or the unrecognised string's bytes.
pub open spec fn unit_decode(data: Seq<u8>) -> Result<UnitExp, DecodeErr> {
    match unit_of_bytes(spec_stringz(data)) {
        Some(u) => Ok(u),
        None => Err(DecodeErr::UnknownMeasurementUnit(spec_stringz(data))),
    }
}

impl UnitExp {
    /// Decodes the NUL-terminated unit string at the head of `data` through
    /// the unit dictionary; an unknown string fails with its decoded text and
    /// raw bytes.
    pub fn from_bin(data: &[u8]) -> (r: Result<UnitExp, ErrorKind>)
        ensures
            crate::error::decode_obeys(r, unit_decode(data@)),
    {
        let z = crate::utils::stringz_bytes(data);
        if z.len() == 4 && z[0] == 109 && z[1] == 86 && z[2] == 68 && z[3] == 67 {  // "mVDC"
            Ok(UnitExp { unit: Unit::VDC, exponent: -3isize })
        } else if z.len() == 3 && z[0] == 86 && z[1] == 68 && z[2] == 67 {  // "VDC"
            Ok(UnitExp { unit: Unit::VDC, exponent: 0isize })
        } else if z.len() == 1 && z[0] == 86 {  // "V"
            Ok(UnitExp { unit: Unit::VDC, exponent: 0isize })
        } else if z.len() == 4 && z[0] == 109 && z[1] == 86 && z[2] == 65 && z[3] == 67 {  // "mVAC"
            Ok(UnitExp { unit: Unit::VAC, exponent: -3isize })
        } else if z.len() == 3 && z[0] == 86 && z[1] == 65 && z[2] == 67 {  // "VAC"
            Ok(UnitExp { unit: Unit::VAC, exponent: 0isize })
        } else if z.len() == 7 && z[0] == 109 && z[1] == 86 && z[2] == 97 && z[3] == 99 && z[4] == 43 && z[5] == 100 && z[6] == 99 {  // "mVac+dc"
            Ok(UnitExp { unit: Unit::VAcDc, exponent: -3isize })
        } else if z.len() == 6 && z[0] == 86 && z[1] == 97 && z[2] == 99 && z[3] == 43 && z[4] == 100 && z[5] == 99 {  // "Vac+dc"
            Ok(UnitExp { unit: Unit::VAcDc, exponent: 0isize })
        } else if z.len() == 4 && z[0] == 117 && z[1] == 65 && z[2] == 68 && z[3] == 67 {  // "uADC"
            Ok(UnitExp { unit: Unit::ADC, exponent: -6isize })
        } else if z.len() == 4 && z[0] == 109 && z[1] == 65 && z[2] == 68 && z[3] == 67 {  // "mADC"
            Ok(UnitExp { unit: Unit::ADC, exponent: -3isize })
        } else if z.len() == 3 && z[0] == 65 && z[1] == 68 && z[2] == 67 {  // "ADC"
            Ok(UnitExp { unit: Unit::ADC, exponent: 0isize })
        } else if z.len() == 4 && z[0] == 117 && z[1] == 65 && z[2] == 65 && z[3] == 67 {  // "uAAC"
            Ok(UnitExp { unit: Unit::AAC, exponent: -6isize })
        } else if z.len() == 4 && z[0] == 109 && z[1] == 65 && z[2] == 65 && z[3] == 67 {  // "mAAC"
            Ok(UnitExp { unit: Unit::AAC, exponent: -3isize })
        } else if z.len() == 3 && z[0] == 65 && z[1] == 65 && z[2] == 67 {  // "AAC"
            Ok(UnitExp { unit: Unit::AAC, exponent: 0isize })
        } else if z.len() == 7 && z[0] == 117 && z[1] == 65 && z[2] == 97 && z[3] == 99 && z[4] == 43 && z[5] == 100 && z[6] == 99 {  // "uAac+dc"
            Ok(UnitExp { unit: Unit::AAcDc, exponent: -6isize })
        } else if z.len() == 7 && z[0] == 109 && z[1] == 65 && z[2] == 97 && z[3] == 99 && z[4] == 43 && z[5] == 100 && z[6] == 99 {  // "mAac+dc"
            Ok(UnitExp { unit: Unit::AAcDc, exponent: -3isize })
        } else if z.len() == 6 && z[0] == 65 && z[1] == 97 && z[2] == 99 && z[3] == 43 && z[4] == 100 && z[5] == 99 {  // "Aac+dc"
            Ok(UnitExp { unit: Unit::AAcDc, exponent: 0isize })
        } else if z.len() == 2 && z[0] == 72 && z[1] == 122 {  // "Hz"
            Ok(UnitExp { unit: Unit::Hz, exponent: 0isize })
        } else if z.len() == 3 && z[0] == 107 && z[1] == 72 && z[2] == 122 {  // "kHz"
            Ok(UnitExp { unit: Unit::Hz, exponent: 3isize })
        } else if z.len() == 3 && z[0] == 77 && z[1] == 72 && z[2] == 122 {  // "MHz"
            Ok(UnitExp { unit: Unit::Hz, exponent: 6isize })
        } else if z.len() == 2 && z[0] == 109 && z[1] == 115 {  // "ms"
            Ok(UnitExp { unit: Unit::s, exponent: -3isize })
        } else if z.len() == 1 && z[0] == 37 {  // "%"
            Ok(UnitExp { unit: Unit::Percent, exponent: 0isize })
        } else if z.len() == 2 && z[0] == 110 && z[1] == 83 {  // "nS"
            Ok(UnitExp { unit: Unit::S, exponent: -9isize })
        } else if z.len() == 1 && z[0] == 126 {  // "~"
            Ok(UnitExp { unit: Unit::Ohm, exponent: 0isize })
        } else if z.len() == 2 && z[0] == 107 && z[1] == 126 {  // "k~"
            Ok(UnitExp { unit: Unit::Ohm, exponent: 3isize })
        } else if z.len() == 2 && z[0] == 77 && z[1] == 126 {  // "M~"
            Ok(UnitExp { unit: Unit::Ohm, exponent: 6isize })
        } else if z.len() == 3 && z[0] == 100 && z[1] == 66 && z[2] == 109 {  // "dBm"
            Ok(UnitExp { unit: Unit::dBm, exponent: 0isize })
        } else if z.len() == 3 && z[0] == 100 && z[1] == 66 && z[2] == 86 {  // "dBV"
            Ok(UnitExp { unit: Unit::dBV, exponent: 0isize })
        } else if z.len() == 2 && z[0] == 110 && z[1] == 70 {  // "nF"
            Ok(UnitExp { unit: Unit::F, exponent: -9isize })
        } else if z.len() == 2 && z[0] == 117 && z[1] == 70 {  // "uF"
            Ok(UnitExp { unit: Unit::F, exponent: -6isize })
        } else if z.len() == 2 && z[0] == 109 && z[1] == 70 {  // "mF"
            Ok(UnitExp { unit: Unit::F, exponent: -3isize })
        } else if z.len() == 2 && z[0] >= 0x80 && z[1] == 67 {
            Ok(UnitExp { unit: Unit::Celsius, exponent: 0isize })
        } else if z.len() == 2 && z[0] >= 0x80 && z[1] == 70 {
            Ok(UnitExp { unit: Unit::Fahrenheit, exponent: 0isize })
        } else {
            let text = crate::utils::utf8_lossy(z.as_slice());
            Err(ErrorKind::UnknownMeasurementUnit { text, raw: z })
        }
    }

    /// A human-readable name: metric prefix then unit name, or `None` for an
    /// exponent no metric prefix covers.
    pub fn label(&self) -> (r: Option<String>)
        ensures
            match exp_prefix(self.exponent as int) {
                Some(p) => r matches Some(s) && s@ == p + unit_name(self.unit),
                None => r is None,
            },
    {
        let prefix: &'static str = match self.exponent {
            -12 => "p",
            -9 => "n",
            -6 => "u",
            -3 => "m",
            0 => "",
            3 => "k",
            6 => "M",
            9 => "G",
            _ => {
                return None;
            },
        };
        let name: &'static str = match self.unit {
            Unit::VDC => "VDC",
            Unit::VAC => "VAC",
            Unit::VAcDc => "Vac+dc",
            Unit::ADC => "ADC",
            Unit::AAC => "AAC",
            Unit::AAcDc => "Aac+dc",
            Unit::Celsius => "C",
            Unit::Fahrenheit => "F",
            Unit::F => "F",
            Unit::Hz => "Hz",
            Unit::s => "s",
            Unit::Percent => "%",
            Unit::S => "S",
            Unit::Ohm => "Ohm",
            Unit::dBm => "dBm",
            Unit::dBV => "dBV",
        };
        let mut out = String::new();
        out.append(prefix);
        out.append(name);
        Some(out)
    }
}

/// The metric prefix of a decimal exponent, if one covers it.
pub open spec fn exp_prefix(e: int) -> Option<Seq<char>> {
    if e == -12 {
        Some("p"@)
    } else if e == -9 {
        Some("n"@)
    } else if e == -6 {
        Some("u"@)
    } else if e == -3 {
        Some("m"@)
    } else if e == 0 {
        Some(""@)
    } else if e == 3 {
        Some("k"@)
    } else if e == 6 {
        Some("M"@)
    } else if e == 9 {
        Some("G"@)
    } else {
        None
    }
}

/// The display name of each unit.
pub open spec fn unit_name(u: Unit) -> Seq<char> {
    match u {
        Unit::VDC => "VDC"@,
        Unit::VAC => "VAC"@,
        Unit::VAcDc => "Vac+dc"@,
        Unit::ADC => "ADC"@,
        Unit::AAC => "AAC"@,
        Unit::AAcDc => "Aac+dc"@,
        Unit::Celsius => "C"@,
        Unit::Fahrenheit => "F"@,
        Unit::F => "F"@,
        Unit::Hz => "Hz"@,
        Unit::s => "s"@,
        Unit::Percent => "%"@,
        Unit::S => "S"@,
        Unit::Ohm => "Ohm"@,
        Unit::dBm => "dBm"@,
        Unit::dBV => "dBV"@,
    }
}

} // verus!
