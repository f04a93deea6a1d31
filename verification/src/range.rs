//! Measuring range codes: a single wire byte selects auto-ranging or one of
//! eight fixed range steps.

use vstd::prelude::*;

use crate::error::ErrorKind;

verus! {

/// Measuring range.
#[derive(Clone, Copy, Debug, PartialEq, Eq, Structural)]
pub enum Range {
    /// Auto range
    Auto,
    /// 60 mV/6 V/600 uA/60 mA/600 Ohm/60 Hz/6 nF
    Step1,
    /// 600 mV/60 V/6000 uA/600 mA/6 KOhm/600 Hz/60 nF
    Step2,
    /// 600V/60 KOhm/6 KHz/600 nF
    Step3,
    /// 1000 V/600 KOhm/60 KHz/6 uF
    Step4,
    /// 6 MOhm/600 KHz/60 uF
    Step5,
    /// 60 MOhm/6 MHz/600 uF
    Step6,
    /// 60 MHz/6 mF
    Step7,
    /// 60 mF
    Step8,
}

/// The wire byte of each range.
pub open spec fn range_code(r: Range) -> u8 {
    match r {
        Range::Auto => 0x00,
        Range::Step1 => 0x01,
        Range::Step2 => 0x02,
        Range::Step3 => 0x03,
        Range::Step4 => 0x04,
        Range::Step5 => 0x05,
        Range::Step6 => 0x06,
        Range::Step7 => 0x07,
        Range::Step8 => 0x08,
    }
}

/// The range a wire byte selects, if any.
pub open spec fn range_of_code(b: u8) -> Option<Range> {
    if b == 0x00 {
        Some(Range::Auto)
    } else if b == 0x01 {
        Some(Range::Step1)
    } else if b == 0x02 {
        Some(Range::Step2)
    } else if b == 0x03 {
        Some(Range::Step3)
    } else if b == 0x04 {
        Some(Range::Step4)
    } else if b == 0x05 {
        Some(Range::Step5)
    } else if b == 0x06 {
        Some(Range::Step6)
    } else if b == 0x07 {
        Some(Range::Step7)
    } else if b == 0x08 {
        Some(Range::Step8)
    } else {
        None
    }
}

/// Decoding a range's wire byte yields that range back: the two directions of
/// the table agree.
pub proof fn lemma_range_code_round_trip(r: Range)
    ensures
        range_of_code(range_code(r)) == Some(r),
{
}

/// Decoding a wire byte and then encoding the range yields the byte back.
pub proof fn lemma_range_of_code_round_trip(b: u8)
    ensures
        range_of_code(b) matches Some(r) ==> range_code(r) == b,
{
}

impl Range {
    /// Decodes the range selected by the first byte of `data`.
    pub fn from_bin(data: &[u8]) -> (r: Result<Range, ErrorKind>)
        requires
            data@.len() >= 1,
        ensures
            match range_of_code(data@[0]) {
                Some(rg) => r == Ok::<Range, ErrorKind>(rg),
                None => r == Err::<Range, ErrorKind>(
                    ErrorKind::UnknownMeasurementRange(data@[0]),
                ),
            },
    {
        match data[0] {
            0x00 => Ok(Range::Auto),
            0x01 => Ok(Range::Step1),
            0x02 => Ok(Range::Step2),
            0x03 => Ok(Range::Step3),
            0x04 => Ok(Range::Step4),
            0x05 => Ok(Range::Step5),
            0x06 => Ok(Range::Step6),
            0x07 => Ok(Range::Step7),
            0x08 => Ok(Range::Step8),
            b => Err(ErrorKind::UnknownMeasurementRange(b)),
        }
    }

    /// The wire byte that selects this range in a command.
    pub fn to_bin(self) -> (r: u8)
        ensures
            r == range_code(self),
    {
        match self {
            Range::Auto => 0x00,
            Range::Step1 => 0x01,
            Range::Step2 => 0x02,
            Range::Step3 => 0x03,
            Range::Step4 => 0x04,
            Range::Step5 => 0x05,
            Range::Step6 => 0x06,
            Range::Step7 => 0x07,
            Range::Step8 => 0x08,
        }
    }
}

} // verus!
