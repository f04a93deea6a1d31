//! Measurement decoder: the tagged, variable-shape telemetry record.
//!
//! Bits `0x70` of the leading tag byte select one of four mutually exclusive
//! shapes (Normal, Relative, MinMax, Peak); further tag bits gate optional
//! fields. The common header is: tag byte (bit `0x80` hold, bit `0x08` fast
//! reading present, bits `0x02`/`0x04` secondary/tertiary reading present for
//! the Normal shape), one auto-range byte, a two-byte mode code, and one
//! range byte; kind-specific values follow at fixed offsets.

use vstd::prelude::*;

use crate::error::{decode_obeys, DecodeErr, ErrorKind};
use crate::mode::{mode_of_code, Mode};
use crate::range::{range_of_code, Range};
use crate::unit::{unit_decode, UnitExp};
use crate::utils::{le_u32, spec_le_u16, spec_le_u32};
use crate::value::{
    fast_value_at, value_fast_decode_at, value_wp_at, value_wpu_decode_at, wpu_value_at, Value,
};

verus! {

/// A plain reading: one mandatory main value, optional secondary and
/// tertiary values, and an optional fast value.
#[derive(Clone, Copy, Debug, PartialEq, Eq)]
pub struct NormalMeasurement {
    pub mode: Mode,
    pub is_holded: bool,
    pub is_auto_range: bool,
    pub range: Range,
    pub main: Value,
    pub aux1: Option<Value>,
    pub aux2: Option<Value>,
    pub fast: Option<Value>,
}

/// A reading relative to a reference value.
#[derive(Clone, Copy, Debug, PartialEq, Eq)]
pub struct RelativeMeasurement {
    pub mode: Mode,
    pub is_holded: bool,
    pub is_auto_range: bool,
    pub range: Range,
    pub relative: Value,
    pub reference: Value,
    pub measurement: Value,
    pub fast: Option<Value>,
}

/// A min/max session: current, maximum, average and minimum values, the
/// latter three each with a whole-seconds session time.
#[derive(Clone, Copy, Debug, PartialEq, Eq)]
pub struct MinMaxMeasurement {
    pub mode: Mode,
    pub is_holded: bool,
    pub is_auto_range: bool,
    pub range: Range,
    pub main: Value,
    pub max: Value,
    /// Seconds into the session at which the maximum was seen.
    pub max_time: u32,
    pub average: Value,
    /// Seconds into the session over which the average was formed.
    pub average_time: u32,
    pub min: Value,
    /// Seconds into the session at which the minimum was seen.
    pub min_time: u32,
}

/// A peak session: maximum and minimum values.
#[derive(Clone, Copy, Debug, PartialEq, Eq)]
pub struct PeakMeasurement {
    pub mode: Mode,
    pub is_holded: bool,
    pub is_auto_range: bool,
    pub range: Range,
    pub min: Value,
    pub max: Value,
}

/// One of the four mutually exclusive measurement shapes.
#[derive(Clone, Copy, Debug, PartialEq, Eq)]
pub enum Measurement {
    Normal(NormalMeasurement),
    Relative(RelativeMeasurement),
    MinMax(MinMaxMeasurement),
    Peak(PeakMeasurement),
}

/// An optional full value at offset `off`, present when its gating flag is
/// set.
pub open spec fn opt_value_wpu(data: Seq<u8>, off: int, present: bool) -> Result<
    Option<Value>,
    DecodeErr,
> {
    if present {
        match value_wpu_decode_at(data, off) {
            Ok(v) => Ok(Some(v)),
            Err(e) => Err(e),
        }
    } else {
        Ok(None)
    }
}

/// An optional fast value at offset `off`, present when the fast flag is set.
pub open spec fn opt_value_fast(data: Seq<u8>, off: int, present: bool) -> Result<
    Option<Value>,
    DecodeErr,
> {
    if present {
        match value_fast_decode_at(data, off) {
            Ok(v) => Ok(Some(v)),
            Err(e) => Err(e),
        }
    } else {
        Ok(None)
    }
}

/// The Normal shape: a mandatory main value at offset 5, then secondary,
/// tertiary and fast values gated by tag bits `0x02`, `0x04` and `0x08`, each
/// directly after the fields before it.
pub open spec fn normal_decode(
    data: Seq<u8>,
    mode: Mode,
    is_holded: bool,
    is_auto_range: bool,
    range: Range,
) -> Result<Measurement, DecodeErr> {
    let aux1p = (data[0] & 0x02) != 0;
    let aux2p = (data[0] & 0x04) != 0;
    let fastp = (data[0] & 0x08) != 0;
    let aux2_off: int = if aux1p {
        31
    } else {
        18
    };
    let fast_off: int = aux2_off + if aux2p {
        13int
    } else {
        0int
    };
    match value_wpu_decode_at(data, 5) {
        Err(e) => Err(e),
        Ok(main) => match opt_value_wpu(data, 18, aux1p) {
            Err(e) => Err(e),
            Ok(aux1) => match opt_value_wpu(data, aux2_off, aux2p) {
                Err(e) => Err(e),
                Ok(aux2) => match opt_value_fast(data, fast_off, fastp) {
                    Err(e) => Err(e),
                    Ok(fast) => Ok(
                        Measurement::Normal(
                            NormalMeasurement {
                                mode,
                                is_holded,
                                is_auto_range,
                                range,
                                main,
                                aux1,
                                aux2,
                                fast,
                            },
                        ),
                    ),
                },
            },
        },
    }
}

/// The Relative shape: relative, reference and absolute values at fixed
/// offsets 5, 18 and 31, then an optional fast value at 44.
pub open spec fn relative_decode(
    data: Seq<u8>,
    mode: Mode,
    is_holded: bool,
    is_auto_range: bool,
    range: Range,
) -> Result<Measurement, DecodeErr> {
    let fastp = (data[0] & 0x08) != 0;
    match value_wpu_decode_at(data, 5) {
        Err(e) => Err(e),
        Ok(relative) => match value_wpu_decode_at(data, 18) {
            Err(e) => Err(e),
            Ok(reference) => match value_wpu_decode_at(data, 31) {
                Err(e) => Err(e),
                Ok(measurement) => match opt_value_fast(data, 44, fastp) {
                    Err(e) => Err(e),
                    Ok(fast) => Ok(
                        Measurement::Relative(
                            RelativeMeasurement {
                                mode,
                                is_holded,
                                is_auto_range,
                                range,
                                relative,
                                reference,
                                measurement,
                                fast,
                            },
                        ),
                    ),
                },
            },
        },
    }
}

/// The MinMax shape: one shared unit string at offset 37, then four 5-byte
/// values at offsets 5, 10, 19 and 28 (main, max, average, min), the last
/// three each followed by a 4-byte whole-seconds duration.
pub open spec fn minmax_decode(
    data: Seq<u8>,
    mode: Mode,
    is_holded: bool,
    is_auto_range: bool,
    range: Range,
) -> Result<Measurement, DecodeErr> {
    if data.len() < 37 {
        Err(DecodeErr::Truncated)
    } else {
        match unit_decode(data.skip(37)) {
            Err(e) => Err(e),
            Ok(unit) => Ok(
                Measurement::MinMax(
                    MinMaxMeasurement {
                        mode,
                        is_holded,
                        is_auto_range,
                        range,
                        main: value_wp_at(data, 5, unit),
                        max: value_wp_at(data, 10, unit),
                        max_time: spec_le_u32(data[15], data[16], data[17], data[18]),
                        average: value_wp_at(data, 19, unit),
                        average_time: spec_le_u32(data[24], data[25], data[26], data[27]),
                        min: value_wp_at(data, 28, unit),
                        min_time: spec_le_u32(data[33], data[34], data[35], data[36]),
                    },
                ),
            ),
        }
    }
}

/// The Peak shape: maximum and minimum values at fixed offsets 5 and 18.
pub open spec fn peak_decode(
    data: Seq<u8>,
    mode: Mode,
    is_holded: bool,
    is_auto_range: bool,
    range: Range,
) -> Result<Measurement, DecodeErr> {
    match value_wpu_decode_at(data, 5) {
        Err(e) => Err(e),
        Ok(max) => match value_wpu_decode_at(data, 18) {
            Err(e) => Err(e),
            Ok(min) => Ok(
                Measurement::Peak(
                    PeakMeasurement { mode, is_holded, is_auto_range, range, min, max },
                ),
            ),
        },
    }
}

/// The measurement record at the head of `data`: kind from the tag byte,
/// then auto-range byte, mode code, range byte, then the kind's values.
pub open spec fn measurement_decode(data: Seq<u8>) -> Result<Measurement, DecodeErr> {
    if data.len() < 1 {
        Err(DecodeErr::Truncated)
    } else {
        let tag = data[0];
        let kind_bits = tag & 0x70;
        if !(kind_bits == 0x00 || kind_bits == 0x10 || kind_bits == 0x20 || kind_bits == 0x40) {
            Err(DecodeErr::UnknownMeasurementKind(tag))
        } else if data.len() < 4 {
            Err(DecodeErr::Truncated)
        } else {
            match mode_of_code(spec_le_u16(data[2], data[3])) {
                None => Err(DecodeErr::UnknownMeasurementMode(spec_le_u16(data[2], data[3]))),
                Some(mode) => {
                    if data.len() < 5 {
                        Err(DecodeErr::Truncated)
                    } else {
                        match range_of_code(data[4]) {
                            None => Err(DecodeErr::UnknownMeasurementRange(data[4])),
                            Some(range) => {
                                let is_holded = (tag & 0x80) != 0;
                                let is_auto_range = data[1] == 1;
                                if kind_bits == 0x00 {
                                    normal_decode(data, mode, is_holded, is_auto_range, range)
                                } else if kind_bits == 0x10 {
                                    relative_decode(data, mode, is_holded, is_auto_range, range)
                                } else if kind_bits == 0x20 {
                                    minmax_decode(data, mode, is_holded, is_auto_range, range)
                                } else {
                                    peak_decode(data, mode, is_holded, is_auto_range, range)
                                }
                            },
                        }
                    }
                },
            }
        }
    }
}

impl Measurement {
    /// Decodes the measurement record at the head of `data`.
    pub fn from_bin(data: &[u8]) -> (r: Result<Measurement, ErrorKind>)
        ensures
            decode_obeys(r, measurement_decode(data@)),
    {
        if data.len() < 1 {
            return Err(ErrorKind::TruncatedMessage);
        }
        let tag = data[0];
        let kind_bits = tag & 0x70;
        if !(kind_bits == 0x00 || kind_bits == 0x10 || kind_bits == 0x20 || kind_bits == 0x40) {
            return Err(ErrorKind::UnknownMeasurementKind(tag));
        }
        if data.len() < 4 {
            return Err(ErrorKind::TruncatedMessage);
        }
        let mode_field = vstd::slice::slice_subrange(data, 2, 4);
        let mode = match Mode::from_bin(mode_field) {
            Ok(m) => m,
            Err(e) => {
                return Err(e);
            },
        };
        if data.len() < 5 {
            return Err(ErrorKind::TruncatedMessage);
        }
        let range_field = vstd::slice::slice_subrange(data, 4, 5);
        let range = match Range::from_bin(range_field) {
            Ok(rg) => rg,
            Err(e) => {
                return Err(e);
            },
        };
        let is_holded = (tag & 0x80) != 0;
        let is_auto_range = data[1] == 1;
        if kind_bits == 0x00 {
            Self::normal_from_bin(data, mode, is_holded, is_auto_range, range)
        } else if kind_bits == 0x10 {
            Self::relative_from_bin(data, mode, is_holded, is_auto_range, range)
        } else if kind_bits == 0x20 {
            Self::minmax_from_bin(data, mode, is_holded, is_auto_range, range)
        } else {
            Self::peak_from_bin(data, mode, is_holded, is_auto_range, range)
        }
    }

    fn normal_from_bin(
        data: &[u8],
        mode: Mode,
        is_holded: bool,
        is_auto_range: bool,
        range: Range,
    ) -> (r: Result<Measurement, ErrorKind>)
        requires
            data@.len() >= 1,
        ensures
            decode_obeys(r, normal_decode(data@, mode, is_holded, is_auto_range, range)),
    {
        let tag = data[0];
        let main = match wpu_value_at(data, 5) {
            Ok(v) => v,
            Err(e) => {
                return Err(e);
            },
        };
        let mut offset: usize = 18;

        let aux1 = if tag & 0x02 != 0 {
            let v = match wpu_value_at(data, offset) {
                Ok(v) => v,
                Err(e) => {
                    return Err(e);
                },
            };
            offset = offset + 13;
            Some(v)
        } else {
            None
        };

        let aux2 = if tag & 0x04 != 0 {
            let v = match wpu_value_at(data, offset) {
                Ok(v) => v,
                Err(e) => {
                    return Err(e);
                },
            };
            offset = offset + 13;
            Some(v)
        } else {
            None
        };

        let fast = if tag & 0x08 != 0 {
            let v = match fast_value_at(data, offset) {
                Ok(v) => v,
                Err(e) => {
                    return Err(e);
                },
            };
            Some(v)
        } else {
            None
        };

        Ok(
            Measurement::Normal(
                NormalMeasurement { mode, is_holded, is_auto_range, range, main, aux1, aux2, fast },
            ),
        )
    }

    fn relative_from_bin(
        data: &[u8],
        mode: Mode,
        is_holded: bool,
        is_auto_range: bool,
        range: Range,
    ) -> (r: Result<Measurement, ErrorKind>)
        requires
            data@.len() >= 1,
        ensures
            decode_obeys(r, relative_decode(data@, mode, is_holded, is_auto_range, range)),
    {
        let tag = data[0];
        let relative = match wpu_value_at(data, 5) {
            Ok(v) => v,
            Err(e) => {
                return Err(e);
            },
        };
        let reference = match wpu_value_at(data, 18) {
            Ok(v) => v,
            Err(e) => {
                return Err(e);
            },
        };
        let measurement = match wpu_value_at(data, 31) {
            Ok(v) => v,
            Err(e) => {
                return Err(e);
            },
        };
        let fast = if tag & 0x08 != 0 {
            let v = match fast_value_at(data, 44) {
                Ok(v) => v,
                Err(e) => {
                    return Err(e);
                },
            };
            Some(v)
        } else {
            None
        };
        Ok(
            Measurement::Relative(
                RelativeMeasurement {
                    mode,
                    is_holded,
                    is_auto_range,
                    range,
                    relative,
                    reference,
                    measurement,
                    fast,
                },
            ),
        )
    }

    fn minmax_from_bin(
        data: &[u8],
        mode: Mode,
        is_holded: bool,
        is_auto_range: bool,
        range: Range,
    ) -> (r: Result<Measurement, ErrorKind>)
        ensures
            decode_obeys(r, minmax_decode(data@, mode, is_holded, is_auto_range, range)),
    {
        if data.len() < 37 {
            return Err(ErrorKind::TruncatedMessage);
        }
        let unit_field = vstd::slice::slice_subrange(data, 37, data.len());
        proof {
            assert(unit_field@ =~= data@.skip(37));
        }
        let unit = match UnitExp::from_bin(unit_field) {
            Ok(u) => u,
            Err(e) => {
                return Err(e);
            },
        };
        let main = crate::value::read_value_wp_at(data, 5, unit);
        let max = crate::value::read_value_wp_at(data, 10, unit);
        let max_time = le_u32(data[15], data[16], data[17], data[18]);
        let average = crate::value::read_value_wp_at(data, 19, unit);
        let average_time = le_u32(data[24], data[25], data[26], data[27]);
        let min = crate::value::read_value_wp_at(data, 28, unit);
        let min_time = le_u32(data[33], data[34], data[35], data[36]);
        Ok(
            Measurement::MinMax(
                MinMaxMeasurement {
                    mode,
                    is_holded,
                    is_auto_range,
                    range,
                    main,
                    max,
                    max_time,
                    average,
                    average_time,
                    min,
                    min_time,
                },
            ),
        )
    }

    fn peak_from_bin(
        data: &[u8],
        mode: Mode,
        is_holded: bool,
        is_auto_range: bool,
        range: Range,
    ) -> (r: Result<Measurement, ErrorKind>)
        ensures
            decode_obeys(r, peak_decode(data@, mode, is_holded, is_auto_range, range)),
    {
        let max = match wpu_value_at(data, 5) {
            Ok(v) => v,
            Err(e) => {
                return Err(e);
            },
        };
        let min = match wpu_value_at(data, 18) {
            Ok(v) => v,
            Err(e) => {
                return Err(e);
            },
        };
        Ok(
            Measurement::Peak(PeakMeasurement { mode, is_holded, is_auto_range, range, min, max }),
        )
    }
}

} // verus!
