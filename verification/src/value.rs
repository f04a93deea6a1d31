//! Measured values: a 32-bit float magnitude (kept as its bit pattern),
//! overload flags, optional decimal precision, and a unit with exponent.
//!
//! Three wire shapes exist: a full 13-byte value (float, flags,
//! NUL-terminated unit string), a 5-byte value whose unit is supplied by the
//! surrounding record, and a "fast" value (float plus unit) that carries no
//! overload or precision information.

use vstd::prelude::*;

use crate::error::{decode_obeys, DecodeErr, ErrorKind};
use crate::unit::{unit_decode, UnitExp};
use crate::utils::{le_u32, spec_le_u32};

verus! {

/// Measured value.
#[derive(Clone, Copy, Debug, PartialEq, Eq)]
pub struct Value {
    /// Is the value under the negative limit?
    pub overload_neg: bool,

    /// Is the value over the positive limit?
    pub overload_pos: bool,

    /// The measured magnitude: the little-endian bit pattern of a 32-bit
    /// IEEE 754 float, kept uninterpreted. A value with either overload flag
    /// set must not be interpreted numerically.
    pub value_bits: u32,

    /// A number of digits after the decimal point, where the wire shape
    /// carries one.
    pub precision: Option<usize>,

    /// Measurement unit and exponent.
    pub unit: UnitExp,
}

/// Negative-overload flag of a value's flags byte.
pub open spec fn flags_overload_neg(flags: u8) -> bool {
    (flags & 0x0E) == 0x02
}

/// Positive-overload flag of a value's flags byte.
pub open spec fn flags_overload_pos(flags: u8) -> bool {
    (flags & 0x01) == 0x01
}

/// Decimal-precision digit count in the high nibble of a value's flags byte.
pub open spec fn flags_precision(flags: u8) -> usize {
    (flags >> 4) as usize
}

/// The value whose five fixed bytes (float magnitude, then flags) start at
/// `off` in `data`, paired with a caller-supplied unit.
pub open spec fn value_wp_at(data: Seq<u8>, off: int, unit: UnitExp) -> Value {
    Value {
        overload_neg: flags_overload_neg(data[off + 4]),
        overload_pos: flags_overload_pos(data[off + 4]),
        value_bits: spec_le_u32(data[off], data[off + 1], data[off + 2], data[off + 3]),
        precision: Some(flags_precision(data[off + 4])),
        unit,
    }
}

/// A full 13-byte value starting at `off` in `data`: float magnitude, flags
/// byte, NUL-terminated unit string.
pub open spec fn value_wpu_decode_at(data: Seq<u8>, off: int) -> Result<Value, DecodeErr> {
    if data.len() < off + 5 {
        Err(DecodeErr::Truncated)
    } else {
        match unit_decode(data.skip(off + 5)) {
            Err(e) => Err(e),
            Ok(u) => Ok(value_wp_at(data, off, u)),
        }
    }
}

/// A 5-byte value at the head of `data` whose unit the surrounding record
/// supplies.
pub open spec fn value_wp_decode(data: Seq<u8>, unit: UnitExp) -> Result<Value, DecodeErr> {
    if data.len() < 5 {
        Err(DecodeErr::Truncated)
    } else {
        Ok(value_wp_at(data, 0, unit))
    }
}

/// A fast value starting at `off` in `data`: float magnitude then unit
/// string, with no overload or precision information.
pub open spec fn value_fast_decode_at(data: Seq<u8>, off: int) -> Result<Value, DecodeErr> {
    if data.len() < off + 4 {
        Err(DecodeErr::Truncated)
    } else {
        match unit_decode(data.skip(off + 4)) {
            Err(e) => Err(e),
            Ok(u) => Ok(
                Value {
                    overload_neg: false,
                    overload_pos: false,
                    value_bits: spec_le_u32(
                        data[off],
                        data[off + 1],
                        data[off + 2],
                        data[off + 3],
                    ),
                    precision: None,
                    unit: u,
                },
            ),
        }
    }
}

/// Reads the five fixed bytes of a value starting at `off` in `data`,
/// pairing them with a caller-supplied unit.
pub(crate) fn read_value_wp_at(data: &[u8], off: usize, unit: UnitExp) -> (r: Value)
    requires
        off + 5 <= data@.len(),
    ensures
        r == value_wp_at(data@, off as int, unit),
{
    let n = data.len();
    assert(off + 5 <= n);
    let flags = data[off + 4];
    Value {
        overload_neg: (flags & 0x0E) == 0x02,
        overload_pos: (flags & 0x01) == 0x01,
        value_bits: le_u32(data[off], data[off + 1], data[off + 2], data[off + 3]),
        precision: Some((flags >> 4) as usize),
        unit,
    }
}

/// Decodes a full 13-byte value starting at `off` in `data`.
pub(crate) fn wpu_value_at(data: &[u8], off: usize) -> (r: Result<Value, ErrorKind>)
    ensures
        decode_obeys(r, value_wpu_decode_at(data@, off as int)),
{
    if data.len() < 5 || off > data.len() - 5 {
        return Err(ErrorKind::TruncatedMessage);
    }
    let tail = vstd::slice::slice_subrange(data, off + 5, data.len());
    proof {
        assert(tail@ =~= data@.skip(off + 5));
    }
    let unit = match UnitExp::from_bin(tail) {
        Ok(u) => u,
        Err(e) => {
            return Err(e);
        },
    };
    let flags = data[off + 4];
    Ok(
        Value {
            overload_neg: (flags & 0x0E) == 0x02,
            overload_pos: (flags & 0x01) == 0x01,
            value_bits: le_u32(data[off], data[off + 1], data[off + 2], data[off + 3]),
            precision: Some((flags >> 4) as usize),
            unit,
        },
    )
}

/// Decodes a fast value starting at `off` in `data`.
pub(crate) fn fast_value_at(data: &[u8], off: usize) -> (r: Result<Value, ErrorKind>)
    ensures
        decode_obeys(r, value_fast_decode_at(data@, off as int)),
{
    if data.len() < 4 || off > data.len() - 4 {
        return Err(ErrorKind::TruncatedMessage);
    }
    let tail = vstd::slice::slice_subrange(data, off + 4, data.len());
    proof {
        assert(tail@ =~= data@.skip(off + 4));
    }
    let unit = match UnitExp::from_bin(tail) {
        Ok(u) => u,
        Err(e) => {
            return Err(e);
        },
    };
    Ok(
        Value {
            overload_neg: false,
            overload_pos: false,
            value_bits: le_u32(data[off], data[off + 1], data[off + 2], data[off + 3]),
            precision: None,
            unit,
        },
    )
}

impl Value {
    /// Decodes a full 13-byte value at the head of `data`: float magnitude,
    /// flags byte, then a NUL-terminated unit string.
    pub fn from_bin_with_precision_and_unit(data: &[u8]) -> (r: Result<Value, ErrorKind>)
        ensures
            decode_obeys(r, value_wpu_decode_at(data@, 0)),
    {
        wpu_value_at(data, 0)
    }

    /// Decodes a 5-byte value (float magnitude then flags byte) at the head
    /// of `data`, whose unit the caller supplies.
    pub fn from_bin_with_precision(data: &[u8], unit: UnitExp) -> (r: Result<Value, ErrorKind>)
        ensures
            decode_obeys(r, value_wp_decode(data@, unit)),
    {
        if data.len() < 5 {
            return Err(ErrorKind::TruncatedMessage);
        }
        let flags = data[4];
        Ok(
            Value {
                overload_neg: (flags & 0x0E) == 0x02,
                overload_pos: (flags & 0x01) == 0x01,
                value_bits: le_u32(data[0], data[1], data[2], data[3]),
                precision: Some((flags >> 4) as usize),
                unit,
            },
        )
    }

    /// Decodes a fast value at the head of `data`: float magnitude then a
    /// NUL-terminated unit string, with no overload flags and no precision.
    pub fn from_bin_fast(data: &[u8]) -> (r: Result<Value, ErrorKind>)
        ensures
            decode_obeys(r, value_fast_decode_at(data@, 0)),
    {
        fast_value_at(data, 0)
    }
}

} // verus!
