//! Record metadata: the description a device returns for one stored
//! recording.
//!
//! Wire layout of the record-info body: an 11-byte NUL-terminated name
//! field, the shared unit string at offset 11, a 16-bit interval at 19, a
//! 32-bit duration at 21, a 32-bit sample count at 25, three 5-byte values
//! (maximum, average, minimum) at 29, 34 and 39, and a packed date/time at
//! 44.

use vstd::prelude::*;

use crate::error::{err_models, DecodeErr, ErrorKind};
use crate::unit::{unit_decode, UnitExp};
use crate::utils::{
    datetime_decode, le_u16, le_u32, lossy_text_of, read_datetime, read_stringz, spec_le_u16,
    spec_le_u32, spec_stringz, DateTime,
};
use crate::value::{read_value_wp_at, value_wp_at, Value};

verus! {

/// Metadata of one stored recording.
#[derive(Clone, Debug, PartialEq, Eq)]
pub struct RecordInfo {
    /// Name of the record.
    pub name: String,

    /// Unit and exponent shared by all of the record's values.
    pub unit: UnitExp,

    /// Sampling interval, in whole seconds.
    pub interval: u16,

    /// Recording duration, in whole seconds.
    pub duration: u32,

    /// Sample count.
    pub sample_count: u32,

    /// Maximum value.
    pub max: Value,

    /// Average value.
    pub average: Value,

    /// Minimum value.
    pub min: Value,

    /// Start date/time.
    pub start: DateTime,
}

/// Why the record-info body at the head of `data` fails to decode, if it
/// does: too short for its fixed fields, an unknown unit string, or an
/// invalid start date/time, in that order.
pub open spec fn record_info_err(data: Seq<u8>) -> Option<DecodeErr> {
    if data.len() < 11 {
        Some(DecodeErr::Truncated)
    } else {
        match unit_decode(data.skip(11)) {
            Err(e) => Some(e),
            Ok(_) => {
                if data.len() < 48 {
                    Some(DecodeErr::Truncated)
                } else {
                    match datetime_decode(data.skip(44)) {
                        Err(e) => Some(e),
                        Ok(_) => None,
                    }
                }
            },
        }
    }
}

/// `info` holds exactly the fields of the record-info body at the head of
/// `data`.
pub open spec fn record_info_ok(data: Seq<u8>, info: RecordInfo) -> bool {
    &&& data.len() >= 48
    &&& info.name@ == lossy_text_of(spec_stringz(data))
    &&& unit_decode(data.skip(11)) == Ok::<UnitExp, DecodeErr>(info.unit)
    &&& info.interval == spec_le_u16(data[19], data[20])
    &&& info.duration == spec_le_u32(data[21], data[22], data[23], data[24])
    &&& info.sample_count == spec_le_u32(data[25], data[26], data[27], data[28])
    &&& info.max == value_wp_at(data, 29, info.unit)
    &&& info.average == value_wp_at(data, 34, info.unit)
    &&& info.min == value_wp_at(data, 39, info.unit)
    &&& datetime_decode(data.skip(44)) == Ok::<DateTime, DecodeErr>(info.start)
}

impl RecordInfo {
    /// Decodes the record-info body at the head of `data`.
    pub fn from_bin(data: &[u8]) -> (r: Result<RecordInfo, ErrorKind>)
        ensures
            match r {
                Ok(info) => record_info_err(data@) is None && record_info_ok(data@, info),
                Err(e) => record_info_err(data@) matches Some(m) && err_models(e, m),
            },
    {
        if data.len() < 11 {
            return Err(ErrorKind::TruncatedMessage);
        }
        let name = read_stringz(data);
        let unit_field = vstd::slice::slice_subrange(data, 11, data.len());
        proof {
            assert(unit_field@ =~= data@.skip(11));
        }
        let unit = match UnitExp::from_bin(unit_field) {
            Ok(u) => u,
            Err(e) => {
                return Err(e);
            },
        };
        if data.len() < 48 {
            return Err(ErrorKind::TruncatedMessage);
        }
        let interval = le_u16(data[19], data[20]);
        let duration = le_u32(data[21], data[22], data[23], data[24]);
        let sample_count = le_u32(data[25], data[26], data[27], data[28]);
        let max = read_value_wp_at(data, 29, unit);
        let average = read_value_wp_at(data, 34, unit);
        let min = read_value_wp_at(data, 39, unit);
        let start_field = vstd::slice::slice_subrange(data, 44, data.len());
        proof {
            assert(start_field@ =~= data@.skip(44));
        }
        let start = match read_datetime(start_field) {
            Ok(dt) => dt,
            Err(e) => {
                return Err(e);
            },
        };
        Ok(RecordInfo { name, unit, interval, duration, sample_count, max, average, min, start })
    }
}

} // verus!
