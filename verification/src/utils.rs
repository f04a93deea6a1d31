//! Shared primitive codecs: little-endian integers, NUL-terminated strings,
//! and the packed date/time format.

use vstd::prelude::*;

use crate::error::{DecodeErr, ErrorKind};

verus! {

/// The 16-bit value stored little-endian as the bytes `b0`, `b1`.
pub open spec fn spec_le_u16(b0: u8, b1: u8) -> u16 {
    (b0 + 256 * b1) as u16
}

/// The 32-bit value stored little-endian as the bytes `b0` through `b3`.
pub open spec fn spec_le_u32(b0: u8, b1: u8, b2: u8, b3: u8) -> u32 {
    (b0 + 0x100 * b1 + 0x1_0000 * b2 + 0x100_0000 * b3) as u32
}

/// Reads a little-endian 16-bit integer from two bytes.
pub fn le_u16(b0: u8, b1: u8) -> (r: u16)
    ensures
        r == spec_le_u16(b0, b1),
{
    b0 as u16 + 256 * (b1 as u16)
}

/// Reads a little-endian 32-bit integer from four bytes.
pub fn le_u32(b0: u8, b1: u8, b2: u8, b3: u8) -> (r: u32)
    ensures
        r == spec_le_u32(b0, b1, b2, b3),
{
    b0 as u32 + 0x100 * (b1 as u32) + 0x1_0000 * (b2 as u32) + 0x100_0000 * (b3 as u32)
}

/// The prefix of `data` before its first NUL byte (the whole of `data` if it
/// has no NUL byte).
pub open spec fn spec_stringz(data: Seq<u8>) -> Seq<u8>
    decreases data.len(),
{
    if data.len() == 0 || data[0] == 0 {
        Seq::empty()
    } else {
        seq![data[0]] + spec_stringz(data.skip(1))
    }
}

/// The text that lossy UTF-8 decoding assigns to `bytes`.
pub uninterp spec fn lossy_text_of(bytes: Seq<u8>) -> Seq<char>;

/// Relies on `String::from_utf8_lossy`: the result is a function of the bytes
/// alone, and bytes below 0x80 (ASCII, always valid UTF-8) decode to their own
/// character each.
#[verifier::external_body]
pub(crate) fn utf8_lossy(bytes: &[u8]) -> (r: String)
    ensures
        r@ == lossy_text_of(bytes@),
        (forall|i: int| 0 <= i < bytes@.len() ==> bytes@[i] < 0x80) ==> r@ == Seq::new(
            bytes@.len(),
            |i: int| bytes@[i] as char,
        ),
{
    String::from_utf8_lossy(bytes).into_owned()
}

/// Copies the bytes of `data` up to (excluding) its first NUL byte.
pub fn stringz_bytes(data: &[u8]) -> (r: Vec<u8>)
    ensures
        r@ == spec_stringz(data@),
{
    let mut out: Vec<u8> = Vec::new();
    let mut i: usize = 0;
    while i < data.len() && data[i] != 0
        invariant
            0 <= i <= data@.len(),
            out@ == data@.take(i as int),
            forall|j: int| 0 <= j < i ==> data@[j] != 0,
        decreases data@.len() - i,
    {
        out.push(data[i]);
        proof {
            assert(out@ =~= data@.take(i + 1));
        }
        i = i + 1;
    }
    proof {
        lemma_stringz_is_prefix(data@, i as int);
    }
    out
}

proof fn lemma_stringz_is_prefix(data: Seq<u8>, i: int)
    requires
        0 <= i <= data.len(),
        forall|j: int| 0 <= j < i ==> data[j] != 0,
        i == data.len() || data[i] == 0,
    ensures
        spec_stringz(data) == data.take(i),
    decreases data.len(),
{
    if i == 0 {
        assert(data.take(0) =~= Seq::<u8>::empty());
    } else {
        lemma_stringz_is_prefix(data.skip(1), i - 1);
        assert(seq![data[0]] + data.skip(1).take(i - 1) =~= data.take(i));
    }
}

/// Decodes a NUL-terminated byte string: the bytes before the first NUL,
/// lossily interpreted as UTF-8 text.
pub fn read_stringz(data: &[u8]) -> (r: String)
    ensures
        r@ == lossy_text_of(spec_stringz(data@)),
        (forall|i: int| 0 <= i < spec_stringz(data@).len() ==> spec_stringz(data@)[i] < 0x80)
            ==> r@ == Seq::new(spec_stringz(data@).len(), |i: int| spec_stringz(data@)[i] as char),
{
    let z = stringz_bytes(data);
    utf8_lossy(z.as_slice())
}

/// A character a record name may contain: printable ASCII.
pub open spec fn spec_allowed_char(c: char) -> bool {
    0x20 <= c as u32 <= 0x7E
}

/// Whether `c` may appear in a record name (printable ASCII).
pub fn allowed_char(c: char) -> (r: bool)
    ensures
        r == spec_allowed_char(c),
{
    let n = c as u32;
    0x20 <= n && n <= 0x7E
}

/// A calendar date and clock time as the device reports them.
#[derive(Clone, Copy, Debug, PartialEq, Eq, Structural)]
pub struct DateTime {
    pub year: u16,
    pub month: u8,
    pub day: u8,
    pub hour: u8,
    pub minute: u8,
    pub second: u8,
}

/// The proleptic Gregorian leap-year rule.
pub open spec fn is_leap_year(year: int) -> bool {
    (year % 4 == 0 && year % 100 != 0) || year % 400 == 0
}

/// Days in `month` of `year` under the Gregorian calendar.
pub open spec fn days_in_month(year: int, month: int) -> int {
    if month == 2 {
        if is_leap_year(year) {
            29
        } else {
            28
        }
    } else if month == 4 || month == 6 || month == 9 || month == 11 {
        30
    } else {
        31
    }
}

/// A real calendar date and in-range clock time.
pub open spec fn valid_datetime(
    year: int,
    month: int,
    day: int,
    hour: int,
    minute: int,
    second: int,
) -> bool {
    &&& 1 <= month <= 12
    &&& 1 <= day <= days_in_month(year, month)
    &&& 0 <= hour < 24
    &&& 0 <= minute < 60
    &&& 0 <= second < 60
}

impl DateTime {
    /// This value names a real calendar date and in-range clock time.
    pub open spec fn valid(&self) -> bool {
        valid_datetime(
            self.year as int,
            self.month as int,
            self.day as int,
            self.hour as int,
            self.minute as int,
            self.second as int,
        )
    }
}

/// Relies on `chrono::NaiveDate::from_ymd_opt` and `NaiveDate::and_hms_opt`:
/// for any year a `u16` can hold (well inside chrono's supported range) they
/// return `Some` exactly on real Gregorian calendar dates and in-range clock
/// times.
#[verifier::external_body]
fn calendar_accepts(year: u16, month: u8, day: u8, hour: u8, minute: u8, second: u8) -> (r: bool)
    ensures
        r == valid_datetime(
            year as int,
            month as int,
            day as int,
            hour as int,
            minute as int,
            second as int,
        ),
{
    match chrono::NaiveDate::from_ymd_opt(year as i32, month as u32, day as u32) {
        None => false,
        Some(date) => date.and_hms_opt(hour as u32, minute as u32, second as u32).is_some(),
    }
}

/// Year packed into byte 0: `2000 + (b0 & 0x3F)`.
pub open spec fn dt_year(b0: u8) -> u16 {
    (2000 + (b0 & 0x3F)) as u16
}

/// Month packed across bytes 0 and 1.
pub open spec fn dt_month(b0: u8, b1: u8) -> u8 {
    (b0 >> 6) | ((b1 & 0x03) << 2)
}

/// Day packed into byte 1.
pub open spec fn dt_day(b1: u8) -> u8 {
    (b1 >> 2) & 0x1F
}

/// Hour packed across bytes 1 and 2.
pub open spec fn dt_hour(b1: u8, b2: u8) -> u8 {
    (b1 >> 7) | ((b2 & 0x0F) << 1)
}

/// Minute packed across bytes 2 and 3.
pub open spec fn dt_minute(b2: u8, b3: u8) -> u8 {
    (b2 >> 4) | ((b3 & 0x03) << 4)
}

/// Second packed into byte 3.
pub open spec fn dt_second(b3: u8) -> u8 {
    b3 >> 2
}

/// The date/time packed into the four bytes at the head of `data`, validated
/// as a real calendar date/time.
pub open spec fn datetime_decode(data: Seq<u8>) -> Result<DateTime, DecodeErr> {
    if data.len() < 4 {
        Err(DecodeErr::Truncated)
    } else {
        let dt = DateTime {
            year: dt_year(data[0]),
            month: dt_month(data[0], data[1]),
            day: dt_day(data[1]),
            hour: dt_hour(data[1], data[2]),
            minute: dt_minute(data[2], data[3]),
            second: dt_second(data[3]),
        };
        if dt.valid() {
            Ok(dt)
        } else {
            Err(
                DecodeErr::InvalidDateTime {
                    year: dt.year,
                    month: dt.month,
                    day: dt.day,
                    hour: dt.hour,
                    minute: dt.minute,
                    second: dt.second,
                },
            )
        }
    }
}

/// Reads a packed date/time from the first four bytes of `data` and validates
/// it as a real calendar date/time; an invalid encoding fails with all six
/// decoded components.
pub fn read_datetime(data: &[u8]) -> (r: Result<DateTime, ErrorKind>)
    ensures
        crate::error::decode_obeys(r, datetime_decode(data@)),
        r matches Ok(dt) ==> dt.valid(),
{
    if data.len() < 4 {
        return Err(ErrorKind::TruncatedMessage);
    }
    let b0 = data[0];
    let b1 = data[1];
    let b2 = data[2];
    let b3 = data[3];
    assert((b0 & 0x3F) < 64) by (bit_vector);
    let year: u16 = 2000 + (b0 & 0x3F) as u16;
    let month: u8 = (b0 >> 6) | ((b1 & 0x03) << 2);
    let day: u8 = (b1 >> 2) & 0x1F;
    let hour: u8 = (b1 >> 7) | ((b2 & 0x0F) << 1);
    let minute: u8 = (b2 >> 4) | ((b3 & 0x03) << 4);
    let second: u8 = b3 >> 2;
    let dt = DateTime { year, month, day, hour, minute, second };
    if calendar_accepts(year, month, day, hour, minute, second) {
        Ok(dt)
    } else {
        Err(ErrorKind::InvalidDateTime { year, month, day, hour, minute, second })
    }
}

} // verus!

