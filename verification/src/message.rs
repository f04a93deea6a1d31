//! Message classifier and frame scanner.
//!
//! The classifier interprets a checksum-valid payload by its leading tag
//! byte. The scanner locates a frame inside an unstructured receive buffer:
//! it finds the marker, reads the declared length, and either reports the
//! frame or reports that more bytes are needed; a frame whose checksum does
//! not match is skipped by resuming the search just past its marker, within
//! the same call.

use vstd::prelude::*;

use crate::error::{
    decode_obeys, err_models, is_decode_error, lemma_err_models_is_decode_error, DecodeErr,
    ErrorKind,
};
use crate::measurement::{measurement_decode, Measurement};
use crate::packet::{checksum_spec, frame_bytes, frame_bytes_with, Packet, MARKER0, MARKER1};
use crate::rec_info::{record_info_err, record_info_ok, RecordInfo};
use crate::utils::{datetime_decode, le_u16, le_u32, read_datetime, spec_le_u16, spec_le_u32, DateTime};

verus! {

/// One recording sample as a record-data batch carries it: without a unit,
/// which the record's metadata supplies.
#[derive(Clone, Copy, Debug, PartialEq, Eq)]
pub struct RawRecordDataItem {
    pub overload_neg: bool,
    pub overload_pos: bool,
    /// The little-endian bit pattern of the sample's 32-bit IEEE 754 float.
    pub value_bits: u32,
    /// Decimal-precision digit count.
    pub precision: usize,
    pub timestamp: DateTime,
}

/// A typed message decoded from one checksum-valid frame.
#[derive(Clone, Debug, PartialEq, Eq)]
pub enum Message {
    /// The device acknowledged a command.
    Success,
    /// The device reported that it could not execute a command.
    DeviceError,
    /// A live measurement.
    Measurement(Measurement),
    /// A stored measurement and the moment it was saved.
    SavedMeasurement(DateTime, Measurement),
    /// A raw reply body, used for simple counters: first byte echoes the
    /// command, the rest is its data.
    Reply(Vec<u8>),
    /// Metadata of one stored recording.
    RecordInfo(RecordInfo),
    /// One batch of recording samples.
    RecordDataBatch(Vec<RawRecordDataItem>),
}

/// The recording sample whose nine bytes start at `off` in `data`, with its
/// already-decoded timestamp.
pub open spec fn raw_item_at(data: Seq<u8>, off: int, ts: DateTime) -> RawRecordDataItem {
    RawRecordDataItem {
        overload_neg: (data[off + 4] & 0x02) != 0,
        overload_pos: (data[off + 4] & 0x01) != 0,
        value_bits: spec_le_u32(data[off], data[off + 1], data[off + 2], data[off + 3]),
        precision: (data[off + 4] >> 4) as usize,
        timestamp: ts,
    }
}

/// The samples `i` through `count - 1` of a record-data payload, each nine
/// bytes at offset `2 + index * 9`: a float magnitude, a flags byte, and a
/// packed date/time.
pub open spec fn rec_items_decode(data: Seq<u8>, i: int, count: int) -> Result<
    Seq<RawRecordDataItem>,
    DecodeErr,
>
    decreases count - i,
{
    if i >= count {
        Ok(Seq::empty())
    } else {
        let off = 2 + i * 9;
        if data.len() < off + 9 {
            Err(DecodeErr::Truncated)
        } else {
            match datetime_decode(data.subrange(off + 5, off + 9)) {
                Err(e) => Err(e),
                Ok(ts) => match rec_items_decode(data, i + 1, count) {
                    Err(e) => Err(e),
                    Ok(rest) => Ok(seq![raw_item_at(data, off, ts)] + rest),
                },
            }
        }
    }
}

/// Prepends already-decoded samples to the outcome of decoding the rest.
pub open spec fn rec_items_append(
    prefix: Seq<RawRecordDataItem>,
    r: Result<Seq<RawRecordDataItem>, DecodeErr>,
) -> Result<Seq<RawRecordDataItem>, DecodeErr> {
    match r {
        Ok(rest) => Ok(prefix + rest),
        Err(e) => Err(e),
    }
}

/// The classifier's contract: `r` is exactly what the payload `data`
/// decodes to, dispatching on the payload's first byte.
pub open spec fn message_decode(data: Seq<u8>, r: Result<Message, ErrorKind>) -> bool {
    if data.len() < 1 {
        r matches Err(e) && err_models(e, DecodeErr::Truncated)
    } else if data[0] == 0x01 {
        if data.len() < 3 {
            r matches Err(e) && err_models(e, DecodeErr::Truncated)
        } else {
            let code = spec_le_u16(data[1], data[2]);
            if code == 0x4B4F {
                r == Ok::<Message, ErrorKind>(Message::Success)
            } else if code == 0x5245 {
                r == Ok::<Message, ErrorKind>(Message::DeviceError)
            } else {
                r matches Err(e) && err_models(e, DecodeErr::UnknownReplyCode(code))
            }
        }
    } else if data[0] == 0x02 {
        match measurement_decode(data.skip(1)) {
            Ok(m) => r == Ok::<Message, ErrorKind>(Message::Measurement(m)),
            Err(me) => r matches Err(e) && err_models(e, me),
        }
    } else if data[0] == 0x03 {
        match datetime_decode(data.skip(1)) {
            Err(me) => r matches Err(e) && err_models(e, me),
            Ok(dt) => match measurement_decode(data.skip(5)) {
                Err(me) => r matches Err(e) && err_models(e, me),
                Ok(m) => r == Ok::<Message, ErrorKind>(Message::SavedMeasurement(dt, m)),
            },
        }
    } else if data[0] == 0x04 {
        match record_info_err(data.skip(1)) {
            Some(me) => r matches Err(e) && err_models(e, me),
            None => r matches Ok(m) && m matches Message::RecordInfo(info) && record_info_ok(
                data.skip(1),
                info,
            ),
        }
    } else if data[0] == 0x05 {
        if data.len() < 2 {
            r matches Err(e) && err_models(e, DecodeErr::Truncated)
        } else {
            match rec_items_decode(data, 0, data[1] as int) {
                Err(me) => r matches Err(e) && err_models(e, me),
                Ok(items) => r matches Ok(m) && m matches Message::RecordDataBatch(v) && v@
                    == items,
            }
        }
    } else if data[0] == 0x72 {
        r matches Ok(m) && m matches Message::Reply(v) && v@ == data.skip(1)
    } else {
        r matches Err(e) && err_models(e, DecodeErr::UnknownMessageFormat(data[0]))
    }
}

/// Every date/time inside a decoded message names a real calendar
/// date/time.
pub open spec fn message_wf(m: Message) -> bool {
    match m {
        Message::SavedMeasurement(dt, _) => dt.valid(),
        Message::RecordInfo(info) => info.start.valid(),
        Message::RecordDataBatch(items) => forall|i: int|
            0 <= i < items@.len() ==> (#[trigger] items@[i]).timestamp.valid(),
        _ => true,
    }
}

proof fn lemma_rec_items_wf(data: Seq<u8>, i: int, count: int, items: Seq<RawRecordDataItem>)
    requires
        rec_items_decode(data, i, count) == Ok::<Seq<RawRecordDataItem>, DecodeErr>(items),
    ensures
        forall|j: int| 0 <= j < items.len() ==> (#[trigger] items[j]).timestamp.valid(),
    decreases count - i,
{
    if i < count {
        let off = 2 + i * 9;
        match datetime_decode(data.subrange(off + 5, off + 9)) {
            Err(_) => {},
            Ok(ts) => {
                match rec_items_decode(data, i + 1, count) {
                    Err(_) => {},
                    Ok(rest) => {
                        lemma_rec_items_wf(data, i + 1, count, rest);
                    },
                }
            },
        }
    }
}

/// A successfully classified message is well formed: its date/times are real
/// calendar date/times.
pub proof fn lemma_message_decode_wf(data: Seq<u8>, m: Message)
    requires
        message_decode(data, Ok(m)),
    ensures
        message_wf(m),
{
    if data.len() >= 1 && data[0] == 0x05 && data.len() >= 2 {
        match rec_items_decode(data, 0, data[1] as int) {
            Ok(items) => {
                lemma_rec_items_wf(data, 0, data[1] as int, items);
            },
            Err(_) => {},
        }
    }
}

/// A classification failure is always a decode error: a truncation or an
/// unknown-code diagnostic, never a validation, transport or device error.
pub proof fn lemma_message_decode_err(data: Seq<u8>, e: ErrorKind)
    requires
        message_decode(data, Err(e)),
    ensures
        is_decode_error(e),
{
    assert forall|m: DecodeErr| err_models(e, m) implies is_decode_error(e) by {
        lemma_err_models_is_decode_error(e, m);
    }
}

impl Message {
    /// Classifies a checksum-valid payload by its first byte.
    pub fn new(data: &[u8]) -> (r: Result<Message, ErrorKind>)
        ensures
            message_decode(data@, r),
            r matches Ok(m) ==> message_wf(m),
            r matches Err(e) ==> is_decode_error(e),
    {
        let r = Self::classify(data);
        proof {
            if r is Ok {
                lemma_message_decode_wf(data@, r->Ok_0);
            } else {
                lemma_message_decode_err(data@, r->Err_0);
            }
        }
        r
    }

    fn classify(data: &[u8]) -> (r: Result<Message, ErrorKind>)
        ensures
            message_decode(data@, r),
    {
        if data.len() < 1 {
            return Err(ErrorKind::TruncatedMessage);
        }
        let tag = data[0];
        if tag == 0x01 {
            if data.len() < 3 {
                return Err(ErrorKind::TruncatedMessage);
            }
            let code = le_u16(data[1], data[2]);
            if code == 0x4B4F {
                Ok(Message::Success)
            } else if code == 0x5245 {
                Ok(Message::DeviceError)
            } else {
                Err(ErrorKind::UnknownReplyCode(code))
            }
        } else if tag == 0x02 {
            let body = vstd::slice::slice_subrange(data, 1, data.len());
            proof {
                assert(body@ =~= data@.skip(1));
            }
            match Measurement::from_bin(body) {
                Ok(m) => Ok(Message::Measurement(m)),
                Err(e) => Err(e),
            }
        } else if tag == 0x03 {
            let dt_field = vstd::slice::slice_subrange(data, 1, data.len());
            proof {
                assert(dt_field@ =~= data@.skip(1));
            }
            let dt = match read_datetime(dt_field) {
                Ok(dt) => dt,
                Err(e) => {
                    return Err(e);
                },
            };
            let body = vstd::slice::slice_subrange(data, 5, data.len());
            proof {
                assert(body@ =~= data@.skip(5));
            }
            match Measurement::from_bin(body) {
                Ok(m) => Ok(Message::SavedMeasurement(dt, m)),
                Err(e) => Err(e),
            }
        } else if tag == 0x04 {
            let body = vstd::slice::slice_subrange(data, 1, data.len());
            proof {
                assert(body@ =~= data@.skip(1));
            }
            match RecordInfo::from_bin(body) {
                Ok(info) => Ok(Message::RecordInfo(info)),
                Err(e) => Err(e),
            }
        } else if tag == 0x05 {
            if data.len() < 2 {
                return Err(ErrorKind::TruncatedMessage);
            }
            Self::classify_record_batch(data)
        } else if tag == 0x72 {
            let body = vstd::slice::slice_subrange(data, 1, data.len());
            proof {
                assert(body@ =~= data@.skip(1));
            }
            let vec = vstd::slice::slice_to_vec(body);
            Ok(Message::Reply(vec))
        } else {
            Err(ErrorKind::UnknownMessageFormat(tag))
        }
    }

    /// Scans the receive buffer for the first checksum-valid frame and
    /// classifies its payload. Returns `Ok(None)` when no complete frame is
    /// in the buffer yet (the caller must append more bytes and retry),
    /// `Ok(Some((message, consumed)))` when the payload classifies, and the
    /// classifier's error otherwise. A structurally complete frame whose
    /// checksum does not match is skipped within the same call by resuming
    /// the search just past its marker.
    pub fn from_bin(data: &[u8]) -> (r: Result<Option<(Message, usize)>, ErrorKind>)
        ensures
            match scan_valid(data@, 0) {
                None => r matches Ok(msg) && msg is None,
                Some((payload, end)) => match r {
                    Ok(Some((m, c))) => c as int == end && message_decode(payload, Ok(m))
                        && message_wf(m),
                    Err(e) => message_decode(payload, Err(e)),
                    Ok(None) => false,
                },
            },
            match r {
                Ok(Some((m, c))) => c <= data@.len(),
                _ => true,
            },
            r matches Err(e) ==> is_decode_error(e),
    {
        let mut from: usize = 0;
        loop
            invariant
                from <= data@.len(),
                scan_valid(data@, 0) == scan_valid(data@, from as int),
            decreases data@.len() - from,
        {
            match scan_frame_from(data, from) {
                FrameScan::Incomplete => {
                    return Ok(None);
                },
                FrameScan::Frame { marker, payload, checksum, consumed } => {
                    proof {
                        lemma_raw_scan_bounds(data@, from as int);
                        lemma_scan_valid_bounds(data@, from as int);
                    }
                    let computed = Packet::new(payload.as_slice()).checksum();
                    if computed == checksum {
                        match Self::new(payload.as_slice()) {
                            Ok(m) => {
                                return Ok(Some((m, consumed)));
                            },
                            Err(e) => {
                                return Err(e);
                            },
                        }
                    } else {
                        from = marker + 2;
                    }
                },
            }
        }
    }

    fn classify_record_batch(data: &[u8]) -> (r: Result<Message, ErrorKind>)
        requires
            data@.len() >= 2,
            data@[0] == 0x05,
        ensures
            message_decode(data@, r),
    {
        let count = data[1] as usize;
        let mut items: Vec<RawRecordDataItem> = Vec::new();
        let mut i: usize = 0;
        while i < count
            invariant
                0 <= i <= count,
                count <= 255,
                data@.len() >= 2,
                data@[0] == 0x05,
                count == data@[1] as int,
                rec_items_decode(data@, 0, count as int) == rec_items_append(
                    items@,
                    rec_items_decode(data@, i as int, count as int),
                ),
            decreases count - i,
        {
            let off = 2 + i * 9;
            if data.len() < off + 9 {
                return Err(ErrorKind::TruncatedMessage);
            }
            let flags = data[off + 4];
            let ts_field = vstd::slice::slice_subrange(data, off + 5, off + 9);
            proof {
                assert(ts_field@ =~= data@.subrange(off + 5, off + 9));
            }
            let ts = match read_datetime(ts_field) {
                Ok(ts) => ts,
                Err(e) => {
                    return Err(e);
                },
            };
            let item = RawRecordDataItem {
                overload_neg: (flags & 0x02) != 0,
                overload_pos: (flags & 0x01) != 0,
                value_bits: le_u32(data[off], data[off + 1], data[off + 2], data[off + 3]),
                precision: (flags >> 4) as usize,
                timestamp: ts,
            };
            proof {
                let ghost prev = items@;
                let ghost rest = rec_items_decode(data@, i + 1, count as int);
                match rest {
                    Ok(tail) => {
                        assert(prev + (seq![item] + tail) =~= prev.push(item) + tail);
                    },
                    Err(_) => {},
                }
            }
            items.push(item);
            i = i + 1;
        }
        proof {
            assert(items@ + Seq::<RawRecordDataItem>::empty() =~= items@);
        }
        Ok(Message::RecordDataBatch(items))
    }
}

/// A marker pair begins at index `i` of `s`.
pub open spec fn marker_at(s: Seq<u8>, i: int) -> bool {
    0 <= i && i + 2 <= s.len() && s[i] == MARKER0 && s[i + 1] == MARKER1
}

/// Specification-level outcome of one structural scan.
pub enum RawScan {
    /// No structurally complete frame from the scan offset on.
    Incomplete,
    /// The first structurally complete frame: where its marker begins, its
    /// payload, its embedded (unvalidated) checksum, and the index just past
    /// its last byte.
    Frame { marker: int, payload: Seq<u8>, checksum: u16, end: int },
}

/// Scans `s` from `from` for the first structurally complete frame: a marker
/// pair, a little-endian length of at least 2 (the length covers the two
/// checksum bytes), and `length` further bytes. A marker whose length field
/// is below 2 cannot head a frame and is skipped as a false match.
pub open spec fn raw_scan(s: Seq<u8>, from: int) -> RawScan
    decreases s.len() - from,
    when 0 <= from
{
    if from + 2 > s.len() {
        RawScan::Incomplete
    } else if !marker_at(s, from) {
        raw_scan(s, from + 1)
    } else if from + 4 > s.len() {
        RawScan::Incomplete
    } else {
        let length = spec_le_u16(s[from + 2], s[from + 3]) as int;
        if length < 2 {
            raw_scan(s, from + 2)
        } else if from + 4 + length > s.len() {
            RawScan::Incomplete
        } else {
            RawScan::Frame {
                marker: from,
                payload: s.subrange(from + 4, from + 4 + length - 2),
                checksum: spec_le_u16(s[from + 4 + length - 2], s[from + 4 + length - 1]),
                end: from + 4 + length,
            }
        }
    }
}

/// Bounds of any frame the structural scan reports.
pub proof fn lemma_raw_scan_bounds(s: Seq<u8>, from: int)
    requires
        0 <= from,
    ensures
        raw_scan(s, from) matches RawScan::Frame { marker, payload, checksum, end } ==> from
            <= marker && marker + 6 <= end && end <= s.len() && payload == s.subrange(
            marker + 4,
            end - 2,
        ) && payload.len() == end - marker - 6,
    decreases s.len() - from,
{
    if from + 2 > s.len() {
    } else if !marker_at(s, from) {
        lemma_raw_scan_bounds(s, from + 1);
    } else if from + 4 > s.len() {
    } else {
        let length = spec_le_u16(s[from + 2], s[from + 3]) as int;
        if length < 2 {
            lemma_raw_scan_bounds(s, from + 2);
        }
    }
}

/// Scans `s` from `from` for the first checksum-valid frame: the structural
/// scan, validating each frame's checksum and resuming just past the marker
/// of every frame whose checksum does not match. Reports the valid frame's
/// payload and the index just past its last byte.
pub open spec fn scan_valid(s: Seq<u8>, from: int) -> Option<(Seq<u8>, int)>
    decreases s.len() - from,
    when 0 <= from
    via scan_valid_dec
{
    match raw_scan(s, from) {
        RawScan::Incomplete => None,
        RawScan::Frame { marker, payload, checksum, end } => {
            if checksum == checksum_spec(payload) {
                Some((payload, end))
            } else {
                scan_valid(s, marker + 2)
            }
        },
    }
}

#[via_fn]
proof fn scan_valid_dec(s: Seq<u8>, from: int) {
    lemma_raw_scan_bounds(s, from);
}

/// Whatever the checksum-validating scan reports fits inside the buffer.
pub proof fn lemma_scan_valid_bounds(s: Seq<u8>, from: int)
    requires
        0 <= from,
    ensures
        scan_valid(s, from) matches Some((payload, end)) ==> from <= end <= s.len(),
    decreases s.len() - from,
{
    lemma_raw_scan_bounds(s, from);
    match raw_scan(s, from) {
        RawScan::Incomplete => {},
        RawScan::Frame { marker, payload, checksum, end } => {
            if checksum != checksum_spec(payload) {
                lemma_scan_valid_bounds(s, marker + 2);
            }
        },
    }
}

/// The structural scan is unchanged by moving the offset across positions
/// where no marker begins.
pub proof fn lemma_raw_scan_skip(s: Seq<u8>, a: int, b: int)
    requires
        0 <= a <= b,
        forall|j: int| a <= j < b ==> !marker_at(s, j),
    ensures
        raw_scan(s, a) == raw_scan(s, b),
    decreases b - a,
{
    if a < b {
        lemma_raw_scan_skip(s, a + 1, b);
    }
}

/// The checksum-validating scan is likewise unchanged across positions where
/// no marker begins.
pub proof fn lemma_scan_valid_skip(s: Seq<u8>, a: int, b: int)
    requires
        0 <= a <= b,
        forall|j: int| a <= j < b ==> !marker_at(s, j),
    ensures
        scan_valid(s, a) == scan_valid(s, b),
{
    lemma_raw_scan_skip(s, a, b);
    assert(scan_valid(s, a) == scan_valid(s, b));
}

/// Outcome of one structural scan of a receive buffer.
pub enum FrameScan {
    /// No structurally complete frame is in the buffer yet: the caller must
    /// append more bytes and retry. Nothing is consumed.
    Incomplete,
    /// A structurally complete frame, its checksum not yet validated.
    Frame {
        /// Index where the frame's marker begins.
        marker: usize,
        /// The candidate payload.
        payload: Vec<u8>,
        /// The embedded checksum.
        checksum: u16,
        /// Bytes covered from the start of the buffer through the frame's
        /// last byte.
        consumed: usize,
    },
}

/// How an executable scan outcome realises the specification-level one.
pub open spec fn frame_scan_obeys(r: FrameScan, s: RawScan) -> bool {
    match s {
        RawScan::Incomplete => r is Incomplete,
        RawScan::Frame { marker, payload, checksum, end } => r matches FrameScan::Frame {
            marker: m,
            payload: p,
            checksum: c,
            consumed,
        } && m as int == marker && p@ == payload && c == checksum && consumed as int == end,
    }
}

/// Scans `data` for the first structurally complete frame, from the start of
/// the buffer. The frame's checksum is reported, not validated.
pub fn scan_frame(data: &[u8]) -> (r: FrameScan)
    ensures
        frame_scan_obeys(r, raw_scan(data@, 0)),
{
    scan_frame_from(data, 0)
}

/// Scans `data` from `from` for the first structurally complete frame.
pub fn scan_frame_from(data: &[u8], from: usize) -> (r: FrameScan)
    ensures
        frame_scan_obeys(r, raw_scan(data@, from as int)),
{
    let n = data.len();
    let mut i: usize = from;
    loop
        invariant
            n == data@.len(),
            raw_scan(data@, from as int) == raw_scan(data@, i as int),
        decreases n - i,
    {
        if n < 2 || i > n - 2 {
            return FrameScan::Incomplete;
        }
        if data[i] == MARKER0 && data[i + 1] == MARKER1 {
            if n - i < 4 {
                return FrameScan::Incomplete;
            }
            let length = le_u16(data[i + 2], data[i + 3]) as usize;
            if length < 2 {
                proof {
                    assert(raw_scan(data@, i as int) == raw_scan(data@, i + 2));
                }
                i = i + 2;
            } else if length > n - i - 4 {
                return FrameScan::Incomplete;
            } else {
                let payload = vstd::slice::slice_to_vec(
                    vstd::slice::slice_subrange(data, i + 4, i + 4 + length - 2),
                );
                let checksum = le_u16(data[i + 4 + length - 2], data[i + 4 + length - 1]);
                return FrameScan::Frame { marker: i, payload, checksum, consumed: i + 4 + length };
            }
        } else {
            proof {
                assert(!marker_at(data@, i as int));
            }
            i = i + 1;
        }
    }
}

/// The structural scan finds a frame that sits, byte for byte, at index `i`
/// of `s`, provided a marker begins there.
pub proof fn lemma_raw_scan_frame_at(s: Seq<u8>, i: int, p: Seq<u8>, c: u16)
    requires
        0 <= i,
        p.len() + 2 <= 0xFFFF,
        i + p.len() + 6 <= s.len(),
        s.subrange(i, i + p.len() + 6) == frame_bytes_with(p, c),
    ensures
        raw_scan(s, i) == (RawScan::Frame {
            marker: i,
            payload: p,
            checksum: c,
            end: i + p.len() + 6,
        }),
{
    let len: int = p.len() as int + 2;
    let f = frame_bytes_with(p, c);
    let sub = s.subrange(i, i + p.len() + 6);
    assert forall|k: int| 0 <= k < p.len() + 6 implies s[i + k] == #[trigger] f[k] by {
        assert(sub[k] == s[i + k]);
    }
    assert(f[0] == MARKER0);
    assert(s[i + 0] == f[0]);
    assert(s[i] == MARKER0);
    assert(f[1] == MARKER1);
    assert(s[i + 1] == f[1]);
    assert(marker_at(s, i));
    assert(f[2] == (len % 256) as u8);
    assert(f[3] == (len / 256 % 256) as u8);
    assert(s[i + 2] == f[2]);
    assert(s[i + 3] == f[3]);
    vstd::arithmetic::div_mod::lemma_fundamental_div_mod(len, 256);
    assert(len / 256 < 256) by {
        vstd::arithmetic::div_mod::lemma_div_is_ordered(len, 0xFFFF as int, 256);
    }
    assert(spec_le_u16(s[i + 2], s[i + 3]) == len);
    assert(f[(4 + p.len()) as int] == (c % 256) as u8);
    assert(f[(5 + p.len()) as int] == (c as int / 256) as u8);
    assert(s[i + (4 + p.len())] == f[(4 + p.len()) as int]);
    assert(s[i + (5 + p.len())] == f[(5 + p.len()) as int]);
    vstd::arithmetic::div_mod::lemma_fundamental_div_mod(c as int, 256);
    assert(c as int / 256 < 256) by {
        vstd::arithmetic::div_mod::lemma_div_is_ordered(c as int, 0xFFFF as int, 256);
    }
    assert(spec_le_u16(s[i + 4 + len - 2], s[i + 4 + len - 1]) == c);
    assert forall|k: int| 0 <= k < p.len() implies s.subrange(i + 4, i + 4 + len - 2)[k] == p[k] by {
        assert(s[i + (4 + k)] == f[4 + k]);
        assert(f[4 + k] == p[k]);
    }
    assert(s.subrange(i + 4, i + 4 + len - 2) =~= p);
}

/// The two halves of a concatenation, recovered by subrange.
proof fn lemma_concat_parts(a: Seq<u8>, b: Seq<u8>)
    ensures
        (a + b).subrange(0, a.len() as int) == a,
        (a + b).subrange(a.len() as int, (a + b).len() as int) == b,
{
    assert((a + b).subrange(0, a.len() as int) =~= a);
    assert((a + b).subrange(a.len() as int, (a + b).len() as int) =~= b);
}

/// The checksum-validating scan accepts a correct frame that sits, byte for
/// byte, at index `i` of `s`.
proof fn lemma_scan_valid_frame_at(s: Seq<u8>, i: int, p: Seq<u8>)
    requires
        0 <= i,
        p.len() + 2 <= 0xFFFF,
        i + p.len() + 6 <= s.len(),
        s.subrange(i, i + p.len() + 6) == frame_bytes(p),
    ensures
        scan_valid(s, i) == Some((p, i + p.len() + 6)),
{
    lemma_raw_scan_frame_at(s, i, p, checksum_spec(p));
}

/// Any payload framed by the codec scans back to exactly that payload,
/// consuming exactly its length plus the six framing bytes.
pub proof fn lemma_frame_round_trip(p: Seq<u8>)
    requires
        p.len() + 2 <= 0xFFFF,
    ensures
        scan_valid(frame_bytes(p), 0) == Some((p, (p.len() + 6) as int)),
{
    let s = frame_bytes(p);
    assert(s.subrange(0, (p.len() + 6) as int) =~= s);
    lemma_scan_valid_frame_at(s, 0, p);
}

/// A frame preceded by marker-free garbage and followed by arbitrary
/// trailing bytes still decodes to its payload: the scan consumes the
/// garbage and the frame, and leaves exactly the trailing bytes.
pub proof fn lemma_scan_with_surroundings(g: Seq<u8>, p: Seq<u8>, t: Seq<u8>)
    requires
        p.len() + 2 <= 0xFFFF,
        forall|j: int| 0 <= j < g.len() - 1 ==> !((#[trigger] g[j]) == MARKER0 && g[j + 1] == MARKER1),
    ensures
        scan_valid(g + frame_bytes(p) + t, 0) == Some((p, (g.len() + p.len() + 6) as int)),
        (g + frame_bytes(p) + t).subrange(
            (g.len() + p.len() + 6) as int,
            (g + frame_bytes(p) + t).len() as int,
        ) =~= t,
{
    let s = g + frame_bytes(p) + t;
    assert forall|j: int| 0 <= j < g.len() implies !marker_at(s, j) by {
        if j < g.len() - 1 {
            assert(s[j] == g[j]);
            assert(s[j + 1] == g[j + 1]);
        } else {
            assert(s[j + 1] == frame_bytes(p)[0]);
        }
    }
    lemma_scan_valid_skip(s, 0, g.len() as int);
    assert(s.subrange(g.len() as int, (g.len() + p.len() + 6) as int) =~= frame_bytes(p));
    lemma_scan_valid_frame_at(s, g.len() as int, p);
}

/// A structurally complete frame whose embedded checksum is wrong, followed
/// by a valid frame, scans to the second frame's payload: the scanner skips
/// the corrupt frame within one call.
pub proof fn lemma_scan_skips_corrupt_frame(p1: Seq<u8>, c: u16, p2: Seq<u8>)
    requires
        c != checksum_spec(p1),
        p1.len() + 2 <= 0xFFFF,
        p2.len() + 2 <= 0xFFFF,
        forall|j: int|
            2 <= j < frame_bytes_with(p1, c).len() - 1 ==> !((#[trigger] frame_bytes_with(p1, c)[j])
                == MARKER0 && frame_bytes_with(p1, c)[j + 1] == MARKER1),
    ensures
        scan_valid(frame_bytes_with(p1, c) + frame_bytes(p2), 0) == Some(
            (p2, (p1.len() + p2.len() + 12) as int),
        ),
{
    let bad = frame_bytes_with(p1, c);
    let f2 = frame_bytes(p2);
    let s = bad + f2;
    lemma_concat_parts(bad, f2);
    lemma_raw_scan_frame_at(s, 0, p1, c);
    assert(scan_valid(s, 0) == scan_valid(s, 2));
    assert forall|j: int| 2 <= j < bad.len() implies !marker_at(s, j) by {
        if j < bad.len() - 1 {
            assert(s[j] == bad[j]);
            assert(s[j + 1] == bad[j + 1]);
        } else {
            assert(s[j + 1] == f2[0]);
            assert(f2[0] == MARKER0);
        }
    }
    lemma_scan_valid_skip(s, 2, bad.len() as int);
    lemma_scan_valid_frame_at(s, bad.len() as int, p2);
}

/// A buffer whose first marker heads a frame that declares more bytes than
/// the buffer yet holds scans to "incomplete": no error, and nothing is
/// consumed.
pub proof fn lemma_scan_incomplete(s: Seq<u8>, i: int)
    requires
        0 <= i,
        marker_at(s, i),
        forall|j: int| 0 <= j < i ==> !marker_at(s, j),
        i + 4 > s.len() || (spec_le_u16(s[i + 2], s[i + 3]) >= 2 && i + 4 + spec_le_u16(
            s[i + 2],
            s[i + 3],
        ) > s.len()),
    ensures
        scan_valid(s, 0) == None::<(Seq<u8>, int)>,
{
    lemma_scan_valid_skip(s, 0, i);
}

} // verus!
