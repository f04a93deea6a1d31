//! Protocol engine for a handheld digital multimeter that talks over a raw
//! byte-stream transport.
//!
//! The crate frames outgoing command payloads, locates and validates frames
//! inside a noisy receive stream, decodes the typed messages a device sends
//! back, and drives a deadline-bounded command/response session over a
//! caller-supplied transport.

use vstd::prelude::*;
use vstd::string::StringSliceAdditionalSpecFns;

pub mod error;
pub mod measurement;
pub mod message;
pub mod mode;
pub mod packet;
pub mod range;
pub mod rec_data;
pub mod rec_info;
pub mod unit;
pub mod utils;
pub mod value;

pub use error::{ErrorKind, TransportError};
pub use measurement::Measurement;
pub use message::Message;
pub use mode::Mode;
pub use range::Range;
pub use rec_data::RecordDataItem;
pub use rec_info::RecordInfo;
pub use unit::{Unit, UnitExp};
pub use utils::DateTime;
pub use value::Value;

use crate::error::is_command_error;
use crate::message::{message_decode, message_wf, scan_valid, RawRecordDataItem};
use crate::mode::mode_code;
use crate::packet::Packet;
use crate::range::range_code;
use crate::utils::{spec_allowed_char, spec_le_u16};

verus! {

/// Deadline of one wait, in milliseconds, re-armed per call.
pub const WAIT_TIMEOUT_MS: u64 = 5000;

/// Bytes asked of the transport per read while awaiting a frame.
pub const READ_CHUNK: usize = 64;

/// The byte-stream transport a session drives: a bounded-timeout read, a
/// bounded-timeout write, and a millisecond clock for the wait deadline.
///
/// Nothing is assumed of an implementation: the engine's contracts hold
/// whatever bytes or clock readings come back. Transport failures are the
/// opaque [`TransportError`], so that an implementation cannot inject the
/// engine's own error kinds.
pub trait Transport {
    /// Reads up to `max` bytes, returning whatever arrived within the
    /// transport's own short timeout; zero bytes is not an error.
    fn read(&mut self, max: usize) -> Result<Vec<u8>, TransportError>;

    /// Writes all of `data`, blocking up to the transport's own timeout.
    fn write(&mut self, data: &[u8]) -> Result<(), TransportError>;

    /// A reading of a monotonic millisecond clock.
    fn now_ms(&mut self) -> u64;
}

/// One command/response session with a device: owns the transport and the
/// receive buffer, issues request frames, and drives the frame scanner in a
/// deadline-bounded loop. Exactly one command may be in flight at a time.
pub struct Dmm<T: Transport> {
    transport: T,
    rx_buf: Vec<u8>,
}

// Request bodies of the command opcode table. Each builder returns exactly
// the payload that is framed and sent for its operation.

/// Hold toggle: opcode 0x12 with its fixed second byte.
fn toggle_hold_request() -> (r: Vec<u8>)
    ensures
        r@ == seq![0x12u8, 0x5Au8],
{
    vec![0x12u8, 0x5A]
}

/// Save the current measurement: opcode 0x06.
fn save_request() -> (r: Vec<u8>)
    ensures
        r@ == seq![0x06u8],
{
    vec![0x06u8]
}

/// Ask for the saved-measurement count: opcode 0x08.
fn save_count_request() -> (r: Vec<u8>)
    ensures
        r@ == seq![0x08u8],
{
    vec![0x08u8]
}

/// Read the saved measurement with index `n`: opcode 0x07, index
/// little-endian.
fn get_save_request(n: u16) -> (r: Vec<u8>)
    ensures
        r@ == seq![0x07u8, n as u8, (n / 256) as u8],
{
    vec![0x07u8, n as u8, (n / 256) as u8]
}

/// Delete the saved measurement with index `index` (0xFFFF deletes all):
/// opcode 0x09, index little-endian.
fn delete_save_request(index: u16) -> (r: Vec<u8>)
    ensures
        r@ == seq![0x09u8, index as u8, (index / 256) as u8],
{
    vec![0x09u8, index as u8, (index / 256) as u8]
}

/// Turn Min/Max mode on or off: opcode 0x04 and a flag byte.
fn min_max_request(on: bool) -> (r: Vec<u8>)
    ensures
        r@ == seq![0x04u8, (if on { 1u8 } else { 0u8 })],
{
    if on {
        vec![0x04u8, 0x01]
    } else {
        vec![0x04u8, 0x00]
    }
}

/// Set the measuring range: opcode 0x02 and the range's wire byte.
fn set_range_request(range: Range) -> (r: Vec<u8>)
    ensures
        r@ == seq![0x02u8, range_code(range)],
{
    vec![0x02u8, range.to_bin()]
}

/// Set the relative-mode reference value: opcode 0x03 and the value's
/// 32-bit float bit pattern, little-endian.
fn set_reference_request(bits: u32) -> (r: Vec<u8>)
    ensures
        r@ == seq![
            0x03u8,
            bits as u8,
            (bits / 0x100 % 256) as u8,
            (bits / 0x1_0000 % 256) as u8,
            (bits / 0x100_0000 % 256) as u8,
        ],
{
    vec![
        0x03u8,
        bits as u8,
        (bits / 0x100 % 256) as u8,
        (bits / 0x1_0000 % 256) as u8,
        (bits / 0x100_0000 % 256) as u8,
    ]
}

/// Set the measuring mode: opcode 0x01 and the mode's code, little-endian.
fn set_mode_request(mode: Mode) -> (r: Vec<u8>)
    ensures
        r@ == seq![0x01u8, mode_code(mode) as u8, (mode_code(mode) / 256) as u8],
{
    let b = mode.to_bin();
    vec![0x01u8, b[0], b[1]]
}

/// Ask for the record count: opcode 0x0E.
fn record_count_request() -> (r: Vec<u8>)
    ensures
        r@ == seq![0x0Eu8],
{
    vec![0x0Eu8]
}

/// Read the metadata of record `i`: opcode 0x0C, index little-endian.
fn record_info_request(i: u16) -> (r: Vec<u8>)
    ensures
        r@ == seq![0x0Cu8, i as u8, (i / 256) as u8],
{
    vec![0x0Cu8, i as u8, (i / 256) as u8]
}

/// Read one batch of record `i`'s samples from item cursor `offset`:
/// opcode 0x0D, index little-endian, then the 32-bit cursor little-endian.
fn record_data_request(i: u16, offset: u32) -> (r: Vec<u8>)
    ensures
        r@ == seq![
            0x0Du8,
            i as u8,
            (i / 256) as u8,
            offset as u8,
            (offset / 0x100 % 256) as u8,
            (offset / 0x1_0000 % 256) as u8,
            (offset / 0x100_0000 % 256) as u8,
        ],
{
    vec![
        0x0Du8,
        i as u8,
        (i / 256) as u8,
        offset as u8,
        (offset / 0x100 % 256) as u8,
        (offset / 0x1_0000 % 256) as u8,
        (offset / 0x100_0000 % 256) as u8,
    ]
}

/// Stop the recording in progress: opcode 0x0B.
fn stop_record_request() -> (r: Vec<u8>)
    ensures
        r@ == seq![0x0Bu8],
{
    vec![0x0Bu8]
}

/// Turn monitoring mode on or off: opcode 0x05 and a flag byte.
fn monitor_request(on: bool) -> (r: Vec<u8>)
    ensures
        r@ == seq![0x05u8, (if on { 1u8 } else { 0u8 })],
{
    if on {
        vec![0x05u8, 0x01]
    } else {
        vec![0x05u8, 0x00]
    }
}

/// The request body that starts a recording: opcode 0x0A, the name in an
/// 11-byte NUL-padded field, a 16-bit interval in seconds, and a 32-bit
/// duration in minutes, both little-endian.
pub open spec fn start_record_request(name: Seq<u8>, interval: u16, duration: u32) -> Seq<u8> {
    Seq::new(
        18,
        |i: int|
            if i == 0 {
                0x0Au8
            } else if 1 <= i <= name.len() {
                name[i - 1]
            } else if i < 12 {
                0u8
            } else if i == 12 {
                interval as u8
            } else if i == 13 {
                (interval / 256) as u8
            } else if i == 14 {
                duration as u8
            } else if i == 15 {
                (duration / 0x100 % 256) as u8
            } else if i == 16 {
                (duration / 0x1_0000 % 256) as u8
            } else {
                (duration / 0x100_0000 % 256) as u8
            },
    )
}

/// A character outside the seven-bit range is not printable ASCII.
proof fn lemma_non_ascii_char_not_allowed(c: char)
    requires
        !('\0' <= c && c <= '\u{7f}'),
    ensures
        !spec_allowed_char(c),
{
    assert('\0' as u32 <= c as u32);
    assert('\0' <= c);
    assert(c > '\u{7f}');
    assert(c as u32 > 0x7F);
}

/// Builds the start-recording request body.
fn build_start_record_request(name: &[u8], interval: u16, duration: u32) -> (r: Vec<u8>)
    requires
        name@.len() <= 10,
    ensures
        r@ == start_record_request(name@, interval, duration),
{
    let mut cmd: Vec<u8> = Vec::new();
    cmd.push(0x0A);
    let mut i: usize = 0;
    while i < name.len()
        invariant
            i <= name@.len() <= 10,
            cmd@.len() == 1 + i,
            cmd@[0] == 0x0Au8,
            forall|j: int| 1 <= j <= i ==> cmd@[j] == name@[j - 1],
        decreases name@.len() - i,
    {
        cmd.push(name[i]);
        i = i + 1;
    }
    let mut k: usize = name.len();
    while k < 11
        invariant
            name@.len() <= k <= 11,
            cmd@.len() == 1 + k,
            cmd@[0] == 0x0Au8,
            forall|j: int| 1 <= j <= name@.len() ==> cmd@[j] == name@[j - 1],
            forall|j: int| name@.len() < j <= k ==> cmd@[j] == 0u8,
        decreases 11 - k,
    {
        cmd.push(0);
        k = k + 1;
    }
    cmd.push(interval as u8);
    cmd.push((interval / 256) as u8);
    cmd.push(duration as u8);
    cmd.push((duration / 0x100 % 256) as u8);
    cmd.push((duration / 0x1_0000 % 256) as u8);
    cmd.push((duration / 0x100_0000 % 256) as u8);
    proof {
        assert(cmd@ =~= start_record_request(name@, interval, duration));
    }
    cmd
}

/// The 16-bit count in a counter reply's body: little-endian in its first
/// two bytes, or a truncation diagnostic when the body is shorter.
fn parse_count_reply(reply: &Vec<u8>) -> (r: Result<u16, ErrorKind>)
    ensures
        reply@.len() < 2 ==> r == Err::<u16, ErrorKind>(ErrorKind::TruncatedMessage),
        reply@.len() >= 2 ==> r == Ok::<u16, ErrorKind>(spec_le_u16(reply@[0], reply@[1])),
{
    if reply.len() < 2 {
        return Err(ErrorKind::TruncatedMessage);
    }
    Ok(crate::utils::le_u16(reply[0], reply[1]))
}

/// One retrieved sample: a raw batch item paired with the record's unit.
pub open spec fn sample_with_unit(item: RawRecordDataItem, unit: UnitExp) -> RecordDataItem {
    RecordDataItem {
        value: Value {
            overload_neg: item.overload_neg,
            overload_pos: item.overload_pos,
            value_bits: item.value_bits,
            precision: Some(item.precision),
            unit,
        },
        timestamp: item.timestamp,
    }
}

/// Appends one batch to the accumulated samples, in order, pairing each raw
/// item with the record's unit.
fn append_batch(items: &mut Vec<RecordDataItem>, batch: &Vec<RawRecordDataItem>, unit: UnitExp)
    ensures
        final(items)@ == old(items)@ + batch@.map_values(
            |it: RawRecordDataItem| sample_with_unit(it, unit),
        ),
{
    let n = batch.len();
    let mut k: usize = 0;
    while k < n
        invariant
            k <= n == batch@.len(),
            items@ == old(items)@ + batch@.take(k as int).map_values(
                |it: RawRecordDataItem| sample_with_unit(it, unit),
            ),
        decreases n - k,
    {
        let item = batch[k];
        items.push(
            RecordDataItem {
                value: Value {
                    overload_neg: item.overload_neg,
                    overload_pos: item.overload_pos,
                    value_bits: item.value_bits,
                    precision: Some(item.precision),
                    unit,
                },
                timestamp: item.timestamp,
            },
        );
        proof {
            assert(items@ =~= old(items)@ + batch@.take(k + 1).map_values(
                |it: RawRecordDataItem| sample_with_unit(it, unit),
            ));
        }
        k = k + 1;
    }
    proof {
        assert(batch@.take(n as int) =~= batch@);
    }
}

/// `new_buf` is `old_buf` with `appended` added at its tail: the buffer has
/// only grown, nothing of it was consumed.
pub open spec fn buffer_extended(old_buf: Seq<u8>, appended: Seq<u8>, new_buf: Seq<u8>) -> bool {
    new_buf == old_buf + appended
}

/// What one successful read yields: with `appended` the bytes joined to the
/// buffer during the call, the message classifies the payload of the first
/// checksum-valid frame of the extended buffer, and exactly that frame's
/// bytes (and what preceded it) are consumed.
pub open spec fn read_outcome(
    old_buf: Seq<u8>,
    appended: Seq<u8>,
    m: Message,
    new_buf: Seq<u8>,
) -> bool {
    match scan_valid(old_buf + appended, 0) {
        Some((payload, end)) => message_decode(payload, Ok(m)) && new_buf == (old_buf
            + appended).skip(end),
        None => false,
    }
}

impl<T: Transport> Dmm<T> {
    /// Opens a session over `transport`, with an empty receive buffer whose
    /// capacity is pre-reserved.
    pub fn new(transport: T) -> (r: Dmm<T>) {
        Dmm { transport, rx_buf: Vec::with_capacity(4096) }
    }

    /// Frames `payload` and writes it to the transport; a write failure is
    /// reported as a command-write error carrying the command's name.
    fn write_cmd(&mut self, payload: &[u8], name: &'static str) -> (r: Result<(), ErrorKind>)
        requires
            payload@.len() + 2 <= 0xFFFF,
        ensures
            r matches Err(e) ==> e == ErrorKind::CommandWrite(name),
    {
        let frame = Packet::new(payload).frame();
        match self.transport.write(frame.as_slice()) {
            Ok(()) => Ok(()),
            Err(_) => Err(ErrorKind::CommandWrite(name)),
        }
    }

    /// Drops the first `consumed` bytes of the receive buffer, keeping the
    /// unconsumed remainder for the next scan.
    fn compact(&mut self, consumed: usize)
        requires
            consumed <= old(self).rx_buf@.len(),
        ensures
            final(self).rx_buf@ == old(self).rx_buf@.skip(consumed as int),
            final(self).transport == old(self).transport,
    {
        let n = self.rx_buf.len();
        let mut kept: Vec<u8> = Vec::with_capacity(4096);
        let mut k: usize = consumed;
        while k < n
            invariant
                consumed <= k <= n,
                n == self.rx_buf@.len(),
                self.rx_buf@ == old(self).rx_buf@,
                self.transport == old(self).transport,
                kept@ == self.rx_buf@.subrange(consumed as int, k as int),
            decreases n - k,
        {
            kept.push(self.rx_buf[k]);
            proof {
                assert(kept@ =~= self.rx_buf@.subrange(consumed as int, k + 1));
            }
            k = k + 1;
        }
        proof {
            assert(kept@ =~= self.rx_buf@.skip(consumed as int));
        }
        self.rx_buf = kept;
    }

    /// Returns the first message from the device: scans the receive buffer,
    /// appending one bounded transport read whenever no complete frame is
    /// buffered yet, until a message decodes or the deadline elapses.
    ///
    /// On success, the message classifies the payload of the first
    /// checksum-valid frame of the buffer extended by the bytes read during
    /// the call, and the buffer is compacted to exactly what follows that
    /// frame. On any failure nothing is consumed: the buffer has only grown
    /// at its tail, so partial frames persist for later calls.
    ///
    /// Each wait loop here carries an iteration budget as its termination
    /// measure; only the deadline decides in practice, since a transport
    /// query takes real time while the budget would take centuries to spend.
    pub(crate) fn read_message(&mut self) -> (r: Result<Message, ErrorKind>)
        ensures
            r matches Ok(m) ==> message_wf(m) && exists|appended: Seq<u8>|
                #[trigger] read_outcome(old(self).rx_buf@, appended, m, final(self).rx_buf@),
            r matches Err(e) ==> (e == ErrorKind::WaitTimeout || e == ErrorKind::Transport
                || crate::error::is_decode_error(e)) && exists|appended: Seq<u8>|
                #[trigger] buffer_extended(old(self).rx_buf@, appended, final(self).rx_buf@),
    {
        let start = self.transport.now_ms();
        let ghost mut appended: Seq<u8> = Seq::empty();
        proof {
            assert(self.rx_buf@ =~= old(self).rx_buf@ + appended);
        }
        let mut fuel: u64 = u64::MAX;
        loop
            invariant
                self.rx_buf@ == old(self).rx_buf@ + appended,
            decreases fuel,
        {
            let now = self.transport.now_ms();
            if fuel == 0 || (now >= start && now - start > WAIT_TIMEOUT_MS) {
                proof {
                    assert(buffer_extended(old(self).rx_buf@, appended, self.rx_buf@));
                }
                return Err(ErrorKind::WaitTimeout);
            }
            fuel = fuel - 1;
            match Message::from_bin(self.rx_buf.as_slice()) {
                Err(e) => {
                    proof {
                        assert(buffer_extended(old(self).rx_buf@, appended, self.rx_buf@));
                    }
                    return Err(e);
                },
                Ok(Some((msg, consumed))) => {
                    self.compact(consumed);
                    proof {
                        assert(read_outcome(old(self).rx_buf@, appended, msg, self.rx_buf@));
                    }
                    return Ok(msg);
                },
                Ok(None) => {
                    let chunk = match self.transport.read(READ_CHUNK) {
                        Ok(c) => c,
                        Err(_) => {
                            proof {
                                assert(buffer_extended(old(self).rx_buf@, appended, self.rx_buf@));
                            }
                            return Err(ErrorKind::Transport);
                        },
                    };
                    self.rx_buf.extend_from_slice(chunk.as_slice());
                    proof {
                        appended = appended + chunk@;
                        assert(self.rx_buf@ =~= old(self).rx_buf@ + appended);
                    }
                },
            }
        }
    }

    /// Waits for a Success acknowledgement, discarding unrelated messages; a
    /// device-reported error fails as a command error.
    fn wait_success(&mut self) -> (r: Result<(), ErrorKind>)
        ensures
            r matches Err(e) ==> is_command_error(e),
    {
        let start = self.transport.now_ms();
        let mut fuel: u64 = u64::MAX;
        loop
            decreases fuel,
        {
            let now = self.transport.now_ms();
            if fuel == 0 || (now >= start && now - start > WAIT_TIMEOUT_MS) {
                return Err(ErrorKind::WaitTimeout);
            }
            fuel = fuel - 1;
            match self.read_message() {
                Err(e) => {
                    return Err(e);
                },
                Ok(Message::DeviceError) => {
                    return Err(ErrorKind::CommandError);
                },
                Ok(Message::Success) => {
                    return Ok(());
                },
                Ok(_) => {},
            }
        }
    }

    /// Waits for a measurement, discarding unrelated messages.
    fn wait_measurement(&mut self) -> (r: Result<Measurement, ErrorKind>)
        ensures
            r matches Err(e) ==> is_command_error(e),
    {
        let start = self.transport.now_ms();
        let mut fuel: u64 = u64::MAX;
        loop
            decreases fuel,
        {
            let now = self.transport.now_ms();
            if fuel == 0 || (now >= start && now - start > WAIT_TIMEOUT_MS) {
                return Err(ErrorKind::WaitTimeout);
            }
            fuel = fuel - 1;
            match self.read_message() {
                Err(e) => {
                    return Err(e);
                },
                Ok(Message::DeviceError) => {
                    return Err(ErrorKind::CommandError);
                },
                Ok(Message::Measurement(m)) => {
                    return Ok(m);
                },
                Ok(_) => {},
            }
        }
    }

    /// Waits for a Success acknowledgement or a measurement, whichever
    /// arrives first.
    fn wait_success_or_measurement(&mut self) -> (r: Result<(), ErrorKind>)
        ensures
            r matches Err(e) ==> is_command_error(e),
    {
        let start = self.transport.now_ms();
        let mut fuel: u64 = u64::MAX;
        loop
            decreases fuel,
        {
            let now = self.transport.now_ms();
            if fuel == 0 || (now >= start && now - start > WAIT_TIMEOUT_MS) {
                return Err(ErrorKind::WaitTimeout);
            }
            fuel = fuel - 1;
            match self.read_message() {
                Err(e) => {
                    return Err(e);
                },
                Ok(Message::DeviceError) => {
                    return Err(ErrorKind::CommandError);
                },
                Ok(Message::Success) => {
                    return Ok(());
                },
                Ok(Message::Measurement(_)) => {
                    return Ok(());
                },
                Ok(_) => {},
            }
        }
    }

    /// Waits for a raw reply whose first byte echoes `cmd` and returns the
    /// rest of its body; replies to other commands are discarded.
    fn wait_reply(&mut self, cmd: u8) -> (r: Result<Vec<u8>, ErrorKind>)
        ensures
            r matches Err(e) ==> is_command_error(e),
    {
        let start = self.transport.now_ms();
        let mut fuel: u64 = u64::MAX;
        loop
            decreases fuel,
        {
            let now = self.transport.now_ms();
            if fuel == 0 || (now >= start && now - start > WAIT_TIMEOUT_MS) {
                return Err(ErrorKind::WaitTimeout);
            }
            fuel = fuel - 1;
            match self.read_message() {
                Err(e) => {
                    return Err(e);
                },
                Ok(Message::DeviceError) => {
                    return Err(ErrorKind::CommandError);
                },
                Ok(Message::Reply(data)) => {
                    if data.len() >= 1 && data[0] == cmd {
                        let body = vstd::slice::slice_subrange(data.as_slice(), 1, data.len());
                        return Ok(vstd::slice::slice_to_vec(body));
                    }
                },
                Ok(_) => {},
            }
        }
    }

    /// Waits for a saved measurement with its timestamp.
    fn wait_save(&mut self) -> (r: Result<(DateTime, Measurement), ErrorKind>)
        ensures
            r matches Ok((dt, _)) ==> dt.valid(),
            r matches Err(e) ==> is_command_error(e),
    {
        let start = self.transport.now_ms();
        let mut fuel: u64 = u64::MAX;
        loop
            decreases fuel,
        {
            let now = self.transport.now_ms();
            if fuel == 0 || (now >= start && now - start > WAIT_TIMEOUT_MS) {
                return Err(ErrorKind::WaitTimeout);
            }
            fuel = fuel - 1;
            match self.read_message() {
                Err(e) => {
                    return Err(e);
                },
                Ok(Message::DeviceError) => {
                    return Err(ErrorKind::CommandError);
                },
                Ok(Message::SavedMeasurement(dt, m)) => {
                    return Ok((dt, m));
                },
                Ok(_) => {},
            }
        }
    }

    /// Waits for record metadata.
    fn wait_record_info(&mut self) -> (r: Result<RecordInfo, ErrorKind>)
        ensures
            r matches Ok(info) ==> info.start.valid(),
            r matches Err(e) ==> is_command_error(e),
    {
        let start = self.transport.now_ms();
        let mut fuel: u64 = u64::MAX;
        loop
            decreases fuel,
        {
            let now = self.transport.now_ms();
            if fuel == 0 || (now >= start && now - start > WAIT_TIMEOUT_MS) {
                return Err(ErrorKind::WaitTimeout);
            }
            fuel = fuel - 1;
            match self.read_message() {
                Err(e) => {
                    return Err(e);
                },
                Ok(Message::DeviceError) => {
                    return Err(ErrorKind::CommandError);
                },
                Ok(Message::RecordInfo(info)) => {
                    return Ok(info);
                },
                Ok(_) => {},
            }
        }
    }

    /// Waits for one batch of recording samples.
    fn wait_record_data(&mut self) -> (r: Result<Vec<RawRecordDataItem>, ErrorKind>)
        ensures
            r matches Ok(items) ==> forall|i: int|
                0 <= i < items@.len() ==> (#[trigger] items@[i]).timestamp.valid(),
            r matches Err(e) ==> is_command_error(e),
    {
        let start = self.transport.now_ms();
        let mut fuel: u64 = u64::MAX;
        loop
            decreases fuel,
        {
            let now = self.transport.now_ms();
            if fuel == 0 || (now >= start && now - start > WAIT_TIMEOUT_MS) {
                return Err(ErrorKind::WaitTimeout);
            }
            fuel = fuel - 1;
            match self.read_message() {
                Err(e) => {
                    return Err(e);
                },
                Ok(Message::DeviceError) => {
                    return Err(ErrorKind::CommandError);
                },
                Ok(Message::RecordDataBatch(items)) => {
                    return Ok(items);
                },
                Ok(_) => {},
            }
        }
    }

    /// Emulates the 'Hold' button: sends the toggle-hold request and waits
    /// for the acknowledgement.
    pub fn toggle_hold(&mut self) -> (r: Result<(), ErrorKind>)
        ensures
            r matches Err(e) ==> is_command_error(e),
    {
        let cmd = toggle_hold_request();
        match self.write_cmd(cmd.as_slice(), "TOGGLE_HOLD") {
            Ok(()) => {},
            Err(e) => {
                return Err(e);
            },
        }
        self.wait_success()
    }

    /// Saves the current measurement in the device's memory.
    pub fn save_measurement(&mut self) -> (r: Result<(), ErrorKind>)
        ensures
            r matches Err(e) ==> is_command_error(e),
    {
        let cmd = save_request();
        match self.write_cmd(cmd.as_slice(), "SAVE") {
            Ok(()) => {},
            Err(e) => {
                return Err(e);
            },
        }
        self.wait_success()
    }

    /// Asks how many measurements are saved: the count is read little-endian
    /// from the body of the reply that echoes the request's opcode.
    pub fn get_saved_measurement_count(&mut self) -> (r: Result<u16, ErrorKind>)
        ensures
            r matches Err(e) ==> is_command_error(e),
    {
        let cmd = save_count_request();
        match self.write_cmd(cmd.as_slice(), "GET_SAVE_COUNT") {
            Ok(()) => {},
            Err(e) => {
                return Err(e);
            },
        }
        let reply = match self.wait_reply(0x08) {
            Ok(data) => data,
            Err(e) => {
                return Err(e);
            },
        };
        parse_count_reply(&reply)
    }

    /// Retrieves the saved measurement with index `n` (1..=0xFFFE), with the
    /// moment it was saved. An out-of-range index fails before any I/O.
    pub fn get_saved_measurement(&mut self, n: u16) -> (r: Result<
        (DateTime, Measurement),
        ErrorKind,
    >)
        ensures
            !(1 <= n <= 0xFFFE) ==> r == Err::<(DateTime, Measurement), ErrorKind>(
                ErrorKind::OutOfRange,
            ) && *final(self) == *old(self),
            1 <= n <= 0xFFFE ==> (r matches Err(e) ==> is_command_error(e)),
            r matches Ok((dt, _)) ==> dt.valid(),
    {
        if n < 1 || n > 0xFFFE {
            return Err(ErrorKind::OutOfRange);
        }
        let cmd = get_save_request(n);
        match self.write_cmd(cmd.as_slice(), "GET_SAVE") {
            Ok(()) => {},
            Err(e) => {
                return Err(e);
            },
        }
        self.wait_save()
    }

    /// Deletes the saved measurement with index `index` (1..=0xFFFE). An
    /// out-of-range index fails before any I/O; a valid one never fails with
    /// a validation error.
    pub fn delete_saved_measurement(&mut self, index: u16) -> (r: Result<(), ErrorKind>)
        ensures
            !(1 <= index <= 0xFFFE) ==> r == Err::<(), ErrorKind>(ErrorKind::OutOfRange)
                && *final(self) == *old(self),
            1 <= index <= 0xFFFE ==> (r matches Err(e) ==> is_command_error(e)),
    {
        if index < 1 || index > 0xFFFE {
            return Err(ErrorKind::OutOfRange);
        }
        self.delete_save_index(index)
    }

    /// Deletes every saved measurement: the device accepts the reserved
    /// sentinel index 0xFFFF, outside the range validated for single
    /// deletion, as "delete all". Never fails with a validation error.
    pub fn delete_all_saved_measurement(&mut self) -> (r: Result<(), ErrorKind>)
        ensures
            r matches Err(e) ==> is_command_error(e),
    {
        self.delete_save_index(0xFFFF)
    }

    fn delete_save_index(&mut self, index: u16) -> (r: Result<(), ErrorKind>)
        ensures
            r matches Err(e) ==> is_command_error(e),
    {
        let cmd = delete_save_request(index);
        match self.write_cmd(cmd.as_slice(), "DELETE_SAVE") {
            Ok(()) => {},
            Err(e) => {
                return Err(e);
            },
        }
        self.wait_success()
    }

    /// Turns Min/Max mode on or off. Turning it on again resets the
    /// min/max/average values.
    pub fn set_min_max_mode(&mut self, on: bool) -> (r: Result<(), ErrorKind>)
        ensures
            r matches Err(e) ==> is_command_error(e),
    {
        let cmd = min_max_request(on);
        match self.write_cmd(cmd.as_slice(), "SET_MIN_MAX_MODE") {
            Ok(()) => {},
            Err(e) => {
                return Err(e);
            },
        }
        self.wait_success()
    }

    /// Sets the measuring range. A step the current mode does not offer
    /// switches the device to the next range instead.
    pub fn set_range(&mut self, range: Range) -> (r: Result<(), ErrorKind>)
        ensures
            r matches Err(e) ==> is_command_error(e),
    {
        let cmd = set_range_request(range);
        match self.write_cmd(cmd.as_slice(), "SET_RANGE") {
            Ok(()) => {},
            Err(e) => {
                return Err(e);
            },
        }
        self.wait_success()
    }

    /// Sets the reference value used in relative measuring mode. The value
    /// is the little-endian bit pattern of a 32-bit IEEE 754 float.
    pub fn set_reference_value(&mut self, value_bits: u32) -> (r: Result<(), ErrorKind>)
        ensures
            r matches Err(e) ==> is_command_error(e),
    {
        let cmd = set_reference_request(value_bits);
        match self.write_cmd(cmd.as_slice(), "SET_REFERENCE") {
            Ok(()) => {},
            Err(e) => {
                return Err(e);
            },
        }
        self.wait_success()
    }

    /// Sets the measuring mode and submode.
    pub fn set_mode(&mut self, mode: Mode) -> (r: Result<(), ErrorKind>)
        ensures
            r matches Err(e) ==> is_command_error(e),
    {
        let cmd = set_mode_request(mode);
        match self.write_cmd(cmd.as_slice(), "SET_MODE") {
            Ok(()) => {},
            Err(e) => {
                return Err(e);
            },
        }
        self.wait_success()
    }

    /// Asks how many recordings the device stores: the count is read
    /// little-endian from the body of the reply that echoes the request's
    /// opcode.
    pub fn get_record_count(&mut self) -> (r: Result<u16, ErrorKind>)
        ensures
            r matches Err(e) ==> is_command_error(e),
    {
        let cmd = record_count_request();
        match self.write_cmd(cmd.as_slice(), "GET_RECORDS_COUNT") {
            Ok(()) => {},
            Err(e) => {
                return Err(e);
            },
        }
        let reply = match self.wait_reply(0x0E) {
            Ok(data) => data,
            Err(e) => {
                return Err(e);
            },
        };
        parse_count_reply(&reply)
    }

    /// Retrieves the metadata of record `i` (indices start at 1). Index 0
    /// fails before any I/O; a valid index never fails with a validation
    /// error.
    pub fn get_record_info(&mut self, i: u16) -> (r: Result<RecordInfo, ErrorKind>)
        ensures
            i < 1 ==> r == Err::<RecordInfo, ErrorKind>(ErrorKind::OutOfRange) && *final(self)
                == *old(self),
            i >= 1 ==> (r matches Err(e) ==> is_command_error(e)),
            r matches Ok(info) ==> info.start.valid(),
    {
        if i < 1 {
            return Err(ErrorKind::OutOfRange);
        }
        let cmd = record_info_request(i);
        match self.write_cmd(cmd.as_slice(), "GET_RECORD_INFO") {
            Ok(()) => {},
            Err(e) => {
                return Err(e);
            },
        }
        self.wait_record_info()
    }

    /// Retrieves every sample of record `i` (indices start at 1): issues
    /// batch requests with an incrementing item-offset cursor, starting at 1
    /// and advanced by each batch's size, and concatenates the non-empty
    /// batches in order — each sample paired with the record's unit — until
    /// an empty batch arrives. Index 0 fails before any I/O.
    pub fn get_record_data(&mut self, i: u16) -> (r: Result<Vec<RecordDataItem>, ErrorKind>)
        ensures
            i < 1 ==> r == Err::<Vec<RecordDataItem>, ErrorKind>(ErrorKind::OutOfRange)
                && *final(self) == *old(self),
            i >= 1 ==> (r matches Err(e) ==> is_command_error(e)),
            r matches Ok(items) ==> forall|k: int|
                0 <= k < items@.len() ==> (#[trigger] items@[k]).timestamp.valid(),
    {
        if i < 1 {
            return Err(ErrorKind::OutOfRange);
        }
        let info = match self.get_record_info(i) {
            Ok(info) => info,
            Err(e) => {
                return Err(e);
            },
        };
        let mut items: Vec<RecordDataItem> = Vec::new();
        let mut offset: u32 = 1;
        let mut fuel: u64 = u64::MAX;
        loop
            invariant
                i >= 1,
                forall|k: int| 0 <= k < items@.len() ==> (#[trigger] items@[k]).timestamp.valid(),
            decreases fuel,
        {
            if fuel == 0 {
                return Err(ErrorKind::WaitTimeout);
            }
            fuel = fuel - 1;
            let cmd = record_data_request(i, offset);
            match self.write_cmd(cmd.as_slice(), "GET_RECORD_DATA") {
                Ok(()) => {},
                Err(e) => {
                    return Err(e);
                },
            }
            let raw_items = match self.wait_record_data() {
                Ok(batch) => batch,
                Err(e) => {
                    return Err(e);
                },
            };
            let batch_len = raw_items.len();
            if batch_len == 0 {
                return Ok(items);
            }
            append_batch(&mut items, &raw_items, info.unit);
            if batch_len > 0xFFFF_FFFF {
                offset = 0xFFFF_FFFF;
            } else {
                offset = offset.saturating_add(batch_len as u32);
            }
        }
    }

    /// Starts a new recording named `name` (printable ASCII, at most ten
    /// characters), sampling every `interval` seconds (1..=3600), for
    /// `duration` minutes (1..=143999). Invalid inputs fail immediately,
    /// without touching the transport; valid inputs never yield a
    /// validation error.
    pub fn start_record(&mut self, name: &str, interval: u16, duration: u32) -> (r: Result<
        (),
        ErrorKind,
    >)
        ensures
            (exists|k: int| 0 <= k < name@.len() && !spec_allowed_char(#[trigger] name@[k])) ==> (r
                matches Err(e) && (e matches ErrorKind::InvalidRecordName(n) && n@ == name@)
                && *final(self) == *old(self)),
            (forall|k: int| 0 <= k < name@.len() ==> spec_allowed_char(#[trigger] name@[k]))
                && name@.len() > 10 ==> (r matches Err(e) && (e
                matches ErrorKind::RecordNameTooLong(n) && n@ == name@) && *final(self) == *old(
                self,
            )),
            (forall|k: int| 0 <= k < name@.len() ==> spec_allowed_char(#[trigger] name@[k]))
                && name@.len() <= 10 && !(1 <= interval <= 3600) ==> r == Err::<(), ErrorKind>(
                ErrorKind::RecordIntervalIsOutOfRange(interval),
            ) && *final(self) == *old(self),
            (forall|k: int| 0 <= k < name@.len() ==> spec_allowed_char(#[trigger] name@[k]))
                && name@.len() <= 10 && 1 <= interval <= 3600 && !(1 <= duration <= 143999) ==> r
                == Err::<(), ErrorKind>(ErrorKind::RecordDurationIsOutOfRange(duration))
                && *final(self) == *old(self),
            (forall|k: int| 0 <= k < name@.len() ==> spec_allowed_char(#[trigger] name@[k]))
                && name@.len() <= 10 && 1 <= interval <= 3600 && 1 <= duration <= 143999 ==> (r
                matches Err(e) ==> is_command_error(e)),
    {
        broadcast use vstd::string::is_ascii_spec_bytes;

        let bytes = name.as_bytes();
        if !name.is_ascii() {
            proof {
                assert(!vstd::utf8::is_ascii_chars(name@));
                let k = choose|k: int|
                    0 <= k < name@.len() && !('\0' <= #[trigger] name@[k] && name@[k] <= '\u{7f}');
                assert(0 <= k < name@.len());
                lemma_non_ascii_char_not_allowed(name@[k]);
            }
            return Err(ErrorKind::InvalidRecordName(name.to_owned()));
        }
        let mut idx: usize = 0;
        while idx < bytes.len()
            invariant
                vstd::string::is_ascii(name),
                bytes@ == name.spec_bytes(),
                idx <= bytes@.len() == name@.len(),
                forall|j: int| 0 <= j < idx ==> spec_allowed_char(#[trigger] name@[j]),
            decreases bytes@.len() - idx,
        {
            let b = bytes[idx];
            if b < 0x20 || b > 0x7E {
                proof {
                    assert(name@[idx as int] as u8 == b);
                    assert(!spec_allowed_char(name@[idx as int]));
                }
                return Err(ErrorKind::InvalidRecordName(name.to_owned()));
            }
            proof {
                assert(name@[idx as int] as u8 == b);
            }
            idx = idx + 1;
        }
        if bytes.len() > 10 {
            return Err(ErrorKind::RecordNameTooLong(name.to_owned()));
        }
        if interval < 1 || interval > 3600 {
            return Err(ErrorKind::RecordIntervalIsOutOfRange(interval));
        }
        if duration < 1 || duration > 143999 {
            return Err(ErrorKind::RecordDurationIsOutOfRange(duration));
        }
        let cmd = build_start_record_request(bytes, interval, duration);
        match self.write_cmd(cmd.as_slice(), "RECORD_START") {
            Ok(()) => {},
            Err(e) => {
                return Err(e);
            },
        }
        self.wait_success()
    }

    /// Stops the recording in progress.
    pub fn stop_record(&mut self) -> (r: Result<(), ErrorKind>)
        ensures
            r matches Err(e) ==> is_command_error(e),
    {
        let cmd = stop_record_request();
        match self.write_cmd(cmd.as_slice(), "RECORD_STOP") {
            Ok(()) => {},
            Err(e) => {
                return Err(e);
            },
        }
        self.wait_success()
    }

    /// Turns monitoring mode on: the device then pushes live measurements.
    /// A pushed measurement or a Success acknowledgement, whichever arrives
    /// first, confirms the switch.
    pub fn monitor_on(&mut self) -> (r: Result<(), ErrorKind>)
        ensures
            r matches Err(e) ==> is_command_error(e),
    {
        let cmd = monitor_request(true);
        match self.write_cmd(cmd.as_slice(), "MONITOR_ON") {
            Ok(()) => {},
            Err(e) => {
                return Err(e);
            },
        }
        self.wait_success_or_measurement()
    }

    /// Turns monitoring mode off. A measurement the device pushed before the
    /// switch may stand in for the acknowledgement.
    pub fn monitor_off(&mut self) -> (r: Result<(), ErrorKind>)
        ensures
            r matches Err(e) ==> is_command_error(e),
    {
        let cmd = monitor_request(false);
        match self.write_cmd(cmd.as_slice(), "MONITOR_OFF") {
            Ok(()) => {},
            Err(e) => {
                return Err(e);
            },
        }
        self.wait_success_or_measurement()
    }

    /// Returns the next measurement the device sends, waiting up to the
    /// deadline.
    pub fn get_measurement(&mut self) -> (r: Result<Measurement, ErrorKind>)
        ensures
            r matches Err(e) ==> is_command_error(e),
    {
        self.wait_measurement()
    }
}

} // verus!
