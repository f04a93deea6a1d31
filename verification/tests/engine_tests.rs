//! The command/response engine over a mock transport: deadline behaviour,
//! request framing, input validation, and paginated record retrieval.

use ut181a::packet::Packet;
use ut181a::{Dmm, ErrorKind, Transport, TransportError};

/// A scripted transport: hands out queued read results in order (then empty
/// reads), records every write, and advances its clock by `tick` per query.
struct MockTransport {
    reads: Vec<Vec<u8>>,
    next: usize,
    clock: u64,
    tick: u64,
    writes: Vec<Vec<u8>>,
    read_calls: usize,
}

impl MockTransport {
    fn new(reads: Vec<Vec<u8>>, tick: u64) -> MockTransport {
        MockTransport { reads, next: 0, clock: 0, tick, writes: Vec::new(), read_calls: 0 }
    }
}

impl Transport for &mut MockTransport {
    fn read(&mut self, _max: usize) -> Result<Vec<u8>, TransportError> {
        self.read_calls += 1;
        if self.next < self.reads.len() {
            let chunk = self.reads[self.next].clone();
            self.next += 1;
            Ok(chunk)
        } else {
            Ok(Vec::new())
        }
    }

    fn write(&mut self, data: &[u8]) -> Result<(), TransportError> {
        self.writes.push(data.to_vec());
        Ok(())
    }

    fn now_ms(&mut self) -> u64 {
        let t = self.clock;
        self.clock += self.tick;
        t
    }
}

fn success_frame() -> Vec<u8> {
    Packet::new(&[0x01, 0x4F, 0x4B]).frame()
}

#[test]
fn success_after_several_short_reads() {
    let frame = success_frame();
    let (head, tail) = frame.split_at(4);
    let reads = vec![Vec::new(), Vec::new(), head.to_vec(), Vec::new(), tail.to_vec()];
    let mut mock = MockTransport::new(reads, 1);
    let mut dmm = Dmm::new(&mut mock);
    assert!(dmm.toggle_hold().is_ok());
    drop(dmm);
    assert_eq!(mock.writes.len(), 1);
    assert_eq!(mock.writes[0], Packet::new(&[0x12, 0x5A]).frame());
    assert!(mock.read_calls >= 4);
    assert!(mock.clock < 5000, "success must come before the deadline");
}

#[test]
fn no_matching_frame_times_out_at_the_deadline() {
    let mut mock = MockTransport::new(Vec::new(), 250);
    let mut dmm = Dmm::new(&mut mock);
    match dmm.toggle_hold() {
        Err(ErrorKind::WaitTimeout) => {}
        other => panic!("expected WaitTimeout, got {:?}", other),
    }
    drop(dmm);
    assert!(mock.clock > 5000, "the engine must wait out the full deadline");
}

#[test]
fn device_error_fails_as_command_error() {
    let frame = Packet::new(&[0x01, 0x45, 0x52]).frame();
    let mut mock = MockTransport::new(vec![frame], 1);
    let mut dmm = Dmm::new(&mut mock);
    assert!(matches!(dmm.save_measurement(), Err(ErrorKind::CommandError)));
}

#[test]
fn unrelated_messages_are_discarded_while_waiting() {
    // a reply to some other command arrives first, then the acknowledgement
    let mut stream = Packet::new(&[0x72, 0x33, 0x01]).frame();
    stream.extend_from_slice(success_frame().as_slice());
    let mut mock = MockTransport::new(vec![stream], 1);
    let mut dmm = Dmm::new(&mut mock);
    assert!(dmm.set_min_max_mode(true).is_ok());
}

#[test]
fn saved_measurement_count_reads_reply_body() {
    let frame = Packet::new(&[0x72, 0x08, 0x2A, 0x00]).frame();
    let mut mock = MockTransport::new(vec![frame], 1);
    let mut dmm = Dmm::new(&mut mock);
    assert_eq!(dmm.get_saved_measurement_count().unwrap(), 42);
}

#[test]
fn delete_saved_measurement_validates_index() {
    let mut mock = MockTransport::new(Vec::new(), 1);
    let mut dmm = Dmm::new(&mut mock);
    assert!(matches!(
        dmm.delete_saved_measurement(0),
        Err(ErrorKind::OutOfRange)
    ));
    assert!(matches!(
        dmm.delete_saved_measurement(0xFFFF),
        Err(ErrorKind::OutOfRange)
    ));
    drop(dmm);
    assert!(mock.writes.is_empty(), "validation must precede I/O");
}

#[test]
fn delete_all_uses_the_sentinel_index() {
    let mut mock = MockTransport::new(vec![success_frame()], 1);
    let mut dmm = Dmm::new(&mut mock);
    assert!(dmm.delete_all_saved_measurement().is_ok());
    drop(dmm);
    assert_eq!(mock.writes[0], Packet::new(&[0x09, 0xFF, 0xFF]).frame());
}

#[test]
fn get_record_info_validates_index() {
    let mut mock = MockTransport::new(Vec::new(), 1);
    let mut dmm = Dmm::new(&mut mock);
    assert!(matches!(dmm.get_record_info(0), Err(ErrorKind::OutOfRange)));
    drop(dmm);
    assert!(mock.writes.is_empty());
}

#[test]
fn start_record_validates_before_any_io() {
    let mut mock = MockTransport::new(Vec::new(), 1);
    let mut dmm = Dmm::new(&mut mock);
    assert!(matches!(
        dmm.start_record("bad\nname", 60, 100),
        Err(ErrorKind::InvalidRecordName(_))
    ));
    assert!(matches!(
        dmm.start_record("elevenchars", 60, 100),
        Err(ErrorKind::RecordNameTooLong(_))
    ));
    assert!(matches!(
        dmm.start_record("run", 0, 100),
        Err(ErrorKind::RecordIntervalIsOutOfRange(0))
    ));
    assert!(matches!(
        dmm.start_record("run", 3601, 100),
        Err(ErrorKind::RecordIntervalIsOutOfRange(3601))
    ));
    assert!(matches!(
        dmm.start_record("run", 60, 0),
        Err(ErrorKind::RecordDurationIsOutOfRange(0))
    ));
    assert!(matches!(
        dmm.start_record("run", 60, 144000),
        Err(ErrorKind::RecordDurationIsOutOfRange(144000))
    ));
    drop(dmm);
    assert!(mock.writes.is_empty(), "validation must precede I/O");
}

#[test]
fn start_record_request_layout() {
    let mut mock = MockTransport::new(vec![success_frame()], 1);
    let mut dmm = Dmm::new(&mut mock);
    assert!(dmm.start_record("run", 60, 100).is_ok());
    drop(dmm);
    let mut body = vec![0x0Au8, 0x72, 0x75, 0x6E];
    body.extend_from_slice(&[0, 0, 0, 0, 0, 0, 0, 0]);  // NUL padding through byte 11
    body.extend_from_slice(&60u16.to_le_bytes());
    body.extend_from_slice(&100u32.to_le_bytes());
    assert_eq!(mock.writes[0], Packet::new(body.as_slice()).frame());
}

/// Packs a date/time by the wire formulas (inverse of the decoder).
fn pack_dt(year: u16, month: u8, day: u8, hour: u8, minute: u8, second: u8) -> [u8; 4] {
    let y = (year - 2000) as u8;
    let b0 = y | ((month & 0x03) << 6);
    let b1 = (month >> 2) | (day << 2) | ((hour & 0x01) << 7);
    let b2 = (hour >> 1) | ((minute & 0x0F) << 4);
    let b3 = (minute >> 4) | (second << 2);
    [b0, b1, b2, b3]
}

fn record_info_frame() -> Vec<u8> {
    let mut payload = vec![0x04u8];
    payload.extend_from_slice(&[0x74, 0x65, 0x6D, 0x70, 0, 0, 0, 0, 0, 0, 0]);  // "temp"
    payload.extend_from_slice(&[0x56, 0x44, 0x43, 0, 0, 0, 0, 0]);  // unit "VDC"
    payload.extend_from_slice(&60u16.to_le_bytes());
    payload.extend_from_slice(&16u32.to_le_bytes());
    payload.extend_from_slice(&3u32.to_le_bytes());
    payload.extend_from_slice(&0x40000000u32.to_le_bytes());
    payload.push(0x20);
    payload.extend_from_slice(&0x3FC00000u32.to_le_bytes());
    payload.push(0x20);
    payload.extend_from_slice(&0x3F800000u32.to_le_bytes());
    payload.push(0x20);
    payload.extend_from_slice(&pack_dt(2023, 1, 2, 3, 4, 5));
    Packet::new(payload.as_slice()).frame()
}

fn batch_frame(entries: &[(u32, u8)]) -> Vec<u8> {
    let mut payload = vec![0x05u8, entries.len() as u8];
    for (bits, second) in entries {
        payload.extend_from_slice(&bits.to_le_bytes());
        payload.push(0x20);
        payload.extend_from_slice(&pack_dt(2023, 1, 2, 3, 4, *second));
    }
    Packet::new(payload.as_slice()).frame()
}

#[test]
fn record_data_concatenates_batches_in_order() {
    let reads = vec![
        record_info_frame(),
        batch_frame(&[(111, 1), (222, 2)]),
        batch_frame(&[(333, 3)]),
        batch_frame(&[]),
    ];
    let mut mock = MockTransport::new(reads, 1);
    let mut dmm = Dmm::new(&mut mock);
    let items = dmm.get_record_data(1).unwrap();
    drop(dmm);
    assert_eq!(items.len(), 3);
    assert_eq!(items[0].value.value_bits, 111);
    assert_eq!(items[1].value.value_bits, 222);
    assert_eq!(items[2].value.value_bits, 333);
    assert_eq!(items[0].timestamp.second, 1);
    assert_eq!(items[2].timestamp.second, 3);
    // every sample carries the record's unit
    assert_eq!(items[0].value.unit, items[2].value.unit);
    assert_eq!(items[0].value.precision, Some(2));
    // one info request, then three batch requests with the cursor at 1, 3, 4
    assert_eq!(mock.writes.len(), 4);
    assert_eq!(mock.writes[0], Packet::new(&[0x0C, 0x01, 0x00]).frame());
    assert_eq!(
        mock.writes[1],
        Packet::new(&[0x0D, 0x01, 0x00, 0x01, 0x00, 0x00, 0x00]).frame()
    );
    assert_eq!(
        mock.writes[2],
        Packet::new(&[0x0D, 0x01, 0x00, 0x03, 0x00, 0x00, 0x00]).frame()
    );
    assert_eq!(
        mock.writes[3],
        Packet::new(&[0x0D, 0x01, 0x00, 0x04, 0x00, 0x00, 0x00]).frame()
    );
}

#[test]
fn set_mode_and_range_frame_their_codes() {
    let mut stream = success_frame();
    stream.extend_from_slice(success_frame().as_slice());
    let mut mock = MockTransport::new(vec![stream], 1);
    let mut dmm = Dmm::new(&mut mock);
    assert!(dmm.set_mode(ut181a::Mode::VDC_Normal).is_ok());
    assert!(dmm.set_range(ut181a::Range::Step2).is_ok());
    drop(dmm);
    assert_eq!(mock.writes[0], Packet::new(&[0x01, 0x11, 0x31]).frame());
    assert_eq!(mock.writes[1], Packet::new(&[0x02, 0x02]).frame());
}

#[test]
fn transport_read_failure_propagates() {
    struct FailingTransport;
    impl Transport for FailingTransport {
        fn read(&mut self, _max: usize) -> Result<Vec<u8>, TransportError> {
            Err(TransportError)
        }
        fn write(&mut self, _data: &[u8]) -> Result<(), TransportError> {
            Ok(())
        }
        fn now_ms(&mut self) -> u64 {
            0
        }
    }
    let mut dmm = Dmm::new(FailingTransport);
    assert!(matches!(dmm.toggle_hold(), Err(ErrorKind::Transport)));
}

#[test]
fn transport_write_failure_names_the_command() {
    struct WriteFailTransport;
    impl Transport for WriteFailTransport {
        fn read(&mut self, _max: usize) -> Result<Vec<u8>, TransportError> {
            Ok(Vec::new())
        }
        fn write(&mut self, _data: &[u8]) -> Result<(), TransportError> {
            Err(TransportError)
        }
        fn now_ms(&mut self) -> u64 {
            0
        }
    }
    let mut dmm = Dmm::new(WriteFailTransport);
    assert!(matches!(
        dmm.toggle_hold(),
        Err(ErrorKind::CommandWrite("TOGGLE_HOLD"))
    ));
}

#[test]
fn get_measurement_returns_pushed_measurement() {
    let mut payload = vec![0x02u8, 0x00, 0x01, 0x11, 0x31, 0x00];
    payload.extend_from_slice(&0x3FC00000u32.to_le_bytes());
    payload.push(0x20);
    payload.extend_from_slice(&[0x56, 0x44, 0x43, 0, 0, 0, 0, 0]);
    let frame = Packet::new(payload.as_slice()).frame();
    let mut mock = MockTransport::new(vec![frame], 1);
    let mut dmm = Dmm::new(&mut mock);
    match dmm.get_measurement().unwrap() {
        ut181a::Measurement::Normal(m) => assert_eq!(m.main.value_bits, 0x3FC00000),
        other => panic!("expected a Normal measurement, got {:?}", other),
    }
}

#[test]
fn monitor_off_accepts_a_stray_measurement() {
    // a measurement pushed before the switch satisfies the wait
    let mut payload = vec![0x02u8, 0x00, 0x01, 0x11, 0x31, 0x00];
    payload.extend_from_slice(&0x3FC00000u32.to_le_bytes());
    payload.push(0x20);
    payload.extend_from_slice(&[0x56, 0x44, 0x43, 0, 0, 0, 0, 0]);
    let frame = Packet::new(payload.as_slice()).frame();
    let mut mock = MockTransport::new(vec![frame.clone()], 1);
    let mut dmm = Dmm::new(&mut mock);
    assert!(dmm.monitor_off().is_ok());
    drop(dmm);
    assert_eq!(mock.writes[0], Packet::new(&[0x05, 0x00]).frame());

    let mut mock2 = MockTransport::new(vec![frame], 1);
    let mut dmm2 = Dmm::new(&mut mock2);
    assert!(dmm2.monitor_on().is_ok());
    drop(dmm2);
    assert_eq!(mock2.writes[0], Packet::new(&[0x05, 0x01]).frame());
}

#[test]
fn monitor_on_accepts_a_bare_success() {
    let mut mock = MockTransport::new(vec![success_frame()], 1);
    let mut dmm = Dmm::new(&mut mock);
    assert!(dmm.monitor_on().is_ok());
}

#[test]
fn get_saved_measurement_validates_index() {
    let mut mock = MockTransport::new(Vec::new(), 1);
    let mut dmm = Dmm::new(&mut mock);
    assert!(matches!(
        dmm.get_saved_measurement(0),
        Err(ErrorKind::OutOfRange)
    ));
    assert!(matches!(
        dmm.get_saved_measurement(0xFFFF),
        Err(ErrorKind::OutOfRange)
    ));
    drop(dmm);
    assert!(mock.writes.is_empty(), "validation must precede I/O");
}

#[test]
fn get_saved_measurement_frames_its_index() {
    // a saved measurement: tag 3, packed date/time, then a Normal measurement
    let mut payload = vec![0x03u8];
    payload.extend_from_slice(&pack_dt(2023, 1, 2, 3, 4, 5));
    payload.extend_from_slice(&[0x00, 0x01, 0x11, 0x31, 0x00]);
    payload.extend_from_slice(&0x3FC00000u32.to_le_bytes());
    payload.push(0x20);
    payload.extend_from_slice(&[0x56, 0x44, 0x43, 0, 0, 0, 0, 0]);
    let frame = Packet::new(payload.as_slice()).frame();
    let mut mock = MockTransport::new(vec![frame], 1);
    let mut dmm = Dmm::new(&mut mock);
    let (dt, _) = dmm.get_saved_measurement(5).unwrap();
    drop(dmm);
    assert_eq!(dt.year, 2023);
    assert_eq!(mock.writes[0], Packet::new(&[0x07, 0x05, 0x00]).frame());
}

#[test]
fn count_reply_too_short_is_truncated() {
    // a reply that echoes the opcode but carries no count bytes
    let frame = Packet::new(&[0x72, 0x0E, 0x01]).frame();
    let mut mock = MockTransport::new(vec![frame], 1);
    let mut dmm = Dmm::new(&mut mock);
    assert!(matches!(
        dmm.get_record_count(),
        Err(ErrorKind::TruncatedMessage)
    ));
}
