//! Primitive codecs, measurement decoding and record decoding on concrete
//! byte vectors.

use ut181a::measurement::Measurement;
use ut181a::message::Message;
use ut181a::rec_info::RecordInfo;
use ut181a::unit::{Unit, UnitExp};
use ut181a::utils::{allowed_char, read_datetime, read_stringz, DateTime};
use ut181a::value::Value;
use ut181a::{ErrorKind, Mode, Range};

/// Packs a date/time by the wire formulas (inverse of the decoder).
fn pack_dt(year: u16, month: u8, day: u8, hour: u8, minute: u8, second: u8) -> [u8; 4] {
    let y = (year - 2000) as u8;
    let b0 = y | ((month & 0x03) << 6);
    let b1 = (month >> 2) | (day << 2) | ((hour & 0x01) << 7);
    let b2 = (hour >> 1) | ((minute & 0x0F) << 4);
    let b3 = (minute >> 4) | (second << 2);
    [b0, b1, b2, b3]
}

#[test]
fn datetime_round_trip() {
    let bytes = pack_dt(2023, 1, 2, 3, 4, 5);
    assert_eq!(bytes, [0x57, 0x88, 0x41, 0x14]);
    let dt = read_datetime(&bytes).expect("a real date/time must decode");
    assert_eq!(
        dt,
        DateTime { year: 2023, month: 1, day: 2, hour: 3, minute: 4, second: 5 }
    );
}

#[test]
fn datetime_month_13_is_invalid() {
    let bytes = pack_dt(2023, 13, 2, 3, 4, 5);
    match read_datetime(&bytes) {
        Err(ErrorKind::InvalidDateTime { year, month, day, hour, minute, second }) => {
            assert_eq!(
                (year, month, day, hour, minute, second),
                (2023, 13, 2, 3, 4, 5)
            );
        }
        other => panic!("expected InvalidDateTime, got {:?}", other),
    }
}

#[test]
fn datetime_leap_day() {
    assert!(read_datetime(&pack_dt(2024, 2, 29, 0, 0, 0)).is_ok());
    assert!(matches!(
        read_datetime(&pack_dt(2023, 2, 29, 0, 0, 0)),
        Err(ErrorKind::InvalidDateTime { .. })
    ));
}

#[test]
fn datetime_needs_four_bytes() {
    assert!(matches!(
        read_datetime(&[0x57, 0x88, 0x41]),
        Err(ErrorKind::TruncatedMessage)
    ));
}

#[test]
fn stringz_stops_at_first_nul() {
    assert_eq!(read_stringz(&[0x41, 0x42, 0x00, 0x43]), "AB");
    assert_eq!(read_stringz(&[]), "");
    assert_eq!(read_stringz(&[0x58, 0x59]), "XY");
}

#[test]
fn allowed_chars_are_printable_ascii() {
    assert!(allowed_char(' '));
    assert!(allowed_char('~'));
    assert!(allowed_char('A'));
    assert!(!allowed_char('\n'));
    assert!(!allowed_char('\u{e9}'));
}

#[test]
fn unit_table_lookups() {
    assert_eq!(
        UnitExp::from_bin(&[0x6D, 0x56, 0x44, 0x43, 0x00]).unwrap(),
        UnitExp { unit: Unit::VDC, exponent: -3 }
    );
    assert_eq!(
        UnitExp::from_bin(&[0x6B, 0x7E, 0x00]).unwrap(),
        UnitExp { unit: Unit::Ohm, exponent: 3 }
    );
    assert_eq!(
        UnitExp::from_bin(&[0x25, 0x00]).unwrap(),
        UnitExp { unit: Unit::Percent, exponent: 0 }
    );
}

#[test]
fn unit_degree_glyph_is_one_non_ascii_byte() {
    assert_eq!(
        UnitExp::from_bin(&[0xB0, 0x43, 0x00]).unwrap(),
        UnitExp { unit: Unit::Celsius, exponent: 0 }
    );
    assert_eq!(
        UnitExp::from_bin(&[0xB0, 0x46, 0x00]).unwrap(),
        UnitExp { unit: Unit::Fahrenheit, exponent: 0 }
    );
}

#[test]
fn unknown_unit_carries_text_and_bytes() {
    match UnitExp::from_bin(&[0x58, 0x59, 0x5A, 0x00, 0x41]) {
        Err(ErrorKind::UnknownMeasurementUnit { text, raw }) => {
            assert_eq!(text, "XYZ");
            assert_eq!(raw.as_slice(), &[0x58, 0x59, 0x5A]);
        }
        other => panic!("expected UnknownMeasurementUnit, got {:?}", other),
    }
}

#[test]
fn unit_labels() {
    let khz = UnitExp { unit: Unit::Hz, exponent: 3 };
    assert_eq!(khz.label().unwrap(), "kHz");
    let volts = UnitExp { unit: Unit::VDC, exponent: 0 };
    assert_eq!(volts.label().unwrap(), "VDC");
    let odd = UnitExp { unit: Unit::VDC, exponent: 1 };
    assert!(odd.label().is_none());
}

#[test]
fn mode_table_round_trips() {
    assert!(matches!(Mode::from_bin(&[0x11, 0x11]), Ok(Mode::VAC_Normal)));
    assert_eq!(Mode::TempF_T2_T1_Rel.to_bin(), [0x22, 0x43]);
    for mode in [Mode::VAC_Peak, Mode::Resistance, Mode::AAC_Hz, Mode::Capacitance_Rel] {
        let bin = mode.to_bin();
        assert_eq!(Mode::from_bin(&bin).unwrap(), mode);
    }
    assert!(matches!(
        Mode::from_bin(&[0x99, 0x99]),
        Err(ErrorKind::UnknownMeasurementMode(0x9999))
    ));
}

#[test]
fn mode_labels() {
    assert_eq!(Mode::VAC_Normal.label(), "VAC");
    assert_eq!(Mode::TempC_T1_T2_Diff.label(), "Temp C/T1-T2");
    assert_eq!(Mode::DutyCycle_Rel.label(), "Duty cycle/Rel");
}

#[test]
fn range_table() {
    assert!(matches!(Range::from_bin(&[0x00]), Ok(Range::Auto)));
    assert!(matches!(Range::from_bin(&[0x08]), Ok(Range::Step8)));
    assert!(matches!(
        Range::from_bin(&[0x09]),
        Err(ErrorKind::UnknownMeasurementRange(0x09))
    ));
    assert_eq!(Range::Step3.to_bin(), 0x03);
}

#[test]
fn value_flags_decode() {
    // flags 0x22: overload_neg set (low nibble 0x2), precision 2
    let v = Value::from_bin_with_precision(
        &[0x00, 0x00, 0xC0, 0x3F, 0x22],
        UnitExp { unit: Unit::VDC, exponent: 0 },
    )
    .unwrap();
    assert!(v.overload_neg);
    assert!(!v.overload_pos);
    assert_eq!(v.precision, Some(2));
    assert_eq!(v.value_bits, 0x3FC00000);
    // flags 0x11: overload_pos set, precision 1
    let v2 = Value::from_bin_with_precision(
        &[0x01, 0x00, 0x00, 0x00, 0x11],
        UnitExp { unit: Unit::VDC, exponent: 0 },
    )
    .unwrap();
    assert!(!v2.overload_neg);
    assert!(v2.overload_pos);
    assert_eq!(v2.precision, Some(1));
}

#[test]
fn fast_value_has_no_flags_or_precision() {
    let v = Value::from_bin_fast(&[0x00, 0x00, 0x40, 0x40, 0x48, 0x7A, 0x00]).unwrap();
    assert_eq!(v.value_bits, 0x40400000);
    assert_eq!(v.precision, None);
    assert!(!v.overload_neg && !v.overload_pos);
    assert_eq!(v.unit, UnitExp { unit: Unit::Hz, exponent: 0 });
}

// A full 13-byte value: float, flags, NUL-terminated unit in an 8-byte field.
fn val13(bits: u32, flags: u8, unit: &[u8; 3]) -> Vec<u8> {
    let mut v = bits.to_le_bytes().to_vec();
    v.push(flags);
    v.extend_from_slice(unit);
    v.extend_from_slice(&[0, 0, 0, 0, 0]);
    v
}

const VDC: [u8; 3] = [0x56, 0x44, 0x43];
const VAC: [u8; 3] = [0x56, 0x41, 0x43];

// Header of a measurement: tag, auto-range, mode VDC (0x3111), range Auto.
fn meas_header(tag: u8) -> Vec<u8> {
    vec![tag, 0x01, 0x11, 0x31, 0x00]
}

#[test]
fn normal_measurement_without_optional_fields() {
    let mut data = meas_header(0x00);
    data.extend_from_slice(val13(0x3FC00000, 0x20, &VDC).as_slice());
    match Measurement::from_bin(data.as_slice()).unwrap() {
        Measurement::Normal(m) => {
            assert_eq!(m.mode, Mode::VDC_Normal);
            assert!(m.is_auto_range);
            assert!(!m.is_holded);
            assert_eq!(m.range, Range::Auto);
            assert_eq!(m.main.value_bits, 0x3FC00000);
            assert_eq!(m.main.precision, Some(2));
            assert_eq!(m.main.unit, UnitExp { unit: Unit::VDC, exponent: 0 });
            assert!(m.aux1.is_none() && m.aux2.is_none() && m.fast.is_none());
        }
        other => panic!("expected a Normal measurement, got {:?}", other),
    }
}

#[test]
fn normal_measurement_secondary_flag_adds_field_at_18() {
    let mut data = meas_header(0x02);
    data.extend_from_slice(val13(0x3FC00000, 0x20, &VDC).as_slice());
    data.extend_from_slice(val13(0x40000000, 0x10, &VAC).as_slice());
    match Measurement::from_bin(data.as_slice()).unwrap() {
        Measurement::Normal(m) => {
            let aux1 = m.aux1.expect("secondary value present");
            assert_eq!(aux1.value_bits, 0x40000000);
            assert_eq!(aux1.precision, Some(1));
            assert_eq!(aux1.unit, UnitExp { unit: Unit::VAC, exponent: 0 });
            assert!(m.aux2.is_none() && m.fast.is_none());
        }
        other => panic!("expected a Normal measurement, got {:?}", other),
    }
}

#[test]
fn normal_measurement_tertiary_flag_alone_reads_at_18() {
    let mut data = meas_header(0x04);
    data.extend_from_slice(val13(0x3FC00000, 0x20, &VDC).as_slice());
    data.extend_from_slice(val13(0x40A00000, 0x30, &VAC).as_slice());
    match Measurement::from_bin(data.as_slice()).unwrap() {
        Measurement::Normal(m) => {
            assert!(m.aux1.is_none());
            let aux2 = m.aux2.expect("tertiary value present");
            assert_eq!(aux2.value_bits, 0x40A00000);
            assert!(m.fast.is_none());
        }
        other => panic!("expected a Normal measurement, got {:?}", other),
    }
}

#[test]
fn normal_measurement_fast_flag_adds_fast_value() {
    let mut data = meas_header(0x08);
    data.extend_from_slice(val13(0x3FC00000, 0x20, &VDC).as_slice());
    data.extend_from_slice(&0x40400000u32.to_le_bytes());
    data.extend_from_slice(&[0x48, 0x7A, 0x00]);
    match Measurement::from_bin(data.as_slice()).unwrap() {
        Measurement::Normal(m) => {
            let fast = m.fast.expect("fast value present");
            assert_eq!(fast.value_bits, 0x40400000);
            assert_eq!(fast.precision, None);
            assert_eq!(fast.unit, UnitExp { unit: Unit::Hz, exponent: 0 });
            assert!(m.aux1.is_none() && m.aux2.is_none());
        }
        other => panic!("expected a Normal measurement, got {:?}", other),
    }
}

#[test]
fn hold_flag_decodes() {
    let mut data = meas_header(0x80);
    data.extend_from_slice(val13(0x3FC00000, 0x20, &VDC).as_slice());
    match Measurement::from_bin(data.as_slice()).unwrap() {
        Measurement::Normal(m) => assert!(m.is_holded),
        other => panic!("expected a Normal measurement, got {:?}", other),
    }
}

#[test]
fn relative_measurement_reads_three_values() {
    let mut data = meas_header(0x10);
    data.extend_from_slice(val13(0x3F800000, 0x10, &VDC).as_slice());
    data.extend_from_slice(val13(0x40000000, 0x20, &VDC).as_slice());
    data.extend_from_slice(val13(0x40400000, 0x30, &VDC).as_slice());
    match Measurement::from_bin(data.as_slice()).unwrap() {
        Measurement::Relative(m) => {
            assert_eq!(m.relative.value_bits, 0x3F800000);
            assert_eq!(m.reference.value_bits, 0x40000000);
            assert_eq!(m.measurement.value_bits, 0x40400000);
            assert!(m.fast.is_none());
        }
        other => panic!("expected a Relative measurement, got {:?}", other),
    }
}

#[test]
fn minmax_measurement_layout() {
    let mut data = meas_header(0x20);
    data.extend_from_slice(&0x3F800000u32.to_le_bytes());
    data.push(0x10);  // main
    data.extend_from_slice(&0x40000000u32.to_le_bytes());
    data.push(0x20);  // max
    data.extend_from_slice(&100u32.to_le_bytes());  // max_time
    data.extend_from_slice(&0x40400000u32.to_le_bytes());
    data.push(0x30);  // average
    data.extend_from_slice(&200u32.to_le_bytes());  // average_time
    data.extend_from_slice(&0x40800000u32.to_le_bytes());
    data.push(0x40);  // min
    data.extend_from_slice(&300u32.to_le_bytes());  // min_time
    data.extend_from_slice(&[0x56, 0x44, 0x43, 0x00]);  // shared unit
    match Measurement::from_bin(data.as_slice()).unwrap() {
        Measurement::MinMax(m) => {
            assert_eq!(m.main.value_bits, 0x3F800000);
            assert_eq!(m.max.value_bits, 0x40000000);
            assert_eq!(m.max_time, 100);
            assert_eq!(m.average.value_bits, 0x40400000);
            assert_eq!(m.average_time, 200);
            assert_eq!(m.min.value_bits, 0x40800000);
            assert_eq!(m.min_time, 300);
            assert_eq!(m.main.unit, UnitExp { unit: Unit::VDC, exponent: 0 });
            assert_eq!(m.min.unit, m.max.unit);
        }
        other => panic!("expected a MinMax measurement, got {:?}", other),
    }
}

#[test]
fn peak_measurement_reads_max_then_min() {
    let mut data = meas_header(0x40);
    data.extend_from_slice(val13(0x40000000, 0x10, &VDC).as_slice());
    data.extend_from_slice(val13(0x3F800000, 0x20, &VDC).as_slice());
    match Measurement::from_bin(data.as_slice()).unwrap() {
        Measurement::Peak(m) => {
            assert_eq!(m.max.value_bits, 0x40000000);
            assert_eq!(m.min.value_bits, 0x3F800000);
        }
        other => panic!("expected a Peak measurement, got {:?}", other),
    }
}

#[test]
fn unknown_measurement_kind_is_reported() {
    let data = [0x30u8, 0x01, 0x11, 0x31, 0x00];
    assert!(matches!(
        Measurement::from_bin(&data),
        Err(ErrorKind::UnknownMeasurementKind(0x30))
    ));
}

#[test]
fn unknown_measurement_mode_is_reported() {
    let data = [0x00u8, 0x01, 0xFF, 0xFF, 0x00];
    assert!(matches!(
        Measurement::from_bin(&data),
        Err(ErrorKind::UnknownMeasurementMode(0xFFFF))
    ));
}

#[test]
fn unknown_measurement_range_is_reported() {
    let data = [0x00u8, 0x01, 0x11, 0x31, 0x55];
    assert!(matches!(
        Measurement::from_bin(&data),
        Err(ErrorKind::UnknownMeasurementRange(0x55))
    ));
}

#[test]
fn truncated_measurement_is_reported() {
    assert!(matches!(
        Measurement::from_bin(&[0x00, 0x01, 0x11]),
        Err(ErrorKind::TruncatedMessage)
    ));
}

#[test]
fn saved_measurement_carries_timestamp() {
    let mut payload = vec![0x03u8];
    payload.extend_from_slice(&pack_dt(2023, 1, 2, 3, 4, 5));
    payload.extend_from_slice(meas_header(0x00).as_slice());
    payload.extend_from_slice(val13(0x3FC00000, 0x20, &VDC).as_slice());
    match Message::new(payload.as_slice()).unwrap() {
        Message::SavedMeasurement(dt, Measurement::Normal(_)) => {
            assert_eq!(
                dt,
                DateTime { year: 2023, month: 1, day: 2, hour: 3, minute: 4, second: 5 }
            );
        }
        other => panic!("expected SavedMeasurement, got {:?}", other),
    }
}

fn record_info_body() -> Vec<u8> {
    let mut body = vec![0x74u8, 0x65, 0x6D, 0x70, 0, 0, 0, 0, 0, 0, 0];  // "temp", 11 bytes
    body.extend_from_slice(&[0x56, 0x44, 0x43, 0, 0, 0, 0, 0]);  // unit at 11
    body.extend_from_slice(&60u16.to_le_bytes());  // interval at 19
    body.extend_from_slice(&16u32.to_le_bytes());  // duration at 21
    body.extend_from_slice(&3u32.to_le_bytes());  // sample count at 25
    body.extend_from_slice(&0x40000000u32.to_le_bytes());
    body.push(0x20);  // max at 29
    body.extend_from_slice(&0x3FC00000u32.to_le_bytes());
    body.push(0x20);  // average at 34
    body.extend_from_slice(&0x3F800000u32.to_le_bytes());
    body.push(0x20);  // min at 39
    body.extend_from_slice(&pack_dt(2023, 1, 2, 3, 4, 5));  // start at 44
    body
}

#[test]
fn record_info_layout() {
    let info = RecordInfo::from_bin(record_info_body().as_slice()).unwrap();
    assert_eq!(info.name, "temp");
    assert_eq!(info.unit, UnitExp { unit: Unit::VDC, exponent: 0 });
    assert_eq!(info.interval, 60);
    assert_eq!(info.duration, 16);
    assert_eq!(info.sample_count, 3);
    assert_eq!(info.max.value_bits, 0x40000000);
    assert_eq!(info.average.value_bits, 0x3FC00000);
    assert_eq!(info.min.value_bits, 0x3F800000);
    assert_eq!(
        info.start,
        DateTime { year: 2023, month: 1, day: 2, hour: 3, minute: 4, second: 5 }
    );
}

#[test]
fn record_info_too_short_is_truncated() {
    assert!(matches!(
        RecordInfo::from_bin(&record_info_body()[..30]),
        Err(ErrorKind::TruncatedMessage)
    ));
}

#[test]
fn record_data_batch_decodes_items_in_order() {
    let mut payload = vec![0x05u8, 0x02];
    payload.extend_from_slice(&111u32.to_le_bytes());
    payload.push(0x21);  // overload_pos, precision 2
    payload.extend_from_slice(&pack_dt(2023, 1, 2, 3, 4, 5));
    payload.extend_from_slice(&222u32.to_le_bytes());
    payload.push(0x12);  // overload_neg, precision 1
    payload.extend_from_slice(&pack_dt(2023, 1, 2, 3, 4, 6));
    match Message::new(payload.as_slice()).unwrap() {
        Message::RecordDataBatch(items) => {
            assert_eq!(items.len(), 2);
            assert_eq!(items[0].value_bits, 111);
            assert!(items[0].overload_pos && !items[0].overload_neg);
            assert_eq!(items[0].precision, 2);
            assert_eq!(items[0].timestamp.second, 5);
            assert_eq!(items[1].value_bits, 222);
            assert!(items[1].overload_neg && !items[1].overload_pos);
            assert_eq!(items[1].precision, 1);
            assert_eq!(items[1].timestamp.second, 6);
        }
        other => panic!("expected RecordDataBatch, got {:?}", other),
    }
}

#[test]
fn record_data_batch_bad_timestamp_is_reported() {
    let mut payload = vec![0x05u8, 0x01];
    payload.extend_from_slice(&111u32.to_le_bytes());
    payload.push(0x20);
    payload.extend_from_slice(&pack_dt(2023, 13, 2, 3, 4, 5));
    assert!(matches!(
        Message::new(payload.as_slice()),
        Err(ErrorKind::InvalidDateTime { month: 13, .. })
    ));
}
