use ruvc::control::{
    decode_response, encode_to_vec, AutoExposureMode, ControlValue, ExposureTimeAbs, FocusRel,
    FocusSimple, PowerLineFrequency, ProbeCommitControls, ProbeCommitControlsBuf, ProbeHint,
    WhiteBalanceComponents,
};
use ruvc::error::{Action, ErrorKind, IoError};
use std::time::Duration;

fn encoded<V: ControlValue>(v: &V) -> Vec<u8> {
    let mut buf = vec![0xEEu8; V::size()];
    v.encode(&mut buf);
    buf
}

#[test]
fn bool_decodes_any_nonzero_byte_as_true() {
    assert!(!bool::decode(&[0]));
    assert!(bool::decode(&[1]));
    assert!(bool::decode(&[2]));
    assert!(bool::decode(&[255]));
}

#[test]
fn bool_encodes_as_zero_or_one() {
    assert_eq!(encoded(&false), vec![0]);
    assert_eq!(encoded(&true), vec![1]);
}

#[test]
fn bool_buffers_canonicalize_to_one() {
    for b in 2..=255u8 {
        assert_eq!(encoded(&bool::decode(&[b])), vec![1]);
    }
    assert_eq!(encoded(&bool::decode(&[0])), vec![0]);
    assert_eq!(encoded(&bool::decode(&[1])), vec![1]);
}

#[test]
fn u8_round_trips_every_value() {
    for v in 0..=255u8 {
        assert_eq!(encoded(&v), vec![v]);
        assert_eq!(u8::decode(&[v]), v);
    }
}

#[test]
fn i8_round_trips_every_value() {
    for v in i8::MIN..=i8::MAX {
        let buf = encoded(&v);
        assert_eq!(buf, v.to_le_bytes().to_vec());
        assert_eq!(i8::decode(&buf), v);
    }
}

#[test]
fn i8_decodes_high_bytes_as_negative() {
    assert_eq!(i8::decode(&[0xFF]), -1);
    assert_eq!(i8::decode(&[0x80]), -128);
    assert_eq!(i8::decode(&[0x7F]), 127);
}

#[test]
fn u16_is_little_endian() {
    assert_eq!(encoded(&0x1234u16), vec![0x34, 0x12]);
    assert_eq!(u16::decode(&[0x34, 0x12]), 0x1234);
    assert_eq!(encoded(&u16::MAX), vec![0xFF, 0xFF]);
    assert_eq!(u16::decode(&[0xFF, 0xFF]), u16::MAX);
    assert_eq!(u16::decode(&[0x00, 0x01]), 256);
}

#[test]
fn u16_round_trips_every_value() {
    for v in 0..=u16::MAX {
        let buf = encoded(&v);
        assert_eq!(buf, v.to_le_bytes().to_vec());
        assert_eq!(u16::decode(&buf), v);
    }
}

#[test]
fn i16_is_little_endian_twos_complement() {
    assert_eq!(encoded(&-1i16), vec![0xFF, 0xFF]);
    assert_eq!(encoded(&i16::MIN), vec![0x00, 0x80]);
    assert_eq!(encoded(&i16::MAX), vec![0xFF, 0x7F]);
    assert_eq!(i16::decode(&[0xFE, 0xFF]), -2);
    assert_eq!(i16::decode(&[0x00, 0x80]), i16::MIN);
}

#[test]
fn i16_round_trips_every_value() {
    for v in i16::MIN..=i16::MAX {
        let buf = encoded(&v);
        assert_eq!(buf, v.to_le_bytes().to_vec());
        assert_eq!(i16::decode(&buf), v);
    }
}

#[test]
fn u32_is_little_endian() {
    assert_eq!(encoded(&0x12345678u32), vec![0x78, 0x56, 0x34, 0x12]);
    assert_eq!(u32::decode(&[0x78, 0x56, 0x34, 0x12]), 0x12345678);
    assert_eq!(encoded(&u32::MAX), vec![0xFF; 4]);
    assert_eq!(u32::decode(&[0xFF; 4]), u32::MAX);
    assert_eq!(encoded(&0u32), vec![0; 4]);
}

#[test]
fn u32_round_trips_sampled_values() {
    let mut v: u32 = 1;
    for _ in 0..2000 {
        let buf = encoded(&v);
        assert_eq!(buf, v.to_le_bytes().to_vec());
        assert_eq!(u32::decode(&buf), v);
        v = v.wrapping_mul(1664525).wrapping_add(1013904223);
    }
}

#[test]
fn power_line_frequency_table() {
    assert_eq!(PowerLineFrequency::decode(&[0]), PowerLineFrequency::Disabled);
    assert_eq!(PowerLineFrequency::decode(&[1]), PowerLineFrequency::Freq50Hz);
    assert_eq!(PowerLineFrequency::decode(&[2]), PowerLineFrequency::Freq60Hz);
    assert_eq!(PowerLineFrequency::decode(&[3]), PowerLineFrequency::Auto);
    assert_eq!(encoded(&PowerLineFrequency::Disabled), vec![0]);
    assert_eq!(encoded(&PowerLineFrequency::Freq50Hz), vec![1]);
    assert_eq!(encoded(&PowerLineFrequency::Freq60Hz), vec![2]);
    assert_eq!(encoded(&PowerLineFrequency::Auto), vec![3]);
}

#[test]
fn power_line_frequency_unknown_byte_is_disabled() {
    for b in 4..=255u8 {
        assert_eq!(PowerLineFrequency::decode(&[b]), PowerLineFrequency::Disabled);
        assert_eq!(encoded(&PowerLineFrequency::decode(&[b])), vec![0]);
    }
}

#[test]
fn white_balance_components_layout() {
    let v = WhiteBalanceComponents::new(0x0102, 0x0304);
    assert_eq!(v.blue, 0x0102);
    assert_eq!(v.red, 0x0304);
    assert_eq!(encoded(&v), vec![0x02, 0x01, 0x04, 0x03]);
    assert_eq!(WhiteBalanceComponents::decode(&[0x02, 0x01, 0x04, 0x03]), v);
}

#[test]
fn auto_exposure_mode_drops_undefined_bits() {
    let v = AutoExposureMode::decode(&[0xF2]);
    assert_eq!(v.bits(), 0x02);
    assert!(v.contains(AutoExposureMode::AUTO));
    assert!(!v.contains(AutoExposureMode::MANUAL));
    assert_eq!(encoded(&v), vec![0x02]);
    assert_eq!(AutoExposureMode::decode(&[0x0F]).bits(), 0x0F);
}

#[test]
fn auto_exposure_mode_round_trips_defined_bits() {
    for bits in 0..=0x0Fu8 {
        let v = AutoExposureMode::from_bits_truncate(bits);
        assert_eq!(v.bits(), bits);
        assert_eq!(AutoExposureMode::decode(&encoded(&v)), v);
    }
    assert!(AutoExposureMode::empty().is_empty());
}

#[test]
fn exposure_time_from_zero_duration_is_one_unit() {
    assert_eq!(ExposureTimeAbs::from_duration(Duration::from_nanos(0)).units(), 1);
}

#[test]
fn exposure_time_above_range_is_clamped() {
    let above = Duration::from_micros(u64::from(u32::MAX) * 100 + 1);
    assert_eq!(ExposureTimeAbs::from_duration(above).units(), u32::MAX);
    let far_above = Duration::from_secs(u64::MAX);
    assert_eq!(ExposureTimeAbs::from_duration(far_above).units(), u32::MAX);
    let at_max = Duration::from_micros(u64::from(u32::MAX) * 100);
    assert_eq!(ExposureTimeAbs::from_duration(at_max).units(), u32::MAX);
}

#[test]
fn exposure_time_just_above_range_is_clamped() {
    let above = Duration::from_micros(u64::from(u32::MAX) * 100) + Duration::from_nanos(1);
    assert_eq!(ExposureTimeAbs::from_duration(above).units(), u32::MAX);
    let below = Duration::from_micros(u64::from(u32::MAX) * 100) - Duration::from_nanos(1);
    assert_eq!(ExposureTimeAbs::from_duration(below).units(), u32::MAX - 1);
}

#[test]
fn well_formed_buffers() {
    assert!(bool::is_well_formed(&[0]));
    assert!(bool::is_well_formed(&[1]));
    assert!(!bool::is_well_formed(&[2]));
    assert!(!bool::is_well_formed(&[255]));
    assert!(u8::is_well_formed(&[200]));
    assert!(i16::is_well_formed(&[0xFF, 0xFF]));
    assert!(u32::is_well_formed(&[1, 2, 3, 4]));
    assert!(PowerLineFrequency::is_well_formed(&[3]));
    assert!(!PowerLineFrequency::is_well_formed(&[4]));
    assert!(FocusSimple::is_well_formed(&[0]));
    assert!(FocusSimple::is_well_formed(&[3]));
    assert!(!FocusSimple::is_well_formed(&[0x09]));
    assert!(AutoExposureMode::is_well_formed(&[0x0F]));
    assert!(!AutoExposureMode::is_well_formed(&[0x10]));
    assert!(ProbeCommitControls::is_well_formed(&[0xFF; 26]));
    assert!(FocusRel::is_well_formed(&[0x80, 0xFF]));
    assert!(ExposureTimeAbs::is_well_formed(&[0; 4]));
    assert!(WhiteBalanceComponents::is_well_formed(&[9; 4]));
}

#[test]
fn exposure_time_rounds_down_to_whole_units() {
    assert_eq!(ExposureTimeAbs::from_duration(Duration::from_micros(100)).units(), 1);
    assert_eq!(ExposureTimeAbs::from_duration(Duration::from_micros(199)).units(), 1);
    assert_eq!(ExposureTimeAbs::from_duration(Duration::from_micros(200)).units(), 2);
    assert_eq!(ExposureTimeAbs::from_duration(Duration::from_nanos(99_999)).units(), 1);
    assert_eq!(ExposureTimeAbs::from_duration(Duration::from_millis(10)).units(), 100);
}

#[test]
fn exposure_time_as_duration() {
    assert_eq!(ExposureTimeAbs(1).as_duration(), Duration::from_micros(100));
    assert_eq!(ExposureTimeAbs(100).as_duration(), Duration::from_millis(10));
    assert_eq!(
        ExposureTimeAbs(u32::MAX).as_duration(),
        Duration::from_micros(u64::from(u32::MAX) * 100)
    );
}

#[test]
fn exposure_time_wire_layout() {
    assert_eq!(encoded(&ExposureTimeAbs(0x01020304)), vec![0x04, 0x03, 0x02, 0x01]);
    assert_eq!(ExposureTimeAbs::decode(&[0x04, 0x03, 0x02, 0x01]), ExposureTimeAbs(0x01020304));
    assert_eq!(ExposureTimeAbs::decode(&[0, 0, 0, 0]).units(), 0);
}

#[test]
fn focus_rel_layout() {
    let v = FocusRel::new(-1, 7);
    assert_eq!(encoded(&v), vec![0xFF, 0x07]);
    assert_eq!(FocusRel::decode(&[0xFF, 0x07]), v);
    assert_eq!(FocusRel::decode(&[0x01, 0xFF]), FocusRel::new(1, 255));
}

#[test]
fn focus_simple_table() {
    assert_eq!(FocusSimple::decode(&[0]), FocusSimple::FullRange);
    assert_eq!(FocusSimple::decode(&[1]), FocusSimple::Macro);
    assert_eq!(FocusSimple::decode(&[2]), FocusSimple::People);
    assert_eq!(FocusSimple::decode(&[3]), FocusSimple::Scene);
    assert_eq!(encoded(&FocusSimple::Macro), vec![1]);
    assert_eq!(encoded(&FocusSimple::People), vec![2]);
    assert_eq!(encoded(&FocusSimple::Scene), vec![3]);
}

#[test]
fn focus_simple_undefined_byte_is_full_range() {
    assert_eq!(FocusSimple::decode(&[0x09]), FocusSimple::FullRange);
    assert_eq!(encoded(&FocusSimple::FullRange), vec![0x00]);
}

#[test]
fn probe_round_trip() {
    let controls = ProbeCommitControls {
        bFormatIndex: 1,
        bFrameIndex: 2,
        dwFrameInterval: 86956,
        ..Default::default()
    };
    let buf = encoded(&controls);
    assert_eq!(buf.len(), 26);
    assert_eq!(&buf[2..4], &[0x01, 0x02]);
    assert_eq!(&buf[4..8], &86956u32.to_le_bytes());
    assert_eq!(&buf[4..8], &[0xAC, 0x53, 0x01, 0x00]);
    assert!(buf[..2].iter().all(|b| *b == 0));
    assert!(buf[8..].iter().all(|b| *b == 0));
    assert_eq!(ProbeCommitControls::decode(&buf), controls);
}

#[test]
fn probe_frame_interval_is_little_endian() {
    let mut buf = vec![0u8; 26];
    buf[4..8].copy_from_slice(&[0x6C, 0x53, 0x01, 0x00]);
    assert_eq!(ProbeCommitControls::decode(&buf).dwFrameInterval, 0x0001536C);
    buf[4..8].copy_from_slice(&[0xAC, 0x53, 0x01, 0x00]);
    assert_eq!(ProbeCommitControls::decode(&buf).dwFrameInterval, 86956);
}

#[test]
fn probe_layout_of_every_field() {
    let buf: Vec<u8> = (1..=26).collect();
    let c = ProbeCommitControls::decode(&buf);
    assert_eq!(c.bmHint.bits(), 0x0201);
    assert_eq!(c.bFormatIndex, 3);
    assert_eq!(c.bFrameIndex, 4);
    assert_eq!(c.dwFrameInterval, 0x08070605);
    assert_eq!(c.wKeyFrameRate, 0x0A09);
    assert_eq!(c.wPFrameRate, 0x0C0B);
    assert_eq!(c.wCompQuality, 0x0E0D);
    assert_eq!(c.wCompWindowSize, 0x100F);
    assert_eq!(c.wDelay, 0x1211);
    assert_eq!(c.dwMaxVideoFrameSize, 0x16151413);
    assert_eq!(c.dwMaxPayloadTransferSize, 0x1A191817);
    assert_eq!(encoded(&c), buf);
}

#[test]
fn probe_default_is_all_zero() {
    let c = ProbeCommitControls::default();
    assert_eq!(encoded(&c), vec![0u8; 26]);
    assert!(c.bmHint.is_empty());
    assert_eq!(ProbeCommitControls::size(), 26);
    assert_eq!(ProbeCommitControlsBuf::default().0, [0u8; 26]);
}

#[test]
fn probe_hint_flags() {
    let h = ProbeHint::from_bits_truncate(ProbeHint::FIX_FRAME_INTERVAL | 0x8000);
    assert_eq!(h.bits(), 1);
    assert!(h.contains(ProbeHint::FIX_FRAME_INTERVAL));
    assert!(!h.contains(ProbeHint::FIX_COMP_QUALITY));
    assert_eq!(ProbeHint::ALL, 0x1F);
}

#[test]
fn wire_sizes() {
    assert_eq!(bool::size(), 1);
    assert_eq!(u8::size(), 1);
    assert_eq!(i8::size(), 1);
    assert_eq!(u16::size(), 2);
    assert_eq!(i16::size(), 2);
    assert_eq!(u32::size(), 4);
    assert_eq!(PowerLineFrequency::size(), 1);
    assert_eq!(WhiteBalanceComponents::size(), 4);
    assert_eq!(AutoExposureMode::size(), 1);
    assert_eq!(ExposureTimeAbs::size(), 4);
    assert_eq!(FocusRel::size(), 2);
    assert_eq!(FocusSimple::size(), 1);
}

#[test]
fn encode_to_vec_has_the_wire_size() {
    assert_eq!(encode_to_vec(&-1i16), vec![0xFF, 0xFF]);
    assert_eq!(encode_to_vec(&true), vec![1]);
    assert_eq!(encode_to_vec(&ProbeCommitControls::default()).len(), 26);
}

#[test]
fn decode_response_takes_the_wire_size() {
    let v: Result<u16, _> = decode_response(&[0x34, 0x12], Action::ReadingControl);
    assert_eq!(v, Ok(0x1234));
    let v: Result<u16, _> = decode_response(&[0x34, 0x12, 0x99], Action::ReadingControl);
    assert_eq!(v, Ok(0x1234));
}

#[test]
fn decode_response_rejects_a_short_answer() {
    let v: Result<u32, _> = decode_response(&[1, 2, 3], Action::ReadingControl);
    let e = v.unwrap_err();
    assert_eq!(e.action(), Some(Action::ReadingControl));
    assert_eq!(e.kind(), &ErrorKind::Io(IoError::ShortRead { expected: 4, actual: 3 }));
    let v: Result<bool, _> = decode_response(&[], Action::StreamNegotiation);
    let e = v.unwrap_err();
    assert_eq!(e.action(), Some(Action::StreamNegotiation));
    assert_eq!(e.kind(), &ErrorKind::Io(IoError::ShortRead { expected: 1, actual: 0 }));
}
