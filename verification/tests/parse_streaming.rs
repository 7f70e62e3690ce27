use ruvc::error::{Action, Error, ErrorKind, IoError, ParseError};
use ruvc::topo::parse::{is_unimplemented_stream_subtype, parse_streaming_descriptor};
use ruvc::topo::{
    FormatKind, FrameIndex, FrameKind, InputInterfaceInfo, StillCaptureMethod,
    StreamingInterfaceKind, SupportedFrameIntervals, TriggerSupport, TriggerUsage,
};
use std::time::Duration;

const INPUT_HEADER: [u8; 14] =
    [14, 0x24, 0x01, 0x01, 0x3B, 0x00, 0x81, 0x01, 0x03, 0x02, 0x01, 0x01, 0x01, 0x15];

const OUTPUT_HEADER: [u8; 9] = [9, 0x24, 0x02, 0x01, 0x3B, 0x00, 0x01, 0x03, 0x01];

const FORMAT: [u8; 27] = [
    27, 0x24, 0x04, 0x01, 0x02, 0x59, 0x55, 0x59, 0x32, 0x00, 0x00, 0x10, 0x00, 0x80, 0x00, 0x00,
    0xAA, 0x00, 0x38, 0x9B, 0x71, 0x10, 0x01, 0x04, 0x03, 0x82, 0x00,
];

fn frame_discrete(index: u8, intervals: &[u32]) -> Vec<u8> {
    let mut d = vec![0u8, 0x24, 0x05, index, 0x03];
    d.extend_from_slice(&640u16.to_le_bytes());
    d.extend_from_slice(&480u16.to_le_bytes());
    d.extend_from_slice(&1_000_000u32.to_le_bytes());
    d.extend_from_slice(&2_000_000u32.to_le_bytes());
    d.extend_from_slice(&614_400u32.to_le_bytes());
    d.extend_from_slice(&intervals[0].to_le_bytes());
    d.push(intervals.len() as u8);
    for i in intervals {
        d.extend_from_slice(&i.to_le_bytes());
    }
    d[0] = d.len() as u8;
    d
}

fn frame_continuous(index: u8) -> Vec<u8> {
    let mut d = vec![38u8, 0x24, 0x05, index, 0x00];
    d.extend_from_slice(&320u16.to_le_bytes());
    d.extend_from_slice(&240u16.to_le_bytes());
    d.extend_from_slice(&1u32.to_le_bytes());
    d.extend_from_slice(&2u32.to_le_bytes());
    d.extend_from_slice(&3u32.to_le_bytes());
    d.extend_from_slice(&333_333u32.to_le_bytes());
    d.push(0);
    d.extend_from_slice(&100_000u32.to_le_bytes());
    d.extend_from_slice(&1_000_000u32.to_le_bytes());
    d.extend_from_slice(&50_000u32.to_le_bytes());
    assert_eq!(d.len(), 38);
    d
}

fn block(descriptors: &[&[u8]]) -> Vec<u8> {
    let mut out = Vec::new();
    for d in descriptors {
        out.extend_from_slice(d);
    }
    out
}

fn parse_error(e: ParseError) -> Error {
    Error { action: Some(Action::AccessingDeviceDescriptor), kind: ErrorKind::Parse(e) }
}

fn units(n: u32) -> Duration {
    Duration::from_nanos(u64::from(n) * 100)
}

#[test]
fn streaming_input_header_fields() {
    let desc = parse_streaming_descriptor(&INPUT_HEADER, 2).unwrap();
    assert_eq!(desc.id().0, 2);
    assert_eq!(desc.endpoint_address(), 0x81);
    assert!(desc.formats().is_empty());
    assert!(desc.frames().is_empty());
    match &desc.kind {
        StreamingInterfaceKind::Input(h) => {
            assert_eq!(h.num_formats, 1);
            assert_eq!(h.total_length, 0x003B);
            assert_eq!(h.endpoint_address, 0x81);
            assert_eq!(h.info.bits(), InputInterfaceInfo::DYNAMIC_FORMAT_CHANGE_SUPPORTED);
            assert_eq!(h.terminal_link.as_raw(), 3);
            assert_eq!(h.still_capture_method, StillCaptureMethod::Method2);
            assert_eq!(h.trigger_support, TriggerSupport::Supported);
            assert_eq!(h.trigger_usage, TriggerUsage::GeneralPurposeButtonEvent);
            assert_eq!(h.format_controls.len(), 1);
            assert_eq!(h.format_controls[0].bits(), 0x15);
        }
        _ => panic!("not an input interface"),
    }
}

#[test]
fn input_header_with_wide_controls_per_format() {
    let header = [
        23u8, 0x24, 0x01, 0x02, 0x00, 0x00, 0x82, 0x00, 0x01, 0x00, 0x00, 0x00, 0x05, 0x01, 0, 0,
        0, 0xFF, 0xFF, 0x00, 0x00, 0x00, 0x01,
    ];
    let desc = parse_streaming_descriptor(&header, 1).unwrap();
    match &desc.kind {
        StreamingInterfaceKind::Input(h) => {
            assert_eq!(h.format_controls.len(), 2);
            assert_eq!(h.format_controls[0].bits(), 0x01);
            assert_eq!(h.format_controls[1].bits(), 0x3F);
        }
        _ => panic!("not an input interface"),
    }
}

#[test]
fn input_header_with_undefined_codes_falls_back() {
    let header = [13u8, 0x24, 0x01, 0x00, 0x00, 0x00, 0x81, 0xFF, 0x01, 0x04, 0x02, 0x02, 0x00];
    let desc = parse_streaming_descriptor(&header, 1).unwrap();
    match &desc.kind {
        StreamingInterfaceKind::Input(h) => {
            assert_eq!(h.info.bits(), 0x01);
            assert_eq!(h.still_capture_method, StillCaptureMethod::Unsupported);
            assert_eq!(h.trigger_support, TriggerSupport::NotSupported);
            assert_eq!(h.trigger_usage, TriggerUsage::InitiateStillImageCapture);
            assert!(h.format_controls.is_empty());
        }
        _ => panic!("not an input interface"),
    }
}

#[test]
fn input_header_with_zero_terminal_link_is_rejected() {
    let header = [13u8, 0x24, 0x01, 0x00, 0x00, 0x00, 0x81, 0x00, 0x00, 0x00, 0x00, 0x00, 0x00];
    assert_eq!(
        parse_streaming_descriptor(&header, 1).unwrap_err(),
        parse_error(ParseError::ZeroTerminalId)
    );
}

#[test]
fn format_uncompressed_fields() {
    let desc = parse_streaming_descriptor(&block(&[&INPUT_HEADER, &FORMAT]), 1).unwrap();
    assert_eq!(desc.formats().len(), 1);
    let format = &desc.formats()[0];
    assert_eq!(format.index().0, 1);
    assert_eq!(format.num_frame_descriptors, 2);
    match &format.kind {
        FormatKind::Uncompressed(f) => {
            assert_eq!(
                f.format,
                uuid::Uuid::parse_str("32595559-0000-0010-8000-00aa00389b71").unwrap()
            );
            assert_eq!(f.bits_per_pixel, 16);
            assert_eq!(f.default_frame_index.0, 1);
            assert_eq!(f.aspect_ratio_x, 4);
            assert_eq!(f.aspect_ratio_y, 3);
            assert_eq!(f.interlace_flags.bits(), 0x02);
            assert_eq!(f.copy_protect, 0);
        }
        _ => panic!("not an uncompressed format"),
    }
}

#[test]
fn frame_with_discrete_intervals() {
    let frame = frame_discrete(1, &[333_333, 666_666, 1_000_000]);
    let desc = parse_streaming_descriptor(&block(&[&INPUT_HEADER, &FORMAT, &frame]), 1).unwrap();
    assert_eq!(desc.frames().len(), 1);
    let frame = &desc.frames()[0];
    assert_eq!(frame.index().0, 1);
    let f = frame.as_frame_uncompressed().unwrap();
    assert_eq!(f.capabilities.bits(), 0x03);
    assert_eq!(f.width, 640);
    assert_eq!(f.height, 480);
    assert_eq!(f.min_bit_rate, 1_000_000);
    assert_eq!(f.max_bit_rate, 2_000_000);
    assert_eq!(f.max_video_frame_buffer_size, 614_400);
    assert_eq!(f.default_frame_interval(), units(333_333));
    assert_eq!(f.default_frame_interval(), Duration::from_nanos(33_333_300));
    match &f.frame_interval {
        SupportedFrameIntervals::Discrete { supported_frame_intervals } => {
            assert_eq!(
                supported_frame_intervals,
                &vec![units(333_333), units(666_666), units(1_000_000)]
            );
        }
        _ => panic!("not discrete"),
    }
    assert!(matches!(frame.kind, FrameKind::Uncompressed(_)));
}

#[test]
fn frame_with_continuous_intervals() {
    let frame = frame_continuous(2);
    let desc = parse_streaming_descriptor(&block(&[&INPUT_HEADER, &frame]), 1).unwrap();
    let f = desc.frames()[0].as_frame_uncompressed().unwrap();
    assert_eq!(f.width, 320);
    assert_eq!(f.height, 240);
    assert_eq!(f.capabilities.bits(), 0);
    match &f.frame_interval {
        SupportedFrameIntervals::Continuous {
            min_frame_interval,
            max_frame_interval,
            frame_interval_step,
        } => {
            assert_eq!(*min_frame_interval, units(100_000));
            assert_eq!(*max_frame_interval, units(1_000_000));
            assert_eq!(*frame_interval_step, units(50_000));
        }
        _ => panic!("not continuous"),
    }
}

#[test]
fn short_frame_is_read_with_zero_padding() {
    let mut frame = frame_discrete(1, &[333_333, 666_666]);
    frame.truncate(frame.len() - 2);
    frame[0] = frame.len() as u8;
    let desc = parse_streaming_descriptor(&block(&[&INPUT_HEADER, &frame]), 1).unwrap();
    let f = desc.frames()[0].as_frame_uncompressed().unwrap();
    match &f.frame_interval {
        SupportedFrameIntervals::Discrete { supported_frame_intervals } => {
            assert_eq!(supported_frame_intervals[0], units(333_333));
            assert_eq!(supported_frame_intervals[1], units(666_666 & 0xFFFF));
        }
        _ => panic!("not discrete"),
    }
}

#[test]
fn frame_promising_too_many_intervals_ends_unexpectedly() {
    let mut frame = frame_discrete(1, &[333_333]);
    frame[25] = 200;
    let e = parse_streaming_descriptor(&block(&[&INPUT_HEADER, &frame]), 1).unwrap_err();
    assert_eq!(e.action(), Some(Action::AccessingDeviceDescriptor));
    assert_eq!(e.kind(), &ErrorKind::Io(IoError::UnexpectedEnd));
}

#[test]
fn frame_by_index_finds_the_first_match() {
    let a = frame_discrete(1, &[333_333]);
    let b = frame_discrete(2, &[666_666]);
    let c = frame_discrete(2, &[999_999]);
    let desc = parse_streaming_descriptor(&block(&[&INPUT_HEADER, &a, &b, &c]), 1).unwrap();
    let frame = desc.frame_by_index(FrameIndex(2));
    assert_eq!(
        frame.as_frame_uncompressed().unwrap().default_frame_interval(),
        units(666_666)
    );
}

#[test]
fn missing_streaming_header_is_an_error() {
    assert_eq!(
        parse_streaming_descriptor(&[], 1).unwrap_err(),
        parse_error(ParseError::MissingStreamingHeader)
    );
    assert_eq!(
        parse_streaming_descriptor(&FORMAT, 1).unwrap_err(),
        parse_error(ParseError::MissingStreamingHeader)
    );
}

#[test]
fn both_headers_are_an_error() {
    assert_eq!(
        parse_streaming_descriptor(&block(&[&INPUT_HEADER, &OUTPUT_HEADER]), 1).unwrap_err(),
        parse_error(ParseError::ConflictingStreamingHeaders)
    );
}

#[test]
fn output_header_makes_an_output_interface() {
    let desc = parse_streaming_descriptor(&OUTPUT_HEADER, 4).unwrap();
    assert_eq!(desc.id().0, 4);
    assert!(matches!(desc.kind, StreamingInterfaceKind::Output(_)));
}

#[test]
fn duplicate_headers_are_an_error() {
    assert_eq!(
        parse_streaming_descriptor(&block(&[&INPUT_HEADER, &INPUT_HEADER]), 1).unwrap_err(),
        parse_error(ParseError::DuplicateInputHeader)
    );
    assert_eq!(
        parse_streaming_descriptor(&block(&[&OUTPUT_HEADER, &OUTPUT_HEADER]), 1).unwrap_err(),
        parse_error(ParseError::DuplicateOutputHeader)
    );
}

#[test]
fn unimplemented_subtypes_are_rejected() {
    for subtype in [0x03u8, 0x06, 0x07, 0x0A, 0x0C, 0x0D, 0x10, 0x11, 0x12, 0x13, 0x14, 0x15, 0x16,
        0x17, 0x18]
    {
        assert!(is_unimplemented_stream_subtype(subtype));
        let d = [4u8, 0x24, subtype, 0x00];
        assert_eq!(
            parse_streaming_descriptor(&block(&[&INPUT_HEADER, &d]), 1).unwrap_err(),
            parse_error(ParseError::UnimplementedSubtype(subtype))
        );
    }
}

#[test]
fn unknown_subtypes_are_rejected() {
    for subtype in [0x00u8, 0x08, 0x09, 0x0B, 0x0E, 0x0F, 0x19, 0xFF] {
        assert!(!is_unimplemented_stream_subtype(subtype));
        let d = [4u8, 0x24, subtype, 0x00];
        assert_eq!(
            parse_streaming_descriptor(&block(&[&INPUT_HEADER, &d]), 1).unwrap_err(),
            parse_error(ParseError::UnknownSubtype(subtype))
        );
    }
}

#[test]
fn streaming_descriptors_of_other_types_are_skipped() {
    let endpoint = [7u8, 0x05, 0x81, 0x02, 0x00, 0x02, 0x00];
    let desc = parse_streaming_descriptor(&block(&[&endpoint, &INPUT_HEADER, &endpoint]), 1);
    assert!(desc.is_ok());
}
