use ruvc::camera::{
    AutoExposureMode, ExposureTimeAbs, FocusAbs, FocusRel, FocusSimple, ScanningMode,
};
use ruvc::control::{ControlValue, ProbeCommitControls};
use ruvc::detect::{ControlInterface, UvcInfo};
use ruvc::device::{
    after_first_attempt, check_claimed, interfaces_to_claim, needs_configuration, Attempt,
    ControlIn, ControlOut,
};
use ruvc::error::{during, err, Action, Error, ErrorKind, IoError, UsbError};
use ruvc::processing_unit::{Brightness, Gain, PowerLineFrequency, WhiteBalanceComponent};
use ruvc::streaming_interface::{
    BulkIn, Commit, Negotiation, NegotiationStep, Probe,
};
use ruvc::topo::parse::{parse_control_desc, parse_streaming_descriptor};
use ruvc::topo::{FormatIndex, FrameIndex, StreamingInterfaceId};
use ruvc::{Request, UvcDevice};
use std::cell::Cell;
use std::time::Duration;

fn frame(index: u8, interval: u32) -> Vec<u8> {
    let mut d = vec![30u8, 0x24, 0x05, index, 0x00];
    d.extend_from_slice(&640u16.to_le_bytes());
    d.extend_from_slice(&480u16.to_le_bytes());
    d.extend_from_slice(&[0; 12]);
    d.extend_from_slice(&interval.to_le_bytes());
    d.push(1);
    d.extend_from_slice(&interval.to_le_bytes());
    assert_eq!(d.len(), 30);
    d
}

fn device() -> UvcDevice {
    let mut control = vec![13u8, 0x24, 0x01, 0x00, 0x01, 0x4D, 0x00, 0x80, 0x8D, 0x5B, 0x00, 0x01, 0x02];
    control.extend_from_slice(&[
        18, 0x24, 0x02, 0x01, 0x01, 0x02, 0x00, 0x00, 0, 0, 0, 0, 0, 0, 0x03, 0x0A, 0x00, 0x00,
    ]);
    control.extend_from_slice(&[13, 0x24, 0x05, 0x03, 0x01, 0x00, 0x00, 0x03, 0x3F, 0, 0, 0, 0]);
    let topo = parse_control_desc(&control).unwrap();
    let mut streaming =
        vec![14u8, 0x24, 0x01, 0x01, 0x3B, 0x00, 0x81, 0x00, 0x04, 0x00, 0x00, 0x00, 0x01, 0x00];
    streaming.extend(frame(1, 333_333));
    streaming.extend(frame(2, 86_956));
    let streaming = parse_streaming_descriptor(&streaming, 2).unwrap();
    UvcDevice::new(UvcInfo {
        control_interface: ControlInterface {
            interface_number: 1,
            control_interrupt_ep: Some(0x83),
            topo,
        },
        streaming_interfaces: vec![streaming],
    })
}

fn timeout(action: Action) -> Error {
    Error { action: Some(action), kind: ErrorKind::Transport(UsbError::Timeout) }
}

#[test]
fn set_cur_on_processing_unit_brightness() {
    let dev = device();
    let id = dev.topology().units()[0].as_processing_unit().unwrap().id();
    let mut pu = dev.processing_unit_by_id(id);
    let t = pu.set_control::<Brightness>(-1);
    assert_eq!(t.request_type, 0x21);
    assert_eq!(t.request, 0x01);
    assert_eq!(t.value, 0x0200);
    assert_eq!(t.index, 0x0301);
    assert_eq!(t.data, vec![0xFF, 0xFF]);
    assert_eq!(t.action, Action::WritingControl);
}

#[test]
fn reads_on_processing_unit() {
    let dev = device();
    let id = dev.topology().units()[0].as_processing_unit().unwrap().id();
    let pu = dev.processing_unit_by_id(id);
    let expect = |request: u8, value: u16, len: usize| ControlIn {
        request_type: 0xA1,
        request,
        value,
        index: 0x0301,
        len,
        action: Action::ReadingControl,
    };
    assert_eq!(pu.read_control::<Brightness>(), expect(0x81, 0x0200, 2));
    assert_eq!(pu.read_control_min::<Gain>(), expect(0x82, 0x0400, 2));
    assert_eq!(pu.read_control_max::<PowerLineFrequency>(), expect(0x83, 0x0500, 1));
    assert_eq!(pu.read_control_res::<WhiteBalanceComponent>(), expect(0x84, 0x0C00, 4));
    assert_eq!(pu.read_control_default::<Brightness>(), expect(0x87, 0x0200, 2));
    assert_eq!(pu.decode_control::<Brightness>(&[0xFE, 0xFF]), Ok(-2));
    assert_eq!(
        pu.decode_control::<PowerLineFrequency>(&[2]),
        Ok(ruvc::control::PowerLineFrequency::Freq60Hz)
    );
}

#[test]
fn transfers_on_camera_terminal() {
    let dev = device();
    let id = dev.topology().inputs()[0].as_camera_id().unwrap();
    let mut cam = dev.camera_terminal_by_id(id);
    let expect = |request: u8, value: u16, len: usize| ControlIn {
        request_type: 0xA1,
        request,
        value,
        index: 0x0101,
        len,
        action: Action::ReadingControl,
    };
    assert_eq!(cam.read_control::<ScanningMode>(), expect(0x81, 0x0100, 1));
    assert_eq!(cam.read_control_min::<ExposureTimeAbs>(), expect(0x82, 0x0400, 4));
    assert_eq!(cam.read_control_max::<FocusAbs>(), expect(0x83, 0x0600, 2));
    assert_eq!(cam.read_control_res::<FocusRel>(), expect(0x84, 0x0700, 2));
    assert_eq!(cam.read_control_default::<FocusSimple>(), expect(0x87, 0x1200, 1));
    let t = cam.set_control::<AutoExposureMode>(ruvc::control::AutoExposureMode::from_bits_truncate(
        ruvc::control::AutoExposureMode::APERTURE_PRIORITY,
    ));
    assert_eq!((t.request_type, t.request, t.value, t.index), (0x21, 0x01, 0x0200, 0x0101));
    assert_eq!(t.data, vec![0x08]);
    let t = cam.set_control::<ExposureTimeAbs>(100);
    assert_eq!(t.value, 0x0400);
    assert_eq!(t.data, vec![100, 0, 0, 0]);
    assert_eq!(
        cam.decode_control::<FocusSimple>(&[0x09]),
        Ok(ruvc::control::FocusSimple::FullRange)
    );
    let e = cam.decode_control::<ExposureTimeAbs>(&[1, 2]).unwrap_err();
    assert_eq!(e.action(), Some(Action::ReadingControl));
    assert_eq!(e.kind(), &ErrorKind::Io(IoError::ShortRead { expected: 4, actual: 2 }));
}

#[test]
fn streaming_interface_controls_address_entity_zero() {
    let dev = device();
    let mut intf = dev.streaming_interface_by_id(StreamingInterfaceId(2));
    let read = intf.read_control::<Probe>();
    assert_eq!(
        read,
        ControlIn {
            request_type: 0xA1,
            request: 0x81,
            value: 0x0100,
            index: 0x0002,
            len: 26,
            action: Action::ReadingControl,
        }
    );
    assert_eq!(intf.read_control_min::<Probe>().request, 0x82);
    assert_eq!(intf.read_control_max::<Commit>().request, 0x83);
    assert_eq!(intf.read_control_max::<Commit>().value, 0x0200);
    let t = intf.set_control::<Commit>(ProbeCommitControls::default());
    assert_eq!((t.request_type, t.request, t.value, t.index), (0x21, 0x01, 0x0200, 0x0002));
    assert_eq!(t.data, vec![0u8; 26]);
    let answer: Vec<u8> = (1..=26).collect();
    assert_eq!(intf.decode_control::<Probe>(&answer).unwrap().bFormatIndex, 3);
}

#[test]
fn raw_entity_transfers() {
    let dev = device();
    let t = dev.set_entity(0xFF, 0xFF, &[1, 2, 3]);
    assert_eq!((t.value, t.index), (0xFF00, 0xFF01));
    assert_eq!(t.data, vec![1, 2, 3]);
    let t = dev.set_interface_entity(0xAB, 0xCD, 0x12, &[]);
    assert_eq!((t.request_type, t.request, t.value, t.index), (0x21, 0x01, 0x1200, 0xCDAB));
    let t = dev.read_entity(4, Request::GetLen, 6, 2);
    assert_eq!((t.request_type, t.request, t.value, t.index, t.len), (0xA1, 0x85, 0x0600, 0x0401, 2));
    let t = dev.read_interface_entity(9, 0, Request::GetInfo, 1, 1);
    assert_eq!((t.request, t.value, t.index, t.len), (0x86, 0x0100, 0x0009, 1));
    assert_eq!(dev.control_interface_number(), 1);
}

#[test]
fn request_codes() {
    assert_eq!(Request::Undefined.code(), 0x00);
    assert_eq!(Request::SetCur.code(), 0x01);
    assert_eq!(Request::SetCurAll.code(), 0x11);
    assert_eq!(Request::GetCur.code(), 0x81);
    assert_eq!(Request::GetMin.code(), 0x82);
    assert_eq!(Request::GetMax.code(), 0x83);
    assert_eq!(Request::GetRes.code(), 0x84);
    assert_eq!(Request::GetLen.code(), 0x85);
    assert_eq!(Request::GetInfo.code(), 0x86);
    assert_eq!(Request::GetDef.code(), 0x87);
    assert_eq!(Request::GetCurAll.code(), 0x91);
    assert_eq!(Request::GetMinAll.code(), 0x92);
    assert_eq!(Request::GetMaxAll.code(), 0x93);
    assert_eq!(Request::GetResAll.code(), 0x94);
    assert_eq!(Request::GetDefAll.code(), 0x97);
}

#[test]
fn control_selectors() {
    assert_eq!(ruvc::camera::ControlId::Undefined.selector(), 0x00);
    assert_eq!(ruvc::camera::ControlId::ScanningMode.selector(), 0x01);
    assert_eq!(ruvc::camera::ControlId::ZoomRel.selector(), 0x0C);
    assert_eq!(ruvc::camera::ControlId::RegionOfInterest.selector(), 0x14);
    assert_eq!(ruvc::processing_unit::ControlId::BacklightCompensation.selector(), 0x01);
    assert_eq!(ruvc::processing_unit::ControlId::HueAuto.selector(), 0x10);
    assert_eq!(ruvc::processing_unit::ControlId::ContrastAuto.selector(), 0x13);
    assert_eq!(ruvc::streaming_interface::ControlId::Probe.selector(), 0x01);
    assert_eq!(ruvc::streaming_interface::ControlId::Commit.selector(), 0x02);
    assert_eq!(ruvc::streaming_interface::ControlId::StillProbe.selector(), 0x03);
    assert_eq!(ruvc::streaming_interface::ControlId::StillCommit.selector(), 0x04);
    assert_eq!(ruvc::streaming_interface::ControlId::StillImageTrigger.selector(), 0x05);
    assert_eq!(ruvc::streaming_interface::ControlId::StreamErrorCode.selector(), 0x06);
    assert_eq!(ruvc::streaming_interface::ControlId::GenerateKeyFrame.selector(), 0x07);
    assert_eq!(ruvc::streaming_interface::ControlId::UpdateFrameSegment.selector(), 0x08);
    assert_eq!(ruvc::streaming_interface::ControlId::SynchDelay.selector(), 0x09);
}

#[test]
fn timeout_on_first_attempt_is_retried() {
    let dev = device();
    let calls = Cell::new(0u32);
    let r = dev.with_usb(|| {
        calls.set(calls.get() + 1);
        if calls.get() == 1 {
            Err(timeout(Action::ReadingControl))
        } else {
            Ok(vec![0x34u8, 0x12])
        }
    });
    assert_eq!(r, Ok(vec![0x34u8, 0x12]));
    assert_eq!(calls.get(), 2);
}

#[test]
fn two_timeouts_surface_with_their_action() {
    let dev = device();
    for action in [
        Action::ReadingControl,
        Action::WritingControl,
        Action::StreamNegotiation,
        Action::StreamRead,
    ] {
        let calls = Cell::new(0u32);
        let r: Result<(), Error> = dev.with_usb(|| {
            calls.set(calls.get() + 1);
            Err(timeout(action))
        });
        let e = r.unwrap_err();
        assert!(e.is_usb_timeout());
        assert_eq!(e.action(), Some(action));
        assert_eq!(e.kind(), &ErrorKind::Transport(UsbError::Timeout));
        assert_eq!(calls.get(), 2);
    }
}

#[test]
fn only_a_timeout_asks_for_a_second_attempt() {
    assert_eq!(after_first_attempt::<u8>(Err(timeout(Action::ReadingControl))), Attempt::Retry);
    assert_eq!(after_first_attempt::<u8>(Err(timeout(Action::StreamRead))), Attempt::Retry);
    assert_eq!(after_first_attempt(Ok(5u8)), Attempt::Done(Ok(5u8)));
    let pipe =
        Error { action: Some(Action::WritingControl), kind: ErrorKind::Transport(UsbError::Pipe) };
    assert_eq!(after_first_attempt::<u8>(Err(pipe.clone())), Attempt::Done(Err(pipe)));
    let short = Error {
        action: Some(Action::ReadingControl),
        kind: ErrorKind::Io(IoError::ShortRead { expected: 2, actual: 1 }),
    };
    assert_eq!(after_first_attempt::<u8>(Err(short.clone())), Attempt::Done(Err(short)));
}

#[test]
fn success_is_not_retried() {
    let dev = device();
    let calls = Cell::new(0u32);
    let r = dev.with_usb(|| {
        calls.set(calls.get() + 1);
        Ok::<u32, Error>(7)
    });
    assert_eq!(r, Ok(7));
    assert_eq!(calls.get(), 1);
}

#[test]
fn other_errors_are_not_retried() {
    let dev = device();
    let calls = Cell::new(0u32);
    let r: Result<(), Error> = dev.with_usb(|| {
        calls.set(calls.get() + 1);
        Err(Error { action: Some(Action::WritingControl), kind: ErrorKind::Transport(UsbError::Pipe) })
    });
    assert_eq!(r.unwrap_err().kind(), &ErrorKind::Transport(UsbError::Pipe));
    assert_eq!(calls.get(), 1);
}

#[test]
fn second_attempt_may_fail_otherwise() {
    let dev = device();
    let calls = Cell::new(0u32);
    let r: Result<(), Error> = dev.with_usb(|| {
        calls.set(calls.get() + 1);
        if calls.get() == 1 {
            Err(timeout(Action::StreamRead))
        } else {
            Err(Error { action: Some(Action::StreamRead), kind: ErrorKind::Transport(UsbError::NoDevice) })
        }
    });
    assert_eq!(r.unwrap_err().kind(), &ErrorKind::Transport(UsbError::NoDevice));
    assert_eq!(calls.get(), 2);
}

#[test]
fn transfer_outcomes() {
    let dev = device();
    let out = dev.set_entity(3, 2, &[1, 2]);
    assert_eq!(out.finish(2), Ok(()));
    let e = out.finish(1).unwrap_err();
    assert_eq!(e.action(), Some(Action::WritingControl));
    assert_eq!(e.kind(), &ErrorKind::Io(IoError::ShortWrite { expected: 2, actual: 1 }));
    assert_eq!(
        out.failed(UsbError::Timeout),
        Error { action: Some(Action::WritingControl), kind: ErrorKind::Transport(UsbError::Timeout) }
    );
    let read = dev.read_entity(3, Request::GetCur, 2, 2);
    assert_eq!(read.finish(&[5, 6]), Ok(&[5u8, 6][..]));
    assert_eq!(read.finish(&[5, 6, 7]), Ok(&[5u8, 6][..]));
    let e = read.finish(&[5]).unwrap_err();
    assert_eq!(e.action(), Some(Action::ReadingControl));
    assert_eq!(e.kind(), &ErrorKind::Io(IoError::ShortRead { expected: 2, actual: 1 }));
    assert!(read.failed(UsbError::Timeout).is_usb_timeout());
    assert!(!read.failed(UsbError::Io).is_usb_timeout());
    assert_eq!(read.during(Action::StreamNegotiation).action, Action::StreamNegotiation);
    let retagged: ControlOut = out.during(Action::StreamNegotiation);
    assert_eq!(retagged.action, Action::StreamNegotiation);
    assert_eq!(retagged.data, vec![1, 2]);
}

#[test]
fn negotiation_runs_probe_then_commit() {
    let dev = device();
    let mut intf = dev.streaming_interface_by_id(StreamingInterfaceId(2));
    let state = intf.start_stream(FormatIndex(1), FrameIndex(2));
    let proposal = ProbeCommitControls {
        bFormatIndex: 1,
        bFrameIndex: 2,
        dwFrameInterval: 86_956,
        ..Default::default()
    };
    assert_eq!(state, Negotiation::Propose(proposal));

    let mut proposed = vec![0u8; 26];
    proposal.encode(&mut proposed);
    match intf.negotiation_step(&state) {
        NegotiationStep::Write(t) => {
            assert_eq!((t.request_type, t.request, t.value, t.index), (0x21, 0x01, 0x0100, 0x0002));
            assert_eq!(t.data, proposed);
            assert_eq!(t.action, Action::StreamNegotiation);
        }
        _ => panic!("expected a write"),
    }
    let state = intf.negotiation_next(state, &[]).unwrap();
    assert_eq!(state, Negotiation::ReadAnswer);

    match intf.negotiation_step(&state) {
        NegotiationStep::Read(t) => {
            assert_eq!(
                t,
                ControlIn {
                    request_type: 0xA1,
                    request: 0x81,
                    value: 0x0100,
                    index: 0x0002,
                    len: 26,
                    action: Action::StreamNegotiation,
                }
            );
        }
        _ => panic!("expected a read"),
    }
    let adjusted = ProbeCommitControls {
        dwMaxVideoFrameSize: 614_400,
        dwMaxPayloadTransferSize: 16_384,
        ..proposal
    };
    let mut answer = vec![0u8; 26];
    adjusted.encode(&mut answer);
    let state = intf.negotiation_next(state, &answer).unwrap();
    assert_eq!(state, Negotiation::Commit(adjusted));

    match intf.negotiation_step(&state) {
        NegotiationStep::Write(t) => {
            assert_eq!((t.request_type, t.request, t.value, t.index), (0x21, 0x01, 0x0200, 0x0002));
            assert_eq!(t.data, answer);
            assert_eq!(t.action, Action::StreamNegotiation);
        }
        _ => panic!("expected a write"),
    }
    let state = intf.negotiation_next(state, &[]).unwrap();
    assert_eq!(state, Negotiation::Negotiated(adjusted));
    assert_eq!(intf.negotiation_step(&state), NegotiationStep::Done);
    assert_eq!(intf.negotiation_next(state, &[]), Ok(Negotiation::Negotiated(adjusted)));
}

#[test]
fn negotiation_rejects_a_short_answer() {
    let dev = device();
    let intf = dev.streaming_interface_by_id(StreamingInterfaceId(2));
    let e = intf.negotiation_next(Negotiation::ReadAnswer, &[0u8; 25]).unwrap_err();
    assert_eq!(e.action(), Some(Action::StreamNegotiation));
    assert_eq!(e.kind(), &ErrorKind::Io(IoError::ShortRead { expected: 26, actual: 25 }));
}

#[test]
fn negotiation_proposes_the_default_interval_of_the_frame() {
    let dev = device();
    let mut intf = dev.streaming_interface_by_id(StreamingInterfaceId(2));
    match intf.negotiate_stream_params(FormatIndex(7), FrameIndex(1)) {
        Negotiation::Propose(c) => {
            assert_eq!(c.bFormatIndex, 7);
            assert_eq!(c.bFrameIndex, 1);
            assert_eq!(c.dwFrameInterval, 333_333);
            assert!(c.bmHint.is_empty());
            assert_eq!(c.wKeyFrameRate, 0);
            assert_eq!(c.dwMaxVideoFrameSize, 0);
            assert_eq!(c.dwMaxPayloadTransferSize, 0);
        }
        _ => panic!("expected a proposal"),
    }
}

#[test]
fn stream_reads_from_the_bulk_endpoint() {
    let dev = device();
    let mut intf = dev.streaming_interface_by_id(StreamingInterfaceId(2));
    let stream = intf.start_stream_no_negotiate();
    assert_eq!(stream.ep, 0x81);
    assert_eq!(stream.read(4096), BulkIn { endpoint: 0x81, len: 4096 });
    assert_eq!(
        stream.failed(UsbError::Timeout),
        Error { action: Some(Action::StreamRead), kind: ErrorKind::Transport(UsbError::Timeout) }
    );
}

#[test]
fn device_defaults() {
    let dev = device();
    assert_eq!(dev.timeout, Duration::from_millis(1000));
    assert_eq!(dev.streaming_interfaces().len(), 1);
    assert_eq!(dev.topology().inputs().len(), 1);
}

#[test]
fn opening_claims_control_then_streaming_interfaces() {
    let dev = device();
    assert_eq!(interfaces_to_claim(&dev.uvc_info), vec![1, 2]);
    assert!(!needs_configuration(1));
    assert!(needs_configuration(0));
    assert!(needs_configuration(2));
    assert_eq!(check_claimed(1), Ok(()));
    let e = check_claimed(0).unwrap_err();
    assert_eq!(e.action(), Some(Action::OpeningDevice));
    assert_eq!(e.kind(), &ErrorKind::Other("failed to claim device".to_owned()));
}

#[test]
fn errors_carry_their_action() {
    let e = Error::with_action(ErrorKind::Transport(UsbError::Busy), Action::OpeningDevice);
    assert_eq!(e.action(), Some(Action::OpeningDevice));
    assert!(!e.is_usb_timeout());
    let r: Result<u8, Error> = during(Err(ErrorKind::Io(IoError::UnexpectedEnd)), Action::StreamRead);
    assert_eq!(
        r,
        Err(Error { action: Some(Action::StreamRead), kind: ErrorKind::Io(IoError::UnexpectedEnd) })
    );
    let r: Result<u8, Error> = during(Ok(3), Action::StreamRead);
    assert_eq!(r, Ok(3));
    let r: Result<u8, Error> = err("nothing there".to_owned(), Action::EnumeratingDevices);
    assert_eq!(
        r,
        Err(Error {
            action: Some(Action::EnumeratingDevices),
            kind: ErrorKind::Other("nothing there".to_owned()),
        })
    );
    assert!(ErrorKind::Io(IoError::UnexpectedEnd).is_unexpected_end());
    assert!(!ErrorKind::Transport(UsbError::Timeout).is_unexpected_end());
}

#[test]
fn action_descriptions() {
    assert_eq!(Action::AccessingDeviceDescriptor.description(), "accessing device descriptor");
    assert_eq!(Action::EnumeratingDevices.description(), "enumerating USB devices");
    assert_eq!(Action::OpeningDevice.description(), "opening UVC device");
    assert_eq!(Action::ReadingDeviceString.description(), "reading device strings");
    assert_eq!(Action::ReadingControl.description(), "reading a device control");
    assert_eq!(Action::WritingControl.description(), "writing a device control");
    assert_eq!(Action::StreamNegotiation.description(), "negotiating stream parameters");
    assert_eq!(Action::StreamRead.description(), "reading from the video stream");
}
