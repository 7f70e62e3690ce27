use ruvc::detect::{
    control_endpoint, detect_uvc, find_iad, ConfigDescriptor, DeviceDescriptor, EndpointDescriptor,
    InterfaceAssociation, InterfaceDescriptor, TransferType,
};
use ruvc::error::{Action, Error, ErrorKind, ParseError};

const VC_HEADER: [u8; 13] =
    [13, 0x24, 0x01, 0x00, 0x01, 0x4D, 0x00, 0x80, 0x8D, 0x5B, 0x00, 0x01, 0x02];

const VS_INPUT_HEADER: [u8; 14] =
    [14, 0x24, 0x01, 0x01, 0x3B, 0x00, 0x81, 0x00, 0x03, 0x00, 0x00, 0x00, 0x01, 0x00];

fn iad(first: u8, count: u8, class: u8, sub_class: u8, protocol: u8) -> Vec<u8> {
    vec![8, 11, first, count, class, sub_class, protocol, 0]
}

fn uvc_device() -> DeviceDescriptor {
    DeviceDescriptor {
        class_code: 0xEF,
        sub_class_code: 0x02,
        protocol_code: 0x01,
        num_configurations: 1,
    }
}

fn control_interface(number: u8, endpoints: Vec<EndpointDescriptor>) -> InterfaceDescriptor {
    InterfaceDescriptor {
        interface_number: number,
        class_code: 0x0E,
        sub_class_code: 1,
        endpoints,
        extra: VC_HEADER.to_vec(),
    }
}

fn streaming_interface(number: u8) -> InterfaceDescriptor {
    InterfaceDescriptor {
        interface_number: number,
        class_code: 0x0E,
        sub_class_code: 2,
        endpoints: vec![EndpointDescriptor { address: 0x81, transfer_type: TransferType::Bulk }],
        extra: VS_INPUT_HEADER.to_vec(),
    }
}

fn interrupt(address: u8) -> EndpointDescriptor {
    EndpointDescriptor { address, transfer_type: TransferType::Interrupt }
}

fn uvc_config() -> ConfigDescriptor {
    ConfigDescriptor {
        extra: iad(1, 2, 0x0E, 0x03, 0x00),
        interfaces: vec![control_interface(1, vec![interrupt(0x83)]), streaming_interface(2)],
    }
}

fn parse_error(e: ParseError) -> Error {
    Error { action: Some(Action::AccessingDeviceDescriptor), kind: ErrorKind::Parse(e) }
}

#[test]
fn iad_gating_accepts_a_video_function() {
    let info = detect_uvc(&uvc_device(), &uvc_config()).unwrap();
    assert!(info.is_some());
}

#[test]
fn iad_gating_rejects_other_device_classes() {
    for (class, sub, proto) in [(0u8, 0u8, 0u8), (0xEF, 0x02, 0x00), (0xEF, 0x01, 0x01), (0x0E, 0x02, 0x01), (0xFF, 0xFF, 0xFF)] {
        let device = DeviceDescriptor {
            class_code: class,
            sub_class_code: sub,
            protocol_code: proto,
            num_configurations: 1,
        };
        assert!(!device.may_be_uvc());
        assert!(detect_uvc(&device, &uvc_config()).unwrap().is_none());
    }
    assert!(uvc_device().may_be_uvc());
}

#[test]
fn iad_gating_rejects_other_function_classes() {
    for (class, sub, proto) in [(0x0Eu8, 0x03u8, 0x01u8), (0x0E, 0x01, 0x00), (0x01, 0x03, 0x00), (0, 0, 0)] {
        let mut config = uvc_config();
        config.extra = iad(1, 2, class, sub, proto);
        assert!(detect_uvc(&uvc_device(), &config).unwrap().is_none());
    }
}

#[test]
fn device_with_several_configurations_is_skipped() {
    let mut device = uvc_device();
    device.num_configurations = 2;
    assert!(detect_uvc(&device, &uvc_config()).unwrap().is_none());
    device.num_configurations = 0;
    assert!(detect_uvc(&device, &uvc_config()).unwrap().is_none());
}

#[test]
fn configuration_without_iad_is_skipped() {
    let mut config = uvc_config();
    config.extra = vec![];
    assert!(detect_uvc(&uvc_device(), &config).unwrap().is_none());
    config.extra = vec![4, 11, 1, 2];
    assert!(detect_uvc(&uvc_device(), &config).unwrap().is_none());
}

#[test]
fn interface_enumeration() {
    let info = detect_uvc(&uvc_device(), &uvc_config()).unwrap().unwrap();
    assert_eq!(info.control_interface.interface_number, 1);
    assert_eq!(info.control_interface.control_interrupt_ep, Some(0x83));
    assert_eq!(info.streaming_interfaces.len(), 1);
    assert_eq!(info.streaming_interfaces[0].id().0, 2);
    assert_eq!(info.streaming_interfaces[0].endpoint_address(), 0x81);
    assert_eq!(info.control_interface.topo.header().streaming_interfaces, vec![2]);
}

#[test]
fn control_interface_without_endpoint() {
    let mut config = uvc_config();
    config.interfaces[0] = control_interface(1, vec![]);
    let info = detect_uvc(&uvc_device(), &config).unwrap().unwrap();
    assert_eq!(info.control_interface.control_interrupt_ep, None);
}

#[test]
fn find_iad_takes_the_first_complete_one() {
    let mut extra = vec![3u8, 11, 9];
    extra.extend(iad(4, 3, 0x0E, 0x03, 0x00));
    extra.extend(iad(1, 2, 0x01, 0x02, 0x03));
    let found = find_iad(&extra).unwrap();
    assert_eq!(
        found,
        InterfaceAssociation {
            first_interface: 4,
            interface_count: 3,
            function_class: 0x0E,
            function_sub_class: 0x03,
            function_protocol: 0x00,
            function: 0,
        }
    );
    assert!(found.is_video_function());
    assert!(find_iad(&[5, 4, 0, 0, 0]).is_none());
}

#[test]
fn association_range() {
    let a = InterfaceAssociation::parse(&iad(3, 2, 0x0E, 0x03, 0x00)).unwrap();
    assert!(!a.contains(2));
    assert!(a.contains(3));
    assert!(a.contains(4));
    assert!(!a.contains(5));
    let empty = InterfaceAssociation::parse(&iad(3, 0, 0x0E, 0x03, 0x00)).unwrap();
    assert!(!empty.contains(3));
    let high = InterfaceAssociation::parse(&iad(250, 10, 0x0E, 0x03, 0x00)).unwrap();
    assert!(high.contains(255));
    assert!(!high.contains(249));
    assert!(InterfaceAssociation::parse(&[8, 11, 1, 2, 3, 4, 5]).is_none());
}

#[test]
fn interfaces_outside_the_function_are_ignored() {
    let mut config = uvc_config();
    config.interfaces.insert(
        0,
        InterfaceDescriptor {
            interface_number: 0,
            class_code: 0x03,
            sub_class_code: 1,
            endpoints: vec![],
            extra: vec![],
        },
    );
    config.interfaces.push(control_interface(3, vec![]));
    let info = detect_uvc(&uvc_device(), &config).unwrap().unwrap();
    assert_eq!(info.control_interface.interface_number, 1);
    assert_eq!(info.streaming_interfaces.len(), 1);
}

#[test]
fn interface_of_another_class_is_an_error() {
    let mut config = uvc_config();
    config.interfaces[1].class_code = 0x01;
    assert_eq!(
        detect_uvc(&uvc_device(), &config).unwrap_err(),
        parse_error(ParseError::UnexpectedInterfaceClass(1))
    );
}

#[test]
fn interface_of_another_subclass_is_ignored() {
    let mut config = uvc_config();
    config.interfaces[1].sub_class_code = 3;
    config.interfaces[1].extra = vec![];
    let info = detect_uvc(&uvc_device(), &config).unwrap().unwrap();
    assert!(info.streaming_interfaces.is_empty());
}

#[test]
fn second_control_interface_is_an_error() {
    let mut config = uvc_config();
    config.extra = iad(1, 3, 0x0E, 0x03, 0x00);
    config.interfaces.push(control_interface(3, vec![]));
    assert_eq!(
        detect_uvc(&uvc_device(), &config).unwrap_err(),
        parse_error(ParseError::MultipleControlInterfaces)
    );
}

#[test]
fn missing_control_interface_is_an_error() {
    let mut config = uvc_config();
    config.interfaces.remove(0);
    assert_eq!(
        detect_uvc(&uvc_device(), &config).unwrap_err(),
        parse_error(ParseError::MissingControlInterface)
    );
}

#[test]
fn control_interface_endpoints_are_checked() {
    let mut config = uvc_config();
    config.interfaces[0] = control_interface(1, vec![interrupt(0x83), interrupt(0x84)]);
    assert_eq!(
        detect_uvc(&uvc_device(), &config).unwrap_err(),
        parse_error(ParseError::TooManyControlEndpoints(2))
    );
    config.interfaces[0] = control_interface(
        1,
        vec![EndpointDescriptor { address: 0x83, transfer_type: TransferType::Bulk }],
    );
    assert_eq!(
        detect_uvc(&uvc_device(), &config).unwrap_err(),
        parse_error(ParseError::ControlEndpointNotInterrupt)
    );
    assert_eq!(control_endpoint(&[]), Ok(None));
    assert_eq!(control_endpoint(&[interrupt(0x85)]), Ok(Some(0x85)));
}

#[test]
fn malformed_descriptors_of_the_function_are_an_error() {
    let mut config = uvc_config();
    config.interfaces[0].extra = vec![];
    assert_eq!(
        detect_uvc(&uvc_device(), &config).unwrap_err(),
        parse_error(ParseError::MissingHeader)
    );
    let mut config = uvc_config();
    config.interfaces[1].extra = vec![];
    assert_eq!(
        detect_uvc(&uvc_device(), &config).unwrap_err(),
        parse_error(ParseError::MissingStreamingHeader)
    );
}
