//! Finding the video function of a USB device among its descriptors.
//!
//! A UVC device declares its video function with an Interface Association Descriptor (IAD)
//! in its configuration: a range of interfaces, one of which is the Video Control
//! interface and the others Video Streaming interfaces. This module works on descriptors
//! as plain values, which the USB transport fills in.

use crate::error::{Action, Error, ErrorKind, ParseError};
use crate::topo::parse::{
    descriptor_error, parse_control_desc, parse_streaming_descriptor, spec_parse_control_desc,
    spec_parse_streaming_descriptor,
};
use crate::topo::{StreamingInterfaceDesc, StreamingInterfaceView, Topology, TopologyView};
use crate::util::{is_descriptor, spec_split, split_descriptors};
use vstd::prelude::*;

verus! {

/// The device class of a device that uses interface associations.
pub const IAD_DEVICE_CLASS: u8 = 0xEF;

pub const IAD_DEVICE_SUBCLASS: u8 = 0x02;

pub const IAD_DEVICE_PROTOCOL: u8 = 0x01;

/// The function class of a video function.
pub const UVC_IAD_CLASS: u8 = 0x0E;

pub const UVC_IAD_SUBCLASS: u8 = 0x03;

pub const UVC_IAD_PROTOCOL: u8 = 0x00;

/// The interface class of the interfaces of a video function.
pub const UVC_INTERF_CLASS: u8 = 0x0E;

pub const UVC_INTERF_SUBCLASS_CONTROL: u8 = 1;

pub const UVC_INTERF_SUBCLASS_STREAMING: u8 = 2;

/// The `bDescriptorType` of an Interface Association Descriptor.
pub const DESC_TYPE_IAD: u8 = 11;

/// What detection reads of a device descriptor.
#[derive(Clone, Copy, Debug, PartialEq, Eq, Structural)]
pub struct DeviceDescriptor {
    pub class_code: u8,
    pub sub_class_code: u8,
    pub protocol_code: u8,
    pub num_configurations: u8,
}

impl DeviceDescriptor {
    pub open spec fn spec_may_be_uvc(&self) -> bool {
        &&& self.class_code == IAD_DEVICE_CLASS
        &&& self.sub_class_code == IAD_DEVICE_SUBCLASS
        &&& self.protocol_code == IAD_DEVICE_PROTOCOL
        &&& self.num_configurations == 1
    }

    /// Whether the device can be a UVC device at all: it uses interface associations and
    /// has exactly one configuration. Only then is its configuration worth reading.
    #[verifier::when_used_as_spec(spec_may_be_uvc)]
    pub fn may_be_uvc(&self) -> (r: bool)
        ensures
            r == self.spec_may_be_uvc(),
    {
        self.class_code == IAD_DEVICE_CLASS && self.sub_class_code == IAD_DEVICE_SUBCLASS
            && self.protocol_code == IAD_DEVICE_PROTOCOL && self.num_configurations == 1
    }
}

/// How an endpoint transfers data.
#[derive(Clone, Copy, Debug, PartialEq, Eq, Structural)]
pub enum TransferType {
    Control,
    Isochronous,
    Bulk,
    Interrupt,
}

/// What detection reads of an endpoint descriptor.
#[derive(Clone, Copy, Debug, PartialEq, Eq, Structural)]
pub struct EndpointDescriptor {
    pub address: u8,
    pub transfer_type: TransferType,
}

/// What detection reads of an interface: its number, and of its first alternate setting
/// the class codes, the endpoints and the class-specific descriptors.
#[derive(Clone, Debug)]
pub struct InterfaceDescriptor {
    pub interface_number: u8,
    pub class_code: u8,
    pub sub_class_code: u8,
    pub endpoints: Vec<EndpointDescriptor>,
    pub extra: Vec<u8>,
}

/// An `InterfaceDescriptor` with its lists as sequences.
pub struct InterfaceDescriptorView {
    pub interface_number: u8,
    pub class_code: u8,
    pub sub_class_code: u8,
    pub endpoints: Seq<EndpointDescriptor>,
    pub extra: Seq<u8>,
}

impl View for InterfaceDescriptor {
    type V = InterfaceDescriptorView;

    open spec fn view(&self) -> InterfaceDescriptorView {
        InterfaceDescriptorView {
            interface_number: self.interface_number,
            class_code: self.class_code,
            sub_class_code: self.sub_class_code,
            endpoints: self.endpoints@,
            extra: self.extra@,
        }
    }
}

/// What detection reads of a configuration descriptor: its interfaces, and the descriptors
/// that stand between them, among which is the IAD.
#[derive(Clone, Debug)]
pub struct ConfigDescriptor {
    pub extra: Vec<u8>,
    pub interfaces: Vec<InterfaceDescriptor>,
}

/// A `ConfigDescriptor` with its lists as sequences.
pub struct ConfigDescriptorView {
    pub extra: Seq<u8>,
    pub interfaces: Seq<InterfaceDescriptorView>,
}

impl View for ConfigDescriptor {
    type V = ConfigDescriptorView;

    open spec fn view(&self) -> ConfigDescriptorView {
        ConfigDescriptorView {
            extra: self.extra@,
            interfaces: Seq::new(self.interfaces@.len(), |i: int| self.interfaces@[i]@),
        }
    }
}

/// An Interface Association Descriptor: the interfaces from `first_interface` on,
/// `interface_count` of them, form one function.
#[derive(Clone, Copy, Debug, PartialEq, Eq, Structural)]
pub struct InterfaceAssociation {
    pub first_interface: u8,
    pub interface_count: u8,
    pub function_class: u8,
    pub function_sub_class: u8,
    pub function_protocol: u8,
    pub function: u8,
}

impl InterfaceAssociation {
    /// The association that the descriptor `d` declares, prefix included, if `d` has the
    /// eight bytes of one.
    pub open spec fn spec_parse(d: Seq<u8>) -> Option<InterfaceAssociation> {
        if d.len() < 8 {
            None
        } else {
            Some(
                InterfaceAssociation {
                    first_interface: d[2],
                    interface_count: d[3],
                    function_class: d[4],
                    function_sub_class: d[5],
                    function_protocol: d[6],
                    function: d[7],
                },
            )
        }
    }

    /// Reads an association from the bytes of its descriptor, prefix included.
    pub fn parse(data: &[u8]) -> (r: Option<InterfaceAssociation>)
        ensures
            r == Self::spec_parse(data@),
    {
        if data.len() < 8 {
            None
        } else {
            Some(
                InterfaceAssociation {
                    first_interface: data[2],
                    interface_count: data[3],
                    function_class: data[4],
                    function_sub_class: data[5],
                    function_protocol: data[6],
                    function: data[7],
                },
            )
        }
    }

    pub open spec fn spec_is_video_function(&self) -> bool {
        &&& self.function_class == UVC_IAD_CLASS
        &&& self.function_sub_class == UVC_IAD_SUBCLASS
        &&& self.function_protocol == UVC_IAD_PROTOCOL
    }

    /// Whether the function is a video function.
    #[verifier::when_used_as_spec(spec_is_video_function)]
    pub fn is_video_function(&self) -> (r: bool)
        ensures
            r == self.spec_is_video_function(),
    {
        self.function_class == UVC_IAD_CLASS && self.function_sub_class == UVC_IAD_SUBCLASS
            && self.function_protocol == UVC_IAD_PROTOCOL
    }

    pub open spec fn spec_contains(&self, number: u8) -> bool {
        self.first_interface <= number < self.first_interface + self.interface_count
    }

    /// Whether the interface with the number `number` belongs to the function.
    #[verifier::when_used_as_spec(spec_contains)]
    pub fn contains(&self, number: u8) -> (r: bool)
        ensures
            r == self.spec_contains(number),
    {
        number >= self.first_interface && (number as u16) < (self.first_interface as u16) + (
        self.interface_count as u16)
    }
}

/// The first association among the descriptors `descs`: the first descriptor of the IAD
/// type that has the eight bytes of one.
pub open spec fn spec_find_iad(descs: Seq<Seq<u8>>) -> Option<InterfaceAssociation>
    decreases descs.len(),
{
    if descs.len() == 0 {
        None
    } else if descs[0][1] == DESC_TYPE_IAD && InterfaceAssociation::spec_parse(descs[0]) is Some {
        InterfaceAssociation::spec_parse(descs[0])
    } else {
        spec_find_iad(descs.skip(1))
    }
}

/// Finds the first association in the descriptors `extra` of a configuration.
pub fn find_iad(extra: &[u8]) -> (r: Option<InterfaceAssociation>)
    ensures
        r == spec_find_iad(spec_split(extra@)),
{
    let descs = split_descriptors(extra);
    let ghost all = spec_split(extra@);
    assert(all.skip(0) =~= all);
    let mut i: usize = 0;
    while i < descs.len()
        invariant
            i <= descs.len(),
            all == spec_split(extra@),
            descs@.len() == all.len(),
            forall|k: int| 0 <= k < descs@.len() ==> is_descriptor(#[trigger] descs@[k], all[k]),
            spec_find_iad(all) == spec_find_iad(all.skip(i as int)),
        decreases descs.len() - i,
    {
        proof {
            assert(is_descriptor(descs@[i as int], all[i as int]));
            assert(all.skip(i as int)[0] == all[i as int]);
            assert(all.skip(i as int).skip(1) =~= all.skip(i + 1));
        }
        if descs[i].0 == DESC_TYPE_IAD {
            match InterfaceAssociation::parse(descs[i].1) {
                Some(iad) => {
                    return Some(iad);
                },
                None => {},
            }
        }
        i = i + 1;
    }
    assert(all.skip(i as int) =~= Seq::<Seq<u8>>::empty());
    None
}

/// The Video Control interface of a video function.
#[derive(Debug)]
pub struct ControlInterface {
    pub interface_number: u8,
    /// The address of the interface's interrupt endpoint, if it has one.
    pub control_interrupt_ep: Option<u8>,
    pub topo: Topology,
}

/// A `ControlInterface` with the view of its topology.
pub struct ControlInterfaceView {
    pub interface_number: u8,
    pub control_interrupt_ep: Option<u8>,
    pub topo: TopologyView,
}

impl View for ControlInterface {
    type V = ControlInterfaceView;

    open spec fn view(&self) -> ControlInterfaceView {
        ControlInterfaceView {
            interface_number: self.interface_number,
            control_interrupt_ep: self.control_interrupt_ep,
            topo: self.topo@,
        }
    }
}

/// What is needed to talk to a UVC device, as its descriptors give it.
#[derive(Debug)]
pub struct UvcInfo {
    pub control_interface: ControlInterface,
    pub streaming_interfaces: Vec<StreamingInterfaceDesc>,
}

/// A `UvcInfo` with its lists as sequences.
pub struct UvcInfoView {
    pub control_interface: ControlInterfaceView,
    pub streaming_interfaces: Seq<StreamingInterfaceView>,
}

/// The views of a list of streaming interfaces.
pub open spec fn streaming_views(interfaces: Seq<StreamingInterfaceDesc>) -> Seq<
    StreamingInterfaceView,
> {
    Seq::new(interfaces.len(), |i: int| interfaces[i]@)
}

impl View for UvcInfo {
    type V = UvcInfoView;

    open spec fn view(&self) -> UvcInfoView {
        UvcInfoView {
            control_interface: self.control_interface@,
            streaming_interfaces: streaming_views(self.streaming_interfaces@),
        }
    }
}

impl UvcInfoView {
    /// What holds of everything that detection returns: the topology is well-formed, and
    /// no streaming interface links to terminal 0.
    pub open spec fn wf(self) -> bool {
        &&& self.control_interface.topo.wf()
        &&& forall|i: int|
            0 <= i < self.streaming_interfaces.len() ==> (
            #[trigger] self.streaming_interfaces[i]).link_nonzero()
    }
}

/// The interfaces of a video function that have been looked at so far.
pub struct ScanView {
    pub control_interface: Option<ControlInterfaceView>,
    pub streaming_interfaces: Seq<StreamingInterfaceView>,
}

impl ScanView {
    /// The state before any interface.
    pub open spec fn empty() -> ScanView {
        ScanView { control_interface: None, streaming_interfaces: Seq::empty() }
    }

    /// What `UvcInfoView::wf` asks, of what has been gathered so far.
    pub open spec fn wf(self) -> bool {
        &&& self.control_interface matches Some(c) ==> c.topo.wf()
        &&& forall|i: int|
            0 <= i < self.streaming_interfaces.len() ==> (
            #[trigger] self.streaming_interfaces[i]).link_nonzero()
    }
}

/// The interrupt endpoint of a Video Control interface with the endpoints `endpoints`: the
/// interface may have one endpoint at most, and that one must be an interrupt endpoint.
pub open spec fn spec_control_endpoint(endpoints: Seq<EndpointDescriptor>) -> Result<
    Option<u8>,
    ParseError,
> {
    if endpoints.len() > 1 {
        Err(ParseError::TooManyControlEndpoints(endpoints.len() as usize))
    } else if endpoints.len() == 0 {
        Ok(None)
    } else if endpoints[0].transfer_type != TransferType::Interrupt {
        Err(ParseError::ControlEndpointNotInterrupt)
    } else {
        Ok(Some(endpoints[0].address))
    }
}

/// The scan state after the interface `intf`. An interface outside of the function `iad`
/// is passed over, and so is one of the function that is neither a control nor a streaming
/// interface.
#[verifier::opaque]
pub open spec fn spec_scan_interface(
    st: ScanView,
    iad: InterfaceAssociation,
    intf: InterfaceDescriptorView,
) -> Result<ScanView, Error> {
    if !iad.spec_contains(intf.interface_number) {
        Ok(st)
    } else if intf.class_code != UVC_INTERF_CLASS {
        Err(descriptor_error(ErrorKind::Parse(ParseError::UnexpectedInterfaceClass(intf.class_code))))
    } else if intf.sub_class_code == UVC_INTERF_SUBCLASS_CONTROL {
        if st.control_interface is Some {
            Err(descriptor_error(ErrorKind::Parse(ParseError::MultipleControlInterfaces)))
        } else {
            match spec_control_endpoint(intf.endpoints) {
                Err(e) => Err(descriptor_error(ErrorKind::Parse(e))),
                Ok(control_interrupt_ep) => match spec_parse_control_desc(intf.extra) {
                    Err(e) => Err(e),
                    Ok(topo) => Ok(
                        ScanView {
                            control_interface: Some(
                                ControlInterfaceView {
                                    interface_number: intf.interface_number,
                                    control_interrupt_ep,
                                    topo,
                                },
                            ),
                            ..st
                        },
                    ),
                },
            }
        }
    } else if intf.sub_class_code == UVC_INTERF_SUBCLASS_STREAMING {
        match spec_parse_streaming_descriptor(intf.extra, intf.interface_number) {
            Err(e) => Err(e),
            Ok(s) => Ok(ScanView { streaming_interfaces: st.streaming_interfaces.push(s), ..st }),
        }
    } else {
        Ok(st)
    }
}

/// The scan state after the interfaces `interfaces`, in order. The first interface that
/// fails ends the scan.
pub open spec fn spec_scan_interfaces(
    st: ScanView,
    iad: InterfaceAssociation,
    interfaces: Seq<InterfaceDescriptorView>,
) -> Result<ScanView, Error>
    decreases interfaces.len(),
{
    if interfaces.len() == 0 {
        Ok(st)
    } else {
        match spec_scan_interface(st, iad, interfaces[0]) {
            Ok(next) => spec_scan_interfaces(next, iad, interfaces.skip(1)),
            Err(e) => Err(e),
        }
    }
}

/// What detection finds in a device with the descriptor `device` and the configuration
/// `config`: nothing unless the device uses interface associations, has one configuration
/// and declares a video function; else the function's interfaces, or what is wrong with
/// them.
pub open spec fn spec_detect_uvc(device: DeviceDescriptor, config: ConfigDescriptorView) -> Result<
    Option<UvcInfoView>,
    Error,
> {
    if !device.spec_may_be_uvc() {
        Ok(None)
    } else {
        match spec_find_iad(spec_split(config.extra)) {
            None => Ok(None),
            Some(iad) => if !iad.spec_is_video_function() {
                Ok(None)
            } else {
                match spec_scan_interfaces(ScanView::empty(), iad, config.interfaces) {
                    Err(e) => Err(e),
                    Ok(st) => match st.control_interface {
                        None => Err(
                            descriptor_error(ErrorKind::Parse(ParseError::MissingControlInterface)),
                        ),
                        Some(control_interface) => Ok(
                            Some(
                                UvcInfoView {
                                    control_interface,
                                    streaming_interfaces: st.streaming_interfaces,
                                },
                            ),
                        ),
                    },
                }
            },
        }
    }
}

/// Checks the endpoints of a Video Control interface and returns the address of its
/// interrupt endpoint, if it has one.
pub fn control_endpoint(endpoints: &[EndpointDescriptor]) -> (r: Result<Option<u8>, ParseError>)
    ensures
        r == spec_control_endpoint(endpoints@),
{
    if endpoints.len() > 1 {
        Err(ParseError::TooManyControlEndpoints(endpoints.len()))
    } else if endpoints.len() == 0 {
        Ok(None)
    } else {
        match endpoints[0].transfer_type {
            TransferType::Interrupt => Ok(Some(endpoints[0].address)),
            _ => Err(ParseError::ControlEndpointNotInterrupt),
        }
    }
}

/// The view of an optional control interface.
pub open spec fn control_interface_view(c: Option<ControlInterface>) -> Option<ControlInterfaceView> {
    match c {
        Some(c) => Some(c@),
        None => None,
    }
}

/// The failure of detection for the reason `e`.
fn error<T>(e: ParseError) -> (r: Result<T, Error>)
    ensures
        r == Err::<T, Error>(descriptor_error(ErrorKind::Parse(e))),
{
    Err(Error::with_action(ErrorKind::Parse(e), Action::AccessingDeviceDescriptor))
}

/// Unfolds `spec_scan_interfaces` at the interface `i` of `interfaces`.
proof fn lemma_scan_step(
    st: ScanView,
    iad: InterfaceAssociation,
    interfaces: Seq<InterfaceDescriptorView>,
    i: int,
)
    requires
        0 <= i < interfaces.len(),
    ensures
        spec_scan_interfaces(st, iad, interfaces.skip(i)) == (match spec_scan_interface(
            st,
            iad,
            interfaces[i],
        ) {
            Ok(next) => spec_scan_interfaces(next, iad, interfaces.skip(i + 1)),
            Err(e) => Err(e),
        }),
{
    assert(interfaces.skip(i)[0] == interfaces[i]);
    assert(interfaces.skip(i).skip(1) =~= interfaces.skip(i + 1));
}

/// The interfaces of a video function that have been looked at so far.
struct Scan {
    control_interface: Option<ControlInterface>,
    streaming_interfaces: Vec<StreamingInterfaceDesc>,
}

impl View for Scan {
    type V = ScanView;

    closed spec fn view(&self) -> ScanView {
        ScanView {
            control_interface: control_interface_view(self.control_interface),
            streaming_interfaces: streaming_views(self.streaming_interfaces@),
        }
    }
}

impl Scan {
    /// The state before any interface.
    fn new() -> (r: Scan)
        ensures
            r@ == ScanView::empty(),
            r@.wf(),
    {
        let r = Scan { control_interface: None, streaming_interfaces: Vec::new() };
        assert(r@.streaming_interfaces =~= Seq::empty());
        r
    }

    /// Keeps `control_interface` as the function's Video Control interface.
    fn set_control_interface(&mut self, control_interface: ControlInterface)
        requires
            old(self)@.wf(),
            control_interface@.topo.wf(),
        ensures
            final(self)@ == (ScanView { control_interface: Some(control_interface@), ..old(self)@ }),
            final(self)@.wf(),
    {
        self.control_interface = Some(control_interface);
    }

    /// Appends the streaming interface `s`.
    fn push_streaming_interface(&mut self, s: StreamingInterfaceDesc)
        requires
            old(self)@.wf(),
            s@.link_nonzero(),
        ensures
            final(self)@ == (ScanView {
                streaming_interfaces: old(self)@.streaming_interfaces.push(s@),
                ..old(self)@
            }),
            final(self)@.wf(),
    {
        let ghost view = s@;
        self.streaming_interfaces.push(s);
        assert(final(self)@.streaming_interfaces =~= old(self)@.streaming_interfaces.push(view));
    }

    /// Looks at the interface `intf` and keeps what it declares, if it belongs to the
    /// function `iad`.
    fn scan_interface(&mut self, iad: &InterfaceAssociation, intf: &InterfaceDescriptor) -> (r:
        Result<(), Error>)
        requires
            old(self)@.wf(),
        ensures
            final(self)@.wf(),
            match spec_scan_interface(old(self)@, *iad, intf@) {
                Ok(next) => r is Ok && final(self)@ == next,
                Err(e) => r is Err && r->Err_0 == e && final(self)@ == old(self)@,
            },
    {
        reveal(spec_scan_interface);
        if !iad.contains(intf.interface_number) {
            return Ok(());
        }
        if intf.class_code != UVC_INTERF_CLASS {
            return error(ParseError::UnexpectedInterfaceClass(intf.class_code));
        }
        if intf.sub_class_code == UVC_INTERF_SUBCLASS_CONTROL {
            if self.control_interface.is_some() {
                return error(ParseError::MultipleControlInterfaces);
            }
            let control_interrupt_ep = match control_endpoint(intf.endpoints.as_slice()) {
                Ok(ep) => ep,
                Err(e) => {
                    return error(e);
                },
            };
            let topo = parse_control_desc(intf.extra.as_slice())?;
            self.set_control_interface(
                ControlInterface {
                    interface_number: intf.interface_number,
                    control_interrupt_ep,
                    topo,
                },
            );
            Ok(())
        } else if intf.sub_class_code == UVC_INTERF_SUBCLASS_STREAMING {
            let s = parse_streaming_descriptor(intf.extra.as_slice(), intf.interface_number)?;
            self.push_streaming_interface(s);
            Ok(())
        } else {
            Ok(())
        }
    }
}

/// Looks for the video function of a device in its device descriptor and its one
/// configuration.
///
/// Returns `Ok(None)` for a device that is no UVC device, an error for a video function
/// whose descriptors are malformed, and else the function's Video Control interface with
/// its topology, and its Video Streaming interfaces in the order of the configuration.
pub fn detect_uvc(device: &DeviceDescriptor, config: &ConfigDescriptor) -> (r: Result<
    Option<UvcInfo>,
    Error,
>)
    ensures
        match spec_detect_uvc(*device, config@) {
            Ok(Some(info)) => r is Ok && r->Ok_0 is Some && r->Ok_0->Some_0@ == info && info.wf(),
            Ok(None) => r is Ok && r->Ok_0 is None,
            Err(e) => r is Err && r->Err_0 == e,
        },
{
    if !device.may_be_uvc() {
        return Ok(None);
    }
    let iad = match find_iad(config.extra.as_slice()) {
        Some(iad) => iad,
        None => {
            return Ok(None);
        },
    };
    if !iad.is_video_function() {
        return Ok(None);
    }
    let mut scan = Scan::new();
    let ghost all = config@.interfaces;
    assert(all.skip(0) =~= all);
    let mut i: usize = 0;
    while i < config.interfaces.len()
        invariant
            i <= config.interfaces.len(),
            all == config@.interfaces,
            device.spec_may_be_uvc(),
            spec_find_iad(spec_split(config@.extra)) == Some(iad),
            iad.spec_is_video_function(),
            scan@.wf(),
            spec_scan_interfaces(ScanView::empty(), iad, all) == spec_scan_interfaces(
                scan@,
                iad,
                all.skip(i as int),
            ),
        decreases config.interfaces.len() - i,
    {
        proof {
            lemma_scan_step(scan@, iad, all, i as int);
        }
        scan.scan_interface(&iad, &config.interfaces[i])?;
        i = i + 1;
    }
    assert(all.skip(i as int) =~= Seq::<InterfaceDescriptorView>::empty());
    let Scan { control_interface, streaming_interfaces } = scan;
    match control_interface {
        Some(control_interface) => Ok(Some(UvcInfo { control_interface, streaming_interfaces })),
        None => error(ParseError::MissingControlInterface),
    }
}

} // verus!
