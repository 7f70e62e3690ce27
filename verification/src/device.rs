//! An opened UVC device as the library knows it, and the control transfers that address
//! its entities.
//!
//! The library does not move bytes over USB itself. It says which transfer is to be made,
//! as a `ControlOut` or a `ControlIn`; a USB transport carries the transfer out; and the
//! library says what the outcome means.

use crate::camera::CameraTerminal;
use crate::detect::UvcInfo;
use crate::error::{Action, Error, ErrorKind, IoError, UsbError};
use crate::processing_unit::ProcessingUnit;
use crate::streaming_interface::StreamingInterface;
use crate::topo::{
    CameraId, ProcessingUnitId, StreamingInterfaceDesc, StreamingInterfaceId, Topology,
};
use std::time::Duration;
use vstd::prelude::*;
use vstd::slice::{slice_subrange, slice_to_vec};

verus! {

/// The `bmRequestType` of a class-specific request to an interface, host to device.
pub const SET_ENTITY_REQ: u8 = 0x21;

/// The `bmRequestType` of a class-specific request to an interface, device to host.
pub const GET_ENTITY_REQ: u8 = 0xA1;

/// The time after which a transfer is given up unless another timeout is set, in
/// milliseconds.
pub const DEFAULT_TIMEOUT_MS: u64 = 1000;

/// The requests that UVC defines on controls.
#[derive(Clone, Copy, Debug, PartialEq, Eq, Structural)]
pub enum Request {
    Undefined,
    SetCur,
    SetCurAll,
    GetCur,
    GetMin,
    GetMax,
    GetRes,
    GetLen,
    GetInfo,
    GetDef,
    GetCurAll,
    GetMinAll,
    GetMaxAll,
    GetResAll,
    GetDefAll,
}

impl Request {
    /// The `bRequest` code of the request.
    pub open spec fn spec_code(self) -> u8 {
        match self {
            Request::Undefined => 0x00,
            Request::SetCur => 0x01,
            Request::SetCurAll => 0x11,
            Request::GetCur => 0x81,
            Request::GetMin => 0x82,
            Request::GetMax => 0x83,
            Request::GetRes => 0x84,
            Request::GetLen => 0x85,
            Request::GetInfo => 0x86,
            Request::GetDef => 0x87,
            Request::GetCurAll => 0x91,
            Request::GetMinAll => 0x92,
            Request::GetMaxAll => 0x93,
            Request::GetResAll => 0x94,
            Request::GetDefAll => 0x97,
        }
    }

    /// The `bRequest` code of the request.
    #[verifier::when_used_as_spec(spec_code)]
    pub fn code(self) -> (r: u8)
        ensures
            r == self.spec_code(),
    {
        match self {
            Request::Undefined => 0x00,
            Request::SetCur => 0x01,
            Request::SetCurAll => 0x11,
            Request::GetCur => 0x81,
            Request::GetMin => 0x82,
            Request::GetMax => 0x83,
            Request::GetRes => 0x84,
            Request::GetLen => 0x85,
            Request::GetInfo => 0x86,
            Request::GetDef => 0x87,
            Request::GetCurAll => 0x91,
            Request::GetMinAll => 0x92,
            Request::GetMaxAll => 0x93,
            Request::GetResAll => 0x94,
            Request::GetDefAll => 0x97,
        }
    }
}

/// The `wValue` of a request on the control with the selector `cs`: the selector in the
/// high byte.
pub open spec fn spec_w_value(cs: u8) -> u16 {
    (cs as u16) << 8
}

/// The `wIndex` of a request to the entity `entity_id` of the interface `interface`: the
/// entity in the high byte, the interface in the low byte. A request to the interface
/// itself has the entity 0.
pub open spec fn spec_w_index(entity_id: u8, interface: u8) -> u16 {
    (entity_id as u16) << 8 | (interface as u16)
}

/// `wValue` and `wIndex` as numbers: a high byte counts 256 times.
pub proof fn lemma_w_value_w_index(cs: u8, entity_id: u8, interface: u8)
    ensures
        spec_w_value(cs) == cs * 256,
        spec_w_index(entity_id, interface) == entity_id * 256 + interface,
{
    assert((cs as u16) << 8 == cs * 256) by (bit_vector);
    assert((entity_id as u16) << 8 | (interface as u16) == entity_id * 256 + interface)
        by (bit_vector);
}

/// A control transfer from the host to the device, to be carried out by the transport.
#[derive(Clone, Debug, PartialEq, Eq)]
pub struct ControlOut {
    /// `bmRequestType`.
    pub request_type: u8,
    /// `bRequest`.
    pub request: u8,
    /// `wValue`.
    pub value: u16,
    /// `wIndex`.
    pub index: u16,
    /// The bytes to send.
    pub data: Vec<u8>,
    /// What the transfer is part of: the tag of an error that it ends in.
    pub action: Action,
}

/// A `ControlOut` with its bytes as a sequence.
pub struct ControlOutView {
    pub request_type: u8,
    pub request: u8,
    pub value: u16,
    pub index: u16,
    pub data: Seq<u8>,
    pub action: Action,
}

impl View for ControlOut {
    type V = ControlOutView;

    open spec fn view(&self) -> ControlOutView {
        ControlOutView {
            request_type: self.request_type,
            request: self.request,
            value: self.value,
            index: self.index,
            data: self.data@,
            action: self.action,
        }
    }
}

/// A control transfer from the device to the host, to be carried out by the transport.
#[derive(Clone, Copy, Debug, PartialEq, Eq, Structural)]
pub struct ControlIn {
    /// `bmRequestType`.
    pub request_type: u8,
    /// `bRequest`.
    pub request: u8,
    /// `wValue`.
    pub value: u16,
    /// `wIndex`.
    pub index: u16,
    /// The number of bytes to ask for.
    pub len: usize,
    /// What the transfer is part of: the tag of an error that it ends in.
    pub action: Action,
}

/// The SET_CUR transfer that writes `data` to the control `cs` of the entity `entity_id` of
/// the interface `interface`.
pub open spec fn spec_set_cur(interface: u8, entity_id: u8, cs: u8, data: Seq<u8>) -> ControlOutView {
    ControlOutView {
        request_type: SET_ENTITY_REQ,
        request: Request::SetCur.spec_code(),
        value: spec_w_value(cs),
        index: spec_w_index(entity_id, interface),
        data,
        action: Action::WritingControl,
    }
}

/// The transfer that asks the control `cs` of the entity `entity_id` of the interface
/// `interface` for `len` bytes with the request `request`.
pub open spec fn spec_get(interface: u8, entity_id: u8, request: Request, cs: u8, len: usize)
    -> ControlIn {
    ControlIn {
        request_type: GET_ENTITY_REQ,
        request: request.spec_code(),
        value: spec_w_value(cs),
        index: spec_w_index(entity_id, interface),
        len,
        action: Action::ReadingControl,
    }
}

/// The error of a transfer that the transport failed to carry out.
pub open spec fn transport_error(e: UsbError, action: Action) -> Error {
    Error { action: Some(action), kind: ErrorKind::Transport(e) }
}

impl ControlOut {
    /// What it means that the transport failed with `e`.
    pub fn failed(&self, e: UsbError) -> (r: Error)
        ensures
            r == transport_error(e, self.action),
    {
        Error::with_action(ErrorKind::Transport(e), self.action)
    }

    /// What it means that the transport sent `written` bytes: all is well if these are all
    /// bytes of the transfer.
    pub fn finish(&self, written: usize) -> (r: Result<(), Error>)
        ensures
            written == self.data@.len() ==> r is Ok,
            written != self.data@.len() ==> r == Err::<(), Error>(
                Error {
                    action: Some(self.action),
                    kind: ErrorKind::Io(
                        IoError::ShortWrite { expected: self.data@.len() as usize, actual: written },
                    ),
                },
            ),
    {
        if written == self.data.len() {
            Ok(())
        } else {
            Err(
                Error::with_action(
                    ErrorKind::Io(
                        IoError::ShortWrite { expected: self.data.len(), actual: written },
                    ),
                    self.action,
                ),
            )
        }
    }

    /// The same transfer as part of `action`.
    pub fn during(self, action: Action) -> (r: ControlOut)
        ensures
            r@ == (ControlOutView { action, ..self@ }),
    {
        ControlOut { action, ..self }
    }
}

impl ControlIn {
    /// What it means that the transport failed with `e`.
    pub fn failed(&self, e: UsbError) -> (r: Error)
        ensures
            r == transport_error(e, self.action),
    {
        Error::with_action(ErrorKind::Transport(e), self.action)
    }

    /// What it means that the device answered with `response`: the bytes that were asked
    /// for, unless the answer is too short.
    pub fn finish<'a>(&self, response: &'a [u8]) -> (r: Result<&'a [u8], Error>)
        ensures
            response@.len() >= self.len ==> r is Ok && r->Ok_0@ == response@.take(self.len as int),
            response@.len() < self.len ==> r == Err::<&'a [u8], Error>(
                Error {
                    action: Some(self.action),
                    kind: ErrorKind::Io(
                        IoError::ShortRead { expected: self.len, actual: response@.len() as usize },
                    ),
                },
            ),
    {
        if response.len() >= self.len {
            Ok(slice_subrange(response, 0, self.len))
        } else {
            Err(
                Error::with_action(
                    ErrorKind::Io(IoError::ShortRead { expected: self.len, actual: response.len() }),
                    self.action,
                ),
            )
        }
    }

    /// The same transfer as part of `action`.
    pub fn during(self, action: Action) -> (r: ControlIn)
        ensures
            r == (ControlIn { action, ..self }),
    {
        ControlIn { action, ..self }
    }
}

/// Whether a first attempt that ended in `first` is followed by a second one: it is
/// after a timeout of the transport, and after nothing else.
pub open spec fn retried<T>(first: Result<T, Error>) -> bool {
    first is Err && first->Err_0.spec_is_usb_timeout()
}

/// What follows a first attempt.
#[derive(Debug, PartialEq, Eq)]
pub enum Attempt<T> {
    /// The attempt ended in a timeout of the transport: it is made once more, and what
    /// the second attempt gives is final.
    Retry,
    /// The attempt ended in this, which is final.
    Done(Result<T, Error>),
}

/// Decides what follows a first attempt that ended in `first`.
pub fn after_first_attempt<T>(first: Result<T, Error>) -> (r: Attempt<T>)
    ensures
        r == (if retried(first) {
            Attempt::Retry
        } else {
            Attempt::Done(first)
        }),
{
    let retry = match &first {
        Err(e) => e.is_usb_timeout(),
        Ok(_) => false,
    };
    if retry {
        Attempt::Retry
    } else {
        Attempt::Done(first)
    }
}

/// An opened UVC device as the library knows it: what its descriptors declare, and the
/// timeout of its transfers.
#[derive(Debug)]
pub struct UvcDevice {
    pub uvc_info: UvcInfo,
    pub timeout: Duration,
}

impl UvcDevice {
    /// The device with the descriptors `uvc_info` and the default timeout.
    pub fn new(uvc_info: UvcInfo) -> (r: UvcDevice)
        ensures
            r.uvc_info == uvc_info,
            crate::util::duration_nanos(r.timeout) == DEFAULT_TIMEOUT_MS * 1_000_000,
    {
        UvcDevice { uvc_info, timeout: Duration::from_nanos(DEFAULT_TIMEOUT_MS * 1_000_000) }
    }

    /// Makes one attempt, and a second one if the first ends in a timeout of the
    /// transport: on some devices one of the first transfers times out for no reason. What
    /// the second attempt gives is final.
    pub fn with_usb<T, F: Fn() -> Result<T, Error>>(&self, cb: F) -> (r: Result<T, Error>)
        requires
            cb.requires(()),
        ensures
            exists|first: Result<T, Error>| #[trigger]
                cb.ensures((), first) && if retried(first) {
                    cb.ensures((), r)
                } else {
                    r == first
                },
    {
        match after_first_attempt(cb()) {
            Attempt::Retry => cb(),
            Attempt::Done(first) => first,
        }
    }

    /// The number of the Video Control interface.
    pub fn control_interface_number(&self) -> (r: u8)
        ensures
            r == self.uvc_info.control_interface.interface_number,
    {
        self.uvc_info.control_interface.interface_number
    }

    /// The SET_CUR transfer that writes `data` to the control `cs` of the entity
    /// `entity_id` of the Video Control interface.
    pub fn set_entity(&self, entity_id: u8, cs: u8, data: &[u8]) -> (r: ControlOut)
        ensures
            r@ == spec_set_cur(self.uvc_info.control_interface.interface_number, entity_id, cs, data@),
    {
        self.set_interface_entity(
            self.uvc_info.control_interface.interface_number,
            entity_id,
            cs,
            data,
        )
    }

    /// The SET_CUR transfer that writes `data` to the control `cs` of the entity
    /// `entity_id` of the interface `interface`.
    pub fn set_interface_entity(&self, interface: u8, entity_id: u8, cs: u8, data: &[u8]) -> (r:
        ControlOut)
        ensures
            r@ == spec_set_cur(interface, entity_id, cs, data@),
    {
        let value = (cs as u16) << 8;
        let index = (entity_id as u16) << 8 | (interface as u16);
        ControlOut {
            request_type: SET_ENTITY_REQ,
            request: Request::SetCur.code(),
            value,
            index,
            data: slice_to_vec(data),
            action: Action::WritingControl,
        }
    }

    /// The transfer that asks the control `cs` of the entity `entity_id` of the Video
    /// Control interface for `len` bytes with the request `request`.
    pub fn read_entity(&self, entity_id: u8, request: Request, cs: u8, len: usize) -> (r: ControlIn)
        ensures
            r == spec_get(
                self.uvc_info.control_interface.interface_number,
                entity_id,
                request,
                cs,
                len,
            ),
    {
        self.read_interface_entity(
            self.uvc_info.control_interface.interface_number,
            entity_id,
            request,
            cs,
            len,
        )
    }

    /// The transfer that asks the control `cs` of the entity `entity_id` of the interface
    /// `interface` for `len` bytes with the request `request`.
    pub fn read_interface_entity(
        &self,
        interface: u8,
        entity_id: u8,
        request: Request,
        cs: u8,
        len: usize,
    ) -> (r: ControlIn)
        ensures
            r == spec_get(interface, entity_id, request, cs, len),
    {
        let value = (cs as u16) << 8;
        let index = (entity_id as u16) << 8 | (interface as u16);
        ControlIn {
            request_type: GET_ENTITY_REQ,
            request: request.code(),
            value,
            index,
            len,
            action: Action::ReadingControl,
        }
    }

    pub fn topology(&self) -> (r: &Topology)
        ensures
            *r == self.uvc_info.control_interface.topo,
    {
        &self.uvc_info.control_interface.topo
    }

    /// The device's streaming interfaces, which carry the video data.
    pub fn streaming_interfaces(&self) -> (r: &[StreamingInterfaceDesc])
        ensures
            r@ == self.uvc_info.streaming_interfaces@,
    {
        self.uvc_info.streaming_interfaces.as_slice()
    }

    /// Whether the device has a streaming interface with the number `id`.
    pub open spec fn has_streaming_interface(&self, id: StreamingInterfaceId) -> bool {
        exists|i: int|
            0 <= i < self.uvc_info.streaming_interfaces@.len() && (
            #[trigger] self.uvc_info.streaming_interfaces@[i]).id == id
    }

    /// Access to the first streaming interface with the number `id`.
    pub fn streaming_interface_by_id(&self, id: StreamingInterfaceId) -> (r: StreamingInterface<'_>)
        requires
            self.has_streaming_interface(id),
        ensures
            r.device == self,
            r.desc.id == id,
            exists|i: int|
                0 <= i < self.uvc_info.streaming_interfaces@.len() && *r.desc == (
                #[trigger] self.uvc_info.streaming_interfaces@[i]) && forall|j: int|
                    0 <= j < i ==> (#[trigger] self.uvc_info.streaming_interfaces@[j]).id != id,
    {
        StreamingInterface::new(self, id)
    }

    /// Access to the camera terminal `id`.
    pub fn camera_terminal_by_id(&self, id: CameraId) -> (r: CameraTerminal<'_>)
        requires
            self.uvc_info.control_interface.topo@.has_camera(id),
        ensures
            r.device == self,
            r.id == id,
    {
        CameraTerminal::new(self, id)
    }

    /// Access to the processing unit `id`.
    pub fn processing_unit_by_id(&self, id: ProcessingUnitId) -> (r: ProcessingUnit<'_>)
        requires
            self.uvc_info.control_interface.topo@.has_processing_unit(id),
        ensures
            r.device == self,
            r.desc.id.raw() == id.raw(),
    {
        ProcessingUnit::new(self, id)
    }
}

/// What opening a device has to claim: the Video Control interface, then every streaming
/// interface in order.
pub open spec fn spec_interfaces_to_claim(info: &UvcInfo) -> Seq<u8> {
    seq![info.control_interface.interface_number] + Seq::new(
        info.streaming_interfaces@.len(),
        |i: int| info.streaming_interfaces@[i].id.0,
    )
}

/// The numbers of the interfaces that opening a device has to claim, in the order in which
/// to claim them.
pub fn interfaces_to_claim(info: &UvcInfo) -> (r: Vec<u8>)
    ensures
        r@ == spec_interfaces_to_claim(info),
{
    let mut r: Vec<u8> = Vec::new();
    r.push(info.control_interface.interface_number);
    let mut i: usize = 0;
    while i < info.streaming_interfaces.len()
        invariant
            i <= info.streaming_interfaces.len(),
            r@.len() == 1 + i,
            r@[0] == info.control_interface.interface_number,
            forall|j: int| 0 <= j < i ==> #[trigger] r@[1 + j] == info.streaming_interfaces@[j].id.0,
        decreases info.streaming_interfaces.len() - i,
    {
        r.push(info.streaming_interfaces[i].id.0);
        i = i + 1;
    }
    proof {
        let want = spec_interfaces_to_claim(info);
        assert forall|j: int| 0 <= j < r@.len() implies r@[j] == want[j] by {
            if j > 0 {
                assert(r@[1 + (j - 1)] == info.streaming_interfaces@[j - 1].id.0);
            }
        }
        assert(r@ =~= want);
    }
    r
}

/// The configuration that a UVC device must be in to be used: its only one.
pub const UVC_CONFIGURATION: u8 = 1;

/// Whether a device whose active configuration is `active` must be switched to the UVC
/// configuration before its interfaces are claimed.
pub fn needs_configuration(active: u8) -> (r: bool)
    ensures
        r == (active != UVC_CONFIGURATION),
{
    active != UVC_CONFIGURATION
}

/// Whether a device whose interfaces have been claimed is ready: its active configuration,
/// `active`, must still be the UVC configuration.
pub fn check_claimed(active: u8) -> (r: Result<(), Error>)
    ensures
        active == UVC_CONFIGURATION ==> r is Ok,
        active != UVC_CONFIGURATION ==> r is Err && r->Err_0.action == Some(Action::OpeningDevice)
            && r->Err_0.kind is Other && r->Err_0.kind->Other_0@ == "failed to claim device"@,
{
    if active == UVC_CONFIGURATION {
        Ok(())
    } else {
        crate::error::err("failed to claim device".to_owned(), Action::OpeningDevice)
    }
}

} // verus!
