//! Access to the controls of a camera terminal.

use crate::control::{decode_response, encode_to_vec, spec_decode_response, ControlValue};
use crate::device::{spec_get, spec_set_cur, ControlIn, ControlOut, Request, UvcDevice};
use crate::error::{Action, Error};
use crate::topo::{CameraId, CameraTerminalDesc, InputTerminalKind};
use vstd::prelude::*;

verus! {

/// Grants access to a camera input terminal: says which transfers read and write its
/// controls, and what the answers hold.
pub struct CameraTerminal<'a> {
    pub device: &'a UvcDevice,
    pub id: CameraId,
    pub desc: &'a CameraTerminalDesc,
}

impl<'a> CameraTerminal<'a> {
    /// Access to the camera terminal `id` of `device`, which must have one.
    pub fn new(device: &'a UvcDevice, id: CameraId) -> (r: Self)
        requires
            device.uvc_info.control_interface.topo@.has_camera(id),
        ensures
            r.device == device,
            r.id == id,
            exists|i: int|
                0 <= i < device.uvc_info.control_interface.topo@.inputs.len() && (
                #[trigger] device.uvc_info.control_interface.topo@.inputs[i]).is_camera(id)
                    && device.uvc_info.control_interface.topo@.inputs[i].kind
                    == InputTerminalKind::Camera(*r.desc),
    {
        let desc = device.topology().camera_terminal_by_id(id);
        Self { device, id, desc }
    }

    /// The transfer that asks the control `C` of this terminal with `request`.
    pub open spec fn spec_read<C: CameraControl>(&self, request: Request) -> ControlIn {
        spec_get(
            self.device.uvc_info.control_interface.interface_number,
            self.id.raw(),
            request,
            C::ID.spec_selector(),
            <C::Value as ControlValue>::wire_size() as usize,
        )
    }

    /// The transfer that reads the current value of the control `C`.
    pub fn read_control<C: CameraControl>(&self) -> (r: ControlIn)
        ensures
            r == self.spec_read::<C>(Request::GetCur),
    {
        self.read_control_raw(C::ID, Request::GetCur, <C::Value as ControlValue>::size())
    }

    /// The transfer that reads the least value of the control `C`.
    pub fn read_control_min<C: CameraControl>(&self) -> (r: ControlIn)
        ensures
            r == self.spec_read::<C>(Request::GetMin),
    {
        self.read_control_raw(C::ID, Request::GetMin, <C::Value as ControlValue>::size())
    }

    /// The transfer that reads the greatest value of the control `C`.
    pub fn read_control_max<C: CameraControl>(&self) -> (r: ControlIn)
        ensures
            r == self.spec_read::<C>(Request::GetMax),
    {
        self.read_control_raw(C::ID, Request::GetMax, <C::Value as ControlValue>::size())
    }

    /// The transfer that reads the resolution of the control `C`.
    pub fn read_control_res<C: CameraControl>(&self) -> (r: ControlIn)
        ensures
            r == self.spec_read::<C>(Request::GetRes),
    {
        self.read_control_raw(C::ID, Request::GetRes, <C::Value as ControlValue>::size())
    }

    /// The transfer that reads the default value of the control `C`.
    pub fn read_control_default<C: CameraControl>(&self) -> (r: ControlIn)
        ensures
            r == self.spec_read::<C>(Request::GetDef),
    {
        self.read_control_raw(C::ID, Request::GetDef, <C::Value as ControlValue>::size())
    }

    /// The transfer that sets the control `C` to `value`.
    pub fn set_control<C: CameraControl>(&mut self, value: C::Value) -> (r: ControlOut)
        ensures
            r@ == spec_set_cur(
                old(self).device.uvc_info.control_interface.interface_number,
                old(self).id.raw(),
                C::ID.spec_selector(),
                value.spec_encode(),
            ),
            *final(self) == *old(self),
    {
        let data = encode_to_vec(&value);
        self.set_control_raw(C::ID, data.as_slice())
    }

    /// What the device's answer `response` to a read of the control `C` holds.
    pub fn decode_control<C: CameraControl>(&self, response: &[u8]) -> (r: Result<C::Value, Error>)
        ensures
            r == spec_decode_response::<C::Value>(response@, Action::ReadingControl),
    {
        decode_response(response, Action::ReadingControl)
    }

    /// The transfer that writes the bytes `value` to the control `control`.
    fn set_control_raw(&mut self, control: ControlId, value: &[u8]) -> (r: ControlOut)
        ensures
            r@ == spec_set_cur(
                old(self).device.uvc_info.control_interface.interface_number,
                old(self).id.raw(),
                control.spec_selector(),
                value@,
            ),
            *final(self) == *old(self),
    {
        self.device.set_entity(self.id.as_raw(), control.selector(), value)
    }

    /// The transfer that asks the control `control` for `len` bytes.
    fn read_control_raw(&self, control: ControlId, req: Request, len: usize) -> (r: ControlIn)
        ensures
            r == spec_get(
                self.device.uvc_info.control_interface.interface_number,
                self.id.raw(),
                req,
                control.spec_selector(),
                len,
            ),
    {
        self.device.read_entity(self.id.as_raw(), req, control.selector(), len)
    }
}

/// The controls of a camera terminal.
#[derive(Clone, Copy, Debug, PartialEq, Eq, Structural)]
#[non_exhaustive]
pub enum ControlId {
    Undefined,
    ScanningMode,
    AutoExposureMode,
    AutoExposurePriority,
    ExposureTimeAbs,
    ExposureTimeRel,
    FocusAbs,
    FocusRel,
    FocusAuto,
    IrisAbs,
    IrisRel,
    ZoomAbs,
    ZoomRel,
    PanTiltAbs,
    PanTiltRel,
    RollAbs,
    RollRel,
    Privacy,
    FocusSimple,
    Window,
    RegionOfInterest,
}

impl ControlId {
    /// The control selector: the byte that names the control in a request.
    pub open spec fn spec_selector(self) -> u8 {
        match self {
            ControlId::Undefined => 0x0,
            ControlId::ScanningMode => 0x1,
            ControlId::AutoExposureMode => 0x2,
            ControlId::AutoExposurePriority => 0x3,
            ControlId::ExposureTimeAbs => 0x4,
            ControlId::ExposureTimeRel => 0x5,
            ControlId::FocusAbs => 0x6,
            ControlId::FocusRel => 0x7,
            ControlId::FocusAuto => 0x8,
            ControlId::IrisAbs => 0x9,
            ControlId::IrisRel => 0xa,
            ControlId::ZoomAbs => 0xb,
            ControlId::ZoomRel => 0xc,
            ControlId::PanTiltAbs => 0xd,
            ControlId::PanTiltRel => 0xe,
            ControlId::RollAbs => 0xf,
            ControlId::RollRel => 0x10,
            ControlId::Privacy => 0x11,
            ControlId::FocusSimple => 0x12,
            ControlId::Window => 0x13,
            ControlId::RegionOfInterest => 0x14,
        }
    }

    /// The control selector: the byte that names the control in a request.
    #[verifier::when_used_as_spec(spec_selector)]
    pub fn selector(self) -> (r: u8)
        ensures
            r == self.spec_selector(),
    {
        match self {
            ControlId::Undefined => 0x0,
            ControlId::ScanningMode => 0x1,
            ControlId::AutoExposureMode => 0x2,
            ControlId::AutoExposurePriority => 0x3,
            ControlId::ExposureTimeAbs => 0x4,
            ControlId::ExposureTimeRel => 0x5,
            ControlId::FocusAbs => 0x6,
            ControlId::FocusRel => 0x7,
            ControlId::FocusAuto => 0x8,
            ControlId::IrisAbs => 0x9,
            ControlId::IrisRel => 0xa,
            ControlId::ZoomAbs => 0xb,
            ControlId::ZoomRel => 0xc,
            ControlId::PanTiltAbs => 0xd,
            ControlId::PanTiltRel => 0xe,
            ControlId::RollAbs => 0xf,
            ControlId::RollRel => 0x10,
            ControlId::Privacy => 0x11,
            ControlId::FocusSimple => 0x12,
            ControlId::Window => 0x13,
            ControlId::RegionOfInterest => 0x14,
        }
    }
}

/// A control of a camera terminal: its selector, and the type of its values.
pub trait CameraControl {
    type Value: ControlValue;

    const ID: ControlId;
}

/// Whether the camera scans progressively rather than interlaced.
pub struct ScanningMode;

impl CameraControl for ScanningMode {
    type Value = bool;

    const ID: ControlId = ControlId::ScanningMode;
}

/// The auto-exposure mode.
pub struct AutoExposureMode;

impl CameraControl for AutoExposureMode {
    type Value = crate::control::AutoExposureMode;

    const ID: ControlId = ControlId::AutoExposureMode;
}

/// Whether the frame rate may vary to keep the exposure.
pub struct AutoExposurePriority;

impl CameraControl for AutoExposurePriority {
    type Value = u8;

    const ID: ControlId = ControlId::AutoExposurePriority;
}

/// The exposure time, in units of 100 µs.
pub struct ExposureTimeAbs;

impl CameraControl for ExposureTimeAbs {
    type Value = u32;

    const ID: ControlId = ControlId::ExposureTimeAbs;
}

/// A step of the exposure time, up or down.
pub struct ExposureTimeRel;

impl CameraControl for ExposureTimeRel {
    type Value = i8;

    const ID: ControlId = ControlId::ExposureTimeRel;
}

/// The focus distance, in millimetres.
pub struct FocusAbs;

impl CameraControl for FocusAbs {
    type Value = u16;

    const ID: ControlId = ControlId::FocusAbs;
}

/// A movement of the focus.
pub struct FocusRel;

impl CameraControl for FocusRel {
    type Value = crate::control::FocusRel;

    const ID: ControlId = ControlId::FocusRel;
}

/// The focus range.
pub struct FocusSimple;

impl CameraControl for FocusSimple {
    type Value = crate::control::FocusSimple;

    const ID: ControlId = ControlId::FocusSimple;
}

/// Whether the camera focuses by itself.
pub struct FocusAuto;

impl CameraControl for FocusAuto {
    type Value = bool;

    const ID: ControlId = ControlId::FocusAuto;
}

/// The aperture, as the f-number times 100.
pub struct IrisAbs;

impl CameraControl for IrisAbs {
    type Value = u16;

    const ID: ControlId = ControlId::IrisAbs;
}

/// A step of the aperture.
pub struct IrisRel;

impl CameraControl for IrisRel {
    type Value = u8;

    const ID: ControlId = ControlId::IrisRel;
}

/// The objective focal length.
pub struct ZoomAbs;

impl CameraControl for ZoomAbs {
    type Value = u16;

    const ID: ControlId = ControlId::ZoomAbs;
}

} // verus!
