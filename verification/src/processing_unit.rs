//! Access to the controls of a processing unit.

use crate::control::{decode_response, encode_to_vec, spec_decode_response, ControlValue};
use crate::device::{spec_get, spec_set_cur, ControlIn, ControlOut, Request, UvcDevice};
use crate::error::{Action, Error};
use crate::topo::{ProcessingUnitDesc, ProcessingUnitId, UnitView};
use vstd::prelude::*;

verus! {

/// Grants access to a processing unit: says which transfers read and write its controls,
/// and what the answers hold.
pub struct ProcessingUnit<'a> {
    pub device: &'a UvcDevice,
    pub desc: &'a ProcessingUnitDesc,
}

impl<'a> ProcessingUnit<'a> {
    /// Access to the processing unit `id` of `device`, which must have one.
    pub fn new(device: &'a UvcDevice, id: ProcessingUnitId) -> (r: Self)
        requires
            device.uvc_info.control_interface.topo@.has_processing_unit(id),
        ensures
            r.device == device,
            r.desc.id.raw() == id.raw(),
            exists|i: int|
                0 <= i < device.uvc_info.control_interface.topo@.units.len() && (
                #[trigger] device.uvc_info.control_interface.topo@.units[i]) == UnitView::Processing(
                    *r.desc,
                ),
    {
        let desc = device.topology().processing_unit_by_id(id);
        Self { device, desc }
    }

    /// The transfer that asks the control `C` of this unit with `request`.
    pub open spec fn spec_read<C: ProcessingUnitControl>(&self, request: Request) -> ControlIn {
        spec_get(
            self.device.uvc_info.control_interface.interface_number,
            self.desc.id.raw(),
            request,
            C::ID.spec_selector(),
            <C::Value as ControlValue>::wire_size() as usize,
        )
    }

    /// The transfer that reads the current value of the control `C`.
    pub fn read_control<C: ProcessingUnitControl>(&self) -> (r: ControlIn)
        ensures
            r == self.spec_read::<C>(Request::GetCur),
    {
        self.read_control_raw(C::ID, Request::GetCur, <C::Value as ControlValue>::size())
    }

    /// The transfer that reads the least value of the control `C`.
    pub fn read_control_min<C: ProcessingUnitControl>(&self) -> (r: ControlIn)
        ensures
            r == self.spec_read::<C>(Request::GetMin),
    {
        self.read_control_raw(C::ID, Request::GetMin, <C::Value as ControlValue>::size())
    }

    /// The transfer that reads the greatest value of the control `C`.
    pub fn read_control_max<C: ProcessingUnitControl>(&self) -> (r: ControlIn)
        ensures
            r == self.spec_read::<C>(Request::GetMax),
    {
        self.read_control_raw(C::ID, Request::GetMax, <C::Value as ControlValue>::size())
    }

    /// The transfer that reads the resolution of the control `C`.
    pub fn read_control_res<C: ProcessingUnitControl>(&self) -> (r: ControlIn)
        ensures
            r == self.spec_read::<C>(Request::GetRes),
    {
        self.read_control_raw(C::ID, Request::GetRes, <C::Value as ControlValue>::size())
    }

    /// The transfer that reads the default value of the control `C`.
    pub fn read_control_default<C: ProcessingUnitControl>(&self) -> (r: ControlIn)
        ensures
            r == self.spec_read::<C>(Request::GetDef),
    {
        self.read_control_raw(C::ID, Request::GetDef, <C::Value as ControlValue>::size())
    }

    /// The transfer that sets the control `C` to `value`.
    pub fn set_control<C: ProcessingUnitControl>(&mut self, value: C::Value) -> (r: ControlOut)
        ensures
            r@ == spec_set_cur(
                old(self).device.uvc_info.control_interface.interface_number,
                old(self).desc.id.raw(),
                C::ID.spec_selector(),
                value.spec_encode(),
            ),
            *final(self) == *old(self),
    {
        let data = encode_to_vec(&value);
        self.set_control_raw(C::ID, data.as_slice())
    }

    /// What the device's answer `response` to a read of the control `C` holds.
    pub fn decode_control<C: ProcessingUnitControl>(&self, response: &[u8]) -> (r: Result<
        C::Value,
        Error,
    >)
        ensures
            r == spec_decode_response::<C::Value>(response@, Action::ReadingControl),
    {
        decode_response(response, Action::ReadingControl)
    }

    /// The transfer that writes the bytes `value` to the control `control`.
    fn set_control_raw(&mut self, control: ControlId, value: &[u8]) -> (r: ControlOut)
        ensures
            r@ == spec_set_cur(
                old(self).device.uvc_info.control_interface.interface_number,
                old(self).desc.id.raw(),
                control.spec_selector(),
                value@,
            ),
            *final(self) == *old(self),
    {
        self.device.set_entity(self.desc.id().as_raw(), control.selector(), value)
    }

    /// The transfer that asks the control `control` for `len` bytes.
    fn read_control_raw(&self, control: ControlId, request: Request, len: usize) -> (r: ControlIn)
        ensures
            r == spec_get(
                self.device.uvc_info.control_interface.interface_number,
                self.desc.id.raw(),
                request,
                control.spec_selector(),
                len,
            ),
    {
        self.device.read_entity(self.desc.id().as_raw(), request, control.selector(), len)
    }
}

/// The controls of a processing unit.
#[derive(Clone, Copy, Debug, PartialEq, Eq, Structural)]
#[non_exhaustive]
pub enum ControlId {
    Undefined,
    BacklightCompensation,
    Brightness,
    Contrast,
    Gain,
    PowerLineFrequency,
    Hue,
    Saturation,
    Sharpness,
    Gamma,
    WhiteBalanceTemperature,
    WhiteBalanceTemperatureAuto,
    WhiteBalanceComponent,
    WhiteBalanceComponentAuto,
    DigitalMultiplier,
    DigitalMultiplierLimit,
    HueAuto,
    AnalogVideoStandard,
    AnalogVideoLockStatus,
    ContrastAuto,
}

impl ControlId {
    /// The control selector: the byte that names the control in a request.
    pub open spec fn spec_selector(self) -> u8 {
        match self {
            ControlId::Undefined => 0x0,
            ControlId::BacklightCompensation => 0x1,
            ControlId::Brightness => 0x2,
            ControlId::Contrast => 0x3,
            ControlId::Gain => 0x4,
            ControlId::PowerLineFrequency => 0x5,
            ControlId::Hue => 0x6,
            ControlId::Saturation => 0x7,
            ControlId::Sharpness => 0x8,
            ControlId::Gamma => 0x9,
            ControlId::WhiteBalanceTemperature => 0xa,
            ControlId::WhiteBalanceTemperatureAuto => 0xb,
            ControlId::WhiteBalanceComponent => 0xc,
            ControlId::WhiteBalanceComponentAuto => 0xd,
            ControlId::DigitalMultiplier => 0xe,
            ControlId::DigitalMultiplierLimit => 0xf,
            ControlId::HueAuto => 0x10,
            ControlId::AnalogVideoStandard => 0x11,
            ControlId::AnalogVideoLockStatus => 0x12,
            ControlId::ContrastAuto => 0x13,
        }
    }

    /// The control selector: the byte that names the control in a request.
    #[verifier::when_used_as_spec(spec_selector)]
    pub fn selector(self) -> (r: u8)
        ensures
            r == self.spec_selector(),
    {
        match self {
            ControlId::Undefined => 0x0,
            ControlId::BacklightCompensation => 0x1,
            ControlId::Brightness => 0x2,
            ControlId::Contrast => 0x3,
            ControlId::Gain => 0x4,
            ControlId::PowerLineFrequency => 0x5,
            ControlId::Hue => 0x6,
            ControlId::Saturation => 0x7,
            ControlId::Sharpness => 0x8,
            ControlId::Gamma => 0x9,
            ControlId::WhiteBalanceTemperature => 0xa,
            ControlId::WhiteBalanceTemperatureAuto => 0xb,
            ControlId::WhiteBalanceComponent => 0xc,
            ControlId::WhiteBalanceComponentAuto => 0xd,
            ControlId::DigitalMultiplier => 0xe,
            ControlId::DigitalMultiplierLimit => 0xf,
            ControlId::HueAuto => 0x10,
            ControlId::AnalogVideoStandard => 0x11,
            ControlId::AnalogVideoLockStatus => 0x12,
            ControlId::ContrastAuto => 0x13,
        }
    }
}

/// A control of a processing unit: its selector, and the type of its values.
pub trait ProcessingUnitControl {
    type Value: ControlValue;

    const ID: ControlId;
}

pub struct BacklightCompensation;

impl ProcessingUnitControl for BacklightCompensation {
    type Value = u16;

    const ID: ControlId = ControlId::BacklightCompensation;
}

pub struct Brightness;

impl ProcessingUnitControl for Brightness {
    type Value = i16;

    const ID: ControlId = ControlId::Brightness;
}

pub struct Contrast;

impl ProcessingUnitControl for Contrast {
    type Value = u16;

    const ID: ControlId = ControlId::Contrast;
}

pub struct Gain;

impl ProcessingUnitControl for Gain {
    type Value = u16;

    const ID: ControlId = ControlId::Gain;
}

pub struct PowerLineFrequency;

impl ProcessingUnitControl for PowerLineFrequency {
    type Value = crate::control::PowerLineFrequency;

    const ID: ControlId = ControlId::PowerLineFrequency;
}

pub struct Hue;

impl ProcessingUnitControl for Hue {
    type Value = i16;

    const ID: ControlId = ControlId::Hue;
}

pub struct HueAuto;

impl ProcessingUnitControl for HueAuto {
    type Value = u8;

    const ID: ControlId = ControlId::HueAuto;
}

pub struct Saturation;

impl ProcessingUnitControl for Saturation {
    type Value = u16;

    const ID: ControlId = ControlId::Saturation;
}

pub struct Sharpness;

impl ProcessingUnitControl for Sharpness {
    type Value = u16;

    const ID: ControlId = ControlId::Sharpness;
}

pub struct Gamma;

impl ProcessingUnitControl for Gamma {
    type Value = u16;

    const ID: ControlId = ControlId::Gamma;
}

pub struct WhiteBalanceTemperature;

impl ProcessingUnitControl for WhiteBalanceTemperature {
    type Value = u16;

    const ID: ControlId = ControlId::WhiteBalanceTemperature;
}

pub struct WhiteBalanceTemperatureAuto;

impl ProcessingUnitControl for WhiteBalanceTemperatureAuto {
    type Value = u8;

    const ID: ControlId = ControlId::WhiteBalanceTemperatureAuto;
}

pub struct WhiteBalanceComponent;

impl ProcessingUnitControl for WhiteBalanceComponent {
    type Value = crate::control::WhiteBalanceComponents;

    const ID: ControlId = ControlId::WhiteBalanceComponent;
}

pub struct WhiteBalanceComponentAuto;

impl ProcessingUnitControl for WhiteBalanceComponentAuto {
    type Value = u8;

    const ID: ControlId = ControlId::WhiteBalanceComponentAuto;
}

} // verus!
