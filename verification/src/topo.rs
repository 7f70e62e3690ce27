//! UVC device topology.
//!
//! A UVC function consists of input terminals, which bring video data into it, output
//! terminals, which carry video data out of it, and units, which sit between them and
//! process or route the data.

pub mod flags;
pub mod parse;

use crate::util::{duration_nanos, uuid_bytes, BcdVersion};
pub use flags::{
    CameraControls, InputInterfaceInfo, InterlaceFlags, PerFormatControls, ProcessingUnitControls,
    UncompressedFrameCapabilities, VideoStandards,
};
use std::time::Duration;
use uuid::Uuid;
use vstd::prelude::*;

verus! {

/// Identifies a video data source: a unit or an input terminal. Never 0 once read from a
/// descriptor.
#[derive(Clone, Copy, Debug)]
pub struct SourceId(u8);

impl SourceId {
    /// The identifier as the byte that descriptors and requests hold.
    pub closed spec fn raw(self) -> u8 {
        self.0
    }

    /// The identifier that stands for the byte `raw`.
    pub closed spec fn from_raw(raw: u8) -> Self {
        SourceId(raw)
    }

    /// An identifier holds the byte that it stands for.
    pub broadcast proof fn lemma_raw(raw: u8)
        ensures
            #[trigger] Self::from_raw(raw).raw() == raw,
    {
    }

    /// An identifier stands for the byte that it holds.
    pub broadcast proof fn lemma_from_raw(self)
        ensures
            #[trigger] Self::from_raw(self.raw()) == self,
    {
    }

    /// Accepts every byte but 0, which UVC reserves for "no such entity".
    pub fn new(raw: u8) -> (r: Option<Self>)
        ensures
            r == (if raw == 0 {
                None
            } else {
                Some(Self::from_raw(raw))
            }),
    {
        if raw == 0 {
            None
        } else {
            Some(SourceId(raw))
        }
    }

    /// The identifier as the byte that descriptors and requests hold.
    pub fn as_raw(self) -> (r: u8)
        ensures
            r == self.raw(),
    {
        self.0
    }
}

/// Identifies an input or output terminal. Never 0 once read from a descriptor.
#[derive(Clone, Copy, Debug)]
pub struct TermId(u8);

impl TermId {
    /// The identifier as the byte that descriptors and requests hold.
    pub closed spec fn raw(self) -> u8 {
        self.0
    }

    /// The identifier that stands for the byte `raw`.
    pub closed spec fn from_raw(raw: u8) -> Self {
        TermId(raw)
    }

    /// An identifier holds the byte that it stands for.
    pub broadcast proof fn lemma_raw(raw: u8)
        ensures
            #[trigger] Self::from_raw(raw).raw() == raw,
    {
    }

    /// An identifier stands for the byte that it holds.
    pub broadcast proof fn lemma_from_raw(self)
        ensures
            #[trigger] Self::from_raw(self.raw()) == self,
    {
    }

    /// Accepts every byte but 0, which UVC reserves for "no such entity".
    pub fn new(raw: u8) -> (r: Option<Self>)
        ensures
            r == (if raw == 0 {
                None
            } else {
                Some(Self::from_raw(raw))
            }),
    {
        if raw == 0 {
            None
        } else {
            Some(TermId(raw))
        }
    }

    /// The identifier as the byte that descriptors and requests hold.
    pub fn as_raw(self) -> (r: u8)
        ensures
            r == self.raw(),
    {
        self.0
    }
}

/// Identifies a unit. Never 0 once read from a descriptor.
#[derive(Clone, Copy, Debug)]
pub struct UnitId(u8);

impl UnitId {
    /// The identifier as the byte that descriptors and requests hold.
    pub closed spec fn raw(self) -> u8 {
        self.0
    }

    /// The identifier that stands for the byte `raw`.
    pub closed spec fn from_raw(raw: u8) -> Self {
        UnitId(raw)
    }

    /// An identifier holds the byte that it stands for.
    pub broadcast proof fn lemma_raw(raw: u8)
        ensures
            #[trigger] Self::from_raw(raw).raw() == raw,
    {
    }

    /// An identifier stands for the byte that it holds.
    pub broadcast proof fn lemma_from_raw(self)
        ensures
            #[trigger] Self::from_raw(self.raw()) == self,
    {
    }

    /// Accepts every byte but 0, which UVC reserves for "no such entity".
    pub fn new(raw: u8) -> (r: Option<Self>)
        ensures
            r == (if raw == 0 {
                None
            } else {
                Some(Self::from_raw(raw))
            }),
    {
        if raw == 0 {
            None
        } else {
            Some(UnitId(raw))
        }
    }

    /// The identifier as the byte that descriptors and requests hold.
    pub fn as_raw(self) -> (r: u8)
        ensures
            r == self.raw(),
    {
        self.0
    }
}

/// Identifies an input terminal that is a camera terminal. Only the descriptor parser makes one, after it has
/// seen what kind of entity the identifier belongs to.
#[derive(Clone, Copy, Debug)]
pub struct CameraId(TermId);

impl CameraId {
    /// The identifier of the term.
    pub closed spec fn term_id(self) -> TermId {
        self.0
    }

    /// The refined identifier of the term `id`.
    pub closed spec fn of(id: TermId) -> Self {
        CameraId(id)
    }

    /// The identifier as the byte that descriptors and requests hold.
    pub open spec fn raw(self) -> u8 {
        self.term_id().raw()
    }

    /// A refined identifier holds the identifier that it refines.
    pub broadcast proof fn lemma_of(id: TermId)
        ensures
            #[trigger] Self::of(id).term_id() == id,
    {
    }

    /// A refined identifier refines the identifier that it holds.
    pub broadcast proof fn lemma_term_id(self)
        ensures
            #[trigger] Self::of(self.term_id()) == self,
    {
    }

    /// The identifier as the byte that descriptors and requests hold.
    pub fn as_raw(self) -> (r: u8)
        ensures
            r == self.raw(),
    {
        self.0.as_raw()
    }
}

impl From<CameraId> for TermId {
    fn from(id: CameraId) -> (r: TermId) {
        id.0
    }
}

impl vstd::std_specs::convert::FromSpecImpl<CameraId> for TermId {
    open spec fn obeys_from_spec() -> bool {
        true
    }

    open spec fn from_spec(id: CameraId) -> TermId {
        id.term_id()
    }
}

/// Identifies a unit that is a processing unit. Only the descriptor parser makes one, after it has
/// seen what kind of entity the identifier belongs to.
#[derive(Clone, Copy, Debug)]
pub struct ProcessingUnitId(UnitId);

impl ProcessingUnitId {
    /// The identifier of the unit.
    pub closed spec fn unit_id(self) -> UnitId {
        self.0
    }

    /// The refined identifier of the unit `id`.
    pub closed spec fn of(id: UnitId) -> Self {
        ProcessingUnitId(id)
    }

    /// The identifier as the byte that descriptors and requests hold.
    pub open spec fn raw(self) -> u8 {
        self.unit_id().raw()
    }

    /// A refined identifier holds the identifier that it refines.
    pub broadcast proof fn lemma_of(id: UnitId)
        ensures
            #[trigger] Self::of(id).unit_id() == id,
    {
    }

    /// A refined identifier refines the identifier that it holds.
    pub broadcast proof fn lemma_unit_id(self)
        ensures
            #[trigger] Self::of(self.unit_id()) == self,
    {
    }

    /// The identifier as the byte that descriptors and requests hold.
    pub fn as_raw(self) -> (r: u8)
        ensures
            r == self.raw(),
    {
        self.0.as_raw()
    }
}

impl From<ProcessingUnitId> for UnitId {
    fn from(id: ProcessingUnitId) -> (r: UnitId) {
        id.0
    }
}

impl vstd::std_specs::convert::FromSpecImpl<ProcessingUnitId> for UnitId {
    open spec fn obeys_from_spec() -> bool {
        true
    }

    open spec fn from_spec(id: ProcessingUnitId) -> UnitId {
        id.unit_id()
    }
}

/// Identifies a unit that is a selector unit. Only the descriptor parser makes one, after it has
/// seen what kind of entity the identifier belongs to.
#[derive(Clone, Copy, Debug)]
pub struct SelectorUnitId(UnitId);

impl SelectorUnitId {
    /// The identifier of the unit.
    pub closed spec fn unit_id(self) -> UnitId {
        self.0
    }

    /// The refined identifier of the unit `id`.
    pub closed spec fn of(id: UnitId) -> Self {
        SelectorUnitId(id)
    }

    /// The identifier as the byte that descriptors and requests hold.
    pub open spec fn raw(self) -> u8 {
        self.unit_id().raw()
    }

    /// A refined identifier holds the identifier that it refines.
    pub broadcast proof fn lemma_of(id: UnitId)
        ensures
            #[trigger] Self::of(id).unit_id() == id,
    {
    }

    /// A refined identifier refines the identifier that it holds.
    pub broadcast proof fn lemma_unit_id(self)
        ensures
            #[trigger] Self::of(self.unit_id()) == self,
    {
    }

    /// The identifier as the byte that descriptors and requests hold.
    pub fn as_raw(self) -> (r: u8)
        ensures
            r == self.raw(),
    {
        self.0.as_raw()
    }
}

impl From<SelectorUnitId> for UnitId {
    fn from(id: SelectorUnitId) -> (r: UnitId) {
        id.0
    }
}

impl vstd::std_specs::convert::FromSpecImpl<SelectorUnitId> for UnitId {
    open spec fn obeys_from_spec() -> bool {
        true
    }

    open spec fn from_spec(id: SelectorUnitId) -> UnitId {
        id.unit_id()
    }
}

/// Identifies a unit that is an extension unit. Only the descriptor parser makes one, after it has
/// seen what kind of entity the identifier belongs to.
#[derive(Clone, Copy, Debug)]
pub struct ExtensionUnitId(UnitId);

impl ExtensionUnitId {
    /// The identifier of the unit.
    pub closed spec fn unit_id(self) -> UnitId {
        self.0
    }

    /// The refined identifier of the unit `id`.
    pub closed spec fn of(id: UnitId) -> Self {
        ExtensionUnitId(id)
    }

    /// The identifier as the byte that descriptors and requests hold.
    pub open spec fn raw(self) -> u8 {
        self.unit_id().raw()
    }

    /// A refined identifier holds the identifier that it refines.
    pub broadcast proof fn lemma_of(id: UnitId)
        ensures
            #[trigger] Self::of(id).unit_id() == id,
    {
    }

    /// A refined identifier refines the identifier that it holds.
    pub broadcast proof fn lemma_unit_id(self)
        ensures
            #[trigger] Self::of(self.unit_id()) == self,
    {
    }

    /// The identifier as the byte that descriptors and requests hold.
    pub fn as_raw(self) -> (r: u8)
        ensures
            r == self.raw(),
    {
        self.0.as_raw()
    }
}

impl From<ExtensionUnitId> for UnitId {
    fn from(id: ExtensionUnitId) -> (r: UnitId) {
        id.0
    }
}

impl vstd::std_specs::convert::FromSpecImpl<ExtensionUnitId> for UnitId {
    open spec fn obeys_from_spec() -> bool {
        true
    }

    open spec fn from_spec(id: ExtensionUnitId) -> UnitId {
        id.unit_id()
    }
}
/// The `wTerminalType` code of a camera terminal.
pub const TERMINAL_TYPE_CAMERA: u16 = 0x0201;

/// The terminal types that an input terminal can declare.
#[derive(Clone, Copy, Debug, PartialEq, Eq, Structural)]
pub enum InputTerminalType {
    UsbVendorSpecific,
    UsbStreaming,
    InVendorSpecific,
    InCamera,
    InMediaTransport,
    ExtVendorSpecific,
    ExtCompositeConnector,
    ExtSVideoConnector,
    ExtComponentConnector,
}

impl InputTerminalType {
    pub open spec fn spec_from_raw(raw: u16) -> Option<Self> {
        if raw == 0x0100 {
            Some(Self::UsbVendorSpecific)
        } else if raw == 0x0101 {
            Some(Self::UsbStreaming)
        } else if raw == 0x0200 {
            Some(Self::InVendorSpecific)
        } else if raw == 0x0201 {
            Some(Self::InCamera)
        } else if raw == 0x0202 {
            Some(Self::InMediaTransport)
        } else if raw == 0x0400 {
            Some(Self::ExtVendorSpecific)
        } else if raw == 0x0401 {
            Some(Self::ExtCompositeConnector)
        } else if raw == 0x0402 {
            Some(Self::ExtSVideoConnector)
        } else if raw == 0x0403 {
            Some(Self::ExtComponentConnector)
        } else {
            None
        }
    }

    /// The terminal type with the code `raw`, if UVC defines one for input terminals.
    #[verifier::when_used_as_spec(spec_from_raw)]
    pub fn from_raw(raw: u16) -> (r: Option<Self>)
        ensures
            r == Self::spec_from_raw(raw),
    {
        match raw {
            0x0100 => Some(Self::UsbVendorSpecific),
            0x0101 => Some(Self::UsbStreaming),
            0x0200 => Some(Self::InVendorSpecific),
            0x0201 => Some(Self::InCamera),
            0x0202 => Some(Self::InMediaTransport),
            0x0400 => Some(Self::ExtVendorSpecific),
            0x0401 => Some(Self::ExtCompositeConnector),
            0x0402 => Some(Self::ExtSVideoConnector),
            0x0403 => Some(Self::ExtComponentConnector),
            _ => None,
        }
    }
}

/// The terminal types that an output terminal can declare.
#[derive(Clone, Copy, Debug, PartialEq, Eq, Structural)]
pub enum OutputTerminalType {
    UsbVendorSpecific,
    UsbStreaming,
    OutVendorSpecific,
    OutDisplay,
    OutMediaTransport,
    ExtVendorSpecific,
    ExtCompositeConnector,
    ExtSVideoConnector,
    ExtComponentConnector,
}

impl OutputTerminalType {
    pub open spec fn spec_from_raw(raw: u16) -> Option<Self> {
        if raw == 0x0100 {
            Some(Self::UsbVendorSpecific)
        } else if raw == 0x0101 {
            Some(Self::UsbStreaming)
        } else if raw == 0x0300 {
            Some(Self::OutVendorSpecific)
        } else if raw == 0x0301 {
            Some(Self::OutDisplay)
        } else if raw == 0x0302 {
            Some(Self::OutMediaTransport)
        } else if raw == 0x0400 {
            Some(Self::ExtVendorSpecific)
        } else if raw == 0x0401 {
            Some(Self::ExtCompositeConnector)
        } else if raw == 0x0402 {
            Some(Self::ExtSVideoConnector)
        } else if raw == 0x0403 {
            Some(Self::ExtComponentConnector)
        } else {
            None
        }
    }

    /// The terminal type with the code `raw`, if UVC defines one for output terminals.
    #[verifier::when_used_as_spec(spec_from_raw)]
    pub fn from_raw(raw: u16) -> (r: Option<Self>)
        ensures
            r == Self::spec_from_raw(raw),
    {
        match raw {
            0x0100 => Some(Self::UsbVendorSpecific),
            0x0101 => Some(Self::UsbStreaming),
            0x0300 => Some(Self::OutVendorSpecific),
            0x0301 => Some(Self::OutDisplay),
            0x0302 => Some(Self::OutMediaTransport),
            0x0400 => Some(Self::ExtVendorSpecific),
            0x0401 => Some(Self::ExtCompositeConnector),
            0x0402 => Some(Self::ExtSVideoConnector),
            0x0403 => Some(Self::ExtComponentConnector),
            _ => None,
        }
    }
}

/// How a streaming interface captures still images.
#[derive(Clone, Copy, Debug, PartialEq, Eq, Structural)]
pub enum StillCaptureMethod {
    Unsupported,
    Method1,
    Method2,
    Method3,
}

impl StillCaptureMethod {
    pub open spec fn spec_from_raw(raw: u8) -> Option<Self> {
        if raw == 0 {
            Some(Self::Unsupported)
        } else if raw == 1 {
            Some(Self::Method1)
        } else if raw == 2 {
            Some(Self::Method2)
        } else if raw == 3 {
            Some(Self::Method3)
        } else {
            None
        }
    }

    /// The capture method with the code `raw`, if UVC defines one.
    #[verifier::when_used_as_spec(spec_from_raw)]
    pub fn from_raw(raw: u8) -> (r: Option<Self>)
        ensures
            r == Self::spec_from_raw(raw),
    {
        match raw {
            0 => Some(Self::Unsupported),
            1 => Some(Self::Method1),
            2 => Some(Self::Method2),
            3 => Some(Self::Method3),
            _ => None,
        }
    }

    /// The capture method that a descriptor byte stands for: an undefined code counts as
    /// `Unsupported`.
    pub open spec fn spec_from_raw_lenient(raw: u8) -> Self {
        match Self::spec_from_raw(raw) {
            Some(m) => m,
            None => Self::Unsupported,
        }
    }
}

/// Whether a streaming interface supports hardware triggering.
#[derive(Clone, Copy, Debug, PartialEq, Eq, Structural)]
pub enum TriggerSupport {
    NotSupported,
    Supported,
}

impl TriggerSupport {
    pub open spec fn spec_from_raw(raw: u8) -> Option<Self> {
        if raw == 0 {
            Some(Self::NotSupported)
        } else if raw == 1 {
            Some(Self::Supported)
        } else {
            None
        }
    }

    /// The trigger support with the code `raw`, if UVC defines one.
    #[verifier::when_used_as_spec(spec_from_raw)]
    pub fn from_raw(raw: u8) -> (r: Option<Self>)
        ensures
            r == Self::spec_from_raw(raw),
    {
        match raw {
            0 => Some(Self::NotSupported),
            1 => Some(Self::Supported),
            _ => None,
        }
    }

    /// The trigger support that a descriptor byte stands for: an undefined code counts as
    /// `NotSupported`.
    pub open spec fn spec_from_raw_lenient(raw: u8) -> Self {
        match Self::spec_from_raw(raw) {
            Some(m) => m,
            None => Self::NotSupported,
        }
    }
}

/// What the host does when the hardware trigger fires.
#[derive(Clone, Copy, Debug, PartialEq, Eq, Structural)]
pub enum TriggerUsage {
    InitiateStillImageCapture,
    GeneralPurposeButtonEvent,
}

impl TriggerUsage {
    pub open spec fn spec_from_raw(raw: u8) -> Option<Self> {
        if raw == 0 {
            Some(Self::InitiateStillImageCapture)
        } else if raw == 1 {
            Some(Self::GeneralPurposeButtonEvent)
        } else {
            None
        }
    }

    /// The trigger usage with the code `raw`, if UVC defines one.
    #[verifier::when_used_as_spec(spec_from_raw)]
    pub fn from_raw(raw: u8) -> (r: Option<Self>)
        ensures
            r == Self::spec_from_raw(raw),
    {
        match raw {
            0 => Some(Self::InitiateStillImageCapture),
            1 => Some(Self::GeneralPurposeButtonEvent),
            _ => None,
        }
    }

    /// The trigger usage that a descriptor byte stands for: an undefined code counts as
    /// `InitiateStillImageCapture`.
    pub open spec fn spec_from_raw_lenient(raw: u8) -> Self {
        match Self::spec_from_raw(raw) {
            Some(m) => m,
            None => Self::InitiateStillImageCapture,
        }
    }
}

/// The VC_HEADER descriptor of a Video Control interface.
#[derive(Debug)]
pub struct ControlHeader {
    pub uvc_version: BcdVersion,
    pub total_len: u16,
    pub clock_freq_hz: u32,
    /// The interface numbers of the function's streaming interfaces.
    pub streaming_interfaces: Vec<u8>,
}

/// A `ControlHeader` with its list as a sequence.
pub struct ControlHeaderView {
    pub uvc_version: BcdVersion,
    pub total_len: u16,
    pub clock_freq_hz: u32,
    pub streaming_interfaces: Seq<u8>,
}

impl View for ControlHeader {
    type V = ControlHeaderView;

    open spec fn view(&self) -> ControlHeaderView {
        ControlHeaderView {
            uvc_version: self.uvc_version,
            total_len: self.total_len,
            clock_freq_hz: self.clock_freq_hz,
            streaming_interfaces: self.streaming_interfaces@,
        }
    }
}

/// What a camera terminal adds to an input terminal.
#[derive(Debug)]
pub struct CameraTerminalDesc {
    pub objective_focal_length_min: u16,
    pub objective_focal_length_max: u16,
    pub ocular_focal_length: u16,
    pub controls: CameraControls,
}

impl CameraTerminalDesc {
    /// The controls that the camera supports.
    pub fn controls(&self) -> (r: CameraControls)
        ensures
            r == self.controls,
    {
        self.controls
    }
}

/// What an input terminal is, beyond being one.
#[derive(Debug)]
#[non_exhaustive]
pub enum InputTerminalKind {
    Camera(CameraTerminalDesc),
    /// A terminal without further functionality that this library reads.
    Other,
}

/// An input terminal of the topology.
#[derive(Debug)]
pub struct InputTerminalDesc {
    pub term_id: TermId,
    pub term_type: u16,
    pub assoc: Option<TermId>,
    pub string: u8,
    pub kind: InputTerminalKind,
}

impl InputTerminalDesc {
    /// The declared terminal type, if it is one that UVC defines.
    pub fn terminal_type(&self) -> (r: Option<InputTerminalType>)
        ensures
            r == InputTerminalType::spec_from_raw(self.term_type),
    {
        InputTerminalType::from_raw(self.term_type)
    }

    pub fn terminal_kind(&self) -> (r: &InputTerminalKind)
        ensures
            *r == self.kind,
    {
        &self.kind
    }

    /// The terminal's identifier as a camera identifier, if the terminal is a camera.
    pub fn as_camera_id(&self) -> (r: Option<CameraId>)
        ensures
            r == (if self.kind is Camera {
                Some(CameraId::of(self.term_id))
            } else {
                None
            }),
    {
        match &self.kind {
            InputTerminalKind::Camera(_) => Some(CameraId(self.term_id)),
            _ => None,
        }
    }

    /// The camera part of the terminal, if the terminal is a camera.
    pub fn as_camera_desc(&self) -> (r: Option<&CameraTerminalDesc>)
        ensures
            r == (match self.kind {
                InputTerminalKind::Camera(cam) => Some(&cam),
                InputTerminalKind::Other => None,
            }),
    {
        match &self.kind {
            InputTerminalKind::Camera(cam) => Some(cam),
            _ => None,
        }
    }

    /// A terminal is a camera exactly if its type says so.
    pub open spec fn kind_matches_type(self) -> bool {
        self.kind is Camera <==> self.term_type == TERMINAL_TYPE_CAMERA
    }

    /// Whether this terminal is the camera that `id` names.
    pub open spec fn is_camera(self, id: CameraId) -> bool {
        self.kind is Camera && self.term_id.raw() == id.raw()
    }
}

/// An output terminal of the topology.
#[derive(Debug)]
pub struct OutputTerminalDesc {
    pub term_id: TermId,
    pub term_type: u16,
    pub assoc: Option<TermId>,
    pub source: SourceId,
    pub string: u8,
}

impl OutputTerminalDesc {
    /// The declared terminal type, if it is one that UVC defines.
    pub fn terminal_type(&self) -> (r: Option<OutputTerminalType>)
        ensures
            r == OutputTerminalType::spec_from_raw(self.term_type),
    {
        OutputTerminalType::from_raw(self.term_type)
    }
}

/// A selector unit: routes one of several sources onward.
#[derive(Debug)]
pub struct SelectorUnitDesc {
    pub id: SelectorUnitId,
    pub inputs: Vec<SourceId>,
}

/// A `SelectorUnitDesc` with its list as a sequence.
pub struct SelectorUnitView {
    pub id: SelectorUnitId,
    pub inputs: Seq<SourceId>,
}

impl View for SelectorUnitDesc {
    type V = SelectorUnitView;

    open spec fn view(&self) -> SelectorUnitView {
        SelectorUnitView { id: self.id, inputs: self.inputs@ }
    }
}

/// A processing unit: applies image controls to its one source.
#[derive(Debug)]
pub struct ProcessingUnitDesc {
    pub id: ProcessingUnitId,
    pub source: SourceId,
    pub max_multiplier: u16,
    pub controls: ProcessingUnitControls,
    pub string: u8,
    pub standards: VideoStandards,
}

impl ProcessingUnitDesc {
    pub fn id(&self) -> (r: ProcessingUnitId)
        ensures
            r == self.id,
    {
        self.id
    }

    /// The controls that the unit supports.
    pub fn controls(&self) -> (r: ProcessingUnitControls)
        ensures
            r == self.controls,
    {
        self.controls
    }
}

/// An extension unit: vendor-defined processing, named by a GUID.
#[derive(Debug)]
pub struct ExtensionUnitDesc {
    pub id: ExtensionUnitId,
    pub extension_code: Uuid,
    pub num_controls: u8,
    pub inputs: Vec<SourceId>,
    pub controls_bitmap: Vec<u8>,
}

/// An `ExtensionUnitDesc` with its lists as sequences and its code as bytes.
pub struct ExtensionUnitView {
    pub id: ExtensionUnitId,
    /// The 16 bytes of the extension code as a UUID.
    pub extension_code: Seq<u8>,
    pub num_controls: u8,
    pub inputs: Seq<SourceId>,
    pub controls_bitmap: Seq<u8>,
}

impl View for ExtensionUnitDesc {
    type V = ExtensionUnitView;

    open spec fn view(&self) -> ExtensionUnitView {
        ExtensionUnitView {
            id: self.id,
            extension_code: uuid_bytes(self.extension_code),
            num_controls: self.num_controls,
            inputs: self.inputs@,
            controls_bitmap: self.controls_bitmap@,
        }
    }
}

/// The kinds of unit, each with its descriptor.
#[derive(Debug)]
#[non_exhaustive]
pub enum UnitKind {
    Selector(SelectorUnitDesc),
    Processing(ProcessingUnitDesc),
    Extension(ExtensionUnitDesc),
}

/// A unit with its lists as sequences: the view of a `UnitKind` and of a `UnitDesc`.
pub enum UnitView {
    Selector(SelectorUnitView),
    Processing(ProcessingUnitDesc),
    Extension(ExtensionUnitView),
}

impl UnitView {
    /// The unit's identifier as a byte.
    pub open spec fn raw_id(self) -> u8 {
        match self {
            UnitView::Selector(u) => u.id.raw(),
            UnitView::Processing(u) => u.id.raw(),
            UnitView::Extension(u) => u.id.raw(),
        }
    }

    /// The sources that the unit takes its video data from.
    pub open spec fn sources(self) -> Seq<SourceId> {
        match self {
            UnitView::Selector(u) => u.inputs,
            UnitView::Processing(u) => seq![u.source],
            UnitView::Extension(u) => u.inputs,
        }
    }

    /// Whether this unit is the processing unit that `id` names.
    pub open spec fn is_processing_unit(self, id: ProcessingUnitId) -> bool {
        self matches UnitView::Processing(u) && u.id.raw() == id.raw()
    }
}

impl View for UnitKind {
    type V = UnitView;

    open spec fn view(&self) -> UnitView {
        match self {
            UnitKind::Selector(u) => UnitView::Selector(u@),
            UnitKind::Processing(u) => UnitView::Processing(*u),
            UnitKind::Extension(u) => UnitView::Extension(u@),
        }
    }
}

/// A unit of the topology.
#[derive(Debug)]
pub struct UnitDesc {
    pub kind: UnitKind,
}

impl View for UnitDesc {
    type V = UnitView;

    open spec fn view(&self) -> UnitView {
        self.kind@
    }
}

impl UnitDesc {
    /// The unit's identifier as a byte.
    pub fn raw_id(&self) -> (r: u8)
        ensures
            r == self@.raw_id(),
    {
        match &self.kind {
            UnitKind::Selector(u) => u.id.as_raw(),
            UnitKind::Processing(u) => u.id.as_raw(),
            UnitKind::Extension(u) => u.id.as_raw(),
        }
    }

    pub fn unit_kind(&self) -> (r: &UnitKind)
        ensures
            *r == self.kind,
    {
        &self.kind
    }

    /// The unit's descriptor, if the unit is a processing unit.
    pub fn as_processing_unit(&self) -> (r: Option<&ProcessingUnitDesc>)
        ensures
            r == (match self@ {
                UnitView::Processing(u) => Some(&u),
                _ => None,
            }),
    {
        match &self.kind {
            UnitKind::Processing(unit) => Some(unit),
            _ => None,
        }
    }
}

/// The topology that the descriptors of a Video Control interface declare.
#[derive(Debug)]
pub struct Topology {
    pub header: ControlHeader,
    pub units: Vec<UnitDesc>,
    pub inputs: Vec<InputTerminalDesc>,
    pub outputs: Vec<OutputTerminalDesc>,
}

/// A `Topology` with its lists as sequences.
pub struct TopologyView {
    pub header: ControlHeaderView,
    pub units: Seq<UnitView>,
    pub inputs: Seq<InputTerminalDesc>,
    pub outputs: Seq<OutputTerminalDesc>,
}

/// The views of a list of units.
pub open spec fn unit_views(units: Seq<UnitDesc>) -> Seq<UnitView> {
    units.map_values(|u: UnitDesc| u@)
}

impl View for Topology {
    type V = TopologyView;

    open spec fn view(&self) -> TopologyView {
        TopologyView {
            header: self.header@,
            units: unit_views(self.units@),
            inputs: self.inputs@,
            outputs: self.outputs@,
        }
    }
}

/// An associated terminal, where a descriptor names one, is not terminal 0.
pub open spec fn assoc_nonzero(assoc: Option<TermId>) -> bool {
    assoc matches Some(id) ==> id.raw() != 0
}

impl InputTerminalDesc {
    /// Neither the terminal's identifier nor one that it refers to is 0.
    pub open spec fn ids_nonzero(self) -> bool {
        self.term_id.raw() != 0 && assoc_nonzero(self.assoc)
    }
}

impl OutputTerminalDesc {
    /// Neither the terminal's identifier nor one that it refers to is 0.
    pub open spec fn ids_nonzero(self) -> bool {
        self.term_id.raw() != 0 && assoc_nonzero(self.assoc) && self.source.raw() != 0
    }
}

impl UnitView {
    /// Neither the unit's identifier nor that of one of its sources is 0.
    pub open spec fn ids_nonzero(self) -> bool {
        self.raw_id() != 0 && forall|k: int|
            0 <= k < self.sources().len() ==> (#[trigger] self.sources()[k]).raw() != 0
    }

    /// Every source of the unit is among the identifiers `ids`.
    pub open spec fn resolves_in(self, ids: Seq<u8>) -> bool {
        forall|k: int|
            0 <= k < self.sources().len() ==> ids.contains((#[trigger] self.sources()[k]).raw())
    }
}

/// No two of the identifiers `ids` are the same.
pub open spec fn all_distinct(ids: Seq<u8>) -> bool {
    forall|i: int, j: int| 0 <= i < j < ids.len() ==> ids[i] != ids[j]
}

impl TopologyView {
    /// The identifiers of all entities: of the input terminals, then of the output
    /// terminals, then of the units.
    pub open spec fn entity_ids(self) -> Seq<u8> {
        Seq::new(self.inputs.len(), |i: int| self.inputs[i].term_id.raw()) + Seq::new(
            self.outputs.len(),
            |i: int| self.outputs[i].term_id.raw(),
        ) + Seq::new(self.units.len(), |i: int| self.units[i].raw_id())
    }

    /// No identifier in the topology is 0: not that of an entity, nor one that an entity
    /// refers to.
    pub open spec fn ids_nonzero(self) -> bool {
        &&& forall|i: int| 0 <= i < self.inputs.len() ==> (#[trigger] self.inputs[i]).ids_nonzero()
        &&& forall|i: int|
            0 <= i < self.outputs.len() ==> (#[trigger] self.outputs[i]).ids_nonzero()
        &&& forall|i: int| 0 <= i < self.units.len() ==> (#[trigger] self.units[i]).ids_nonzero()
    }

    /// No two entities share an identifier.
    pub open spec fn ids_unique(self) -> bool {
        all_distinct(self.entity_ids())
    }

    /// Every source that a unit names is an entity of this topology.
    pub open spec fn sources_resolve(self) -> bool {
        forall|i: int|
            0 <= i < self.units.len() ==> (#[trigger] self.units[i]).resolves_in(self.entity_ids())
    }

    /// Every input terminal is a camera exactly if its type says so.
    pub open spec fn kinds_match_types(self) -> bool {
        forall|i: int|
            0 <= i < self.inputs.len() ==> (#[trigger] self.inputs[i]).kind_matches_type()
    }

    /// What holds of every topology that the parser returns.
    pub open spec fn wf(self) -> bool {
        &&& self.ids_nonzero()
        &&& self.ids_unique()
        &&& self.sources_resolve()
        &&& self.kinds_match_types()
    }

    /// Whether the topology has the camera terminal that `id` names.
    pub open spec fn has_camera(self, id: CameraId) -> bool {
        exists|i: int| 0 <= i < self.inputs.len() && (#[trigger] self.inputs[i]).is_camera(id)
    }

    /// Whether the topology has the processing unit that `id` names.
    pub open spec fn has_processing_unit(self, id: ProcessingUnitId) -> bool {
        exists|i: int|
            0 <= i < self.units.len() && (#[trigger] self.units[i]).is_processing_unit(id)
    }
}

impl Topology {
    /// The camera part of the first input terminal that is the camera `id`.
    pub fn camera_terminal_by_id(&self, id: CameraId) -> (r: &CameraTerminalDesc)
        requires
            self@.has_camera(id),
        ensures
            exists|i: int|
                0 <= i < self@.inputs.len() && (#[trigger] self@.inputs[i]).is_camera(id)
                    && self@.inputs[i].kind == InputTerminalKind::Camera(*r) && forall|j: int|
                    0 <= j < i ==> !(#[trigger] self@.inputs[j]).is_camera(id),
    {
        let mut i: usize = 0;
        loop
            invariant
                i < self.inputs.len(),
                self@.has_camera(id),
                forall|j: int| 0 <= j < i ==> !(#[trigger] self@.inputs[j]).is_camera(id),
            decreases self.inputs@.len() - i,
        {
            let input = &self.inputs[i];
            if let InputTerminalKind::Camera(cam) = &input.kind {
                if input.term_id.as_raw() == id.as_raw() {
                    return cam;
                }
            }
            assert(!self@.inputs[i as int].is_camera(id));
            proof {
                let k = choose|k: int|
                    0 <= k < self@.inputs.len() && (#[trigger] self@.inputs[k]).is_camera(id);
                assert(k > i);
            }
            i = i + 1;
        }
    }

    /// The descriptor of the first unit that is the processing unit `id`.
    pub fn processing_unit_by_id(&self, id: ProcessingUnitId) -> (r: &ProcessingUnitDesc)
        requires
            self@.has_processing_unit(id),
        ensures
            exists|i: int|
                0 <= i < self@.units.len() && (#[trigger] self@.units[i]).is_processing_unit(id)
                    && self@.units[i] == UnitView::Processing(*r) && forall|j: int|
                    0 <= j < i ==> !(#[trigger] self@.units[j]).is_processing_unit(id),
    {
        let mut i: usize = 0;
        loop
            invariant
                i < self.units.len(),
                self@.has_processing_unit(id),
                forall|j: int| 0 <= j < i ==> !(#[trigger] self@.units[j]).is_processing_unit(id),
            decreases self.units@.len() - i,
        {
            if let UnitKind::Processing(unit) = &self.units[i].kind {
                if unit.id.as_raw() == id.as_raw() {
                    assert(self@.units[i as int] == UnitView::Processing(*unit));
                    return unit;
                }
            }
            assert(!self@.units[i as int].is_processing_unit(id));
            proof {
                let k = choose|k: int|
                    0 <= k < self@.units.len() && (#[trigger] self@.units[k]).is_processing_unit(id);
                assert(k > i);
            }
            i = i + 1;
        }
    }

    pub fn units(&self) -> (r: &[UnitDesc])
        ensures
            r@ == self.units@,
    {
        self.units.as_slice()
    }

    pub fn inputs(&self) -> (r: &[InputTerminalDesc])
        ensures
            r@ == self.inputs@,
    {
        self.inputs.as_slice()
    }

    pub fn outputs(&self) -> (r: &[OutputTerminalDesc])
        ensures
            r@ == self.outputs@,
    {
        self.outputs.as_slice()
    }

    pub fn header(&self) -> (r: &ControlHeader)
        ensures
            *r == self.header,
    {
        &self.header
    }
}

/// Identifies a streaming interface by its interface number.
#[derive(Clone, Copy, Debug, PartialEq, Eq, Structural)]
pub struct StreamingInterfaceId(pub u8);

/// The index by which a format is selected in stream negotiation.
#[derive(Clone, Copy, Debug, PartialEq, Eq, Structural)]
pub struct FormatIndex(pub u8);

/// The index by which a frame is selected in stream negotiation.
#[derive(Clone, Copy, Debug, PartialEq, Eq, Structural)]
pub struct FrameIndex(pub u8);

/// The VS_INPUT_HEADER descriptor of a streaming interface.
#[derive(Debug)]
pub struct InputHeader {
    pub num_formats: u8,
    pub total_length: u16,
    pub endpoint_address: u8,
    pub info: InputInterfaceInfo,
    pub terminal_link: TermId,
    pub still_capture_method: StillCaptureMethod,
    pub trigger_support: TriggerSupport,
    pub trigger_usage: TriggerUsage,
    pub format_controls: Vec<PerFormatControls>,
}

/// An `InputHeader` with its list as a sequence.
pub struct InputHeaderView {
    pub num_formats: u8,
    pub total_length: u16,
    pub endpoint_address: u8,
    pub info: InputInterfaceInfo,
    pub terminal_link: TermId,
    pub still_capture_method: StillCaptureMethod,
    pub trigger_support: TriggerSupport,
    pub trigger_usage: TriggerUsage,
    pub format_controls: Seq<PerFormatControls>,
}

impl View for InputHeader {
    type V = InputHeaderView;

    open spec fn view(&self) -> InputHeaderView {
        InputHeaderView {
            num_formats: self.num_formats,
            total_length: self.total_length,
            endpoint_address: self.endpoint_address,
            info: self.info,
            terminal_link: self.terminal_link,
            still_capture_method: self.still_capture_method,
            trigger_support: self.trigger_support,
            trigger_usage: self.trigger_usage,
            format_controls: self.format_controls@,
        }
    }
}

/// The VS_OUTPUT_HEADER descriptor of a streaming interface, none of whose fields are kept.
#[derive(Debug)]
pub struct OutputHeader {}

/// The direction of a streaming interface, with the header that says so.
#[derive(Debug)]
pub enum StreamingInterfaceKind {
    Input(InputHeader),
    Output(OutputHeader),
}

/// A `StreamingInterfaceKind` with the header's list as a sequence.
pub enum StreamingInterfaceKindView {
    Input(InputHeaderView),
    Output(OutputHeader),
}

impl View for StreamingInterfaceKind {
    type V = StreamingInterfaceKindView;

    open spec fn view(&self) -> StreamingInterfaceKindView {
        match self {
            StreamingInterfaceKind::Input(h) => StreamingInterfaceKindView::Input(h@),
            StreamingInterfaceKind::Output(h) => StreamingInterfaceKindView::Output(*h),
        }
    }
}

/// An uncompressed video format.
#[derive(Debug)]
pub struct FormatUncompressed {
    pub format: Uuid,
    pub bits_per_pixel: u8,
    pub default_frame_index: FrameIndex,
    pub aspect_ratio_x: u8,
    pub aspect_ratio_y: u8,
    pub interlace_flags: InterlaceFlags,
    pub copy_protect: u8,
}

/// A `FormatUncompressed` with its GUID as the bytes of a UUID.
pub struct FormatUncompressedView {
    /// The 16 bytes of the format GUID as a UUID.
    pub format: Seq<u8>,
    pub bits_per_pixel: u8,
    pub default_frame_index: FrameIndex,
    pub aspect_ratio_x: u8,
    pub aspect_ratio_y: u8,
    pub interlace_flags: InterlaceFlags,
    pub copy_protect: u8,
}

impl View for FormatUncompressed {
    type V = FormatUncompressedView;

    open spec fn view(&self) -> FormatUncompressedView {
        FormatUncompressedView {
            format: uuid_bytes(self.format),
            bits_per_pixel: self.bits_per_pixel,
            default_frame_index: self.default_frame_index,
            aspect_ratio_x: self.aspect_ratio_x,
            aspect_ratio_y: self.aspect_ratio_y,
            interlace_flags: self.interlace_flags,
            copy_protect: self.copy_protect,
        }
    }
}

/// The kinds of format, each with its descriptor.
#[derive(Debug)]
#[non_exhaustive]
pub enum FormatKind {
    Uncompressed(FormatUncompressed),
}

/// A `FormatKind` with the view of its descriptor.
pub enum FormatKindView {
    Uncompressed(FormatUncompressedView),
}

impl View for FormatKind {
    type V = FormatKindView;

    open spec fn view(&self) -> FormatKindView {
        match self {
            FormatKind::Uncompressed(f) => FormatKindView::Uncompressed(f@),
        }
    }
}

/// A video format that a streaming interface offers.
#[derive(Debug)]
pub struct Format {
    pub format_index: FormatIndex,
    pub num_frame_descriptors: u8,
    pub kind: FormatKind,
}

/// A `Format` with the view of its kind.
pub struct FormatView {
    pub format_index: FormatIndex,
    pub num_frame_descriptors: u8,
    pub kind: FormatKindView,
}

impl View for Format {
    type V = FormatView;

    open spec fn view(&self) -> FormatView {
        FormatView {
            format_index: self.format_index,
            num_frame_descriptors: self.num_frame_descriptors,
            kind: self.kind@,
        }
    }
}

impl Format {
    pub fn index(&self) -> (r: FormatIndex)
        ensures
            r == self.format_index,
    {
        self.format_index
    }
}

/// The frame intervals that a frame supports. Views give them in nanoseconds.
#[derive(Debug)]
pub enum SupportedFrameIntervals {
    Continuous { min_frame_interval: Duration, max_frame_interval: Duration, frame_interval_step: Duration },
    Discrete { supported_frame_intervals: Vec<Duration> },
}

/// The `SupportedFrameIntervals` in nanoseconds.
pub enum SupportedFrameIntervalsView {
    Continuous { min_frame_interval: nat, max_frame_interval: nat, frame_interval_step: nat },
    Discrete { supported_frame_intervals: Seq<nat> },
}

/// The lengths of a list of durations in nanoseconds.
pub open spec fn nanos_of(durations: Seq<Duration>) -> Seq<nat> {
    durations.map_values(|d: Duration| duration_nanos(d))
}

impl View for SupportedFrameIntervals {
    type V = SupportedFrameIntervalsView;

    open spec fn view(&self) -> SupportedFrameIntervalsView {
        match self {
            SupportedFrameIntervals::Continuous {
                min_frame_interval,
                max_frame_interval,
                frame_interval_step,
            } => SupportedFrameIntervalsView::Continuous {
                min_frame_interval: duration_nanos(*min_frame_interval),
                max_frame_interval: duration_nanos(*max_frame_interval),
                frame_interval_step: duration_nanos(*frame_interval_step),
            },
            SupportedFrameIntervals::Discrete {
                supported_frame_intervals,
            } => SupportedFrameIntervalsView::Discrete {
                supported_frame_intervals: nanos_of(supported_frame_intervals@),
            },
        }
    }
}

/// A frame of an uncompressed video format.
#[derive(Debug)]
pub struct FrameUncompressed {
    pub capabilities: UncompressedFrameCapabilities,
    pub width: u16,
    pub height: u16,
    pub min_bit_rate: u32,
    pub max_bit_rate: u32,
    pub max_video_frame_buffer_size: u32,
    pub default_frame_interval: Duration,
    pub frame_interval: SupportedFrameIntervals,
}

/// A `FrameUncompressed` with its intervals in nanoseconds.
pub struct FrameUncompressedView {
    pub capabilities: UncompressedFrameCapabilities,
    pub width: u16,
    pub height: u16,
    pub min_bit_rate: u32,
    pub max_bit_rate: u32,
    pub max_video_frame_buffer_size: u32,
    /// In nanoseconds.
    pub default_frame_interval: nat,
    pub frame_interval: SupportedFrameIntervalsView,
}

impl View for FrameUncompressed {
    type V = FrameUncompressedView;

    open spec fn view(&self) -> FrameUncompressedView {
        FrameUncompressedView {
            capabilities: self.capabilities,
            width: self.width,
            height: self.height,
            min_bit_rate: self.min_bit_rate,
            max_bit_rate: self.max_bit_rate,
            max_video_frame_buffer_size: self.max_video_frame_buffer_size,
            default_frame_interval: duration_nanos(self.default_frame_interval),
            frame_interval: self.frame_interval@,
        }
    }
}

impl FrameUncompressed {
    /// The frame interval that the device uses unless told otherwise.
    pub fn default_frame_interval(&self) -> (r: Duration)
        ensures
            r == self.default_frame_interval,
    {
        self.default_frame_interval
    }
}

/// The kinds of frame, each with its descriptor.
#[derive(Debug)]
#[non_exhaustive]
pub enum FrameKind {
    Uncompressed(FrameUncompressed),
}

/// A `FrameKind` with the view of its descriptor.
pub enum FrameKindView {
    Uncompressed(FrameUncompressedView),
}

impl View for FrameKind {
    type V = FrameKindView;

    open spec fn view(&self) -> FrameKindView {
        match self {
            FrameKind::Uncompressed(f) => FrameKindView::Uncompressed(f@),
        }
    }
}

/// A frame size and rate that a streaming interface offers.
#[derive(Debug)]
pub struct Frame {
    pub frame_index: FrameIndex,
    pub kind: FrameKind,
}

/// A `Frame` with the view of its kind.
pub struct FrameView {
    pub frame_index: FrameIndex,
    pub kind: FrameKindView,
}

impl View for Frame {
    type V = FrameView;

    open spec fn view(&self) -> FrameView {
        FrameView { frame_index: self.frame_index, kind: self.kind@ }
    }
}

impl Frame {
    pub fn index(&self) -> (r: FrameIndex)
        ensures
            r == self.frame_index,
    {
        self.frame_index
    }

    /// The frame's descriptor, if the frame is uncompressed.
    pub fn as_frame_uncompressed(&self) -> (r: Option<&FrameUncompressed>)
        ensures
            r == (match self.kind {
                FrameKind::Uncompressed(f) => Some(&f),
            }),
    {
        match &self.kind {
            FrameKind::Uncompressed(f) => Some(f),
        }
    }
}

/// What the descriptors of a Video Streaming interface declare.
#[derive(Debug)]
pub struct StreamingInterfaceDesc {
    pub id: StreamingInterfaceId,
    pub kind: StreamingInterfaceKind,
    pub formats: Vec<Format>,
    pub frames: Vec<Frame>,
}

/// A `StreamingInterfaceDesc` with its lists as sequences.
pub struct StreamingInterfaceView {
    pub id: StreamingInterfaceId,
    pub kind: StreamingInterfaceKindView,
    pub formats: Seq<FormatView>,
    pub frames: Seq<FrameView>,
}

/// The views of a list of formats.
pub open spec fn format_views(formats: Seq<Format>) -> Seq<FormatView> {
    formats.map_values(|f: Format| f@)
}

/// The views of a list of frames.
pub open spec fn frame_views(frames: Seq<Frame>) -> Seq<FrameView> {
    frames.map_values(|f: Frame| f@)
}

impl View for StreamingInterfaceDesc {
    type V = StreamingInterfaceView;

    open spec fn view(&self) -> StreamingInterfaceView {
        StreamingInterfaceView {
            id: self.id,
            kind: self.kind@,
            formats: format_views(self.formats@),
            frames: frame_views(self.frames@),
        }
    }
}

impl StreamingInterfaceView {
    /// The terminal that an input interface links to is not terminal 0.
    pub open spec fn link_nonzero(self) -> bool {
        self.kind matches StreamingInterfaceKindView::Input(h) ==> h.terminal_link.raw() != 0
    }

    /// Whether the interface offers a frame with the index `index`.
    pub open spec fn has_frame(self, index: FrameIndex) -> bool {
        exists|i: int| 0 <= i < self.frames.len() && (#[trigger] self.frames[i]).frame_index == index
    }
}

impl StreamingInterfaceDesc {
    pub fn id(&self) -> (r: StreamingInterfaceId)
        ensures
            r == self.id,
    {
        self.id
    }

    pub fn formats(&self) -> (r: &[Format])
        ensures
            r@ == self.formats@,
    {
        self.formats.as_slice()
    }

    pub fn frames(&self) -> (r: &[Frame])
        ensures
            r@ == self.frames@,
    {
        self.frames.as_slice()
    }

    /// The first frame with the index `index`.
    pub fn frame_by_index(&self, index: FrameIndex) -> (r: &Frame)
        requires
            self@.has_frame(index),
        ensures
            exists|i: int|
                0 <= i < self.frames@.len() && *r == (#[trigger] self.frames@[i]) && r.frame_index
                    == index && forall|j: int|
                    0 <= j < i ==> (#[trigger] self.frames@[j]).frame_index != index,
    {
        let mut i: usize = 0;
        loop
            invariant
                i < self.frames.len(),
                self@.has_frame(index),
                forall|j: int| 0 <= j < i ==> (#[trigger] self.frames@[j]).frame_index != index,
            decreases self.frames@.len() - i,
        {
            if self.frames[i].frame_index.0 == index.0 {
                return &self.frames[i];
            }
            proof {
                let k = choose|k: int|
                    0 <= k < self@.frames.len() && (#[trigger] self@.frames[k]).frame_index == index;
                assert(self@.frames[k].frame_index == self.frames@[k].frame_index);
                assert(k > i);
            }
            i = i + 1;
        }
    }

    /// The address of the bulk endpoint that carries the video data of an input interface.
    pub fn endpoint_address(&self) -> (r: u8)
        requires
            self.kind is Input,
        ensures
            r == self.kind->Input_0.endpoint_address,
    {
        match &self.kind {
            StreamingInterfaceKind::Input(k) => k.endpoint_address,
            StreamingInterfaceKind::Output(_) => 0,
        }
    }
}

} // verus!
