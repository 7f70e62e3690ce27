//! Parsing the class-specific descriptors of Video Control and Video Streaming interfaces.
//!
//! A descriptor is parsed from its payload: its bytes without the two-byte prefix of length
//! and type, so that the payload's first byte is the descriptor subtype. Each descriptor
//! subtype has a spec function that says what a payload declares, field by field at its
//! offset, and an executable function that reads the payload with a cursor.

use super::{
    CameraControls, CameraTerminalDesc, ControlHeader, ControlHeaderView, ExtensionUnitDesc,
    ExtensionUnitId, ExtensionUnitView, Format, FormatIndex, FormatKind, FormatKindView,
    FormatUncompressed, FormatUncompressedView, FormatView, Frame, FrameIndex, FrameKind,
    FrameKindView, FrameUncompressed, FrameUncompressedView, FrameView, InputHeader,
    InputHeaderView, InputInterfaceInfo, InputTerminalDesc, InputTerminalKind, InterlaceFlags,
    OutputHeader, OutputTerminalDesc, PerFormatControls, ProcessingUnitControls,
    ProcessingUnitDesc, ProcessingUnitId, SelectorUnitDesc, SelectorUnitId, SelectorUnitView,
    SourceId, StillCaptureMethod, StreamingInterfaceDesc, StreamingInterfaceId,
    StreamingInterfaceKind, StreamingInterfaceKindView, StreamingInterfaceView,
    SupportedFrameIntervals, SupportedFrameIntervalsView, TermId, Topology, TopologyView,
    TriggerSupport, TriggerUsage, UncompressedFrameCapabilities, UnitDesc, UnitId, UnitKind,
    UnitView, VideoStandards, TERMINAL_TYPE_CAMERA,
};
use crate::error::{Action, Error, ErrorKind, IoError, ParseError};
use crate::util::{
    bitmask_at, duration_nanos, guid_at, is_descriptor, le16_at, le32_at, lemma_split_lengths,
    nanos_of_100ns, spec_split, spec_zero_extended, split_descriptors, zero_extended, BcdVersion,
    Reader,
};
use std::time::Duration;
use vstd::prelude::*;
use vstd::slice::slice_subrange;

verus! {

/// The `bDescriptorType` of the class-specific descriptors of a video interface.
pub const VIDEO_INTERFACE_DESC_TYPE: u8 = 36;

pub const CONTROL_DESC_SUBTYPE_HEADER: u8 = 0x01;

pub const CONTROL_DESC_SUBTYPE_INPUT_TERM: u8 = 0x02;

pub const CONTROL_DESC_SUBTYPE_OUTPUT_TERMINAL: u8 = 0x03;

pub const CONTROL_DESC_SUBTYPE_SELECTOR_UNIT: u8 = 0x04;

pub const CONTROL_DESC_SUBTYPE_PROCESSING_UNIT: u8 = 0x05;

pub const CONTROL_DESC_SUBTYPE_EXTENSION_UNIT: u8 = 0x06;

pub const CONTROL_DESC_SUBTYPE_ENCODING_UNIT: u8 = 0x07;

/// The number of zero bytes by which a descriptor that ends too early is extended before
/// it is parsed once more: enough for every descriptor subtype that UVC 1.5 defines.
pub const SHORT_DESCRIPTOR_PADDING: usize = 100;

/// The failure of a read past the end of a descriptor.
pub open spec fn end<T>() -> Result<T, ErrorKind> {
    Err(ErrorKind::unexpected_end())
}

/// The failure of a descriptor that is malformed in the way `e`.
pub open spec fn bad<T>(e: ParseError) -> Result<T, ErrorKind> {
    Err(ErrorKind::Parse(e))
}

/// The associated terminal that the byte `raw` names: none for 0.
pub open spec fn spec_assoc(raw: u8) -> Option<TermId> {
    if raw == 0 {
        None
    } else {
        Some(TermId::from_raw(raw))
    }
}

/// What reading `n` source identifiers at offset `at` of `p` gives. They are read one after
/// the other, so a 0 among the bytes that are there is found before the end of the data
/// is.
pub open spec fn spec_source_ids(p: Seq<u8>, at: int, n: int) -> Result<Seq<SourceId>, ErrorKind> {
    let avail = if p.len() - at < n {
        p.len() - at
    } else {
        n
    };
    if exists|i: int| at <= i < at + avail && #[trigger] p[i] == 0 {
        bad(ParseError::ZeroSourceId)
    } else if avail < n {
        end()
    } else {
        Ok(Seq::new(n as nat, |k: int| SourceId::from_raw(p[at + k])))
    }
}

/// What a VC_HEADER descriptor with the payload `p` declares.
pub open spec fn spec_header(p: Seq<u8>) -> Result<ControlHeaderView, ErrorKind> {
    if p.len() < 10 || p.len() < 10 + p[9] {
        end()
    } else {
        Ok(
            ControlHeaderView {
                uvc_version: BcdVersion(le16_at(p, 1)),
                total_len: le16_at(p, 3),
                clock_freq_hz: le32_at(p, 5),
                streaming_interfaces: p.subrange(10, 10 + p[9]),
            },
        )
    }
}

/// What a VC_INPUT_TERMINAL descriptor with the payload `p` declares. Only a terminal of
/// the camera type has the camera fields read.
pub open spec fn spec_input_terminal(p: Seq<u8>) -> Result<InputTerminalDesc, ErrorKind> {
    if p.len() < 2 {
        end()
    } else if p[1] == 0 {
        bad(ParseError::ZeroTerminalId)
    } else if p.len() < 6 {
        end()
    } else if le16_at(p, 2) != TERMINAL_TYPE_CAMERA {
        Ok(
            InputTerminalDesc {
                term_id: TermId::from_raw(p[1]),
                term_type: le16_at(p, 2),
                assoc: spec_assoc(p[4]),
                string: p[5],
                kind: InputTerminalKind::Other,
            },
        )
    } else if p.len() < 13 || p.len() < 13 + p[12] {
        end()
    } else {
        Ok(
            InputTerminalDesc {
                term_id: TermId::from_raw(p[1]),
                term_type: le16_at(p, 2),
                assoc: spec_assoc(p[4]),
                string: p[5],
                kind: InputTerminalKind::Camera(
                    CameraTerminalDesc {
                        objective_focal_length_min: le16_at(p, 6),
                        objective_focal_length_max: le16_at(p, 8),
                        ocular_focal_length: le16_at(p, 10),
                        controls: CameraControls::spec_from_bits_truncate(
                            bitmask_at(p, 13, p[12] as int),
                        ),
                    },
                ),
            },
        )
    }
}

/// What a VC_OUTPUT_TERMINAL descriptor with the payload `p` declares.
pub open spec fn spec_output_terminal(p: Seq<u8>) -> Result<OutputTerminalDesc, ErrorKind> {
    if p.len() < 2 {
        end()
    } else if p[1] == 0 {
        bad(ParseError::ZeroTerminalId)
    } else if p.len() < 6 {
        end()
    } else if p[5] == 0 {
        bad(ParseError::ZeroSourceId)
    } else if p.len() < 7 {
        end()
    } else {
        Ok(
            OutputTerminalDesc {
                term_id: TermId::from_raw(p[1]),
                term_type: le16_at(p, 2),
                assoc: spec_assoc(p[4]),
                source: SourceId::from_raw(p[5]),
                string: p[6],
            },
        )
    }
}

/// What a VC_SELECTOR_UNIT descriptor with the payload `p` declares.
pub open spec fn spec_selector_unit(p: Seq<u8>) -> Result<SelectorUnitView, ErrorKind> {
    if p.len() < 2 {
        end()
    } else if p[1] == 0 {
        bad(ParseError::ZeroUnitId)
    } else if p.len() < 3 {
        end()
    } else {
        match spec_source_ids(p, 3, p[2] as int) {
            Ok(inputs) => Ok(
                SelectorUnitView { id: SelectorUnitId::of(UnitId::from_raw(p[1])), inputs },
            ),
            Err(e) => Err(e),
        }
    }
}

/// What a VC_PROCESSING_UNIT descriptor with the payload `p` declares.
pub open spec fn spec_processing_unit(p: Seq<u8>) -> Result<ProcessingUnitDesc, ErrorKind> {
    if p.len() < 2 {
        end()
    } else if p[1] == 0 {
        bad(ParseError::ZeroUnitId)
    } else if p.len() < 3 {
        end()
    } else if p[2] == 0 {
        bad(ParseError::ZeroSourceId)
    } else if p.len() < 6 || p.len() < 8 + p[5] {
        end()
    } else {
        Ok(
            ProcessingUnitDesc {
                id: ProcessingUnitId::of(UnitId::from_raw(p[1])),
                source: SourceId::from_raw(p[2]),
                max_multiplier: le16_at(p, 3),
                controls: ProcessingUnitControls::spec_from_bits_truncate(
                    bitmask_at(p, 6, p[5] as int),
                ),
                string: p[6 + p[5]],
                standards: VideoStandards::spec_from_bits_truncate(p[7 + p[5]]),
            },
        )
    }
}

/// What a VC_EXTENSION_UNIT descriptor with the payload `p` declares.
pub open spec fn spec_extension_unit(p: Seq<u8>) -> Result<ExtensionUnitView, ErrorKind> {
    if p.len() < 2 {
        end()
    } else if p[1] == 0 {
        bad(ParseError::ZeroUnitId)
    } else if p.len() < 20 {
        end()
    } else {
        match spec_source_ids(p, 20, p[19] as int) {
            Ok(inputs) => {
                let at = 20 + p[19];
                if p.len() < at + 1 || p.len() < at + 1 + p[at] {
                    end()
                } else {
                    Ok(
                        ExtensionUnitView {
                            id: ExtensionUnitId::of(UnitId::from_raw(p[1])),
                            extension_code: guid_at(p, 2),
                            num_controls: p[18],
                            inputs,
                            controls_bitmap: p.subrange(at + 1, at + 1 + p[at]),
                        },
                    )
                }
            },
            Err(e) => Err(e),
        }
    }
}

/// Reads `n` source identifiers, none of which may be 0.
fn read_source_ids(rd: &mut Reader, n: u8) -> (r: Result<Vec<SourceId>, ErrorKind>)
    requires
        old(rd).wf(),
    ensures
        final(rd).wf(),
        final(rd).data == old(rd).data,
        match spec_source_ids(old(rd).data@, old(rd).pos as int, n as int) {
            Ok(ids) => r is Ok && r->Ok_0@ == ids && final(rd).pos == old(rd).pos + n,
            Err(e) => r is Err && r->Err_0 == e,
        },
{
    let ghost p = rd.data@;
    let ghost at = rd.pos as int;
    let total = rd.data.len();
    let mut ids: Vec<SourceId> = Vec::new();
    let mut k: u8 = 0;
    while k < n
        invariant
            rd.wf(),
            p.len() == total,
            rd.data == old(rd).data,
            p == rd.data@,
            at == old(rd).pos,
            rd.pos == at + k,
            k <= n,
            ids@.len() == k,
            forall|i: int| at <= i < at + k ==> #[trigger] p[i] != 0,
            forall|j: int| 0 <= j < k ==> #[trigger] ids@[j] == SourceId::from_raw(p[at + j]),
        decreases n - k,
    {
        match rd.read_nonzero_source_id() {
            Ok(id) => {
                ids.push(id);
            },
            Err(e) => {
                proof {
                    if at + k < p.len() {
                        assert(p[at + k] == 0);
                    }
                }
                return Err(e);
            },
        }
        k = k + 1;
    }
    assert(ids@ =~= Seq::new(n as nat, |k: int| SourceId::from_raw(p[at + k])));
    Ok(ids)
}

/// Reads a VC_HEADER descriptor from its payload.
fn parse_header(raw: &[u8]) -> (r: Result<ControlHeader, ErrorKind>)
    requires
        raw@.len() >= 1,
    ensures
        match spec_header(raw@) {
            Ok(h) => r is Ok && r->Ok_0@ == h,
            Err(e) => r is Err && r->Err_0 == e,
        },
{
    let mut rd = Reader { data: raw, pos: 1 };
    let uvc_version = BcdVersion(rd.read_u16()?);
    let total_len = rd.read_u16()?;
    let clock_freq_hz = rd.read_u32()?;
    let count = rd.read_u8()?;
    let streaming_interfaces = rd.read_bytes(count as usize)?;
    Ok(ControlHeader { uvc_version, total_len, clock_freq_hz, streaming_interfaces })
}

/// Reads a VC_INPUT_TERMINAL descriptor from its payload.
fn parse_input_terminal(raw: &[u8]) -> (r: Result<InputTerminalDesc, ErrorKind>)
    requires
        raw@.len() >= 1,
    ensures
        r == spec_input_terminal(raw@),
{
    let mut rd = Reader { data: raw, pos: 1 };
    let term_id = rd.read_nonzero_term_id()?;
    let term_type = rd.read_u16()?;
    let assoc = TermId::new(rd.read_u8()?);
    let string = rd.read_u8()?;
    let mut kind = InputTerminalKind::Other;
    if term_type == TERMINAL_TYPE_CAMERA {
        let objective_focal_length_min = rd.read_u16()?;
        let objective_focal_length_max = rd.read_u16()?;
        let ocular_focal_length = rd.read_u16()?;
        let controls = CameraControls::from_bits_truncate(rd.read_length_prefixed_bitmask()?);
        kind =
        InputTerminalKind::Camera(
            CameraTerminalDesc {
                objective_focal_length_min,
                objective_focal_length_max,
                ocular_focal_length,
                controls,
            },
        );
    }
    Ok(InputTerminalDesc { term_id, term_type, assoc, string, kind })
}

/// Reads a VC_OUTPUT_TERMINAL descriptor from its payload.
fn parse_output_terminal(raw: &[u8]) -> (r: Result<OutputTerminalDesc, ErrorKind>)
    requires
        raw@.len() >= 1,
    ensures
        r == spec_output_terminal(raw@),
{
    let mut rd = Reader { data: raw, pos: 1 };
    let term_id = rd.read_nonzero_term_id()?;
    let term_type = rd.read_u16()?;
    let assoc = TermId::new(rd.read_u8()?);
    let source = rd.read_nonzero_source_id()?;
    let string = rd.read_u8()?;
    Ok(OutputTerminalDesc { term_id, term_type, assoc, source, string })
}

/// Reads a VC_SELECTOR_UNIT descriptor from its payload.
fn parse_selector_unit(raw: &[u8]) -> (r: Result<SelectorUnitDesc, ErrorKind>)
    requires
        raw@.len() >= 1,
    ensures
        match spec_selector_unit(raw@) {
            Ok(u) => r is Ok && r->Ok_0@ == u,
            Err(e) => r is Err && r->Err_0 == e,
        },
{
    let mut rd = Reader { data: raw, pos: 1 };
    let id = SelectorUnitId(rd.read_nonzero_unit_id()?);
    let num = rd.read_u8()?;
    let inputs = read_source_ids(&mut rd, num)?;
    Ok(SelectorUnitDesc { id, inputs })
}

/// Reads a VC_PROCESSING_UNIT descriptor from its payload. A descriptor without its last
/// field, as some firmware sends it, ends too early here and is read once more by the caller.
fn parse_processing_unit(raw: &[u8]) -> (r: Result<ProcessingUnitDesc, ErrorKind>)
    requires
        raw@.len() >= 1,
    ensures
        r == spec_processing_unit(raw@),
{
    let mut rd = Reader { data: raw, pos: 1 };
    let id = ProcessingUnitId(rd.read_nonzero_unit_id()?);
    let source = rd.read_nonzero_source_id()?;
    let max_multiplier = rd.read_u16()?;
    let controls = ProcessingUnitControls::from_bits_truncate(rd.read_length_prefixed_bitmask()?);
    let string = rd.read_u8()?;
    let standards = VideoStandards::from_bits_truncate(rd.read_u8()?);
    Ok(ProcessingUnitDesc { id, source, max_multiplier, controls, string, standards })
}

/// Reads a VC_EXTENSION_UNIT descriptor from its payload.
fn parse_extension_unit(raw: &[u8]) -> (r: Result<ExtensionUnitDesc, ErrorKind>)
    requires
        raw@.len() >= 1,
    ensures
        match spec_extension_unit(raw@) {
            Ok(u) => r is Ok && r->Ok_0@ == u,
            Err(e) => r is Err && r->Err_0 == e,
        },
{
    let mut rd = Reader { data: raw, pos: 1 };
    let id = ExtensionUnitId(rd.read_nonzero_unit_id()?);
    let extension_code = rd.read_guid()?;
    let num_controls = rd.read_u8()?;
    let count = rd.read_u8()?;
    let inputs = read_source_ids(&mut rd, count)?;
    let size = rd.read_u8()?;
    let controls_bitmap = rd.read_bytes(size as usize)?;
    Ok(ExtensionUnitDesc { id, extension_code, num_controls, inputs, controls_bitmap })
}


/// The header that an optional parsed header stands for.
pub open spec fn header_view(header: Option<ControlHeader>) -> Option<ControlHeaderView> {
    match header {
        Some(h) => Some(h@),
        None => None,
    }
}

/// What has been gathered from the Video Control descriptors parsed so far.
pub struct ControlDescParser {
    pub header: Option<ControlHeader>,
    pub units: Vec<UnitDesc>,
    pub inputs: Vec<InputTerminalDesc>,
    pub outputs: Vec<OutputTerminalDesc>,
}

/// A `ControlDescParser` with its lists as sequences.
pub struct ControlDescParserView {
    pub header: Option<ControlHeaderView>,
    pub units: Seq<UnitView>,
    pub inputs: Seq<InputTerminalDesc>,
    pub outputs: Seq<OutputTerminalDesc>,
}

impl View for ControlDescParser {
    type V = ControlDescParserView;

    open spec fn view(&self) -> ControlDescParserView {
        ControlDescParserView {
            header: header_view(self.header),
            units: super::unit_views(self.units@),
            inputs: self.inputs@,
            outputs: self.outputs@,
        }
    }
}

impl ControlDescParserView {
    /// The state before any descriptor.
    pub open spec fn empty() -> Self {
        ControlDescParserView {
            header: None,
            units: Seq::empty(),
            inputs: Seq::empty(),
            outputs: Seq::empty(),
        }
    }

    /// The state with the header `h`.
    pub open spec fn with_header(self, h: ControlHeaderView) -> Self {
        ControlDescParserView { header: Some(h), ..self }
    }

    /// The state with the input terminal `t` appended.
    pub open spec fn with_input(self, t: InputTerminalDesc) -> Self {
        ControlDescParserView { inputs: self.inputs.push(t), ..self }
    }

    /// The state with the output terminal `t` appended.
    pub open spec fn with_output(self, t: OutputTerminalDesc) -> Self {
        ControlDescParserView { outputs: self.outputs.push(t), ..self }
    }

    /// The state with the unit `u` appended.
    pub open spec fn with_unit(self, u: UnitView) -> Self {
        ControlDescParserView { units: self.units.push(u), ..self }
    }

    /// The topology of the gathered entities under the header `h`.
    pub open spec fn topology(self, h: ControlHeaderView) -> TopologyView {
        TopologyView { header: h, units: self.units, inputs: self.inputs, outputs: self.outputs }
    }

    /// What the parser keeps true of the entities it gathers, one by one: no identifier is
    /// 0, and an input terminal is a camera exactly if its type says so.
    pub open spec fn entities_ok(self) -> bool {
        &&& forall|i: int|
            0 <= i < self.inputs.len() ==> (#[trigger] self.inputs[i]).ids_nonzero()
                && self.inputs[i].kind_matches_type()
        &&& forall|i: int|
            0 <= i < self.outputs.len() ==> (#[trigger] self.outputs[i]).ids_nonzero()
        &&& forall|i: int| 0 <= i < self.units.len() ==> (#[trigger] self.units[i]).ids_nonzero()
    }
}

/// The parser state after the Video Control descriptor with the payload `p`, read as it
/// stands. A second header is refused before any of its fields is read; a descriptor that
/// fails leaves nothing behind.
pub open spec fn spec_control_step(st: ControlDescParserView, p: Seq<u8>) -> Result<
    ControlDescParserView,
    ErrorKind,
> {
    if p.len() < 1 {
        end()
    } else if p[0] == CONTROL_DESC_SUBTYPE_HEADER {
        if st.header is Some {
            bad(ParseError::DuplicateHeader)
        } else {
            match spec_header(p) {
                Ok(h) => Ok(st.with_header(h)),
                Err(e) => Err(e),
            }
        }
    } else if p[0] == CONTROL_DESC_SUBTYPE_INPUT_TERM {
        match spec_input_terminal(p) {
            Ok(t) => Ok(st.with_input(t)),
            Err(e) => Err(e),
        }
    } else if p[0] == CONTROL_DESC_SUBTYPE_OUTPUT_TERMINAL {
        match spec_output_terminal(p) {
            Ok(t) => Ok(st.with_output(t)),
            Err(e) => Err(e),
        }
    } else if p[0] == CONTROL_DESC_SUBTYPE_SELECTOR_UNIT {
        match spec_selector_unit(p) {
            Ok(u) => Ok(st.with_unit(UnitView::Selector(u))),
            Err(e) => Err(e),
        }
    } else if p[0] == CONTROL_DESC_SUBTYPE_PROCESSING_UNIT {
        match spec_processing_unit(p) {
            Ok(u) => Ok(st.with_unit(UnitView::Processing(u))),
            Err(e) => Err(e),
        }
    } else if p[0] == CONTROL_DESC_SUBTYPE_EXTENSION_UNIT {
        match spec_extension_unit(p) {
            Ok(u) => Ok(st.with_unit(UnitView::Extension(u))),
            Err(e) => Err(e),
        }
    } else if p[0] == CONTROL_DESC_SUBTYPE_ENCODING_UNIT {
        bad(ParseError::UnimplementedSubtype(p[0]))
    } else {
        bad(ParseError::UnknownSubtype(p[0]))
    }
}

/// The parser state after the Video Control descriptor with the payload `p`. A descriptor
/// that ends too early is read once more with zero bytes appended, and what that gives is
/// final.
pub open spec fn spec_control_descriptor(st: ControlDescParserView, p: Seq<u8>) -> Result<
    ControlDescParserView,
    ErrorKind,
> {
    match spec_control_step(st, p) {
        Ok(next) => Ok(next),
        Err(e) => if e.spec_is_unexpected_end() {
            spec_control_step(st, spec_zero_extended(p, SHORT_DESCRIPTOR_PADDING as nat))
        } else {
            Err(e)
        },
    }
}

/// The parser state after the descriptors `descs`, each with its two-byte prefix, of which
/// those of another type than the video interface's are passed over. The first descriptor
/// that fails ends the parse.
pub open spec fn spec_control_fold(descs: Seq<Seq<u8>>, st: ControlDescParserView) -> Result<
    ControlDescParserView,
    ErrorKind,
>
    decreases descs.len(),
{
    if descs.len() == 0 {
        Ok(st)
    } else if descs[0][1] == VIDEO_INTERFACE_DESC_TYPE {
        match spec_control_descriptor(st, descs[0].skip(2)) {
            Ok(next) => spec_control_fold(descs.skip(1), next),
            Err(e) => Err(e),
        }
    } else {
        spec_control_fold(descs.skip(1), st)
    }
}

/// An error of the kind `kind` that arose while descriptors were read.
pub open spec fn descriptor_error(kind: ErrorKind) -> Error {
    Error { action: Some(Action::AccessingDeviceDescriptor), kind }
}

/// What is wrong with the topology `t` as a whole, if anything: first that two entities
/// share an identifier, then that a unit names a source that is not there.
pub open spec fn spec_validate(t: TopologyView) -> Option<ParseError> {
    if !t.ids_unique() {
        Some(ParseError::DuplicateEntityId)
    } else if !t.sources_resolve() {
        Some(ParseError::UnresolvedSourceId)
    } else {
        None
    }
}

/// The topology that the class-specific descriptors `extra` of a Video Control interface
/// declare, or why they declare none.
pub open spec fn spec_parse_control_desc(extra: Seq<u8>) -> Result<TopologyView, Error> {
    match spec_control_fold(spec_split(extra), ControlDescParserView::empty()) {
        Err(kind) => Err(descriptor_error(kind)),
        Ok(st) => match st.header {
            None => Err(descriptor_error(ErrorKind::Parse(ParseError::MissingHeader))),
            Some(h) => match spec_validate(st.topology(h)) {
                Some(e) => Err(descriptor_error(ErrorKind::Parse(e))),
                None => Ok(st.topology(h)),
            },
        },
    }
}

/// The source identifiers that a successful read gives are those of the bytes, none 0.
proof fn lemma_source_ids_nonzero(p: Seq<u8>, at: int, n: int)
    requires
        0 <= at,
        0 <= n,
        spec_source_ids(p, at, n) is Ok,
    ensures
        at + n <= p.len(),
        spec_source_ids(p, at, n)->Ok_0.len() == n,
        forall|k: int|
            0 <= k < n ==> (#[trigger] spec_source_ids(p, at, n)->Ok_0[k]).raw() != 0,
{
    assert forall|k: int| 0 <= k < n implies (#[trigger] spec_source_ids(p, at, n)->Ok_0[k]).raw()
        != 0 by {
        assert(p[at + k] != 0);
    }
}

/// A descriptor that parses adds an entity without a 0 identifier, and an input terminal
/// that is a camera exactly if its type says so.
pub proof fn lemma_control_step_entities_ok(st: ControlDescParserView, p: Seq<u8>)
    requires
        st.entities_ok(),
        spec_control_step(st, p) is Ok,
    ensures
        spec_control_step(st, p)->Ok_0.entities_ok(),
{
    let next = spec_control_step(st, p)->Ok_0;
    if p[0] == CONTROL_DESC_SUBTYPE_SELECTOR_UNIT {
        lemma_source_ids_nonzero(p, 3, p[2] as int);
    } else if p[0] == CONTROL_DESC_SUBTYPE_EXTENSION_UNIT {
        lemma_source_ids_nonzero(p, 20, p[19] as int);
    }
    assert forall|i: int| 0 <= i < next.units.len() implies (#[trigger] next.units[i]).ids_nonzero() by {
        if i < st.units.len() {
            assert(next.units[i] == st.units[i]);
        }
    }
    assert forall|i: int| 0 <= i < next.inputs.len() implies (#[trigger] next.inputs[i]).ids_nonzero()
        && next.inputs[i].kind_matches_type() by {
        if i < st.inputs.len() {
            assert(next.inputs[i] == st.inputs[i]);
        }
    }
    assert forall|i: int| 0 <= i < next.outputs.len() implies (
    #[trigger] next.outputs[i]).ids_nonzero() by {
        if i < st.outputs.len() {
            assert(next.outputs[i] == st.outputs[i]);
        }
    }
}

/// As `lemma_control_step_entities_ok`, with the second reading of a short descriptor.
pub proof fn lemma_control_descriptor_entities_ok(st: ControlDescParserView, p: Seq<u8>)
    requires
        st.entities_ok(),
        spec_control_descriptor(st, p) is Ok,
    ensures
        spec_control_descriptor(st, p)->Ok_0.entities_ok(),
{
    if spec_control_step(st, p) is Ok {
        lemma_control_step_entities_ok(st, p);
    } else {
        lemma_control_step_entities_ok(st, spec_zero_extended(p, SHORT_DESCRIPTOR_PADDING as nat));
    }
}

/// As `lemma_control_descriptor_entities_ok`, over a whole list of descriptors.
pub proof fn lemma_control_fold_entities_ok(descs: Seq<Seq<u8>>, st: ControlDescParserView)
    requires
        st.entities_ok(),
        spec_control_fold(descs, st) is Ok,
    ensures
        spec_control_fold(descs, st)->Ok_0.entities_ok(),
    decreases descs.len(),
{
    if descs.len() == 0 {
    } else if descs[0][1] == VIDEO_INTERFACE_DESC_TYPE {
        let next = spec_control_descriptor(st, descs[0].skip(2));
        lemma_control_descriptor_entities_ok(st, descs[0].skip(2));
        lemma_control_fold_entities_ok(descs.skip(1), next->Ok_0);
    } else {
        lemma_control_fold_entities_ok(descs.skip(1), st);
    }
}

/// Every topology that parses is well-formed: no identifier in it is 0, no two entities
/// share an identifier, every source that a unit names is an entity of the topology, and
/// an input terminal is a camera exactly if its type says so.
pub proof fn parsed_topology_is_well_formed(extra: Seq<u8>)
    requires
        spec_parse_control_desc(extra) is Ok,
    ensures
        spec_parse_control_desc(extra)->Ok_0.wf(),
{
    lemma_control_fold_entities_ok(spec_split(extra), ControlDescParserView::empty());
}

/// Every identifier that the parser produces is other than 0.
pub proof fn parsed_identifiers_are_nonzero(extra: Seq<u8>)
    requires
        spec_parse_control_desc(extra) is Ok,
    ensures
        spec_parse_control_desc(extra)->Ok_0.ids_nonzero(),
{
    parsed_topology_is_well_formed(extra);
}

/// Every source that a unit of a parsed topology names is a terminal or a unit of that
/// topology.
pub proof fn parsed_sources_resolve(extra: Seq<u8>)
    requires
        spec_parse_control_desc(extra) is Ok,
    ensures
        spec_parse_control_desc(extra)->Ok_0.sources_resolve(),
{
    parsed_topology_is_well_formed(extra);
}

/// Whether `r` is what parsing the Video Control descriptors `extra` returns.
pub open spec fn is_control_parse(r: Result<Topology, Error>, extra: Seq<u8>) -> bool {
    match spec_parse_control_desc(extra) {
        Ok(t) => r is Ok && r->Ok_0@ == t,
        Err(e) => r is Err && r->Err_0 == e,
    }
}

/// Parsing is deterministic: what two parses of the same descriptors return is the same
/// error, or two topologies with the same view.
pub proof fn parse_control_is_deterministic(
    extra: Seq<u8>,
    first: Result<Topology, Error>,
    second: Result<Topology, Error>,
)
    requires
        is_control_parse(first, extra),
        is_control_parse(second, extra),
    ensures
        first is Ok <==> second is Ok,
        first is Ok ==> first->Ok_0@ == second->Ok_0@,
        first is Err ==> first->Err_0 == second->Err_0,
{
}

impl ControlDescParser {
    /// A parser that has seen no descriptor.
    pub fn new() -> (r: Self)
        ensures
            r@ == ControlDescParserView::empty(),
    {
        let r = ControlDescParser {
            header: None,
            units: Vec::new(),
            inputs: Vec::new(),
            outputs: Vec::new(),
        };
        assert(r@.units =~= Seq::empty());
        r
    }

    /// Appends a unit of the kind `kind`.
    fn push_unit(&mut self, kind: UnitKind)
        ensures
            final(self)@ == old(self)@.with_unit(kind@),
    {
        self.units.push(UnitDesc { kind });
        assert(final(self)@.units =~= old(self)@.units.push(kind@));
    }

    /// Parses the descriptor with the payload `raw` as it stands, and adds what it declares.
    pub fn parse_descriptor_impl(&mut self, raw: &[u8]) -> (r: Result<(), ErrorKind>)
        ensures
            match spec_control_step(old(self)@, raw@) {
                Ok(next) => r is Ok && final(self)@ == next,
                Err(e) => r is Err && r->Err_0 == e && final(self)@ == old(self)@,
            },
    {
        if raw.len() < 1 {
            return Err(ErrorKind::Io(IoError::UnexpectedEnd));
        }
        let subtype = raw[0];
        if subtype == CONTROL_DESC_SUBTYPE_HEADER {
            if self.header.is_some() {
                return Err(ErrorKind::Parse(ParseError::DuplicateHeader));
            }
            let header = parse_header(raw)?;
            self.header = Some(header);
            Ok(())
        } else if subtype == CONTROL_DESC_SUBTYPE_INPUT_TERM {
            let term = parse_input_terminal(raw)?;
            self.inputs.push(term);
            Ok(())
        } else if subtype == CONTROL_DESC_SUBTYPE_OUTPUT_TERMINAL {
            let term = parse_output_terminal(raw)?;
            self.outputs.push(term);
            Ok(())
        } else if subtype == CONTROL_DESC_SUBTYPE_SELECTOR_UNIT {
            let unit = parse_selector_unit(raw)?;
            self.push_unit(UnitKind::Selector(unit));
            Ok(())
        } else if subtype == CONTROL_DESC_SUBTYPE_PROCESSING_UNIT {
            let unit = parse_processing_unit(raw)?;
            self.push_unit(UnitKind::Processing(unit));
            Ok(())
        } else if subtype == CONTROL_DESC_SUBTYPE_EXTENSION_UNIT {
            let unit = parse_extension_unit(raw)?;
            self.push_unit(UnitKind::Extension(unit));
            Ok(())
        } else if subtype == CONTROL_DESC_SUBTYPE_ENCODING_UNIT {
            Err(ErrorKind::Parse(ParseError::UnimplementedSubtype(subtype)))
        } else {
            Err(ErrorKind::Parse(ParseError::UnknownSubtype(subtype)))
        }
    }

    /// Parses the descriptor with the payload `raw` and adds what it declares. A descriptor
    /// that ends too early is parsed once more with zero bytes appended.
    pub fn parse_descriptor(&mut self, raw: &[u8]) -> (r: Result<(), ErrorKind>)
        requires
            raw@.len() + SHORT_DESCRIPTOR_PADDING <= usize::MAX,
        ensures
            match spec_control_descriptor(old(self)@, raw@) {
                Ok(next) => r is Ok && final(self)@ == next,
                Err(e) => r is Err && r->Err_0 == e && final(self)@ == old(self)@,
            },
    {
        match self.parse_descriptor_impl(raw) {
            Ok(()) => Ok(()),
            Err(e) => {
                if e.is_unexpected_end() {
                    let buf = zero_extended(raw, SHORT_DESCRIPTOR_PADDING);
                    self.parse_descriptor_impl(buf.as_slice())
                } else {
                    Err(e)
                }
            },
        }
    }
}

/// Unfolds `spec_control_fold` at the descriptor `i` of `descs`.
proof fn lemma_control_fold_step(descs: Seq<Seq<u8>>, i: int, st: ControlDescParserView)
    requires
        0 <= i < descs.len(),
    ensures
        spec_control_fold(descs.skip(i), st) == (if descs[i][1] == VIDEO_INTERFACE_DESC_TYPE {
            match spec_control_descriptor(st, descs[i].skip(2)) {
                Ok(next) => spec_control_fold(descs.skip(i + 1), next),
                Err(e) => Err(e),
            }
        } else {
            spec_control_fold(descs.skip(i + 1), st)
        }),
{
    assert(descs.skip(i)[0] == descs[i]);
    assert(descs.skip(i).skip(1) =~= descs.skip(i + 1));
}

/// The identifiers of the entities of `topo`, in the order of `entity_ids`.
fn collect_entity_ids(topo: &Topology) -> (ids: Vec<u8>)
    ensures
        ids@ == topo@.entity_ids(),
{
    let mut ids: Vec<u8> = Vec::new();
    let mut i: usize = 0;
    while i < topo.inputs.len()
        invariant
            i <= topo.inputs.len(),
            ids@.len() == i,
            forall|j: int| 0 <= j < i ==> #[trigger] ids@[j] == topo.inputs@[j].term_id.raw(),
        decreases topo.inputs.len() - i,
    {
        ids.push(topo.inputs[i].term_id.as_raw());
        i = i + 1;
    }
    let n_inputs = ids.len();
    let mut i: usize = 0;
    while i < topo.outputs.len()
        invariant
            i <= topo.outputs.len(),
            n_inputs == topo.inputs.len(),
            ids@.len() == n_inputs + i,
            forall|j: int| 0 <= j < n_inputs ==> #[trigger] ids@[j] == topo.inputs@[j].term_id.raw(),
            forall|j: int|
                0 <= j < i ==> #[trigger] ids@[n_inputs + j] == topo.outputs@[j].term_id.raw(),
        decreases topo.outputs.len() - i,
    {
        ids.push(topo.outputs[i].term_id.as_raw());
        i = i + 1;
    }
    let n_terminals = ids.len();
    let mut i: usize = 0;
    while i < topo.units.len()
        invariant
            i <= topo.units.len(),
            n_inputs == topo.inputs.len(),
            n_terminals == n_inputs + topo.outputs.len(),
            ids@.len() == n_terminals + i,
            forall|j: int| 0 <= j < n_inputs ==> #[trigger] ids@[j] == topo.inputs@[j].term_id.raw(),
            forall|j: int|
                0 <= j < topo.outputs.len() ==> #[trigger] ids@[n_inputs + j]
                    == topo.outputs@[j].term_id.raw(),
            forall|j: int| 0 <= j < i ==> #[trigger] ids@[n_terminals + j] == topo.units@[j]@.raw_id(),
        decreases topo.units.len() - i,
    {
        ids.push(topo.units[i].raw_id());
        i = i + 1;
    }
    proof {
        let want = topo@.entity_ids();
        assert(ids@.len() == want.len());
        assert forall|j: int| 0 <= j < ids@.len() implies ids@[j] == want[j] by {
            if j < n_inputs {
            } else if j < n_terminals {
                assert(ids@[n_inputs + (j - n_inputs)] == topo.outputs@[j - n_inputs].term_id.raw());
            } else {
                assert(ids@[n_terminals + (j - n_terminals)] == topo.units@[j - n_terminals]@.raw_id());
            }
        }
        assert(ids@ =~= want);
    }
    ids
}

/// Whether `table` says of each byte whether it is among `ids`.
pub open spec fn is_membership_table(table: Seq<bool>, ids: Seq<u8>) -> bool {
    table.len() == 256 && forall|b: u8| #[trigger] table[b as int] <==> ids.contains(b)
}

/// A table that says of each byte whether it is among `ids`, unless one of `ids` occurs
/// twice.
fn membership_table(ids: &Vec<u8>) -> (r: Option<Vec<bool>>)
    ensures
        r is Some <==> super::all_distinct(ids@),
        r matches Some(table) ==> is_membership_table(table@, ids@),
{
    let mut table: Vec<bool> = vec![false; 256];
    let mut i: usize = 0;
    while i < ids.len()
        invariant
            i <= ids.len(),
            table@.len() == 256,
            forall|b: u8| #[trigger] table@[b as int] <==> ids@.take(i as int).contains(b),
            super::all_distinct(ids@.take(i as int)),
        decreases ids.len() - i,
    {
        let id = ids[i];
        if table[id as usize] {
            proof {
                let k = choose|k: int| 0 <= k < i && ids@.take(i as int)[k] == id;
                assert(ids@[k] == ids@[i as int]);
            }
            return None;
        }
        table.set(id as usize, true);
        proof {
            let before = ids@.take(i as int);
            let after = ids@.take(i + 1);
            assert(after =~= before.push(id));
            assert forall|b: u8| #[trigger] table@[b as int] <==> after.contains(b) by {
                if b == id {
                    assert(after[i as int] == id);
                } else {
                    if before.contains(b) {
                        let k = choose|k: int| 0 <= k < before.len() && before[k] == b;
                        assert(after[k] == b);
                    }
                    if after.contains(b) {
                        let k = choose|k: int| 0 <= k < after.len() && after[k] == b;
                        assert(before[k] == b);
                    }
                }
            }
            assert forall|a: int, b: int| 0 <= a < b < after.len() implies after[a] != after[b] by {
                if b == i {
                    if after[a] == id {
                        assert(before[a] == id);
                        assert(before.contains(id));
                    }
                } else {
                    assert(before[a] != before[b]);
                }
            }
        }
        i = i + 1;
    }
    assert(ids@.take(i as int) =~= ids@);
    Some(table)
}

/// Whether each of `sources` is marked in `table`.
fn sources_in_table(sources: &Vec<SourceId>, table: &Vec<bool>) -> (r: bool)
    requires
        table@.len() == 256,
    ensures
        r == forall|k: int| 0 <= k < sources@.len() ==> table@[(#[trigger] sources@[k]).raw() as int],
{
    let mut k: usize = 0;
    while k < sources.len()
        invariant
            k <= sources.len(),
            table@.len() == 256,
            forall|j: int| 0 <= j < k ==> table@[(#[trigger] sources@[j]).raw() as int],
        decreases sources.len() - k,
    {
        if !table[sources[k].as_raw() as usize] {
            return false;
        }
        k = k + 1;
    }
    true
}

/// Whether every source of `unit` is among the identifiers that `table` marks.
fn unit_resolves(unit: &UnitDesc, table: &Vec<bool>, Ghost(ids): Ghost<Seq<u8>>) -> (r: bool)
    requires
        is_membership_table(table@, ids),
    ensures
        r == unit@.resolves_in(ids),
{
    let ghost sources = unit@.sources();
    let r = match &unit.kind {
        UnitKind::Selector(u) => sources_in_table(&u.inputs, table),
        UnitKind::Processing(u) => {
            assert(sources[0] == u.source);
            table[u.source.as_raw() as usize]
        },
        UnitKind::Extension(u) => sources_in_table(&u.inputs, table),
    };
    proof {
        assert(r == forall|k: int|
            0 <= k < sources.len() ==> table@[(#[trigger] sources[k]).raw() as int]);
        if r {
            assert forall|k: int| 0 <= k < sources.len() implies ids.contains(
                (#[trigger] sources[k]).raw(),
            ) by {
                assert(table@[sources[k].raw() as int]);
            }
        } else {
            let k = choose|k: int|
                0 <= k < sources.len() && !table@[(#[trigger] sources[k]).raw() as int];
            assert(!ids.contains(sources[k].raw()));
        }
    }
    r
}

/// Checks what holds of a topology as a whole: that no two entities share an identifier,
/// and that every source of a unit is an entity.
fn validate(topo: &Topology) -> (r: Option<ParseError>)
    ensures
        r == spec_validate(topo@),
{
    let ids = collect_entity_ids(topo);
    let table = match membership_table(&ids) {
        Some(table) => table,
        None => {
            return Some(ParseError::DuplicateEntityId);
        },
    };
    assert(topo@.ids_unique());
    let mut i: usize = 0;
    while i < topo.units.len()
        invariant
            i <= topo.units.len(),
            ids@ == topo@.entity_ids(),
            topo@.ids_unique(),
            is_membership_table(table@, ids@),
            forall|j: int| 0 <= j < i ==> (#[trigger] topo@.units[j]).resolves_in(ids@),
        decreases topo.units.len() - i,
    {
        assert(topo@.units[i as int] == topo.units@[i as int]@);
        if !unit_resolves(&topo.units[i], &table, Ghost(ids@)) {
            assert(!topo@.units[i as int].resolves_in(topo@.entity_ids()));
            return Some(ParseError::UnresolvedSourceId);
        }
        i = i + 1;
    }
    None
}

/// Parses the class-specific descriptors `extra` of a Video Control interface into the
/// topology that they declare.
///
/// Descriptors of another type than the video interface's are passed over. The topology
/// that comes back has exactly one header, no identifier that is 0, no identifier twice,
/// and no unit whose source is missing.
pub fn parse_control_desc(extra: &[u8]) -> (r: Result<Topology, Error>)
    ensures
        is_control_parse(r, extra@),
        r is Ok ==> r->Ok_0@.wf(),
{
    let mut parser = ControlDescParser::new();
    let descs = split_descriptors(extra);
    let ghost all = spec_split(extra@);
    proof {
        lemma_split_lengths(extra@);
        assert(all.skip(0) =~= all);
    }
    let mut i: usize = 0;
    while i < descs.len()
        invariant
            i <= descs.len(),
            all == spec_split(extra@),
            descs@.len() == all.len(),
            forall|k: int| 0 <= k < descs@.len() ==> is_descriptor(#[trigger] descs@[k], all[k]),
            forall|k: int| 0 <= k < all.len() ==> 2 <= (#[trigger] all[k]).len() <= 255,
            spec_control_fold(all, ControlDescParserView::empty()) == spec_control_fold(
                all.skip(i as int),
                parser@,
            ),
            parser@.entities_ok(),
        decreases descs.len() - i,
    {
        let ty = descs[i].0;
        let data = descs[i].1;
        proof {
            assert(is_descriptor(descs@[i as int], all[i as int]));
            lemma_control_fold_step(all, i as int, parser@);
        }
        if ty == VIDEO_INTERFACE_DESC_TYPE {
            let payload = slice_subrange(data, 2, data.len());
            assert(payload@ =~= all[i as int].skip(2));
            proof {
                if spec_control_descriptor(parser@, payload@) is Ok {
                    lemma_control_descriptor_entities_ok(parser@, payload@);
                }
            }
            match parser.parse_descriptor(payload) {
                Ok(()) => {},
                Err(kind) => {
                    return Err(Error::with_action(kind, Action::AccessingDeviceDescriptor));
                },
            }
        }
        i = i + 1;
    }
    assert(all.skip(i as int) =~= Seq::<Seq<u8>>::empty());
    let ControlDescParser { header, units, inputs, outputs } = parser;
    let header = match header {
        Some(header) => header,
        None => {
            return Err(
                Error::with_action(
                    ErrorKind::Parse(ParseError::MissingHeader),
                    Action::AccessingDeviceDescriptor,
                ),
            );
        },
    };
    let topo = Topology { header, units, inputs, outputs };
    match validate(&topo) {
        Some(e) => Err(Error::with_action(ErrorKind::Parse(e), Action::AccessingDeviceDescriptor)),
        None => Ok(topo),
    }
}


pub const STREAM_DESC_SUBTYPE_INPUT_HEADER: u8 = 0x01;

pub const STREAM_DESC_SUBTYPE_OUTPUT_HEADER: u8 = 0x02;

pub const STREAM_DESC_SUBTYPE_STILL_IMAGE_FRAME: u8 = 0x03;

pub const STREAM_DESC_SUBTYPE_FORMAT_UNCOMPRESSED: u8 = 0x04;

pub const STREAM_DESC_SUBTYPE_FRAME_UNCOMPRESSED: u8 = 0x05;

pub const STREAM_DESC_SUBTYPE_FORMAT_MJPEG: u8 = 0x06;

pub const STREAM_DESC_SUBTYPE_FRAME_MJPEG: u8 = 0x07;

pub const STREAM_DESC_SUBTYPE_FORMAT_MPEG2TS: u8 = 0x0A;

pub const STREAM_DESC_SUBTYPE_FORMAT_DV: u8 = 0x0C;

pub const STREAM_DESC_SUBTYPE_COLORFORMAT: u8 = 0x0D;

pub const STREAM_DESC_SUBTYPE_FORMAT_FRAME_BASED: u8 = 0x10;

pub const STREAM_DESC_SUBTYPE_FRAME_FRAME_BASED: u8 = 0x11;

pub const STREAM_DESC_SUBTYPE_FORMAT_STREAM_BASED: u8 = 0x12;

pub const STREAM_DESC_SUBTYPE_FORMAT_H264: u8 = 0x13;

pub const STREAM_DESC_SUBTYPE_FRAME_H264: u8 = 0x14;

pub const STREAM_DESC_SUBTYPE_FORMAT_H264_SIMULCAST: u8 = 0x15;

pub const STREAM_DESC_SUBTYPE_FORMAT_VP8: u8 = 0x16;

pub const STREAM_DESC_SUBTYPE_FRAME_VP8: u8 = 0x17;

pub const STREAM_DESC_SUBTYPE_FORMAT_VP8_SIMULCAST: u8 = 0x18;

/// Whether `subtype` is a Video Streaming descriptor subtype that UVC defines and this
/// library does not read.
pub open spec fn spec_is_unimplemented_stream_subtype(subtype: u8) -> bool {
    ||| subtype == STREAM_DESC_SUBTYPE_STILL_IMAGE_FRAME
    ||| subtype == STREAM_DESC_SUBTYPE_FORMAT_MJPEG
    ||| subtype == STREAM_DESC_SUBTYPE_FRAME_MJPEG
    ||| subtype == STREAM_DESC_SUBTYPE_FORMAT_MPEG2TS
    ||| subtype == STREAM_DESC_SUBTYPE_FORMAT_DV
    ||| subtype == STREAM_DESC_SUBTYPE_COLORFORMAT
    ||| subtype == STREAM_DESC_SUBTYPE_FORMAT_FRAME_BASED
    ||| subtype == STREAM_DESC_SUBTYPE_FRAME_FRAME_BASED
    ||| subtype == STREAM_DESC_SUBTYPE_FORMAT_STREAM_BASED
    ||| subtype == STREAM_DESC_SUBTYPE_FORMAT_H264
    ||| subtype == STREAM_DESC_SUBTYPE_FRAME_H264
    ||| subtype == STREAM_DESC_SUBTYPE_FORMAT_H264_SIMULCAST
    ||| subtype == STREAM_DESC_SUBTYPE_FORMAT_VP8
    ||| subtype == STREAM_DESC_SUBTYPE_FRAME_VP8
    ||| subtype == STREAM_DESC_SUBTYPE_FORMAT_VP8_SIMULCAST
}

/// Whether `subtype` is a Video Streaming descriptor subtype that UVC defines and this
/// library does not read.
#[verifier::when_used_as_spec(spec_is_unimplemented_stream_subtype)]
pub fn is_unimplemented_stream_subtype(subtype: u8) -> (r: bool)
    ensures
        r == spec_is_unimplemented_stream_subtype(subtype),
{
    subtype == STREAM_DESC_SUBTYPE_STILL_IMAGE_FRAME || subtype == STREAM_DESC_SUBTYPE_FORMAT_MJPEG
        || subtype == STREAM_DESC_SUBTYPE_FRAME_MJPEG || subtype
        == STREAM_DESC_SUBTYPE_FORMAT_MPEG2TS || subtype == STREAM_DESC_SUBTYPE_FORMAT_DV || subtype
        == STREAM_DESC_SUBTYPE_COLORFORMAT || subtype == STREAM_DESC_SUBTYPE_FORMAT_FRAME_BASED
        || subtype == STREAM_DESC_SUBTYPE_FRAME_FRAME_BASED || subtype
        == STREAM_DESC_SUBTYPE_FORMAT_STREAM_BASED || subtype == STREAM_DESC_SUBTYPE_FORMAT_H264
        || subtype == STREAM_DESC_SUBTYPE_FRAME_H264 || subtype
        == STREAM_DESC_SUBTYPE_FORMAT_H264_SIMULCAST || subtype == STREAM_DESC_SUBTYPE_FORMAT_VP8
        || subtype == STREAM_DESC_SUBTYPE_FRAME_VP8 || subtype
        == STREAM_DESC_SUBTYPE_FORMAT_VP8_SIMULCAST
}

/// What a VS_INPUT_HEADER descriptor with the payload `p` declares. After its fixed fields
/// it holds one bitmask of `bControlSize` bytes for each of its `bNumFormats` formats.
pub open spec fn spec_input_header(p: Seq<u8>) -> Result<InputHeaderView, ErrorKind> {
    if p.len() < 7 {
        end()
    } else if p[6] == 0 {
        bad(ParseError::ZeroTerminalId)
    } else if p.len() < 11 || p.len() < 11 + p[1] * p[10] {
        end()
    } else {
        Ok(
            InputHeaderView {
                num_formats: p[1],
                total_length: le16_at(p, 2),
                endpoint_address: p[4],
                info: InputInterfaceInfo::spec_from_bits_truncate(p[5]),
                terminal_link: TermId::from_raw(p[6]),
                still_capture_method: StillCaptureMethod::spec_from_raw_lenient(p[7]),
                trigger_support: TriggerSupport::spec_from_raw_lenient(p[8]),
                trigger_usage: TriggerUsage::spec_from_raw_lenient(p[9]),
                format_controls: Seq::new(
                    p[1] as nat,
                    |i: int|
                        PerFormatControls::spec_from_bits_truncate(
                            bitmask_at(p, 11 + i * p[10], p[10] as int),
                        ),
                ),
            },
        )
    }
}

/// What a VS_FORMAT_UNCOMPRESSED descriptor with the payload `p` declares.
pub open spec fn spec_format_uncompressed(p: Seq<u8>) -> Result<FormatView, ErrorKind> {
    if p.len() < 25 {
        end()
    } else {
        Ok(
            FormatView {
                format_index: FormatIndex(p[1]),
                num_frame_descriptors: p[2],
                kind: FormatKindView::Uncompressed(
                    FormatUncompressedView {
                        format: guid_at(p, 3),
                        bits_per_pixel: p[19],
                        default_frame_index: FrameIndex(p[20]),
                        aspect_ratio_x: p[21],
                        aspect_ratio_y: p[22],
                        interlace_flags: InterlaceFlags::spec_from_bits_truncate(p[23]),
                        copy_protect: p[24],
                    },
                ),
            },
        )
    }
}

/// The frame intervals that the end of a VS_FRAME_UNCOMPRESSED descriptor declares: its
/// byte 23 is 0 before a minimum, a maximum and a step, and otherwise the number of
/// intervals that follow. All are counts of 100 ns.
pub open spec fn spec_frame_intervals(p: Seq<u8>) -> Result<SupportedFrameIntervalsView, ErrorKind> {
    if p[23] == 0 {
        if p.len() < 36 {
            end()
        } else {
            Ok(
                SupportedFrameIntervalsView::Continuous {
                    min_frame_interval: nanos_of_100ns(le32_at(p, 24)),
                    max_frame_interval: nanos_of_100ns(le32_at(p, 28)),
                    frame_interval_step: nanos_of_100ns(le32_at(p, 32)),
                },
            )
        }
    } else if p.len() < 24 + 4 * p[23] {
        end()
    } else {
        Ok(
            SupportedFrameIntervalsView::Discrete {
                supported_frame_intervals: Seq::new(
                    p[23] as nat,
                    |i: int| nanos_of_100ns(le32_at(p, 24 + 4 * i)),
                ),
            },
        )
    }
}

/// What a VS_FRAME_UNCOMPRESSED descriptor with the payload `p` declares.
pub open spec fn spec_frame_uncompressed(p: Seq<u8>) -> Result<FrameView, ErrorKind> {
    if p.len() < 24 {
        end()
    } else {
        match spec_frame_intervals(p) {
            Ok(frame_interval) => Ok(
                FrameView {
                    frame_index: FrameIndex(p[1]),
                    kind: FrameKindView::Uncompressed(
                        FrameUncompressedView {
                            capabilities: UncompressedFrameCapabilities::spec_from_bits_truncate(
                                p[2],
                            ),
                            width: le16_at(p, 3),
                            height: le16_at(p, 5),
                            min_bit_rate: le32_at(p, 7),
                            max_bit_rate: le32_at(p, 11),
                            max_video_frame_buffer_size: le32_at(p, 15),
                            default_frame_interval: nanos_of_100ns(le32_at(p, 19)),
                            frame_interval,
                        },
                    ),
                },
            ),
            Err(e) => Err(e),
        }
    }
}

/// The still capture method that the byte `raw` stands for.
fn still_capture_method(raw: u8) -> (r: StillCaptureMethod)
    ensures
        r == StillCaptureMethod::spec_from_raw_lenient(raw),
{
    match StillCaptureMethod::from_raw(raw) {
        Some(m) => m,
        None => StillCaptureMethod::Unsupported,
    }
}

/// The trigger support that the byte `raw` stands for.
fn trigger_support(raw: u8) -> (r: TriggerSupport)
    ensures
        r == TriggerSupport::spec_from_raw_lenient(raw),
{
    match TriggerSupport::from_raw(raw) {
        Some(m) => m,
        None => TriggerSupport::NotSupported,
    }
}

/// The trigger usage that the byte `raw` stands for.
fn trigger_usage(raw: u8) -> (r: TriggerUsage)
    ensures
        r == TriggerUsage::spec_from_raw_lenient(raw),
{
    match TriggerUsage::from_raw(raw) {
        Some(m) => m,
        None => TriggerUsage::InitiateStillImageCapture,
    }
}

/// Reads a VS_INPUT_HEADER descriptor from its payload.
fn parse_input_header(raw: &[u8]) -> (r: Result<InputHeader, ErrorKind>)
    requires
        raw@.len() >= 1,
    ensures
        match spec_input_header(raw@) {
            Ok(h) => r is Ok && r->Ok_0@ == h,
            Err(e) => r is Err && r->Err_0 == e,
        },
{
    let ghost p = raw@;
    let total = raw.len();
    let mut rd = Reader { data: raw, pos: 1 };
    let num_formats = rd.read_u8()?;
    let total_length = rd.read_u16()?;
    let endpoint_address = rd.read_u8()?;
    let info = InputInterfaceInfo::from_bits_truncate(rd.read_u8()?);
    let terminal_link = rd.read_nonzero_term_id()?;
    let still_capture_method = still_capture_method(rd.read_u8()?);
    let trigger_support = trigger_support(rd.read_u8()?);
    let trigger_usage = trigger_usage(rd.read_u8()?);
    let control_size = rd.read_u8()?;
    let mut format_controls: Vec<PerFormatControls> = Vec::new();
    let mut i: u8 = 0;
    while i < num_formats
        invariant
            rd.wf(),
            rd.data == raw,
            p == raw@,
            p.len() == total,
            p.len() >= 11,
            p[6] != 0,
            num_formats == p[1],
            control_size == p[10],
            i <= num_formats,
            rd.pos == 11 + i * control_size,
            format_controls@.len() == i,
            forall|j: int|
                0 <= j < i ==> #[trigger] format_controls@[j]
                    == PerFormatControls::spec_from_bits_truncate(
                    bitmask_at(p, 11 + j * control_size, control_size as int),
                ),
        decreases num_formats - i,
    {
        proof {
            assert((i + 1) * control_size == i * control_size + control_size) by (nonlinear_arith);
            assert(i < num_formats ==> (i + 1) * control_size <= num_formats * control_size)
                by (nonlinear_arith);
        }
        let bits = rd.read_bitmask(control_size)?;
        format_controls.push(PerFormatControls::from_bits_truncate(bits));
        i = i + 1;
    }
    proof {
        assert(p.len() >= 11 + num_formats * control_size);
        assert(format_controls@ =~= spec_input_header(p)->Ok_0.format_controls);
    }
    Ok(
        InputHeader {
            num_formats,
            total_length,
            endpoint_address,
            info,
            terminal_link,
            still_capture_method,
            trigger_support,
            trigger_usage,
            format_controls,
        },
    )
}

/// Reads a VS_FORMAT_UNCOMPRESSED descriptor from its payload.
fn parse_format_uncompressed(raw: &[u8]) -> (r: Result<Format, ErrorKind>)
    requires
        raw@.len() >= 1,
    ensures
        match spec_format_uncompressed(raw@) {
            Ok(f) => r is Ok && r->Ok_0@ == f,
            Err(e) => r is Err && r->Err_0 == e,
        },
{
    let mut rd = Reader { data: raw, pos: 1 };
    let format_index = FormatIndex(rd.read_u8()?);
    let num_frame_descriptors = rd.read_u8()?;
    let format = rd.read_guid()?;
    let bits_per_pixel = rd.read_u8()?;
    let default_frame_index = FrameIndex(rd.read_u8()?);
    let aspect_ratio_x = rd.read_u8()?;
    let aspect_ratio_y = rd.read_u8()?;
    let interlace_flags = InterlaceFlags::from_bits_truncate(rd.read_u8()?);
    let copy_protect = rd.read_u8()?;
    Ok(
        Format {
            format_index,
            num_frame_descriptors,
            kind: FormatKind::Uncompressed(
                FormatUncompressed {
                    format,
                    bits_per_pixel,
                    default_frame_index,
                    aspect_ratio_x,
                    aspect_ratio_y,
                    interlace_flags,
                    copy_protect,
                },
            ),
        },
    )
}

/// Reads the frame intervals at the end of a VS_FRAME_UNCOMPRESSED descriptor.
fn read_frame_intervals(rd: &mut Reader) -> (r: Result<SupportedFrameIntervals, ErrorKind>)
    requires
        old(rd).wf(),
        old(rd).pos == 23,
        old(rd).data@.len() >= 24,
    ensures
        match spec_frame_intervals(old(rd).data@) {
            Ok(v) => r is Ok && r->Ok_0@ == v,
            Err(e) => r is Err && r->Err_0 == e,
        },
{
    let ghost p = rd.data@;
    let total = rd.data.len();
    let n = rd.read_u8()?;
    if n == 0 {
        let min_frame_interval = rd.read_time_100ns()?;
        let max_frame_interval = rd.read_time_100ns()?;
        let frame_interval_step = rd.read_time_100ns()?;
        Ok(
            SupportedFrameIntervals::Continuous {
                min_frame_interval,
                max_frame_interval,
                frame_interval_step,
            },
        )
    } else {
        let mut supported_frame_intervals: Vec<Duration> = Vec::new();
        let mut i: u8 = 0;
        while i < n
            invariant
                rd.wf(),
                p == rd.data@,
                p.len() == total,
                p.len() >= 24,
                p == old(rd).data@,
                n == p[23],
                n != 0,
                i <= n,
                rd.pos == 24 + 4 * i,
                supported_frame_intervals@.len() == i,
                forall|j: int|
                    0 <= j < i ==> duration_nanos(#[trigger] supported_frame_intervals@[j])
                        == nanos_of_100ns(le32_at(p, 24 + 4 * j)),
            decreases n - i,
        {
            let interval = rd.read_time_100ns()?;
            supported_frame_intervals.push(interval);
            i = i + 1;
        }
        assert(super::nanos_of(supported_frame_intervals@) =~= Seq::new(
            n as nat,
            |i: int| nanos_of_100ns(le32_at(p, 24 + 4 * i)),
        ));
        Ok(SupportedFrameIntervals::Discrete { supported_frame_intervals })
    }
}

/// Reads a VS_FRAME_UNCOMPRESSED descriptor from its payload.
fn parse_frame_uncompressed(raw: &[u8]) -> (r: Result<Frame, ErrorKind>)
    requires
        raw@.len() >= 1,
    ensures
        match spec_frame_uncompressed(raw@) {
            Ok(f) => r is Ok && r->Ok_0@ == f,
            Err(e) => r is Err && r->Err_0 == e,
        },
{
    let mut rd = Reader { data: raw, pos: 1 };
    let frame_index = FrameIndex(rd.read_u8()?);
    let capabilities = UncompressedFrameCapabilities::from_bits_truncate(rd.read_u8()?);
    let width = rd.read_u16()?;
    let height = rd.read_u16()?;
    let min_bit_rate = rd.read_u32()?;
    let max_bit_rate = rd.read_u32()?;
    let max_video_frame_buffer_size = rd.read_u32()?;
    let default_frame_interval = rd.read_time_100ns()?;
    if raw.len() < 24 {
        return Err(ErrorKind::Io(IoError::UnexpectedEnd));
    }
    let frame_interval = read_frame_intervals(&mut rd)?;
    Ok(
        Frame {
            frame_index,
            kind: FrameKind::Uncompressed(
                FrameUncompressed {
                    capabilities,
                    width,
                    height,
                    min_bit_rate,
                    max_bit_rate,
                    max_video_frame_buffer_size,
                    default_frame_interval,
                    frame_interval,
                },
            ),
        },
    )
}

/// The header that an optional parsed input header stands for.
pub open spec fn input_header_view(header: Option<InputHeader>) -> Option<InputHeaderView> {
    match header {
        Some(h) => Some(h@),
        None => None,
    }
}

/// What has been gathered from the Video Streaming descriptors parsed so far.
pub struct StreamingDescParser {
    pub in_header: Option<InputHeader>,
    pub out_header: Option<OutputHeader>,
    pub formats: Vec<Format>,
    pub frames: Vec<Frame>,
}

/// A `StreamingDescParser` with its lists as sequences.
pub struct StreamingDescParserView {
    pub in_header: Option<InputHeaderView>,
    pub out_header: Option<OutputHeader>,
    pub formats: Seq<FormatView>,
    pub frames: Seq<FrameView>,
}

impl View for StreamingDescParser {
    type V = StreamingDescParserView;

    open spec fn view(&self) -> StreamingDescParserView {
        StreamingDescParserView {
            in_header: input_header_view(self.in_header),
            out_header: self.out_header,
            formats: super::format_views(self.formats@),
            frames: super::frame_views(self.frames@),
        }
    }
}

impl StreamingDescParserView {
    /// The state before any descriptor.
    pub open spec fn empty() -> Self {
        StreamingDescParserView {
            in_header: None,
            out_header: None,
            formats: Seq::empty(),
            frames: Seq::empty(),
        }
    }

    /// The state with the input header `h`.
    pub open spec fn with_input_header(self, h: InputHeaderView) -> Self {
        StreamingDescParserView { in_header: Some(h), ..self }
    }

    /// The state with an output header.
    pub open spec fn with_output_header(self) -> Self {
        StreamingDescParserView { out_header: Some(OutputHeader {  }), ..self }
    }

    /// The state with the format `f` appended.
    pub open spec fn with_format(self, f: FormatView) -> Self {
        StreamingDescParserView { formats: self.formats.push(f), ..self }
    }

    /// The state with the frame `f` appended.
    pub open spec fn with_frame(self, f: FrameView) -> Self {
        StreamingDescParserView { frames: self.frames.push(f), ..self }
    }

    /// The terminal that an input header links to is not terminal 0.
    pub open spec fn link_nonzero(self) -> bool {
        self.in_header matches Some(h) ==> h.terminal_link.raw() != 0
    }
}

/// The parser state after the Video Streaming descriptor with the payload `p`, read as it
/// stands. A second header of either direction is refused before any of its fields is
/// read; none of the fields of an output header is kept.
pub open spec fn spec_streaming_step(st: StreamingDescParserView, p: Seq<u8>) -> Result<
    StreamingDescParserView,
    ErrorKind,
> {
    if p.len() < 1 {
        end()
    } else if p[0] == STREAM_DESC_SUBTYPE_INPUT_HEADER {
        if st.in_header is Some {
            bad(ParseError::DuplicateInputHeader)
        } else {
            match spec_input_header(p) {
                Ok(h) => Ok(st.with_input_header(h)),
                Err(e) => Err(e),
            }
        }
    } else if p[0] == STREAM_DESC_SUBTYPE_OUTPUT_HEADER {
        if st.out_header is Some {
            bad(ParseError::DuplicateOutputHeader)
        } else {
            Ok(st.with_output_header())
        }
    } else if p[0] == STREAM_DESC_SUBTYPE_FORMAT_UNCOMPRESSED {
        match spec_format_uncompressed(p) {
            Ok(f) => Ok(st.with_format(f)),
            Err(e) => Err(e),
        }
    } else if p[0] == STREAM_DESC_SUBTYPE_FRAME_UNCOMPRESSED {
        match spec_frame_uncompressed(p) {
            Ok(f) => Ok(st.with_frame(f)),
            Err(e) => Err(e),
        }
    } else if is_unimplemented_stream_subtype(p[0]) {
        bad(ParseError::UnimplementedSubtype(p[0]))
    } else {
        bad(ParseError::UnknownSubtype(p[0]))
    }
}

/// The parser state after the Video Streaming descriptor with the payload `p`. A
/// descriptor that ends too early is read once more with zero bytes appended, and what
/// that gives is final.
pub open spec fn spec_streaming_descriptor(st: StreamingDescParserView, p: Seq<u8>) -> Result<
    StreamingDescParserView,
    ErrorKind,
> {
    match spec_streaming_step(st, p) {
        Ok(next) => Ok(next),
        Err(e) => if e.spec_is_unexpected_end() {
            spec_streaming_step(st, spec_zero_extended(p, SHORT_DESCRIPTOR_PADDING as nat))
        } else {
            Err(e)
        },
    }
}

/// The parser state after the descriptors `descs`, each with its two-byte prefix, of which
/// those of another type than the video interface's are passed over. The first descriptor
/// that fails ends the parse.
pub open spec fn spec_streaming_fold(descs: Seq<Seq<u8>>, st: StreamingDescParserView) -> Result<
    StreamingDescParserView,
    ErrorKind,
>
    decreases descs.len(),
{
    if descs.len() == 0 {
        Ok(st)
    } else if descs[0][1] == VIDEO_INTERFACE_DESC_TYPE {
        match spec_streaming_descriptor(st, descs[0].skip(2)) {
            Ok(next) => spec_streaming_fold(descs.skip(1), next),
            Err(e) => Err(e),
        }
    } else {
        spec_streaming_fold(descs.skip(1), st)
    }
}

/// What the class-specific descriptors `extra` of the Video Streaming interface with the
/// number `interface_number` declare, or why they declare nothing: the interface must have
/// one header, of one direction.
pub open spec fn spec_parse_streaming_descriptor(extra: Seq<u8>, interface_number: u8) -> Result<
    StreamingInterfaceView,
    Error,
> {
    match spec_streaming_fold(spec_split(extra), StreamingDescParserView::empty()) {
        Err(kind) => Err(descriptor_error(kind)),
        Ok(st) => match (st.in_header, st.out_header) {
            (None, Some(output)) => Ok(
                StreamingInterfaceView {
                    id: StreamingInterfaceId(interface_number),
                    kind: StreamingInterfaceKindView::Output(output),
                    formats: st.formats,
                    frames: st.frames,
                },
            ),
            (Some(input), None) => Ok(
                StreamingInterfaceView {
                    id: StreamingInterfaceId(interface_number),
                    kind: StreamingInterfaceKindView::Input(input),
                    formats: st.formats,
                    frames: st.frames,
                },
            ),
            (None, None) => Err(
                descriptor_error(ErrorKind::Parse(ParseError::MissingStreamingHeader)),
            ),
            (Some(_), Some(_)) => Err(
                descriptor_error(ErrorKind::Parse(ParseError::ConflictingStreamingHeaders)),
            ),
        },
    }
}

/// A descriptor that parses keeps the linked terminal of the input header other than 0.
pub proof fn lemma_streaming_descriptor_link_nonzero(st: StreamingDescParserView, p: Seq<u8>)
    requires
        st.link_nonzero(),
        spec_streaming_descriptor(st, p) is Ok,
    ensures
        spec_streaming_descriptor(st, p)->Ok_0.link_nonzero(),
{
}

/// As `lemma_streaming_descriptor_link_nonzero`, over a whole list of descriptors.
pub proof fn lemma_streaming_fold_link_nonzero(descs: Seq<Seq<u8>>, st: StreamingDescParserView)
    requires
        st.link_nonzero(),
        spec_streaming_fold(descs, st) is Ok,
    ensures
        spec_streaming_fold(descs, st)->Ok_0.link_nonzero(),
    decreases descs.len(),
{
    if descs.len() == 0 {
    } else if descs[0][1] == VIDEO_INTERFACE_DESC_TYPE {
        let next = spec_streaming_descriptor(st, descs[0].skip(2));
        lemma_streaming_descriptor_link_nonzero(st, descs[0].skip(2));
        lemma_streaming_fold_link_nonzero(descs.skip(1), next->Ok_0);
    } else {
        lemma_streaming_fold_link_nonzero(descs.skip(1), st);
    }
}

/// The terminal that a parsed input interface links to is other than terminal 0.
pub proof fn parsed_streaming_link_is_nonzero(extra: Seq<u8>, interface_number: u8)
    requires
        spec_parse_streaming_descriptor(extra, interface_number) is Ok,
    ensures
        spec_parse_streaming_descriptor(extra, interface_number)->Ok_0.link_nonzero(),
{
    lemma_streaming_fold_link_nonzero(spec_split(extra), StreamingDescParserView::empty());
}

/// Whether `r` is what parsing the Video Streaming descriptors `extra` of the interface
/// `interface_number` returns.
pub open spec fn is_streaming_parse(
    r: Result<StreamingInterfaceDesc, Error>,
    extra: Seq<u8>,
    interface_number: u8,
) -> bool {
    match spec_parse_streaming_descriptor(extra, interface_number) {
        Ok(v) => r is Ok && r->Ok_0@ == v,
        Err(e) => r is Err && r->Err_0 == e,
    }
}

/// Parsing is deterministic: what two parses of the same descriptors return is the same
/// error, or two interfaces with the same view.
pub proof fn parse_streaming_is_deterministic(
    extra: Seq<u8>,
    interface_number: u8,
    first: Result<StreamingInterfaceDesc, Error>,
    second: Result<StreamingInterfaceDesc, Error>,
)
    requires
        is_streaming_parse(first, extra, interface_number),
        is_streaming_parse(second, extra, interface_number),
    ensures
        first is Ok <==> second is Ok,
        first is Ok ==> first->Ok_0@ == second->Ok_0@,
        first is Err ==> first->Err_0 == second->Err_0,
{
}

impl StreamingDescParser {
    /// A parser that has seen no descriptor.
    pub fn new() -> (r: Self)
        ensures
            r@ == StreamingDescParserView::empty(),
    {
        let r = StreamingDescParser {
            in_header: None,
            out_header: None,
            formats: Vec::new(),
            frames: Vec::new(),
        };
        assert(r@.formats =~= Seq::empty());
        assert(r@.frames =~= Seq::empty());
        r
    }

    /// Appends the format `format`.
    fn push_format(&mut self, format: Format)
        ensures
            final(self)@ == old(self)@.with_format(format@),
    {
        self.formats.push(format);
        assert(final(self)@.formats =~= old(self)@.formats.push(format@));
    }

    /// Appends the frame `frame`.
    fn push_frame(&mut self, frame: Frame)
        ensures
            final(self)@ == old(self)@.with_frame(frame@),
    {
        let ghost view = frame@;
        self.frames.push(frame);
        assert(final(self)@.frames =~= old(self)@.frames.push(view));
    }

    /// Parses the descriptor with the payload `raw` as it stands, and adds what it declares.
    pub fn parse_descriptor_impl(&mut self, raw: &[u8]) -> (r: Result<(), ErrorKind>)
        ensures
            match spec_streaming_step(old(self)@, raw@) {
                Ok(next) => r is Ok && final(self)@ == next,
                Err(e) => r is Err && r->Err_0 == e && final(self)@ == old(self)@,
            },
    {
        if raw.len() < 1 {
            return Err(ErrorKind::Io(IoError::UnexpectedEnd));
        }
        let subtype = raw[0];
        if subtype == STREAM_DESC_SUBTYPE_INPUT_HEADER {
            if self.in_header.is_some() {
                return Err(ErrorKind::Parse(ParseError::DuplicateInputHeader));
            }
            let header = parse_input_header(raw)?;
            self.in_header = Some(header);
            Ok(())
        } else if subtype == STREAM_DESC_SUBTYPE_OUTPUT_HEADER {
            if self.out_header.is_some() {
                return Err(ErrorKind::Parse(ParseError::DuplicateOutputHeader));
            }
            self.out_header = Some(OutputHeader {  });
            Ok(())
        } else if subtype == STREAM_DESC_SUBTYPE_FORMAT_UNCOMPRESSED {
            let format = parse_format_uncompressed(raw)?;
            self.push_format(format);
            Ok(())
        } else if subtype == STREAM_DESC_SUBTYPE_FRAME_UNCOMPRESSED {
            let frame = parse_frame_uncompressed(raw)?;
            self.push_frame(frame);
            Ok(())
        } else if is_unimplemented_stream_subtype(subtype) {
            Err(ErrorKind::Parse(ParseError::UnimplementedSubtype(subtype)))
        } else {
            Err(ErrorKind::Parse(ParseError::UnknownSubtype(subtype)))
        }
    }

    /// Parses the descriptor with the payload `raw` and adds what it declares. A descriptor
    /// that ends too early is parsed once more with zero bytes appended.
    pub fn parse_descriptor(&mut self, raw: &[u8]) -> (r: Result<(), ErrorKind>)
        requires
            raw@.len() + SHORT_DESCRIPTOR_PADDING <= usize::MAX,
        ensures
            match spec_streaming_descriptor(old(self)@, raw@) {
                Ok(next) => r is Ok && final(self)@ == next,
                Err(e) => r is Err && r->Err_0 == e && final(self)@ == old(self)@,
            },
    {
        match self.parse_descriptor_impl(raw) {
            Ok(()) => Ok(()),
            Err(e) => {
                if e.is_unexpected_end() {
                    let buf = zero_extended(raw, SHORT_DESCRIPTOR_PADDING);
                    self.parse_descriptor_impl(buf.as_slice())
                } else {
                    Err(e)
                }
            },
        }
    }
}

/// Unfolds `spec_streaming_fold` at the descriptor `i` of `descs`.
proof fn lemma_streaming_fold_step(descs: Seq<Seq<u8>>, i: int, st: StreamingDescParserView)
    requires
        0 <= i < descs.len(),
    ensures
        spec_streaming_fold(descs.skip(i), st) == (if descs[i][1] == VIDEO_INTERFACE_DESC_TYPE {
            match spec_streaming_descriptor(st, descs[i].skip(2)) {
                Ok(next) => spec_streaming_fold(descs.skip(i + 1), next),
                Err(e) => Err(e),
            }
        } else {
            spec_streaming_fold(descs.skip(i + 1), st)
        }),
{
    assert(descs.skip(i)[0] == descs[i]);
    assert(descs.skip(i).skip(1) =~= descs.skip(i + 1));
}

/// Parses the class-specific descriptors `extra` of the Video Streaming interface with the
/// number `interface_number`.
///
/// Descriptors of another type than the video interface's are passed over. What comes back
/// has one header, and the terminal that an input header links to is not terminal 0.
pub fn parse_streaming_descriptor(extra: &[u8], interface_number: u8) -> (r: Result<
    StreamingInterfaceDesc,
    Error,
>)
    ensures
        is_streaming_parse(r, extra@, interface_number),
        r is Ok ==> r->Ok_0@.link_nonzero(),
{
    let mut parser = StreamingDescParser::new();
    let descs = split_descriptors(extra);
    let ghost all = spec_split(extra@);
    proof {
        lemma_split_lengths(extra@);
        assert(all.skip(0) =~= all);
    }
    let mut i: usize = 0;
    while i < descs.len()
        invariant
            i <= descs.len(),
            all == spec_split(extra@),
            descs@.len() == all.len(),
            forall|k: int| 0 <= k < descs@.len() ==> is_descriptor(#[trigger] descs@[k], all[k]),
            forall|k: int| 0 <= k < all.len() ==> 2 <= (#[trigger] all[k]).len() <= 255,
            spec_streaming_fold(all, StreamingDescParserView::empty()) == spec_streaming_fold(
                all.skip(i as int),
                parser@,
            ),
            parser@.link_nonzero(),
        decreases descs.len() - i,
    {
        let ty = descs[i].0;
        let data = descs[i].1;
        proof {
            assert(is_descriptor(descs@[i as int], all[i as int]));
            lemma_streaming_fold_step(all, i as int, parser@);
        }
        if ty == VIDEO_INTERFACE_DESC_TYPE {
            let payload = slice_subrange(data, 2, data.len());
            assert(payload@ =~= all[i as int].skip(2));
            proof {
                if spec_streaming_descriptor(parser@, payload@) is Ok {
                    lemma_streaming_descriptor_link_nonzero(parser@, payload@);
                }
            }
            match parser.parse_descriptor(payload) {
                Ok(()) => {},
                Err(kind) => {
                    return Err(Error::with_action(kind, Action::AccessingDeviceDescriptor));
                },
            }
        }
        i = i + 1;
    }
    assert(all.skip(i as int) =~= Seq::<Seq<u8>>::empty());
    let StreamingDescParser { in_header, out_header, formats, frames } = parser;
    let id = StreamingInterfaceId(interface_number);
    match (in_header, out_header) {
        (None, Some(output)) => Ok(
            StreamingInterfaceDesc {
                id,
                kind: StreamingInterfaceKind::Output(output),
                formats,
                frames,
            },
        ),
        (Some(input), None) => Ok(
            StreamingInterfaceDesc { id, kind: StreamingInterfaceKind::Input(input), formats, frames },
        ),
        (None, None) => Err(
            Error::with_action(
                ErrorKind::Parse(ParseError::MissingStreamingHeader),
                Action::AccessingDeviceDescriptor,
            ),
        ),
        (Some(_), Some(_)) => Err(
            Error::with_action(
                ErrorKind::Parse(ParseError::ConflictingStreamingHeaders),
                Action::AccessingDeviceDescriptor,
            ),
        ),
    }
}


/// Reading source identifiers from a descriptor that has bytes appended gives what reading
/// them from the descriptor itself gives, unless that is the end of the data.
proof fn lemma_source_ids_extended(p: Seq<u8>, z: Seq<u8>, at: int, n: int)
    requires
        0 <= at <= p.len(),
        0 <= n,
        spec_source_ids(p, at, n) != end::<Seq<SourceId>>(),
    ensures
        spec_source_ids(p + z, at, n) == spec_source_ids(p, at, n),
{
    let q = p + z;
    let avail = if p.len() - at < n {
        p.len() - at
    } else {
        n
    };
    if exists|i: int| at <= i < at + avail && #[trigger] p[i] == 0 {
        let i = choose|i: int| at <= i < at + avail && #[trigger] p[i] == 0;
        assert(q[i] == 0);
    } else {
        assert(avail == n);
        assert forall|i: int| at <= i < at + n implies #[trigger] q[i] != 0 by {
            assert(p[i] != 0);
        }
        assert(spec_source_ids(q, at, n)->Ok_0 =~= spec_source_ids(p, at, n)->Ok_0);
    }
}

/// A Video Control descriptor that has bytes appended says what the descriptor itself says,
/// unless that is the end of the data.
pub proof fn lemma_control_step_extended(st: ControlDescParserView, p: Seq<u8>, z: Seq<u8>)
    requires
        spec_control_step(st, p) != end::<ControlDescParserView>(),
    ensures
        spec_control_step(st, p + z) == spec_control_step(st, p),
{
    let q = p + z;
    assert(q[0] == p[0]);
    if p[0] == CONTROL_DESC_SUBTYPE_HEADER {
        if st.header is None {
            assert(spec_header(q)->Ok_0.streaming_interfaces =~= spec_header(
                p,
            )->Ok_0.streaming_interfaces);
        }
    } else if p[0] == CONTROL_DESC_SUBTYPE_INPUT_TERM {
        assert(spec_input_terminal(q) == spec_input_terminal(p));
    } else if p[0] == CONTROL_DESC_SUBTYPE_OUTPUT_TERMINAL {
        assert(spec_output_terminal(q) == spec_output_terminal(p));
    } else if p[0] == CONTROL_DESC_SUBTYPE_SELECTOR_UNIT {
        if p.len() >= 3 && p[1] != 0 {
            lemma_source_ids_extended(p, z, 3, p[2] as int);
        }
        assert(spec_selector_unit(q) == spec_selector_unit(p));
    } else if p[0] == CONTROL_DESC_SUBTYPE_PROCESSING_UNIT {
        assert(spec_processing_unit(q) == spec_processing_unit(p));
    } else if p[0] == CONTROL_DESC_SUBTYPE_EXTENSION_UNIT {
        if p.len() >= 20 && p[1] != 0 {
            lemma_source_ids_extended(p, z, 20, p[19] as int);
            if spec_extension_unit(p) is Ok {
                assert(spec_extension_unit(q)->Ok_0.controls_bitmap =~= spec_extension_unit(
                    p,
                )->Ok_0.controls_bitmap);
                assert(spec_extension_unit(q)->Ok_0.extension_code =~= spec_extension_unit(
                    p,
                )->Ok_0.extension_code);
            }
        }
        assert(spec_extension_unit(q) == spec_extension_unit(p));
    }
}

/// To read a short descriptor once more with zero bytes appended is to read every
/// descriptor with zero bytes appended: the bytes change nothing in what a descriptor
/// says that does not end too early.
pub proof fn control_fallback_reads_the_padded_descriptor(st: ControlDescParserView, p: Seq<u8>)
    ensures
        spec_control_descriptor(st, p) == spec_control_step(
            st,
            spec_zero_extended(p, SHORT_DESCRIPTOR_PADDING as nat),
        ),
{
    if spec_control_step(st, p) != end::<ControlDescParserView>() {
        lemma_control_step_extended(st, p, Seq::new(SHORT_DESCRIPTOR_PADDING as nat, |i: int| 0u8));
    }
}

/// A Video Streaming descriptor that has bytes appended says what the descriptor itself
/// says, unless that is the end of the data.
pub proof fn lemma_streaming_step_extended(st: StreamingDescParserView, p: Seq<u8>, z: Seq<u8>)
    requires
        spec_streaming_step(st, p) != end::<StreamingDescParserView>(),
    ensures
        spec_streaming_step(st, p + z) == spec_streaming_step(st, p),
{
    let q = p + z;
    assert(q[0] == p[0]);
    if p[0] == STREAM_DESC_SUBTYPE_INPUT_HEADER {
        if spec_input_header(p) is Ok {
            assert(q[1] == p[1] && q[10] == p[10] && q.len() >= p.len());
            assert(q[1] * q[10] == p[1] * p[10]);
            assert(spec_input_header(q) is Ok);
            let of_q = spec_input_header(q)->Ok_0.format_controls;
            let of_p = spec_input_header(p)->Ok_0.format_controls;
            assert forall|i: int| 0 <= i < p[1] implies #[trigger] of_q[i] == of_p[i] by {
                assert(0 <= i * p[10] && (i + 1) * p[10] <= p[1] * p[10]) by (nonlinear_arith)
                    requires
                        0 <= i < p[1],
                        0 <= p[10],
                ;
                assert((i + 1) * p[10] == i * p[10] + p[10]) by (nonlinear_arith);
                assert(bitmask_at(q, 11 + i * p[10], p[10] as int) == bitmask_at(
                    p,
                    11 + i * p[10],
                    p[10] as int,
                ));
            }
            assert(of_q =~= of_p);
        }
        assert(spec_input_header(p) != end::<InputHeaderView>() ==> spec_input_header(q)
            == spec_input_header(p));
    } else if p[0] == STREAM_DESC_SUBTYPE_FORMAT_UNCOMPRESSED {
        if spec_format_uncompressed(p) is Ok {
            assert(guid_at(q, 3) =~= guid_at(p, 3));
        }
        assert(spec_format_uncompressed(q) == spec_format_uncompressed(p));
    } else if p[0] == STREAM_DESC_SUBTYPE_FRAME_UNCOMPRESSED {
        if spec_frame_uncompressed(p) is Ok && p[23] != 0 {
            assert(spec_frame_intervals(q)->Ok_0->supported_frame_intervals =~= spec_frame_intervals(
                p,
            )->Ok_0->supported_frame_intervals);
        }
        assert(spec_frame_uncompressed(q) == spec_frame_uncompressed(p));
    }
}

/// As `control_fallback_reads_the_padded_descriptor`, for Video Streaming descriptors.
pub proof fn streaming_fallback_reads_the_padded_descriptor(st: StreamingDescParserView, p: Seq<u8>)
    ensures
        spec_streaming_descriptor(st, p) == spec_streaming_step(
            st,
            spec_zero_extended(p, SHORT_DESCRIPTOR_PADDING as nat),
        ),
{
    if spec_streaming_step(st, p) != end::<StreamingDescParserView>() {
        lemma_streaming_step_extended(
            st,
            p,
            Seq::new(SHORT_DESCRIPTOR_PADDING as nat, |i: int| 0u8),
        );
    }
}

} // verus!
