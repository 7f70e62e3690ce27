//! Access to a video streaming interface: its controls, and the negotiation of stream
//! parameters that precedes streaming.

use crate::control::{
    decode_response, encode_to_vec, spec_decode_response, ControlValue, ProbeCommitControls,
};
use crate::device::{
    spec_get, spec_set_cur, transport_error, ControlIn, ControlOut, ControlOutView, Request,
    UvcDevice,
};
use crate::error::{Action, Error, ErrorKind, UsbError};
use crate::topo::{
    FormatIndex, FrameIndex, FrameKind, StreamingInterfaceDesc, StreamingInterfaceId,
};
use crate::util::duration_nanos;
use vstd::prelude::*;

verus! {

/// Grants access to a streaming interface: says which transfers read and write its
/// controls and negotiate its stream parameters, and what the answers hold. A request to a
/// streaming interface addresses the interface itself, as entity 0.
pub struct StreamingInterface<'a> {
    pub device: &'a UvcDevice,
    pub desc: &'a StreamingInterfaceDesc,
}

/// The number of units of 100 ns in `nanos` nanoseconds, rounded down, as far as 32 bits
/// hold it.
pub open spec fn spec_interval_100ns(nanos: nat) -> u32 {
    if nanos / 100 > u32::MAX {
        u32::MAX
    } else {
        (nanos / 100) as u32
    }
}

/// The parameters that open a negotiation: the format, the frame and the frame interval
/// are set, and every other field is 0.
pub open spec fn spec_initial_probe(format: FormatIndex, frame: FrameIndex, interval: u32)
    -> ProbeCommitControls {
    ProbeCommitControls {
        bFormatIndex: format.0,
        bFrameIndex: frame.0,
        dwFrameInterval: interval,
        ..ProbeCommitControls::spec_zeroed()
    }
}

/// Where a negotiation of stream parameters stands.
#[derive(Clone, Copy, Debug, PartialEq, Eq)]
pub enum Negotiation {
    /// These parameters are to be proposed to the device with SET_CUR(PROBE).
    Propose(ProbeCommitControls),
    /// The proposal has been sent; the device's answer is to be read with GET_CUR(PROBE).
    ReadAnswer,
    /// The device has answered with these parameters, which it may have adjusted; they
    /// are to be put in force with SET_CUR(COMMIT).
    Commit(ProbeCommitControls),
    /// These parameters are in force: a stream can be started.
    Negotiated(ProbeCommitControls),
}

/// What the transport has to do next in a negotiation.
#[derive(Clone, Debug, PartialEq, Eq)]
pub enum NegotiationStep {
    Write(ControlOut),
    Read(ControlIn),
    Done,
}

/// A `NegotiationStep` with the view of its transfer.
pub enum NegotiationStepView {
    Write(ControlOutView),
    Read(ControlIn),
    Done,
}

impl View for NegotiationStep {
    type V = NegotiationStepView;

    open spec fn view(&self) -> NegotiationStepView {
        match self {
            NegotiationStep::Write(t) => NegotiationStepView::Write(t@),
            NegotiationStep::Read(t) => NegotiationStepView::Read(*t),
            NegotiationStep::Done => NegotiationStepView::Done,
        }
    }
}

impl<'a> StreamingInterface<'a> {
    /// Access to the first streaming interface of `device` with the number `id`.
    pub fn new(device: &'a UvcDevice, id: StreamingInterfaceId) -> (r: Self)
        requires
            device.has_streaming_interface(id),
        ensures
            r.device == device,
            r.desc.id == id,
            exists|i: int|
                0 <= i < device.uvc_info.streaming_interfaces@.len() && *r.desc == (
                #[trigger] device.uvc_info.streaming_interfaces@[i]) && forall|j: int|
                    0 <= j < i ==> (#[trigger] device.uvc_info.streaming_interfaces@[j]).id != id,
    {
        let interfaces = device.streaming_interfaces();
        let mut i: usize = 0;
        loop
            invariant
                i < interfaces.len(),
                interfaces@ == device.uvc_info.streaming_interfaces@,
                device.has_streaming_interface(id),
                forall|j: int| 0 <= j < i ==> (#[trigger] interfaces@[j]).id != id,
            decreases interfaces.len() - i,
        {
            if interfaces[i].id.0 == id.0 {
                return Self { device, desc: &interfaces[i] };
            }
            proof {
                let k = choose|k: int|
                    0 <= k < interfaces@.len() && (#[trigger] interfaces@[k]).id == id;
                assert(k > i);
            }
            i = i + 1;
        }
    }

    /// The first step of a stream with the format `format` and the frame `frame`: the
    /// negotiation of its parameters, which the transport has to carry out step by step
    /// before the stream can be read.
    pub fn start_stream(&mut self, format: FormatIndex, frame: FrameIndex) -> (r: Negotiation)
        requires
            old(self).desc@.has_frame(frame),
        ensures
            r == old(self).spec_negotiation(format, frame),
            *final(self) == *old(self),
    {
        self.negotiate_stream_params(format, frame)
    }

    /// The reader of the stream whose parameters are in force, for a caller that has
    /// negotiated them or knows them to be in force still.
    pub fn start_stream_no_negotiate(&mut self) -> (r: Stream<'_>)
        requires
            old(self).desc.kind is Input,
        ensures
            r.device == old(self).device,
            r.ep == old(self).desc.kind->Input_0.endpoint_address,
            *final(self) == *old(self),
    {
        Stream { device: self.device, ep: self.desc.endpoint_address() }
    }

    /// The default frame interval of the first frame with the index `frame`, in
    /// nanoseconds.
    pub open spec fn spec_default_interval(&self, frame: FrameIndex) -> nat {
        let i = choose|i: int|
            0 <= i < self.desc.frames@.len() && (#[trigger] self.desc.frames@[i]).frame_index
                == frame && forall|j: int|
                0 <= j < i ==> (#[trigger] self.desc.frames@[j]).frame_index != frame;
        match self.desc.frames@[i].kind {
            FrameKind::Uncompressed(f) => duration_nanos(f.default_frame_interval),
        }
    }

    /// The negotiation that opens a stream with the format `format` and the frame `frame`:
    /// it proposes the frame's default interval.
    pub open spec fn spec_negotiation(&self, format: FormatIndex, frame: FrameIndex) -> Negotiation {
        Negotiation::Propose(
            spec_initial_probe(format, frame, spec_interval_100ns(self.spec_default_interval(frame))),
        )
    }

    /// Opens the negotiation of the parameters of a stream with the format `format` and
    /// the frame `frame`: looks up the frame and proposes its default frame interval, in
    /// units of 100 ns, with every other parameter left 0 for the device to fill in.
    pub fn negotiate_stream_params(&mut self, format_index: FormatIndex, frame_index: FrameIndex)
        -> (r: Negotiation)
        requires
            old(self).desc@.has_frame(frame_index),
        ensures
            r == old(self).spec_negotiation(format_index, frame_index),
            *final(self) == *old(self),
    {
        let frame = self.desc.frame_by_index(frame_index);
        let interval = match &frame.kind {
            FrameKind::Uncompressed(f) => f.default_frame_interval(),
        };
        proof {
            let i = choose|i: int|
                0 <= i < self.desc.frames@.len() && (#[trigger] self.desc.frames@[i]).frame_index
                    == frame_index && forall|j: int|
                    0 <= j < i ==> (#[trigger] self.desc.frames@[j]).frame_index != frame_index;
            let k = choose|k: int|
                0 <= k < self.desc.frames@.len() && *frame == (#[trigger] self.desc.frames@[k])
                    && frame.frame_index == frame_index && forall|j: int|
                    0 <= j < k ==> (#[trigger] self.desc.frames@[j]).frame_index != frame_index;
            assert(i == k) by {
                if i < k {
                    assert(self.desc.frames@[i].frame_index != frame_index);
                }
                if k < i {
                    assert(self.desc.frames@[k].frame_index != frame_index);
                }
            }
        }
        let units: u128 = interval.as_nanos() / 100;
        let interval_100ns: u32 = if units > 0xFFFF_FFFF {
            u32::MAX
        } else {
            units as u32
        };
        let controls = ProbeCommitControls {
            bFormatIndex: format_index.0,
            bFrameIndex: frame_index.0,
            dwFrameInterval: interval_100ns,
            ..Default::default()
        };
        Negotiation::Propose(controls)
    }

    /// What the transport has to do next when the negotiation stands at `state`. The
    /// transfers of a negotiation are tagged as such.
    pub open spec fn spec_negotiation_step(&self, state: Negotiation) -> NegotiationStepView {
        match state {
            Negotiation::Propose(c) => NegotiationStepView::Write(
                ControlOutView {
                    action: Action::StreamNegotiation,
                    ..spec_set_cur(
                        self.desc.id.0,
                        0,
                        ControlId::Probe.spec_selector(),
                        c.spec_encode(),
                    )
                },
            ),
            Negotiation::ReadAnswer => NegotiationStepView::Read(
                ControlIn {
                    action: Action::StreamNegotiation,
                    ..spec_get(
                        self.desc.id.0,
                        0,
                        Request::GetCur,
                        ControlId::Probe.spec_selector(),
                        ProbeCommitControls::wire_size() as usize,
                    )
                },
            ),
            Negotiation::Commit(c) => NegotiationStepView::Write(
                ControlOutView {
                    action: Action::StreamNegotiation,
                    ..spec_set_cur(
                        self.desc.id.0,
                        0,
                        ControlId::Commit.spec_selector(),
                        c.spec_encode(),
                    )
                },
            ),
            Negotiation::Negotiated(_) => NegotiationStepView::Done,
        }
    }

    /// What the transport has to do next when the negotiation stands at `state`.
    pub fn negotiation_step(&self, state: &Negotiation) -> (r: NegotiationStep)
        ensures
            r@ == self.spec_negotiation_step(*state),
    {
        match state {
            Negotiation::Propose(c) => {
                let data = encode_to_vec(c);
                NegotiationStep::Write(
                    self.device.set_interface_entity(
                        self.desc.id().0,
                        0,
                        ControlId::Probe.selector(),
                        data.as_slice(),
                    ).during(Action::StreamNegotiation),
                )
            },
            Negotiation::ReadAnswer => NegotiationStep::Read(
                self.device.read_interface_entity(
                    self.desc.id().0,
                    0,
                    Request::GetCur,
                    ControlId::Probe.selector(),
                    <ProbeCommitControls as ControlValue>::size(),
                ).during(Action::StreamNegotiation),
            ),
            Negotiation::Commit(c) => {
                let data = encode_to_vec(c);
                NegotiationStep::Write(
                    self.device.set_interface_entity(
                        self.desc.id().0,
                        0,
                        ControlId::Commit.selector(),
                        data.as_slice(),
                    ).during(Action::StreamNegotiation),
                )
            },
            Negotiation::Negotiated(_) => NegotiationStep::Done,
        }
    }

    /// Where the negotiation stands after the step of `state` has been carried out, with
    /// `response` the bytes that a read returned.
    pub open spec fn spec_negotiation_next(state: Negotiation, response: Seq<u8>) -> Result<
        Negotiation,
        Error,
    > {
        match state {
            Negotiation::Propose(_) => Ok(Negotiation::ReadAnswer),
            Negotiation::ReadAnswer => match spec_decode_response::<ProbeCommitControls>(
                response,
                Action::StreamNegotiation,
            ) {
                Ok(c) => Ok(Negotiation::Commit(c)),
                Err(e) => Err(e),
            },
            Negotiation::Commit(c) => Ok(Negotiation::Negotiated(c)),
            Negotiation::Negotiated(c) => Ok(Negotiation::Negotiated(c)),
        }
    }

    /// Where the negotiation stands after the step of `state` has been carried out.
    /// `response` holds the bytes that a read returned; after a write it does not count.
    /// The device's answer to the proposal is committed as it came.
    pub fn negotiation_next(&self, state: Negotiation, response: &[u8]) -> (r: Result<
        Negotiation,
        Error,
    >)
        ensures
            r == Self::spec_negotiation_next(state, response@),
    {
        match state {
            Negotiation::Propose(_) => Ok(Negotiation::ReadAnswer),
            Negotiation::ReadAnswer => {
                let c: ProbeCommitControls = decode_response(response, Action::StreamNegotiation)?;
                Ok(Negotiation::Commit(c))
            },
            Negotiation::Commit(c) => Ok(Negotiation::Negotiated(c)),
            Negotiation::Negotiated(c) => Ok(Negotiation::Negotiated(c)),
        }
    }

    /// The transfer that asks the control `C` of this interface with `request`.
    pub open spec fn spec_read<C: StreamingControl>(&self, request: Request) -> ControlIn {
        spec_get(
            self.desc.id.0,
            0,
            request,
            C::ID.spec_selector(),
            <C::Value as ControlValue>::wire_size() as usize,
        )
    }

    /// The transfer that reads the current value of the control `C`.
    pub fn read_control<C: StreamingControl>(&self) -> (r: ControlIn)
        ensures
            r == self.spec_read::<C>(Request::GetCur),
    {
        self.read_control_raw(C::ID, Request::GetCur, <C::Value as ControlValue>::size())
    }

    /// The transfer that reads the least value of the control `C`.
    pub fn read_control_min<C: StreamingControl>(&self) -> (r: ControlIn)
        ensures
            r == self.spec_read::<C>(Request::GetMin),
    {
        self.read_control_raw(C::ID, Request::GetMin, <C::Value as ControlValue>::size())
    }

    /// The transfer that reads the greatest value of the control `C`.
    pub fn read_control_max<C: StreamingControl>(&self) -> (r: ControlIn)
        ensures
            r == self.spec_read::<C>(Request::GetMax),
    {
        self.read_control_raw(C::ID, Request::GetMax, <C::Value as ControlValue>::size())
    }

    /// The transfer that sets the control `C` to `value`.
    pub fn set_control<C: StreamingControl>(&mut self, value: C::Value) -> (r: ControlOut)
        ensures
            r@ == spec_set_cur(old(self).desc.id.0, 0, C::ID.spec_selector(), value.spec_encode()),
            *final(self) == *old(self),
    {
        let data = encode_to_vec(&value);
        self.set_control_raw(C::ID, data.as_slice())
    }

    /// What the device's answer `response` to a read of the control `C` holds.
    pub fn decode_control<C: StreamingControl>(&self, response: &[u8]) -> (r: Result<
        C::Value,
        Error,
    >)
        ensures
            r == spec_decode_response::<C::Value>(response@, Action::ReadingControl),
    {
        decode_response(response, Action::ReadingControl)
    }

    /// The transfer that writes the bytes `value` to the control `control`.
    fn set_control_raw(&mut self, control: ControlId, value: &[u8]) -> (r: ControlOut)
        ensures
            r@ == spec_set_cur(old(self).desc.id.0, 0, control.spec_selector(), value@),
            *final(self) == *old(self),
    {
        self.device.set_interface_entity(self.desc.id().0, 0, control.selector(), value)
    }

    /// The transfer that asks the control `control` for `len` bytes.
    fn read_control_raw(&self, control: ControlId, req: Request, len: usize) -> (r: ControlIn)
        ensures
            r == spec_get(self.desc.id.0, 0, req, control.spec_selector(), len),
    {
        self.device.read_interface_entity(self.desc.id().0, 0, req, control.selector(), len)
    }
}

/// A bulk transfer from the device to the host, to be carried out by the transport.
#[derive(Clone, Copy, Debug, PartialEq, Eq, Structural)]
pub struct BulkIn {
    /// The address of the endpoint to read from.
    pub endpoint: u8,
    /// The number of bytes to ask for.
    pub len: usize,
}

/// The reader of a video stream: it reads raw payload bytes from the bulk endpoint of a
/// streaming interface. What the bytes mean is left to the caller.
pub struct Stream<'a> {
    pub device: &'a UvcDevice,
    pub ep: u8,
}

impl<'a> Stream<'a> {
    /// The transfer that fills a buffer of `len` bytes from the stream.
    pub fn read(&self, len: usize) -> (r: BulkIn)
        ensures
            r == (BulkIn { endpoint: self.ep, len }),
    {
        BulkIn { endpoint: self.ep, len }
    }

    /// What it means that the transport failed to read from the stream with `e`.
    pub fn failed(&self, e: UsbError) -> (r: Error)
        ensures
            r == transport_error(e, Action::StreamRead),
    {
        Error::with_action(ErrorKind::Transport(e), Action::StreamRead)
    }
}

/// The controls of a video streaming interface.
#[derive(Clone, Copy, Debug, PartialEq, Eq, Structural)]
#[non_exhaustive]
pub enum ControlId {
    Undefined,
    Probe,
    Commit,
    StillProbe,
    StillCommit,
    StillImageTrigger,
    StreamErrorCode,
    GenerateKeyFrame,
    UpdateFrameSegment,
    SynchDelay,
}

impl ControlId {
    /// The control selector: the byte that names the control in a request.
    pub open spec fn spec_selector(self) -> u8 {
        match self {
            ControlId::Undefined => 0x0,
            ControlId::Probe => 0x1,
            ControlId::Commit => 0x2,
            ControlId::StillProbe => 0x3,
            ControlId::StillCommit => 0x4,
            ControlId::StillImageTrigger => 0x5,
            ControlId::StreamErrorCode => 0x6,
            ControlId::GenerateKeyFrame => 0x7,
            ControlId::UpdateFrameSegment => 0x8,
            ControlId::SynchDelay => 0x9,
        }
    }

    /// The control selector: the byte that names the control in a request.
    #[verifier::when_used_as_spec(spec_selector)]
    pub fn selector(self) -> (r: u8)
        ensures
            r == self.spec_selector(),
    {
        match self {
            ControlId::Undefined => 0x0,
            ControlId::Probe => 0x1,
            ControlId::Commit => 0x2,
            ControlId::StillProbe => 0x3,
            ControlId::StillCommit => 0x4,
            ControlId::StillImageTrigger => 0x5,
            ControlId::StreamErrorCode => 0x6,
            ControlId::GenerateKeyFrame => 0x7,
            ControlId::UpdateFrameSegment => 0x8,
            ControlId::SynchDelay => 0x9,
        }
    }
}

/// A control of a streaming interface: its selector, and the type of its values.
pub trait StreamingControl {
    type Value: ControlValue;

    const ID: ControlId;
}

/// The stream parameters under negotiation.
pub struct Probe;

impl StreamingControl for Probe {
    type Value = ProbeCommitControls;

    const ID: ControlId = ControlId::Probe;
}

/// The stream parameters in force.
pub struct Commit;

impl StreamingControl for Commit {
    type Value = ProbeCommitControls;

    const ID: ControlId = ControlId::Commit;
}

} // verus!
