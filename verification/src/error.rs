//! Error values: what went wrong, and what the library was doing at the time.

use vstd::prelude::*;

verus! {

/// The activities during which an error can arise.
#[derive(Clone, Copy, Debug, PartialEq, Eq, Structural)]
pub enum Action {
    AccessingDeviceDescriptor,
    EnumeratingDevices,
    OpeningDevice,
    ReadingDeviceString,
    ReadingControl,
    WritingControl,
    StreamNegotiation,
    StreamRead,
}

impl Action {
    /// The phrase that describes this action in an error message.
    pub open spec fn spec_description(self) -> Seq<char> {
        match self {
            Action::AccessingDeviceDescriptor => "accessing device descriptor"@,
            Action::EnumeratingDevices => "enumerating USB devices"@,
            Action::OpeningDevice => "opening UVC device"@,
            Action::ReadingDeviceString => "reading device strings"@,
            Action::ReadingControl => "reading a device control"@,
            Action::WritingControl => "writing a device control"@,
            Action::StreamNegotiation => "negotiating stream parameters"@,
            Action::StreamRead => "reading from the video stream"@,
        }
    }

    /// Returns the phrase that describes this action in an error message.
    pub fn description(&self) -> (s: &'static str)
        ensures
            s@ == self.spec_description(),
    {
        match self {
            Action::AccessingDeviceDescriptor => "accessing device descriptor",
            Action::EnumeratingDevices => "enumerating USB devices",
            Action::OpeningDevice => "opening UVC device",
            Action::ReadingDeviceString => "reading device strings",
            Action::ReadingControl => "reading a device control",
            Action::WritingControl => "writing a device control",
            Action::StreamNegotiation => "negotiating stream parameters",
            Action::StreamRead => "reading from the video stream",
        }
    }
}

/// The failures a USB transport can report for a transfer or a request.
#[derive(Clone, Copy, Debug, PartialEq, Eq, Structural)]
pub enum UsbError {
    Io,
    InvalidParam,
    Access,
    NoDevice,
    NotFound,
    Busy,
    Timeout,
    Overflow,
    Pipe,
    Interrupted,
    NoMem,
    NotSupported,
    BadDescriptor,
    Other,
}

/// Failures of moving bytes: a buffer or a transfer that ended too early.
#[derive(Clone, Copy, Debug, PartialEq, Eq, Structural)]
pub enum IoError {
    /// A descriptor ended before all of its fields were read.
    UnexpectedEnd,
    /// A control-in transfer returned fewer bytes than the control's wire size.
    ShortRead { expected: usize, actual: usize },
    /// A control-out transfer accepted fewer bytes than were sent.
    ShortWrite { expected: usize, actual: usize },
}

/// The ways in which a device's descriptors can be malformed.
#[derive(Clone, Copy, Debug, PartialEq, Eq, Structural)]
pub enum ParseError {
    /// `bTerminalID` is 0.
    ZeroTerminalId,
    /// `bSourceID` is 0.
    ZeroSourceId,
    /// `bUnitID` is 0.
    ZeroUnitId,
    /// A second VC_HEADER descriptor.
    DuplicateHeader,
    /// A second VS_INPUT_HEADER descriptor.
    DuplicateInputHeader,
    /// A second VS_OUTPUT_HEADER descriptor.
    DuplicateOutputHeader,
    /// A descriptor subtype that UVC defines and this library does not read.
    UnimplementedSubtype(u8),
    /// A descriptor subtype that UVC does not define.
    UnknownSubtype(u8),
    /// The Video Control interface has no VC_HEADER descriptor.
    MissingHeader,
    /// The Video Streaming interface has neither an input nor an output header.
    MissingStreamingHeader,
    /// The Video Streaming interface has both an input and an output header.
    ConflictingStreamingHeaders,
    /// Two terminals or units share an identifier.
    DuplicateEntityId,
    /// A unit names a source that is no terminal or unit of the topology.
    UnresolvedSourceId,
    /// An interface of the video function has this class code instead of the video class.
    UnexpectedInterfaceClass(u8),
    /// The video function has more than one Video Control interface.
    MultipleControlInterfaces,
    /// The Video Control interface has this many endpoints; at most one is allowed.
    TooManyControlEndpoints(usize),
    /// The endpoint of the Video Control interface is not an interrupt endpoint.
    ControlEndpointNotInterrupt,
    /// The video function has no Video Control interface.
    MissingControlInterface,
}

/// The category of an error, with its detail.
#[derive(Clone, Debug, PartialEq, Eq)]
pub enum ErrorKind {
    /// The USB transport failed.
    Transport(UsbError),
    /// Bytes ran out.
    Io(IoError),
    /// A descriptor is malformed, or a required one is missing.
    Parse(ParseError),
    /// Anything else, as a message.
    Other(String),
}

impl ErrorKind {
    /// The kind that the descriptor reader reports at the end of its buffer.
    pub open spec fn unexpected_end() -> ErrorKind {
        ErrorKind::Io(IoError::UnexpectedEnd)
    }

    pub open spec fn spec_is_unexpected_end(&self) -> bool {
        *self == ErrorKind::Io(IoError::UnexpectedEnd)
    }

    /// Whether the descriptor reader ran out of bytes.
    #[verifier::when_used_as_spec(spec_is_unexpected_end)]
    pub fn is_unexpected_end(&self) -> (b: bool)
        ensures
            b == self.spec_is_unexpected_end(),
    {
        match self {
            ErrorKind::Io(IoError::UnexpectedEnd) => true,
            _ => false,
        }
    }
}

/// An error: a kind, and the action during which it arose.
#[derive(Clone, Debug, PartialEq, Eq)]
pub struct Error {
    pub action: Option<Action>,
    pub kind: ErrorKind,
}

impl Error {
    /// Tags `kind` with the action during which it arose.
    pub fn with_action(kind: ErrorKind, action: Action) -> (e: Error)
        ensures
            e == (Error { action: Some(action), kind }),
    {
        Error { action: Some(action), kind }
    }

    pub open spec fn spec_is_usb_timeout(&self) -> bool {
        self.kind == ErrorKind::Transport(UsbError::Timeout)
    }

    /// Whether this error is a timeout of the USB transport.
    #[verifier::when_used_as_spec(spec_is_usb_timeout)]
    pub fn is_usb_timeout(&self) -> (b: bool)
        ensures
            b == self.spec_is_usb_timeout(),
    {
        match &self.kind {
            ErrorKind::Transport(UsbError::Timeout) => true,
            _ => false,
        }
    }

    /// The action during which this error arose.
    pub fn action(&self) -> (a: Option<Action>)
        ensures
            a == self.action,
    {
        self.action
    }

    /// The category of this error.
    pub fn kind(&self) -> (k: &ErrorKind)
        ensures
            *k == self.kind,
    {
        &self.kind
    }
}

/// Tags the error of `res`, if it is one, with `action`.
pub fn during<T>(res: Result<T, ErrorKind>, action: Action) -> (r: Result<T, Error>)
    ensures
        r == match res {
            Ok(v) => Ok::<T, Error>(v),
            Err(kind) => Err(Error { action: Some(action), kind }),
        },
{
    match res {
        Ok(v) => Ok(v),
        Err(kind) => Err(Error::with_action(kind, action)),
    }
}

/// An error result of the kind `Other` with the given message, tagged with `action`.
pub fn err<T>(msg: String, action: Action) -> (r: Result<T, Error>)
    ensures
        r == Err::<T, Error>(Error { action: Some(action), kind: ErrorKind::Other(msg) }),
{
    Err(Error::with_action(ErrorKind::Other(msg), action))
}

} // verus!
