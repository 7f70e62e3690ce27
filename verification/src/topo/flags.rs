//! The flag sets that topology descriptors hold, one bit per flag. The flags of each set
//! are constants of the set's underlying number type.

use vstd::prelude::*;

verus! {

/// The controls that a processing unit supports.
#[derive(Clone, Copy, Debug, PartialEq, Eq, Hash)]
pub struct ProcessingUnitControls {
    bits: u32,
}

impl ProcessingUnitControls {
    pub const BRIGHTNESS: u32 = 0x1;
    pub const CONTRAST: u32 = 0x2;
    pub const HUE: u32 = 0x4;
    pub const SATURATION: u32 = 0x8;
    pub const SHARPNESS: u32 = 0x10;
    pub const GAMMA: u32 = 0x20;
    pub const WHITE_BALANCE_TEMPERATURE: u32 = 0x40;
    pub const WHITE_BALANCE_COMPONENT: u32 = 0x80;
    pub const BACKLIGHT_COMPENSATION: u32 = 0x100;
    pub const GAIN: u32 = 0x200;
    pub const POWER_LINE_FREQUENCY: u32 = 0x400;
    pub const HUE_AUTO: u32 = 0x800;
    pub const WHITE_BALANCE_TEMPERATURE_AUTO: u32 = 0x1000;
    pub const WHITE_BALANCE_COMPONENT_AUTO: u32 = 0x2000;
    pub const DIGITAL_MULTIPLIER: u32 = 0x4000;
    pub const DIGITAL_MULTIPLIER_LIMIT: u32 = 0x8000;
    pub const ANALOG_VIDEO_STANDARD: u32 = 0x10000;
    pub const ANALOG_VIDEO_LOCK_STATUS: u32 = 0x20000;
    pub const CONTRAST_AUTO: u32 = 0x40000;

    /// Every bit that stands for a flag.
    pub const ALL: u32 = 0x7_FFFF;

    pub closed spec fn spec_bits(&self) -> u32 {
        self.bits
    }

    /// The set with exactly the bits `bits`.
    pub closed spec fn spec_from_bits(bits: u32) -> Self {
        ProcessingUnitControls { bits }
    }

    /// The set whose bits are those of `bits` that stand for a flag.
    pub open spec fn spec_from_bits_truncate(bits: u32) -> Self {
        Self::spec_from_bits(bits & Self::ALL)
    }

    /// A set has the bits that it was made of.
    pub broadcast proof fn lemma_bits(bits: u32)
        ensures
            #[trigger] Self::spec_from_bits(bits).spec_bits() == bits,
    {
    }

    /// A set is made of its bits.
    pub broadcast proof fn lemma_from_bits(self)
        ensures
            #[trigger] Self::spec_from_bits(self.spec_bits()) == self,
    {
    }

    /// The set without any flag.
    pub fn empty() -> (r: Self)
        ensures
            r == Self::spec_from_bits(0),
    {
        ProcessingUnitControls { bits: 0 }
    }

    /// The flags as a number, one bit each.
    #[verifier::when_used_as_spec(spec_bits)]
    pub fn bits(&self) -> (r: u32)
        ensures
            r == self.spec_bits(),
    {
        self.bits
    }

    /// Keeps the bits of `bits` that stand for a flag and drops the others.
    #[verifier::when_used_as_spec(spec_from_bits_truncate)]
    pub fn from_bits_truncate(bits: u32) -> (r: Self)
        ensures
            r == Self::spec_from_bits_truncate(bits),
    {
        ProcessingUnitControls { bits: bits & Self::ALL }
    }

    /// Whether no flag is set.
    pub fn is_empty(&self) -> (r: bool)
        ensures
            r == (self.spec_bits() == 0),
    {
        self.bits == 0
    }

    /// Whether every flag of `flags` is set.
    pub fn contains(&self, flags: u32) -> (r: bool)
        ensures
            r == (self.spec_bits() & flags == flags),
    {
        self.bits & flags == flags
    }
}

/// The analog video standards that a processing unit supports.
#[derive(Clone, Copy, Debug, PartialEq, Eq, Hash)]
pub struct VideoStandards {
    bits: u8,
}

impl VideoStandards {
    pub const NONE: u8 = 0x1;
    pub const NTSC_525_60: u8 = 0x2;
    pub const PAL_625_50: u8 = 0x4;
    pub const SECAM_625_50: u8 = 0x8;
    pub const NTSC_625_50: u8 = 0x10;
    pub const PAL_525_60: u8 = 0x20;

    /// Every bit that stands for a flag.
    pub const ALL: u8 = 0x3F;

    pub closed spec fn spec_bits(&self) -> u8 {
        self.bits
    }

    /// The set with exactly the bits `bits`.
    pub closed spec fn spec_from_bits(bits: u8) -> Self {
        VideoStandards { bits }
    }

    /// The set whose bits are those of `bits` that stand for a flag.
    pub open spec fn spec_from_bits_truncate(bits: u8) -> Self {
        Self::spec_from_bits(bits & Self::ALL)
    }

    /// A set has the bits that it was made of.
    pub broadcast proof fn lemma_bits(bits: u8)
        ensures
            #[trigger] Self::spec_from_bits(bits).spec_bits() == bits,
    {
    }

    /// A set is made of its bits.
    pub broadcast proof fn lemma_from_bits(self)
        ensures
            #[trigger] Self::spec_from_bits(self.spec_bits()) == self,
    {
    }

    /// The set without any flag.
    pub fn empty() -> (r: Self)
        ensures
            r == Self::spec_from_bits(0),
    {
        VideoStandards { bits: 0 }
    }

    /// The flags as a number, one bit each.
    #[verifier::when_used_as_spec(spec_bits)]
    pub fn bits(&self) -> (r: u8)
        ensures
            r == self.spec_bits(),
    {
        self.bits
    }

    /// Keeps the bits of `bits` that stand for a flag and drops the others.
    #[verifier::when_used_as_spec(spec_from_bits_truncate)]
    pub fn from_bits_truncate(bits: u8) -> (r: Self)
        ensures
            r == Self::spec_from_bits_truncate(bits),
    {
        VideoStandards { bits: bits & Self::ALL }
    }

    /// Whether no flag is set.
    pub fn is_empty(&self) -> (r: bool)
        ensures
            r == (self.spec_bits() == 0),
    {
        self.bits == 0
    }

    /// Whether every flag of `flags` is set.
    pub fn contains(&self, flags: u8) -> (r: bool)
        ensures
            r == (self.spec_bits() & flags == flags),
    {
        self.bits & flags == flags
    }
}

/// The controls that a camera terminal supports.
#[derive(Clone, Copy, Debug, PartialEq, Eq, Hash)]
pub struct CameraControls {
    bits: u32,
}

impl CameraControls {
    pub const SCANNING_MODE: u32 = 0x1;
    pub const AUTO_EXPOSURE_MODE: u32 = 0x2;
    pub const AUTO_EXPOSURE_PRIORITY: u32 = 0x4;
    pub const EXPOSURE_TIME_ABS: u32 = 0x8;
    pub const EXPOSURE_TIME_REL: u32 = 0x10;
    pub const FOCUS_ABS: u32 = 0x20;
    pub const FOCUS_REL: u32 = 0x40;
    pub const IRIS_ABS: u32 = 0x80;
    pub const IRIS_REL: u32 = 0x100;
    pub const ZOOM_ABS: u32 = 0x200;
    pub const ZOOM_REL: u32 = 0x400;
    pub const PAN_TILT_ABS: u32 = 0x800;
    pub const PAN_TILT_REL: u32 = 0x1000;
    pub const ROLL_ABS: u32 = 0x2000;
    pub const ROLL_REL: u32 = 0x4000;
    pub const FOCUS_AUTO: u32 = 0x20000;
    pub const PRIVACY: u32 = 0x40000;
    pub const FOCUS_SIMPLE: u32 = 0x80000;
    pub const WINDOW: u32 = 0x100000;
    pub const REGION_OF_INTEREST: u32 = 0x200000;

    /// Every bit that stands for a flag.
    pub const ALL: u32 = 0x3E_7FFF;

    pub closed spec fn spec_bits(&self) -> u32 {
        self.bits
    }

    /// The set with exactly the bits `bits`.
    pub closed spec fn spec_from_bits(bits: u32) -> Self {
        CameraControls { bits }
    }

    /// The set whose bits are those of `bits` that stand for a flag.
    pub open spec fn spec_from_bits_truncate(bits: u32) -> Self {
        Self::spec_from_bits(bits & Self::ALL)
    }

    /// A set has the bits that it was made of.
    pub broadcast proof fn lemma_bits(bits: u32)
        ensures
            #[trigger] Self::spec_from_bits(bits).spec_bits() == bits,
    {
    }

    /// A set is made of its bits.
    pub broadcast proof fn lemma_from_bits(self)
        ensures
            #[trigger] Self::spec_from_bits(self.spec_bits()) == self,
    {
    }

    /// The set without any flag.
    pub fn empty() -> (r: Self)
        ensures
            r == Self::spec_from_bits(0),
    {
        CameraControls { bits: 0 }
    }

    /// The flags as a number, one bit each.
    #[verifier::when_used_as_spec(spec_bits)]
    pub fn bits(&self) -> (r: u32)
        ensures
            r == self.spec_bits(),
    {
        self.bits
    }

    /// Keeps the bits of `bits` that stand for a flag and drops the others.
    #[verifier::when_used_as_spec(spec_from_bits_truncate)]
    pub fn from_bits_truncate(bits: u32) -> (r: Self)
        ensures
            r == Self::spec_from_bits_truncate(bits),
    {
        CameraControls { bits: bits & Self::ALL }
    }

    /// Whether no flag is set.
    pub fn is_empty(&self) -> (r: bool)
        ensures
            r == (self.spec_bits() == 0),
    {
        self.bits == 0
    }

    /// Whether every flag of `flags` is set.
    pub fn contains(&self, flags: u32) -> (r: bool)
        ensures
            r == (self.spec_bits() & flags == flags),
    {
        self.bits & flags == flags
    }
}

/// Capabilities of a video streaming input interface.
#[derive(Clone, Copy, Debug, PartialEq, Eq, Hash)]
pub struct InputInterfaceInfo {
    bits: u8,
}

impl InputInterfaceInfo {
    pub const DYNAMIC_FORMAT_CHANGE_SUPPORTED: u8 = 0x1;

    /// Every bit that stands for a flag.
    pub const ALL: u8 = 0x01;

    pub closed spec fn spec_bits(&self) -> u8 {
        self.bits
    }

    /// The set with exactly the bits `bits`.
    pub closed spec fn spec_from_bits(bits: u8) -> Self {
        InputInterfaceInfo { bits }
    }

    /// The set whose bits are those of `bits` that stand for a flag.
    pub open spec fn spec_from_bits_truncate(bits: u8) -> Self {
        Self::spec_from_bits(bits & Self::ALL)
    }

    /// A set has the bits that it was made of.
    pub broadcast proof fn lemma_bits(bits: u8)
        ensures
            #[trigger] Self::spec_from_bits(bits).spec_bits() == bits,
    {
    }

    /// A set is made of its bits.
    pub broadcast proof fn lemma_from_bits(self)
        ensures
            #[trigger] Self::spec_from_bits(self.spec_bits()) == self,
    {
    }

    /// The set without any flag.
    pub fn empty() -> (r: Self)
        ensures
            r == Self::spec_from_bits(0),
    {
        InputInterfaceInfo { bits: 0 }
    }

    /// The flags as a number, one bit each.
    #[verifier::when_used_as_spec(spec_bits)]
    pub fn bits(&self) -> (r: u8)
        ensures
            r == self.spec_bits(),
    {
        self.bits
    }

    /// Keeps the bits of `bits` that stand for a flag and drops the others.
    #[verifier::when_used_as_spec(spec_from_bits_truncate)]
    pub fn from_bits_truncate(bits: u8) -> (r: Self)
        ensures
            r == Self::spec_from_bits_truncate(bits),
    {
        InputInterfaceInfo { bits: bits & Self::ALL }
    }

    /// Whether no flag is set.
    pub fn is_empty(&self) -> (r: bool)
        ensures
            r == (self.spec_bits() == 0),
    {
        self.bits == 0
    }

    /// Whether every flag of `flags` is set.
    pub fn contains(&self, flags: u8) -> (r: bool)
        ensures
            r == (self.spec_bits() & flags == flags),
    {
        self.bits & flags == flags
    }
}

/// The stream controls that one format of a streaming interface supports.
#[derive(Clone, Copy, Debug, PartialEq, Eq, Hash)]
pub struct PerFormatControls {
    bits: u32,
}

impl PerFormatControls {
    pub const KEY_FRAME_RATE: u32 = 0x1;
    pub const P_FRAME_RATE: u32 = 0x2;
    pub const COMP_QUALITY: u32 = 0x4;
    pub const COMP_WINDOW_SIZE: u32 = 0x8;
    pub const GENERATE_KEY_FRAME: u32 = 0x10;
    pub const UPDATE_FRAME_SEGMENT: u32 = 0x20;

    /// Every bit that stands for a flag.
    pub const ALL: u32 = 0x3F;

    pub closed spec fn spec_bits(&self) -> u32 {
        self.bits
    }

    /// The set with exactly the bits `bits`.
    pub closed spec fn spec_from_bits(bits: u32) -> Self {
        PerFormatControls { bits }
    }

    /// The set whose bits are those of `bits` that stand for a flag.
    pub open spec fn spec_from_bits_truncate(bits: u32) -> Self {
        Self::spec_from_bits(bits & Self::ALL)
    }

    /// A set has the bits that it was made of.
    pub broadcast proof fn lemma_bits(bits: u32)
        ensures
            #[trigger] Self::spec_from_bits(bits).spec_bits() == bits,
    {
    }

    /// A set is made of its bits.
    pub broadcast proof fn lemma_from_bits(self)
        ensures
            #[trigger] Self::spec_from_bits(self.spec_bits()) == self,
    {
    }

    /// The set without any flag.
    pub fn empty() -> (r: Self)
        ensures
            r == Self::spec_from_bits(0),
    {
        PerFormatControls { bits: 0 }
    }

    /// The flags as a number, one bit each.
    #[verifier::when_used_as_spec(spec_bits)]
    pub fn bits(&self) -> (r: u32)
        ensures
            r == self.spec_bits(),
    {
        self.bits
    }

    /// Keeps the bits of `bits` that stand for a flag and drops the others.
    #[verifier::when_used_as_spec(spec_from_bits_truncate)]
    pub fn from_bits_truncate(bits: u32) -> (r: Self)
        ensures
            r == Self::spec_from_bits_truncate(bits),
    {
        PerFormatControls { bits: bits & Self::ALL }
    }

    /// Whether no flag is set.
    pub fn is_empty(&self) -> (r: bool)
        ensures
            r == (self.spec_bits() == 0),
    {
        self.bits == 0
    }

    /// Whether every flag of `flags` is set.
    pub fn contains(&self, flags: u32) -> (r: bool)
        ensures
            r == (self.spec_bits() & flags == flags),
    {
        self.bits & flags == flags
    }
}

/// How the frames of an uncompressed format are interlaced.
#[derive(Clone, Copy, Debug, PartialEq, Eq, Hash)]
pub struct InterlaceFlags {
    bits: u8,
}

impl InterlaceFlags {
    pub const INTERLACED: u8 = 0x1;
    pub const SINGLE_FIELD_PER_FRAME: u8 = 0x2;
    pub const FIELD_1_FIRST: u8 = 0x4;
    pub const FIELD_PATTERN_MASK: u8 = 0x30;

    /// Every bit that stands for a flag.
    pub const ALL: u8 = 0x37;

    pub closed spec fn spec_bits(&self) -> u8 {
        self.bits
    }

    /// The set with exactly the bits `bits`.
    pub closed spec fn spec_from_bits(bits: u8) -> Self {
        InterlaceFlags { bits }
    }

    /// The set whose bits are those of `bits` that stand for a flag.
    pub open spec fn spec_from_bits_truncate(bits: u8) -> Self {
        Self::spec_from_bits(bits & Self::ALL)
    }

    /// A set has the bits that it was made of.
    pub broadcast proof fn lemma_bits(bits: u8)
        ensures
            #[trigger] Self::spec_from_bits(bits).spec_bits() == bits,
    {
    }

    /// A set is made of its bits.
    pub broadcast proof fn lemma_from_bits(self)
        ensures
            #[trigger] Self::spec_from_bits(self.spec_bits()) == self,
    {
    }

    /// The set without any flag.
    pub fn empty() -> (r: Self)
        ensures
            r == Self::spec_from_bits(0),
    {
        InterlaceFlags { bits: 0 }
    }

    /// The flags as a number, one bit each.
    #[verifier::when_used_as_spec(spec_bits)]
    pub fn bits(&self) -> (r: u8)
        ensures
            r == self.spec_bits(),
    {
        self.bits
    }

    /// Keeps the bits of `bits` that stand for a flag and drops the others.
    #[verifier::when_used_as_spec(spec_from_bits_truncate)]
    pub fn from_bits_truncate(bits: u8) -> (r: Self)
        ensures
            r == Self::spec_from_bits_truncate(bits),
    {
        InterlaceFlags { bits: bits & Self::ALL }
    }

    /// Whether no flag is set.
    pub fn is_empty(&self) -> (r: bool)
        ensures
            r == (self.spec_bits() == 0),
    {
        self.bits == 0
    }

    /// Whether every flag of `flags` is set.
    pub fn contains(&self, flags: u8) -> (r: bool)
        ensures
            r == (self.spec_bits() & flags == flags),
    {
        self.bits & flags == flags
    }
}

/// Capabilities of an uncompressed frame.
#[derive(Clone, Copy, Debug, PartialEq, Eq, Hash)]
pub struct UncompressedFrameCapabilities {
    bits: u8,
}

impl UncompressedFrameCapabilities {
    pub const STILL_IMAGE_SUPPORTED: u8 = 0x1;
    pub const FIXED_FRAME_RATE: u8 = 0x2;

    /// Every bit that stands for a flag.
    pub const ALL: u8 = 0x03;

    pub closed spec fn spec_bits(&self) -> u8 {
        self.bits
    }

    /// The set with exactly the bits `bits`.
    pub closed spec fn spec_from_bits(bits: u8) -> Self {
        UncompressedFrameCapabilities { bits }
    }

    /// The set whose bits are those of `bits` that stand for a flag.
    pub open spec fn spec_from_bits_truncate(bits: u8) -> Self {
        Self::spec_from_bits(bits & Self::ALL)
    }

    /// A set has the bits that it was made of.
    pub broadcast proof fn lemma_bits(bits: u8)
        ensures
            #[trigger] Self::spec_from_bits(bits).spec_bits() == bits,
    {
    }

    /// A set is made of its bits.
    pub broadcast proof fn lemma_from_bits(self)
        ensures
            #[trigger] Self::spec_from_bits(self.spec_bits()) == self,
    {
    }

    /// The set without any flag.
    pub fn empty() -> (r: Self)
        ensures
            r == Self::spec_from_bits(0),
    {
        UncompressedFrameCapabilities { bits: 0 }
    }

    /// The flags as a number, one bit each.
    #[verifier::when_used_as_spec(spec_bits)]
    pub fn bits(&self) -> (r: u8)
        ensures
            r == self.spec_bits(),
    {
        self.bits
    }

    /// Keeps the bits of `bits` that stand for a flag and drops the others.
    #[verifier::when_used_as_spec(spec_from_bits_truncate)]
    pub fn from_bits_truncate(bits: u8) -> (r: Self)
        ensures
            r == Self::spec_from_bits_truncate(bits),
    {
        UncompressedFrameCapabilities { bits: bits & Self::ALL }
    }

    /// Whether no flag is set.
    pub fn is_empty(&self) -> (r: bool)
        ensures
            r == (self.spec_bits() == 0),
    {
        self.bits == 0
    }

    /// Whether every flag of `flags` is set.
    pub fn contains(&self, flags: u8) -> (r: bool)
        ensures
            r == (self.spec_bits() & flags == flags),
    {
        self.bits & flags == flags
    }
}

} // verus!
