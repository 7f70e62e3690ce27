//! The values of controls and how they travel: each kind of value has a fixed number of
//! bytes on the wire, little-endian, and decoding accepts every buffer of that length.

use crate::error::{Action, Error, ErrorKind, IoError};
use crate::util::{duration_nanos, le16, le32};
use std::time::Duration;
use vstd::prelude::*;
use vstd::slice::slice_subrange;

verus! {

/// A value that a control transfer carries as a buffer of fixed length.
///
/// `spec_decode` and `spec_encode` say what `decode` and `encode` compute. Decoding is
/// total: a buffer that no encoding produces still decodes, to the value that the type
/// documents, and `canonical` says which buffer that value encodes to.
pub trait ControlValue: Sized {
    /// The length of the value on the wire, in bytes.
    spec fn wire_size() -> nat;

    /// The value that a buffer of `wire_size` bytes holds.
    spec fn spec_decode(buf: Seq<u8>) -> Self;

    /// The bytes of the value on the wire.
    spec fn spec_encode(&self) -> Seq<u8>;

    /// Whether the value is one that the wire can hold: one that some buffer decodes to.
    spec fn wire_valid(&self) -> bool;

    /// The buffer that says the same as `buf` in the way the encoder would say it. A
    /// buffer is well-formed if it is its own canonical form.
    spec fn canonical(buf: Seq<u8>) -> Seq<u8>;

    /// The length of the value on the wire, in bytes.
    fn size() -> (n: usize)
        ensures
            n == Self::wire_size(),
    ;

    /// Reads a value from a buffer of `wire_size` bytes.
    fn decode(buf: &[u8]) -> (v: Self)
        requires
            buf@.len() == Self::wire_size(),
        ensures
            v == Self::spec_decode(buf@),
    ;

    /// Writes the value into a buffer of `wire_size` bytes.
    fn encode(&self, buf: &mut [u8])
        requires
            old(buf)@.len() == Self::wire_size(),
        ensures
            final(buf)@ == self.spec_encode(),
    ;

    /// Whether a buffer of `wire_size` bytes is well-formed: whether it says what it says
    /// in the way the encoder would. A caller may want to warn of a buffer that is not.
    fn is_well_formed(buf: &[u8]) -> (r: bool)
        requires
            buf@.len() == Self::wire_size(),
        ensures
            r == (Self::canonical(buf@) == buf@),
    ;

    /// An encoding has the declared length.
    proof fn lemma_encode_len(&self)
        ensures
            self.spec_encode().len() == Self::wire_size(),
    ;

    /// Decoding the encoding of a value that the wire can hold gives the value back.
    proof fn lemma_decode_encode(&self)
        requires
            self.wire_valid(),
        ensures
            Self::spec_decode(self.spec_encode()) == *self,
    ;

    /// Encoding what a buffer of the declared length decodes to gives the buffer's
    /// canonical form: the buffer itself if it is well-formed. What a buffer decodes to is
    /// a value that the wire can hold, and a canonical form is well-formed.
    proof fn lemma_encode_decode(buf: Seq<u8>)
        requires
            buf.len() == Self::wire_size(),
        ensures
            Self::spec_decode(buf).wire_valid(),
            Self::spec_decode(buf).spec_encode() == Self::canonical(buf),
            Self::canonical(Self::canonical(buf)) == Self::canonical(buf),
    ;
}

/// Decoding inverts encoding: a value that the wire can hold comes back from its encoding
/// as it was.
pub proof fn decode_inverts_encode<V: ControlValue>(v: V)
    requires
        v.wire_valid(),
    ensures
        v.spec_encode().len() == V::wire_size(),
        V::spec_decode(v.spec_encode()) == v,
{
    v.lemma_encode_len();
    v.lemma_decode_encode();
}

/// Encoding what a buffer decodes to gives a well-formed buffer back as it was, and any
/// other buffer in its canonical form.
pub proof fn encode_canonicalizes_decode<V: ControlValue>(buf: Seq<u8>)
    requires
        buf.len() == V::wire_size(),
    ensures
        V::spec_decode(buf).spec_encode() == V::canonical(buf),
        V::canonical(buf) == buf ==> V::spec_decode(buf).spec_encode() == buf,
        V::canonical(V::canonical(buf)) == V::canonical(buf),
{
    V::lemma_encode_decode(buf);
}

/// The encoding of `value` in a buffer of its own.
pub fn encode_to_vec<V: ControlValue>(value: &V) -> (data: Vec<u8>)
    ensures
        data@ == value.spec_encode(),
{
    let mut data: Vec<u8> = vec![0u8; V::size()];
    value.encode(data.as_mut_slice());
    data
}

/// What the answer `response` to a read of a control with values of the type `V` holds.
pub open spec fn spec_decode_response<V: ControlValue>(response: Seq<u8>, action: Action) -> Result<
    V,
    Error,
> {
    if response.len() >= V::wire_size() {
        Ok(V::spec_decode(response.take(V::wire_size() as int)))
    } else {
        Err(
            Error {
                action: Some(action),
                kind: ErrorKind::Io(
                    IoError::ShortRead {
                        expected: V::wire_size() as usize,
                        actual: response.len() as usize,
                    },
                ),
            },
        )
    }
}

/// Decodes the answer to a read of a control with values of the type `V`. An answer that is
/// shorter than the value fails as a short read, tagged with `action`.
pub fn decode_response<V: ControlValue>(response: &[u8], action: Action) -> (r: Result<V, Error>)
    ensures
        r == spec_decode_response::<V>(response@, action),
{
    let size = V::size();
    if response.len() >= size {
        Ok(V::decode(slice_subrange(response, 0, size)))
    } else {
        Err(
            Error::with_action(
                ErrorKind::Io(IoError::ShortRead { expected: size, actual: response.len() }),
                action,
            ),
        )
    }
}

/// The two little-endian bytes of `v`.
pub open spec fn le16_bytes(v: u16) -> Seq<u8> {
    seq![(v % 256) as u8, (v / 256) as u8]
}

/// The four little-endian bytes of `v`.
pub open spec fn le32_bytes(v: u32) -> Seq<u8> {
    seq![
        (v % 256) as u8,
        ((v / 256) % 256) as u8,
        ((v / 65536) % 256) as u8,
        (v / 16777216) as u8,
    ]
}

/// The unsigned number with the same 8 bits as `v` in two's complement.
pub open spec fn bits_of_i8(v: i8) -> u8 {
    if v < 0 {
        (v + 256) as u8
    } else {
        v as u8
    }
}

/// The signed number with the same 8 bits as `b` in two's complement.
pub open spec fn i8_of_bits(b: u8) -> i8 {
    if b >= 128 {
        (b - 256) as i8
    } else {
        b as i8
    }
}

/// The unsigned number with the same 16 bits as `v` in two's complement.
pub open spec fn bits_of_i16(v: i16) -> u16 {
    if v < 0 {
        (v + 65536) as u16
    } else {
        v as u16
    }
}

/// The signed number with the same 16 bits as `b` in two's complement.
pub open spec fn i16_of_bits(b: u16) -> i16 {
    if b >= 32768 {
        (b - 65536) as i16
    } else {
        b as i16
    }
}

/// The little-endian 16-bit number at offset `at` of `buf`.
fn get_le16(buf: &[u8], at: usize) -> (v: u16)
    requires
        at + 2 <= buf@.len(),
    ensures
        v == le16(buf@[at as int], buf@[at + 1]),
{
    (buf[at] as u16) + 256 * (buf[at + 1] as u16)
}

/// The little-endian 32-bit number at offset `at` of `buf`.
fn get_le32(buf: &[u8], at: usize) -> (v: u32)
    requires
        at + 4 <= buf@.len(),
    ensures
        v == le32(buf@[at as int], buf@[at + 1], buf@[at + 2], buf@[at + 3]),
{
    (buf[at] as u32) + 256 * (buf[at + 1] as u32) + 65536 * (buf[at + 2] as u32) + 16777216 * (
    buf[at + 3] as u32)
}

/// Writes `v` at offset `at` of `buf`, little-endian.
fn put_le16(buf: &mut [u8], at: usize, v: u16)
    requires
        at + 2 <= old(buf)@.len(),
    ensures
        final(buf)@ == old(buf)@.update(at as int, le16_bytes(v)[0]).update(
            at + 1,
            le16_bytes(v)[1],
        ),
{
    buf[at] = (v % 256) as u8;
    buf[at + 1] = (v / 256) as u8;
}

/// Writes `v` at offset `at` of `buf`, little-endian.
fn put_le32(buf: &mut [u8], at: usize, v: u32)
    requires
        at + 4 <= old(buf)@.len(),
    ensures
        final(buf)@ == old(buf)@.update(at as int, le32_bytes(v)[0]).update(
            at + 1,
            le32_bytes(v)[1],
        ).update(at + 2, le32_bytes(v)[2]).update(at + 3, le32_bytes(v)[3]),
{
    buf[at] = (v % 256) as u8;
    buf[at + 1] = ((v / 256) % 256) as u8;
    buf[at + 2] = ((v / 65536) % 256) as u8;
    buf[at + 3] = (v / 16777216) as u8;
}

/// The bytes of a 16-bit number are its little-endian bytes: two bytes make a number that
/// splits into them again.
pub proof fn lemma_le16_of_bytes(b0: u8, b1: u8)
    ensures
        le16_bytes(le16(b0, b1)) == seq![b0, b1],
{
    let v = le16(b0, b1);
    assert(v == b0 + 256 * b1);
    assert(le16_bytes(v) =~= seq![b0, b1]);
}

/// A 16-bit number is made of its two little-endian bytes.
pub proof fn lemma_le16_of_number(v: u16)
    ensures
        le16(le16_bytes(v)[0], le16_bytes(v)[1]) == v,
        le16_bytes(v).len() == 2,
{
}

/// The bytes of a 32-bit number are its little-endian bytes: four bytes make a number that
/// splits into them again.
pub proof fn lemma_le32_of_bytes(b0: u8, b1: u8, b2: u8, b3: u8)
    ensures
        le32_bytes(le32(b0, b1, b2, b3)) == seq![b0, b1, b2, b3],
{
    let v = le32(b0, b1, b2, b3);
    let w0 = b0 as u32;
    let w1 = b1 as u32;
    let w2 = b2 as u32;
    let w3 = b3 as u32;
    assert(v == w0 + 256 * w1 + 65536 * w2 + 16777216 * w3);
    assert(v % 256 == w0 && (v / 256) % 256 == w1 && (v / 65536) % 256 == w2 && v / 16777216 == w3)
        by (bit_vector)
        requires
            v == w0 + 256 * w1 + 65536 * w2 + 16777216 * w3,
            w0 < 256,
            w1 < 256,
            w2 < 256,
            w3 < 256,
    ;
    assert(le32_bytes(v) =~= seq![b0, b1, b2, b3]);
}

/// A 32-bit number is made of its four little-endian bytes.
pub proof fn lemma_le32_of_number(v: u32)
    ensures
        le32(le32_bytes(v)[0], le32_bytes(v)[1], le32_bytes(v)[2], le32_bytes(v)[3]) == v,
        le32_bytes(v).len() == 4,
{
    let w0 = v % 256;
    let w1 = (v / 256) % 256;
    let w2 = (v / 65536) % 256;
    let w3 = v / 16777216;
    assert(v == w0 + 256 * w1 + 65536 * w2 + 16777216 * w3 && w0 < 256 && w1 < 256 && w2 < 256 && w3
        < 256) by (bit_vector)
        requires
            w0 == v % 256,
            w1 == (v / 256) % 256,
            w2 == (v / 65536) % 256,
            w3 == v / 16777216,
    ;
}

impl ControlValue for bool {
    open spec fn wire_size() -> nat {
        1
    }

    /// 0 is `false`; every other byte is `true`.
    open spec fn spec_decode(buf: Seq<u8>) -> bool {
        buf[0] != 0
    }

    open spec fn spec_encode(&self) -> Seq<u8> {
        seq![if *self { 1u8 } else { 0u8 }]
    }

    open spec fn wire_valid(&self) -> bool {
        true
    }

    open spec fn canonical(buf: Seq<u8>) -> Seq<u8> {
        seq![if buf[0] == 0 { 0u8 } else { 1u8 }]
    }

    fn size() -> (n: usize) {
        1
    }

    fn decode(buf: &[u8]) -> (v: bool) {
        buf[0] != 0
    }

    fn encode(&self, buf: &mut [u8]) {
        buf[0] = if *self { 1 } else { 0 };
        assert(buf@ =~= self.spec_encode());
    }

    fn is_well_formed(buf: &[u8]) -> (r: bool) {
        let r = buf[0] <= 1;
        proof {
            if r {
                assert(Self::canonical(buf@) =~= buf@);
            } else {
                assert(Self::canonical(buf@)[0] != buf@[0]);
            }
        }
        r
    }

    proof fn lemma_encode_len(&self) {
    }

    proof fn lemma_decode_encode(&self) {
    }

    proof fn lemma_encode_decode(buf: Seq<u8>) {
        assert(Self::spec_decode(buf).spec_encode() =~= Self::canonical(buf));
        assert(Self::canonical(Self::canonical(buf)) =~= Self::canonical(buf));
    }
}

impl ControlValue for u8 {
    open spec fn wire_size() -> nat {
        1
    }

    open spec fn spec_decode(buf: Seq<u8>) -> u8 {
        buf[0]
    }

    open spec fn spec_encode(&self) -> Seq<u8> {
        seq![*self]
    }

    open spec fn wire_valid(&self) -> bool {
        true
    }

    open spec fn canonical(buf: Seq<u8>) -> Seq<u8> {
        buf
    }

    fn size() -> (n: usize) {
        1
    }

    fn decode(buf: &[u8]) -> (v: u8) {
        buf[0]
    }

    fn encode(&self, buf: &mut [u8]) {
        buf[0] = *self;
        assert(buf@ =~= self.spec_encode());
    }

    fn is_well_formed(buf: &[u8]) -> (r: bool) {
        true
    }

    proof fn lemma_encode_len(&self) {
    }

    proof fn lemma_decode_encode(&self) {
    }

    proof fn lemma_encode_decode(buf: Seq<u8>) {
        assert(Self::spec_decode(buf).spec_encode() =~= buf);
    }
}

impl ControlValue for i8 {
    open spec fn wire_size() -> nat {
        1
    }

    open spec fn spec_decode(buf: Seq<u8>) -> i8 {
        i8_of_bits(buf[0])
    }

    open spec fn spec_encode(&self) -> Seq<u8> {
        seq![bits_of_i8(*self)]
    }

    open spec fn wire_valid(&self) -> bool {
        true
    }

    open spec fn canonical(buf: Seq<u8>) -> Seq<u8> {
        buf
    }

    fn size() -> (n: usize) {
        1
    }

    fn decode(buf: &[u8]) -> (v: i8) {
        i8_from_bits(buf[0])
    }

    fn encode(&self, buf: &mut [u8]) {
        buf[0] = i8_to_bits(*self);
        assert(buf@ =~= self.spec_encode());
    }

    fn is_well_formed(buf: &[u8]) -> (r: bool) {
        true
    }

    proof fn lemma_encode_len(&self) {
    }

    proof fn lemma_decode_encode(&self) {
    }

    proof fn lemma_encode_decode(buf: Seq<u8>) {
        assert(Self::spec_decode(buf).spec_encode() =~= buf);
    }
}

/// The signed number with the same 8 bits as `b`.
fn i8_from_bits(b: u8) -> (v: i8)
    ensures
        v == i8_of_bits(b),
{
    if b >= 128 {
        ((b as i16) - 256) as i8
    } else {
        b as i8
    }
}

/// The unsigned number with the same 8 bits as `v`.
fn i8_to_bits(v: i8) -> (b: u8)
    ensures
        b == bits_of_i8(v),
{
    if v < 0 {
        ((v as i16) + 256) as u8
    } else {
        v as u8
    }
}

impl ControlValue for u16 {
    open spec fn wire_size() -> nat {
        2
    }

    open spec fn spec_decode(buf: Seq<u8>) -> u16 {
        le16(buf[0], buf[1])
    }

    open spec fn spec_encode(&self) -> Seq<u8> {
        le16_bytes(*self)
    }

    open spec fn wire_valid(&self) -> bool {
        true
    }

    open spec fn canonical(buf: Seq<u8>) -> Seq<u8> {
        buf
    }

    fn size() -> (n: usize) {
        2
    }

    fn decode(buf: &[u8]) -> (v: u16) {
        get_le16(buf, 0)
    }

    fn encode(&self, buf: &mut [u8]) {
        put_le16(buf, 0, *self);
        assert(buf@ =~= self.spec_encode());
    }

    fn is_well_formed(buf: &[u8]) -> (r: bool) {
        true
    }

    proof fn lemma_encode_len(&self) {
    }

    proof fn lemma_decode_encode(&self) {
    }

    proof fn lemma_encode_decode(buf: Seq<u8>) {
        assert(Self::spec_decode(buf).spec_encode() =~= buf);
    }
}

impl ControlValue for i16 {
    open spec fn wire_size() -> nat {
        2
    }

    open spec fn spec_decode(buf: Seq<u8>) -> i16 {
        i16_of_bits(le16(buf[0], buf[1]))
    }

    open spec fn spec_encode(&self) -> Seq<u8> {
        le16_bytes(bits_of_i16(*self))
    }

    open spec fn wire_valid(&self) -> bool {
        true
    }

    open spec fn canonical(buf: Seq<u8>) -> Seq<u8> {
        buf
    }

    fn size() -> (n: usize) {
        2
    }

    fn decode(buf: &[u8]) -> (v: i16) {
        let bits = get_le16(buf, 0);
        if bits >= 32768 {
            ((bits as i32) - 65536) as i16
        } else {
            bits as i16
        }
    }

    fn encode(&self, buf: &mut [u8]) {
        let bits: u16 = if *self < 0 {
            ((*self as i32) + 65536) as u16
        } else {
            *self as u16
        };
        put_le16(buf, 0, bits);
        assert(buf@ =~= self.spec_encode());
    }

    fn is_well_formed(buf: &[u8]) -> (r: bool) {
        true
    }

    proof fn lemma_encode_len(&self) {
    }

    proof fn lemma_decode_encode(&self) {
    }

    proof fn lemma_encode_decode(buf: Seq<u8>) {
        assert(Self::spec_decode(buf).spec_encode() =~= buf);
    }
}

impl ControlValue for u32 {
    open spec fn wire_size() -> nat {
        4
    }

    open spec fn spec_decode(buf: Seq<u8>) -> u32 {
        le32(buf[0], buf[1], buf[2], buf[3])
    }

    open spec fn spec_encode(&self) -> Seq<u8> {
        le32_bytes(*self)
    }

    open spec fn wire_valid(&self) -> bool {
        true
    }

    open spec fn canonical(buf: Seq<u8>) -> Seq<u8> {
        buf
    }

    fn size() -> (n: usize) {
        4
    }

    fn decode(buf: &[u8]) -> (v: u32) {
        get_le32(buf, 0)
    }

    fn encode(&self, buf: &mut [u8]) {
        put_le32(buf, 0, *self);
        assert(buf@ =~= self.spec_encode());
    }

    fn is_well_formed(buf: &[u8]) -> (r: bool) {
        true
    }

    proof fn lemma_encode_len(&self) {
    }

    proof fn lemma_decode_encode(&self) {
        lemma_le32_of_number(*self);
    }

    proof fn lemma_encode_decode(buf: Seq<u8>) {
        lemma_le32_of_bytes(buf[0], buf[1], buf[2], buf[3]);
        assert(Self::spec_decode(buf).spec_encode() =~= buf);
    }
}

/// How a processing unit suppresses the flicker of mains-powered light.
#[derive(Clone, Copy, Debug, PartialEq, Eq, Structural)]
pub enum PowerLineFrequency {
    Disabled,
    Freq50Hz,
    Freq60Hz,
    Auto,
}

impl PowerLineFrequency {
    /// The byte that stands for the value on the wire.
    pub open spec fn spec_code(self) -> u8 {
        match self {
            PowerLineFrequency::Disabled => 0,
            PowerLineFrequency::Freq50Hz => 1,
            PowerLineFrequency::Freq60Hz => 2,
            PowerLineFrequency::Auto => 3,
        }
    }

    /// The value that the byte `code` stands for: `Disabled` for a byte that UVC does not
    /// define.
    pub open spec fn spec_from_code(code: u8) -> Self {
        if code == 1 {
            PowerLineFrequency::Freq50Hz
        } else if code == 2 {
            PowerLineFrequency::Freq60Hz
        } else if code == 3 {
            PowerLineFrequency::Auto
        } else {
            PowerLineFrequency::Disabled
        }
    }
}

impl ControlValue for PowerLineFrequency {
    open spec fn wire_size() -> nat {
        1
    }

    open spec fn spec_decode(buf: Seq<u8>) -> PowerLineFrequency {
        Self::spec_from_code(buf[0])
    }

    open spec fn spec_encode(&self) -> Seq<u8> {
        seq![self.spec_code()]
    }

    open spec fn wire_valid(&self) -> bool {
        true
    }

    open spec fn canonical(buf: Seq<u8>) -> Seq<u8> {
        seq![if buf[0] <= 3 { buf[0] } else { 0u8 }]
    }

    fn size() -> (n: usize) {
        1
    }

    fn decode(buf: &[u8]) -> (v: PowerLineFrequency) {
        match buf[0] {
            0 => Self::Disabled,
            1 => Self::Freq50Hz,
            2 => Self::Freq60Hz,
            3 => Self::Auto,
            _ => Self::Disabled,
        }
    }

    fn encode(&self, buf: &mut [u8]) {
        buf[0] =
        match self {
            PowerLineFrequency::Disabled => 0,
            PowerLineFrequency::Freq50Hz => 1,
            PowerLineFrequency::Freq60Hz => 2,
            PowerLineFrequency::Auto => 3,
        };
        assert(buf@ =~= self.spec_encode());
    }

    fn is_well_formed(buf: &[u8]) -> (r: bool) {
        let r = buf[0] <= 3;
        proof {
            if r {
                assert(Self::canonical(buf@) =~= buf@);
            } else {
                assert(Self::canonical(buf@)[0] != buf@[0]);
            }
        }
        r
    }

    proof fn lemma_encode_len(&self) {
    }

    proof fn lemma_decode_encode(&self) {
    }

    proof fn lemma_encode_decode(buf: Seq<u8>) {
        assert(Self::spec_decode(buf).spec_encode() =~= Self::canonical(buf));
        assert(Self::canonical(Self::canonical(buf)) =~= Self::canonical(buf));
    }
}

/// The blue and red components of the white balance.
#[derive(Clone, Copy, Debug, PartialEq, Eq, Structural)]
pub struct WhiteBalanceComponents {
    pub blue: u16,
    pub red: u16,
}

impl WhiteBalanceComponents {
    pub fn new(blue: u16, red: u16) -> (r: Self)
        ensures
            r == (WhiteBalanceComponents { blue, red }),
    {
        Self { blue, red }
    }
}

impl ControlValue for WhiteBalanceComponents {
    open spec fn wire_size() -> nat {
        4
    }

    open spec fn spec_decode(buf: Seq<u8>) -> WhiteBalanceComponents {
        WhiteBalanceComponents { blue: le16(buf[0], buf[1]), red: le16(buf[2], buf[3]) }
    }

    open spec fn spec_encode(&self) -> Seq<u8> {
        le16_bytes(self.blue) + le16_bytes(self.red)
    }

    open spec fn wire_valid(&self) -> bool {
        true
    }

    open spec fn canonical(buf: Seq<u8>) -> Seq<u8> {
        buf
    }

    fn size() -> (n: usize) {
        4
    }

    fn decode(buf: &[u8]) -> (v: WhiteBalanceComponents) {
        WhiteBalanceComponents { blue: get_le16(buf, 0), red: get_le16(buf, 2) }
    }

    fn encode(&self, buf: &mut [u8]) {
        put_le16(buf, 0, self.blue);
        put_le16(buf, 2, self.red);
        assert(buf@ =~= self.spec_encode());
    }

    fn is_well_formed(buf: &[u8]) -> (r: bool) {
        true
    }

    proof fn lemma_encode_len(&self) {
    }

    proof fn lemma_decode_encode(&self) {
    }

    proof fn lemma_encode_decode(buf: Seq<u8>) {
        assert(Self::spec_decode(buf).spec_encode() =~= buf);
    }
}

/// The auto-exposure modes of a camera, as the control of that name holds them.
#[derive(Clone, Copy, Debug, PartialEq, Eq, Hash)]
pub struct AutoExposureMode {
    bits: u8,
}

impl AutoExposureMode {
    pub const MANUAL: u8 = 0x1;
    pub const AUTO: u8 = 0x2;
    pub const SHUTTER_PRIORITY: u8 = 0x4;
    pub const APERTURE_PRIORITY: u8 = 0x8;

    /// Every bit that stands for a flag.
    pub const ALL: u8 = 0x0F;

    pub closed spec fn spec_bits(&self) -> u8 {
        self.bits
    }

    /// The set with exactly the bits `bits`.
    pub closed spec fn spec_from_bits(bits: u8) -> Self {
        AutoExposureMode { bits }
    }

    /// The set whose bits are those of `bits` that stand for a flag.
    pub open spec fn spec_from_bits_truncate(bits: u8) -> Self {
        Self::spec_from_bits(bits & Self::ALL)
    }

    /// A set has the bits that it was made of.
    pub broadcast proof fn lemma_bits(bits: u8)
        ensures
            #[trigger] Self::spec_from_bits(bits).spec_bits() == bits,
    {
    }

    /// A set is made of its bits.
    pub broadcast proof fn lemma_from_bits(self)
        ensures
            #[trigger] Self::spec_from_bits(self.spec_bits()) == self,
    {
    }

    /// The set without any flag.
    pub fn empty() -> (r: Self)
        ensures
            r == Self::spec_from_bits(0),
    {
        AutoExposureMode { bits: 0 }
    }

    /// The flags as a number, one bit each.
    #[verifier::when_used_as_spec(spec_bits)]
    pub fn bits(&self) -> (r: u8)
        ensures
            r == self.spec_bits(),
    {
        self.bits
    }

    /// Keeps the bits of `bits` that stand for a flag and drops the others.
    #[verifier::when_used_as_spec(spec_from_bits_truncate)]
    pub fn from_bits_truncate(bits: u8) -> (r: Self)
        ensures
            r == Self::spec_from_bits_truncate(bits),
    {
        AutoExposureMode { bits: bits & Self::ALL }
    }

    /// Whether no flag is set.
    pub fn is_empty(&self) -> (r: bool)
        ensures
            r == (self.spec_bits() == 0),
    {
        self.bits == 0
    }

    /// Whether every flag of `flags` is set.
    pub fn contains(&self, flags: u8) -> (r: bool)
        ensures
            r == (self.spec_bits() & flags == flags),
    {
        self.bits & flags == flags
    }
}

/// Which fields of a probe the device shall keep fixed while it negotiates the others.
#[derive(Clone, Copy, Debug, PartialEq, Eq, Hash)]
pub struct ProbeHint {
    bits: u16,
}

impl ProbeHint {
    pub const FIX_FRAME_INTERVAL: u16 = 0x1;
    pub const FIX_KEY_FRAME_RATE: u16 = 0x2;
    pub const FIX_P_FRAME_RATE: u16 = 0x4;
    pub const FIX_COMP_QUALITY: u16 = 0x8;
    pub const FIX_COMP_WINDOW_SIZE: u16 = 0x10;

    /// Every bit that stands for a flag.
    pub const ALL: u16 = 0x1F;

    pub closed spec fn spec_bits(&self) -> u16 {
        self.bits
    }

    /// The set with exactly the bits `bits`.
    pub closed spec fn spec_from_bits(bits: u16) -> Self {
        ProbeHint { bits }
    }

    /// The set whose bits are those of `bits` that stand for a flag.
    pub open spec fn spec_from_bits_truncate(bits: u16) -> Self {
        Self::spec_from_bits(bits & Self::ALL)
    }

    /// A set has the bits that it was made of.
    pub broadcast proof fn lemma_bits(bits: u16)
        ensures
            #[trigger] Self::spec_from_bits(bits).spec_bits() == bits,
    {
    }

    /// A set is made of its bits.
    pub broadcast proof fn lemma_from_bits(self)
        ensures
            #[trigger] Self::spec_from_bits(self.spec_bits()) == self,
    {
    }

    /// The set without any flag.
    pub fn empty() -> (r: Self)
        ensures
            r == Self::spec_from_bits(0),
    {
        ProbeHint { bits: 0 }
    }

    /// The flags as a number, one bit each.
    #[verifier::when_used_as_spec(spec_bits)]
    pub fn bits(&self) -> (r: u16)
        ensures
            r == self.spec_bits(),
    {
        self.bits
    }

    /// Keeps the bits of `bits` that stand for a flag and drops the others.
    #[verifier::when_used_as_spec(spec_from_bits_truncate)]
    pub fn from_bits_truncate(bits: u16) -> (r: Self)
        ensures
            r == Self::spec_from_bits_truncate(bits),
    {
        ProbeHint { bits: bits & Self::ALL }
    }

    /// Whether no flag is set.
    pub fn is_empty(&self) -> (r: bool)
        ensures
            r == (self.spec_bits() == 0),
    {
        self.bits == 0
    }

    /// Whether every flag of `flags` is set.
    pub fn contains(&self, flags: u16) -> (r: bool)
        ensures
            r == (self.spec_bits() & flags == flags),
    {
        self.bits & flags == flags
    }
}

impl AutoExposureMode {
    /// Dropping the bits that stand for no flag twice is dropping them once.
    pub proof fn lemma_truncate_idempotent(bits: u8)
        ensures
            (bits & Self::ALL) & Self::ALL == bits & Self::ALL,
    {
        assert((bits & 0x0Fu8) & 0x0Fu8 == bits & 0x0Fu8) by (bit_vector);
    }
}

impl ControlValue for AutoExposureMode {
    open spec fn wire_size() -> nat {
        1
    }

    /// Bits that stand for no mode are dropped.
    open spec fn spec_decode(buf: Seq<u8>) -> AutoExposureMode {
        Self::spec_from_bits_truncate(buf[0])
    }

    open spec fn spec_encode(&self) -> Seq<u8> {
        seq![self.spec_bits()]
    }

    /// Only bits that stand for a mode are set.
    open spec fn wire_valid(&self) -> bool {
        self.spec_bits() & Self::ALL == self.spec_bits()
    }

    open spec fn canonical(buf: Seq<u8>) -> Seq<u8> {
        seq![buf[0] & Self::ALL]
    }

    fn size() -> (n: usize) {
        1
    }

    fn decode(buf: &[u8]) -> (v: AutoExposureMode) {
        Self::from_bits_truncate(buf[0])
    }

    fn encode(&self, buf: &mut [u8]) {
        buf[0] = self.bits();
        assert(buf@ =~= self.spec_encode());
    }

    fn is_well_formed(buf: &[u8]) -> (r: bool) {
        let r = buf[0] & Self::ALL == buf[0];
        proof {
            if r {
                assert(Self::canonical(buf@) =~= buf@);
            } else {
                assert(Self::canonical(buf@)[0] != buf@[0]);
            }
        }
        r
    }

    proof fn lemma_encode_len(&self) {
    }

    proof fn lemma_decode_encode(&self) {
    }

    proof fn lemma_encode_decode(buf: Seq<u8>) {
        Self::lemma_truncate_idempotent(buf[0]);
        assert(Self::spec_decode(buf).spec_encode() =~= Self::canonical(buf));
        assert(Self::canonical(Self::canonical(buf)) =~= Self::canonical(buf));
    }
}

/// An absolute exposure time, in units of 100 µs.
#[derive(Clone, Copy, Debug, PartialEq, Eq, Structural)]
pub struct ExposureTimeAbs(pub u32);

impl ExposureTimeAbs {
    /// The number of units for an exposure of `nanos` nanoseconds: whole units of 100 µs,
    /// rounded down, but 1 at least and `u32::MAX` at most.
    pub open spec fn spec_units_of(nanos: nat) -> u32 {
        let units = nanos / 1000 / 100;
        if units < 1 {
            1u32
        } else if units > u32::MAX {
            u32::MAX
        } else {
            units as u32
        }
    }

    /// Rounds a duration down to whole units and clamps it to the range of the control,
    /// whose least value is one unit.
    pub fn from_duration(dur: Duration) -> (r: Self)
        ensures
            r.0 == Self::spec_units_of(duration_nanos(dur)),
            r.0 >= 1,
    {
        let units: u128 = dur.as_micros() / 100;
        if units < 1 {
            ExposureTimeAbs(1)
        } else if units > 0xFFFF_FFFF {
            ExposureTimeAbs(u32::MAX)
        } else {
            ExposureTimeAbs(units as u32)
        }
    }

    /// The exposure time as a duration.
    pub fn as_duration(&self) -> (d: Duration)
        ensures
            duration_nanos(d) == self.0 as nat * 100 * 1000,
    {
        Duration::from_micros((self.0 as u64) * 100)
    }

    /// The exposure time in units of 100 µs.
    pub fn units(&self) -> (r: u32)
        ensures
            r == self.0,
    {
        self.0
    }
}

impl ControlValue for ExposureTimeAbs {
    open spec fn wire_size() -> nat {
        4
    }

    open spec fn spec_decode(buf: Seq<u8>) -> ExposureTimeAbs {
        ExposureTimeAbs(le32(buf[0], buf[1], buf[2], buf[3]))
    }

    open spec fn spec_encode(&self) -> Seq<u8> {
        le32_bytes(self.0)
    }

    open spec fn wire_valid(&self) -> bool {
        true
    }

    open spec fn canonical(buf: Seq<u8>) -> Seq<u8> {
        buf
    }

    fn size() -> (n: usize) {
        4
    }

    fn decode(buf: &[u8]) -> (v: ExposureTimeAbs) {
        ExposureTimeAbs(get_le32(buf, 0))
    }

    fn encode(&self, buf: &mut [u8]) {
        put_le32(buf, 0, self.0);
        assert(buf@ =~= self.spec_encode());
    }

    fn is_well_formed(buf: &[u8]) -> (r: bool) {
        true
    }

    proof fn lemma_encode_len(&self) {
    }

    proof fn lemma_decode_encode(&self) {
        lemma_le32_of_number(self.0);
    }

    proof fn lemma_encode_decode(buf: Seq<u8>) {
        lemma_le32_of_bytes(buf[0], buf[1], buf[2], buf[3]);
        assert(Self::spec_decode(buf).spec_encode() =~= buf);
    }
}

/// A relative focus movement: a direction and a speed.
#[derive(Clone, Copy, Debug, PartialEq, Eq, Structural)]
pub struct FocusRel {
    pub focus_rel: i8,
    pub speed: u8,
}

impl FocusRel {
    pub fn new(focus_rel: i8, speed: u8) -> (r: Self)
        ensures
            r == (FocusRel { focus_rel, speed }),
    {
        Self { focus_rel, speed }
    }
}

impl ControlValue for FocusRel {
    open spec fn wire_size() -> nat {
        2
    }

    open spec fn spec_decode(buf: Seq<u8>) -> FocusRel {
        FocusRel { focus_rel: i8_of_bits(buf[0]), speed: buf[1] }
    }

    open spec fn spec_encode(&self) -> Seq<u8> {
        seq![bits_of_i8(self.focus_rel), self.speed]
    }

    open spec fn wire_valid(&self) -> bool {
        true
    }

    open spec fn canonical(buf: Seq<u8>) -> Seq<u8> {
        buf
    }

    fn size() -> (n: usize) {
        2
    }

    fn decode(buf: &[u8]) -> (v: FocusRel) {
        FocusRel { focus_rel: i8_from_bits(buf[0]), speed: buf[1] }
    }

    fn encode(&self, buf: &mut [u8]) {
        buf[0] = i8_to_bits(self.focus_rel);
        buf[1] = self.speed;
        assert(buf@ =~= self.spec_encode());
    }

    fn is_well_formed(buf: &[u8]) -> (r: bool) {
        true
    }

    proof fn lemma_encode_len(&self) {
    }

    proof fn lemma_decode_encode(&self) {
    }

    proof fn lemma_encode_decode(buf: Seq<u8>) {
        assert(Self::spec_decode(buf).spec_encode() =~= buf);
    }
}

/// The range in which a camera focuses.
#[derive(Clone, Copy, Debug, PartialEq, Eq, Structural)]
#[non_exhaustive]
pub enum FocusSimple {
    FullRange,
    Macro,
    People,
    Scene,
}

impl FocusSimple {
    /// The byte that stands for the value on the wire.
    pub open spec fn spec_code(self) -> u8 {
        match self {
            FocusSimple::FullRange => 0,
            FocusSimple::Macro => 1,
            FocusSimple::People => 2,
            FocusSimple::Scene => 3,
        }
    }

    /// The value that the byte `code` stands for: `FullRange` for a byte that UVC does not
    /// define.
    pub open spec fn spec_from_code(code: u8) -> Self {
        if code == 1 {
            FocusSimple::Macro
        } else if code == 2 {
            FocusSimple::People
        } else if code == 3 {
            FocusSimple::Scene
        } else {
            FocusSimple::FullRange
        }
    }
}

impl ControlValue for FocusSimple {
    open spec fn wire_size() -> nat {
        1
    }

    open spec fn spec_decode(buf: Seq<u8>) -> FocusSimple {
        Self::spec_from_code(buf[0])
    }

    open spec fn spec_encode(&self) -> Seq<u8> {
        seq![self.spec_code()]
    }

    open spec fn wire_valid(&self) -> bool {
        true
    }

    open spec fn canonical(buf: Seq<u8>) -> Seq<u8> {
        seq![if buf[0] <= 3 { buf[0] } else { 0u8 }]
    }

    fn size() -> (n: usize) {
        1
    }

    fn decode(buf: &[u8]) -> (v: FocusSimple) {
        match buf[0] {
            0x00 => Self::FullRange,
            0x01 => Self::Macro,
            0x02 => Self::People,
            0x03 => Self::Scene,
            _ => Self::FullRange,
        }
    }

    fn encode(&self, buf: &mut [u8]) {
        buf[0] =
        match self {
            FocusSimple::FullRange => 0,
            FocusSimple::Macro => 1,
            FocusSimple::People => 2,
            FocusSimple::Scene => 3,
        };
        assert(buf@ =~= self.spec_encode());
    }

    fn is_well_formed(buf: &[u8]) -> (r: bool) {
        let r = buf[0] <= 3;
        proof {
            if r {
                assert(Self::canonical(buf@) =~= buf@);
            } else {
                assert(Self::canonical(buf@)[0] != buf@[0]);
            }
        }
        r
    }

    proof fn lemma_encode_len(&self) {
    }

    proof fn lemma_decode_encode(&self) {
    }

    proof fn lemma_encode_decode(buf: Seq<u8>) {
        assert(Self::spec_decode(buf).spec_encode() =~= Self::canonical(buf));
        assert(Self::canonical(Self::canonical(buf)) =~= Self::canonical(buf));
    }
}

/// The length of the probe and commit controls on the wire.
pub const PROBE_COMMIT_SIZE: usize = 26;

/// The stream parameters that host and device negotiate with the probe control and fix
/// with the commit control.
///
/// These are the 26 bytes of UVC 1.0. The fields that later versions append are left out
/// on purpose: there are devices that answer a longer probe with a frame interval of 0.
#[derive(Clone, Copy, Debug, PartialEq, Eq)]
#[allow(non_snake_case)]
pub struct ProbeCommitControls {
    pub bmHint: ProbeHint,
    pub bFormatIndex: u8,
    pub bFrameIndex: u8,
    /// In units of 100 ns.
    pub dwFrameInterval: u32,
    pub wKeyFrameRate: u16,
    pub wPFrameRate: u16,
    pub wCompQuality: u16,
    pub wCompWindowSize: u16,
    pub wDelay: u16,
    pub dwMaxVideoFrameSize: u32,
    pub dwMaxPayloadTransferSize: u32,
}

impl ProbeCommitControls {
    /// The controls with every field 0.
    pub open spec fn spec_zeroed() -> ProbeCommitControls {
        ProbeCommitControls {
            bmHint: ProbeHint::spec_from_bits(0),
            bFormatIndex: 0,
            bFrameIndex: 0,
            dwFrameInterval: 0,
            wKeyFrameRate: 0,
            wPFrameRate: 0,
            wCompQuality: 0,
            wCompWindowSize: 0,
            wDelay: 0,
            dwMaxVideoFrameSize: 0,
            dwMaxPayloadTransferSize: 0,
        }
    }
}

impl ProbeCommitControls {
    /// Where each field lies in the encoding.
    pub proof fn lemma_encode_bytes(&self)
        ensures
            self.spec_encode().len() == 26,
            self.spec_encode().subrange(0, 2) == le16_bytes(self.bmHint.spec_bits()),
            self.spec_encode()[2] == self.bFormatIndex,
            self.spec_encode()[3] == self.bFrameIndex,
            self.spec_encode().subrange(4, 8) == le32_bytes(self.dwFrameInterval),
            self.spec_encode().subrange(8, 10) == le16_bytes(self.wKeyFrameRate),
            self.spec_encode().subrange(10, 12) == le16_bytes(self.wPFrameRate),
            self.spec_encode().subrange(12, 14) == le16_bytes(self.wCompQuality),
            self.spec_encode().subrange(14, 16) == le16_bytes(self.wCompWindowSize),
            self.spec_encode().subrange(16, 18) == le16_bytes(self.wDelay),
            self.spec_encode().subrange(18, 22) == le32_bytes(self.dwMaxVideoFrameSize),
            self.spec_encode().subrange(22, 26) == le32_bytes(self.dwMaxPayloadTransferSize),
    {
        let e = self.spec_encode();
        assert(e.subrange(0, 2) =~= le16_bytes(self.bmHint.spec_bits()));
        assert(e.subrange(4, 8) =~= le32_bytes(self.dwFrameInterval));
        assert(e.subrange(8, 10) =~= le16_bytes(self.wKeyFrameRate));
        assert(e.subrange(10, 12) =~= le16_bytes(self.wPFrameRate));
        assert(e.subrange(12, 14) =~= le16_bytes(self.wCompQuality));
        assert(e.subrange(14, 16) =~= le16_bytes(self.wCompWindowSize));
        assert(e.subrange(16, 18) =~= le16_bytes(self.wDelay));
        assert(e.subrange(18, 22) =~= le32_bytes(self.dwMaxVideoFrameSize));
        assert(e.subrange(22, 26) =~= le32_bytes(self.dwMaxPayloadTransferSize));
    }
}

impl Default for ProbeCommitControls {
    fn default() -> (r: ProbeCommitControls)
        ensures
            r == ProbeCommitControls::spec_zeroed(),
    {
        ProbeCommitControls {
            bmHint: ProbeHint::empty(),
            bFormatIndex: 0,
            bFrameIndex: 0,
            dwFrameInterval: 0,
            wKeyFrameRate: 0,
            wPFrameRate: 0,
            wCompQuality: 0,
            wCompWindowSize: 0,
            wDelay: 0,
            dwMaxVideoFrameSize: 0,
            dwMaxPayloadTransferSize: 0,
        }
    }
}

impl ControlValue for ProbeCommitControls {
    open spec fn wire_size() -> nat {
        26
    }

    /// The hint keeps all 16 bits of the buffer, also those that stand for no flag.
    open spec fn spec_decode(buf: Seq<u8>) -> ProbeCommitControls {
        ProbeCommitControls {
            bmHint: ProbeHint::spec_from_bits(le16(buf[0], buf[1])),
            bFormatIndex: buf[2],
            bFrameIndex: buf[3],
            dwFrameInterval: le32(buf[4], buf[5], buf[6], buf[7]),
            wKeyFrameRate: le16(buf[8], buf[9]),
            wPFrameRate: le16(buf[10], buf[11]),
            wCompQuality: le16(buf[12], buf[13]),
            wCompWindowSize: le16(buf[14], buf[15]),
            wDelay: le16(buf[16], buf[17]),
            dwMaxVideoFrameSize: le32(buf[18], buf[19], buf[20], buf[21]),
            dwMaxPayloadTransferSize: le32(buf[22], buf[23], buf[24], buf[25]),
        }
    }

    open spec fn spec_encode(&self) -> Seq<u8> {
        le16_bytes(self.bmHint.spec_bits()) + seq![self.bFormatIndex, self.bFrameIndex]
            + le32_bytes(self.dwFrameInterval) + le16_bytes(self.wKeyFrameRate) + le16_bytes(
            self.wPFrameRate,
        ) + le16_bytes(self.wCompQuality) + le16_bytes(self.wCompWindowSize) + le16_bytes(
            self.wDelay,
        ) + le32_bytes(self.dwMaxVideoFrameSize) + le32_bytes(self.dwMaxPayloadTransferSize)
    }

    open spec fn wire_valid(&self) -> bool {
        true
    }

    open spec fn canonical(buf: Seq<u8>) -> Seq<u8> {
        buf
    }

    fn size() -> (n: usize) {
        PROBE_COMMIT_SIZE
    }

    fn decode(buf: &[u8]) -> (v: ProbeCommitControls) {
        ProbeCommitControls {
            bmHint: ProbeHint { bits: get_le16(buf, 0) },
            bFormatIndex: buf[2],
            bFrameIndex: buf[3],
            dwFrameInterval: get_le32(buf, 4),
            wKeyFrameRate: get_le16(buf, 8),
            wPFrameRate: get_le16(buf, 10),
            wCompQuality: get_le16(buf, 12),
            wCompWindowSize: get_le16(buf, 14),
            wDelay: get_le16(buf, 16),
            dwMaxVideoFrameSize: get_le32(buf, 18),
            dwMaxPayloadTransferSize: get_le32(buf, 22),
        }
    }

    fn encode(&self, buf: &mut [u8]) {
        put_le16(buf, 0, self.bmHint.bits());
        buf[2] = self.bFormatIndex;
        buf[3] = self.bFrameIndex;
        put_le32(buf, 4, self.dwFrameInterval);
        put_le16(buf, 8, self.wKeyFrameRate);
        put_le16(buf, 10, self.wPFrameRate);
        put_le16(buf, 12, self.wCompQuality);
        put_le16(buf, 14, self.wCompWindowSize);
        put_le16(buf, 16, self.wDelay);
        put_le32(buf, 18, self.dwMaxVideoFrameSize);
        put_le32(buf, 22, self.dwMaxPayloadTransferSize);
        assert(buf@ =~= self.spec_encode());
    }

    fn is_well_formed(buf: &[u8]) -> (r: bool) {
        true
    }

    proof fn lemma_encode_len(&self) {
    }

    proof fn lemma_decode_encode(&self) {
        let enc = self.spec_encode();
        self.lemma_encode_bytes();
        lemma_le16_of_number(self.bmHint.spec_bits());
        lemma_le32_of_number(self.dwFrameInterval);
        lemma_le16_of_number(self.wKeyFrameRate);
        lemma_le16_of_number(self.wPFrameRate);
        lemma_le16_of_number(self.wCompQuality);
        lemma_le16_of_number(self.wCompWindowSize);
        lemma_le16_of_number(self.wDelay);
        lemma_le32_of_number(self.dwMaxVideoFrameSize);
        lemma_le32_of_number(self.dwMaxPayloadTransferSize);
        assert(Self::spec_decode(enc).bmHint == self.bmHint);
    }

    proof fn lemma_encode_decode(buf: Seq<u8>) {
        let v = Self::spec_decode(buf);
        v.lemma_encode_bytes();
        lemma_le16_of_bytes(buf[0], buf[1]);
        lemma_le32_of_bytes(buf[4], buf[5], buf[6], buf[7]);
        lemma_le16_of_bytes(buf[8], buf[9]);
        lemma_le16_of_bytes(buf[10], buf[11]);
        lemma_le16_of_bytes(buf[12], buf[13]);
        lemma_le16_of_bytes(buf[14], buf[15]);
        lemma_le16_of_bytes(buf[16], buf[17]);
        lemma_le32_of_bytes(buf[18], buf[19], buf[20], buf[21]);
        lemma_le32_of_bytes(buf[22], buf[23], buf[24], buf[25]);
        assert(v.spec_encode() =~= buf);
    }
}

/// A buffer of the length of the probe and commit controls.
#[derive(Clone, Copy, Debug)]
pub struct ProbeCommitControlsBuf(pub [u8; 26]);

impl Default for ProbeCommitControlsBuf {
    fn default() -> (r: ProbeCommitControlsBuf)
        ensures
            r.0@ == Seq::new(26, |i: int| 0u8),
    {
        let r = ProbeCommitControlsBuf([0u8; 26]);
        assert(r.0@ =~= Seq::new(26, |i: int| 0u8));
        r
    }
}

} // verus!
