//! Reading descriptor bytes: splitting a block into descriptors, and a cursor that reads
//! the little-endian fields of one descriptor.

use crate::error::{ErrorKind, IoError, ParseError};
use crate::topo::{SourceId, TermId, UnitId};
use std::time::Duration;
use uuid::Uuid;
use vstd::prelude::*;
use vstd::slice::{slice_subrange, slice_to_vec};

verus! {

/// The 16-bit number whose little-endian bytes are `b0`, `b1`.
pub open spec fn le16(b0: u8, b1: u8) -> u16 {
    (b0 as int + 256 * (b1 as int)) as u16
}

/// The 32-bit number whose little-endian bytes are `b0`, `b1`, `b2`, `b3`.
pub open spec fn le32(b0: u8, b1: u8, b2: u8, b3: u8) -> u32 {
    (b0 as int + 256 * (b1 as int) + 65536 * (b2 as int) + 16777216 * (b3 as int)) as u32
}

/// The little-endian 16-bit number at offset `at` of `s`.
pub open spec fn le16_at(s: Seq<u8>, at: int) -> u16 {
    le16(s[at], s[at + 1])
}

/// The little-endian 32-bit number at offset `at` of `s`.
pub open spec fn le32_at(s: Seq<u8>, at: int) -> u32 {
    le32(s[at], s[at + 1], s[at + 2], s[at + 3])
}

/// Byte `i` of the `n`-byte field at offset `at` of `s`, or 0 past the field's end.
pub open spec fn field_byte(s: Seq<u8>, at: int, n: int, i: int) -> u8 {
    if i < n {
        s[at + i]
    } else {
        0
    }
}

/// The bitmask that the `n` bytes at offset `at` of `s` hold: little-endian, extended with
/// zeros to 32 bits; bytes after the fourth do not count.
pub open spec fn bitmask_at(s: Seq<u8>, at: int, n: int) -> u32 {
    le32(
        field_byte(s, at, n, 0),
        field_byte(s, at, n, 1),
        field_byte(s, at, n, 2),
        field_byte(s, at, n, 3),
    )
}

/// The 16 bytes of the UUID that a GUID at offset `at` of `s` encodes. A descriptor holds
/// the first three groups of a GUID as little-endian numbers and the rest as plain bytes; a
/// UUID holds all of them most significant byte first.
pub open spec fn guid_at(s: Seq<u8>, at: int) -> Seq<u8> {
    seq![
        s[at + 3],
        s[at + 2],
        s[at + 1],
        s[at],
        s[at + 5],
        s[at + 4],
        s[at + 7],
        s[at + 6],
        s[at + 8],
        s[at + 9],
        s[at + 10],
        s[at + 11],
        s[at + 12],
        s[at + 13],
        s[at + 14],
        s[at + 15],
    ]
}

/// The number of nanoseconds that `units` units of 100 ns last.
pub open spec fn nanos_of_100ns(units: u32) -> nat {
    (units as nat) * 100
}

/// `uuid::Uuid`, as which the GUIDs of descriptors are kept. Nothing is known of a value
/// but what `uuid_bytes` says of it.
#[verifier::external_type_specification]
#[verifier::external_body]
pub struct ExUuid(Uuid);

/// The 16 bytes that a `uuid::Uuid` holds, in the order in which `Uuid::as_bytes` gives
/// them: most significant first.
pub uninterp spec fn uuid_bytes(id: Uuid) -> Seq<u8>;

/// The length of a `std::time::Duration` in nanoseconds: what `Duration::as_nanos` gives.
pub uninterp spec fn duration_nanos(d: Duration) -> nat;

/// The bytes of the UUID with the groups `d1`, `d2`, `d3` and the trailing bytes `d4`.
pub open spec fn uuid_fields(d1: u32, d2: u16, d3: u16, d4: Seq<u8>) -> Seq<u8> {
    seq![
        (d1 >> 24) as u8,
        (d1 >> 16) as u8,
        (d1 >> 8) as u8,
        d1 as u8,
        (d2 >> 8) as u8,
        d2 as u8,
        (d3 >> 8) as u8,
        d3 as u8,
        d4[0],
        d4[1],
        d4[2],
        d4[3],
        d4[4],
        d4[5],
        d4[6],
        d4[7],
    ]
}

/// `byteorder::LittleEndian::read_u16`: the first two bytes of `buf` as a little-endian
/// number. The crate panics on a shorter buffer, which `requires` rules out.
#[verifier::external_body]
fn le_read_u16(buf: &[u8]) -> (v: u16)
    requires
        buf@.len() >= 2,
    ensures
        v == le16(buf@[0], buf@[1]),
{
    <byteorder::LittleEndian as byteorder::ByteOrder>::read_u16(buf)
}

/// `byteorder::LittleEndian::read_u32`: the first four bytes of `buf` as a little-endian
/// number. The crate panics on a shorter buffer, which `requires` rules out.
#[verifier::external_body]
fn le_read_u32(buf: &[u8]) -> (v: u32)
    requires
        buf@.len() >= 4,
    ensures
        v == le32(buf@[0], buf@[1], buf@[2], buf@[3]),
{
    <byteorder::LittleEndian as byteorder::ByteOrder>::read_u32(buf)
}

/// `uuid::Uuid::from_fields`: the UUID whose bytes are `d1`, `d2` and `d3`, each most
/// significant byte first, followed by the eight bytes of `d4`. The crate reports an error
/// for a `d4` of another length, which `requires` rules out.
#[verifier::external_body]
fn uuid_from_fields(d1: u32, d2: u16, d3: u16, d4: &[u8]) -> (id: Uuid)
    requires
        d4@.len() == 8,
    ensures
        uuid_bytes(id) == uuid_fields(d1, d2, d3, d4@),
{
    Uuid::from_fields(d1, d2, d3, d4).unwrap()
}

/// `Duration::from_nanos`: the duration of `nanos` nanoseconds.
pub assume_specification[ Duration::from_nanos ](nanos: u64) -> (d: Duration)
    ensures
        duration_nanos(d) == nanos,
;

/// `Duration::from_micros`: the duration of `micros` microseconds.
pub assume_specification[ Duration::from_micros ](micros: u64) -> (d: Duration)
    ensures
        duration_nanos(d) == micros * 1000,
;

/// `Duration::as_micros`: the whole microseconds of a duration.
pub assume_specification[ Duration::as_micros ](d: &Duration) -> (micros: u128)
    ensures
        micros == duration_nanos(*d) / 1000,
;

/// `Duration::as_nanos`: the nanoseconds of a duration.
pub assume_specification[ Duration::as_nanos ](d: &Duration) -> (nanos: u128)
    ensures
        nanos == duration_nanos(*d),
;

/// The UUID bytes of a GUID are its descriptor bytes with the first three groups reversed.
proof fn lemma_guid_fields(s: Seq<u8>, at: int)
    requires
        0 <= at,
        at + 16 <= s.len(),
    ensures
        uuid_fields(le32_at(s, at), le16_at(s, at + 4), le16_at(s, at + 6), s.subrange(at + 8, at + 16))
            == guid_at(s, at),
{
    let b0 = s[at];
    let b1 = s[at + 1];
    let b2 = s[at + 2];
    let b3 = s[at + 3];
    let d1 = le32(b0, b1, b2, b3);
    assert(d1 == (b0 as u32) + 256 * (b1 as u32) + 65536 * (b2 as u32) + 16777216 * (b3 as u32));
    assert((d1 >> 24) as u8 == b3 && (d1 >> 16) as u8 == b2 && (d1 >> 8) as u8 == b1 && d1 as u8
        == b0) by (bit_vector)
        requires
            d1 == (b0 as u32) + 256 * (b1 as u32) + 65536 * (b2 as u32) + 16777216 * (b3 as u32),
    ;
    let c0 = s[at + 4];
    let c1 = s[at + 5];
    let d2 = le16(c0, c1);
    assert(d2 == (c0 as u16) + 256 * (c1 as u16));
    assert((d2 >> 8) as u8 == c1 && d2 as u8 == c0) by (bit_vector)
        requires
            d2 == (c0 as u16) + 256 * (c1 as u16),
    ;
    let e0 = s[at + 6];
    let e1 = s[at + 7];
    let d3 = le16(e0, e1);
    assert(d3 == (e0 as u16) + 256 * (e1 as u16));
    assert((d3 >> 8) as u8 == e1 && d3 as u8 == e0) by (bit_vector)
        requires
            d3 == (e0 as u16) + 256 * (e1 as u16),
    ;
    assert(uuid_fields(d1, d2, d3, s.subrange(at + 8, at + 16)) =~= guid_at(s, at));
}

/// The descriptors of a block, in order, each with its two-byte prefix. A descriptor starts
/// with its own length; the block ends where fewer than two bytes are left, or where a
/// length is below 2 or reaches past the end of the data.
pub open spec fn spec_split(raw: Seq<u8>) -> Seq<Seq<u8>>
    decreases raw.len(),
{
    if raw.len() >= 2 && 2 <= raw[0] <= raw.len() {
        seq![raw.take(raw[0] as int)] + spec_split(raw.skip(raw[0] as int))
    } else {
        Seq::empty()
    }
}

/// What `split_descriptors` hands out for the descriptor `d`: its type and its bytes.
pub open spec fn is_descriptor(item: (u8, &[u8]), d: Seq<u8>) -> bool {
    item.0 == d[1] && item.1@ == d
}

/// Every descriptor of a block has at least its two-byte prefix and at most 255 bytes.
pub proof fn lemma_split_lengths(raw: Seq<u8>)
    ensures
        forall|i: int|
            0 <= i < spec_split(raw).len() ==> 2 <= (#[trigger] spec_split(raw)[i]).len() <= 255,
    decreases raw.len(),
{
    if raw.len() >= 2 && 2 <= raw[0] <= raw.len() {
        let rest = raw.skip(raw[0] as int);
        lemma_split_lengths(rest);
        assert forall|i: int| 0 <= i < spec_split(raw).len() implies 2 <= (
        #[trigger] spec_split(raw)[i]).len() <= 255 by {
            if i > 0 {
                assert(spec_split(raw)[i] == spec_split(rest)[i - 1]);
            }
        }
    }
}

/// Splits a block of descriptors into `(bDescriptorType, bytes)` pairs, the bytes of each
/// including its two-byte prefix.
pub fn split_descriptors<'a>(raw: &'a [u8]) -> (r: Vec<(u8, &'a [u8])>)
    ensures
        r@.len() == spec_split(raw@).len(),
        forall|i: int| 0 <= i < r@.len() ==> is_descriptor(#[trigger] r@[i], spec_split(raw@)[i]),
{
    let mut out: Vec<(u8, &'a [u8])> = Vec::new();
    let mut pos: usize = 0;
    let ghost mut done: Seq<Seq<u8>> = Seq::empty();
    assert(raw@.skip(0) =~= raw@);
    assert(done + spec_split(raw@) =~= spec_split(raw@));
    loop
        invariant
            pos <= raw@.len(),
            out@.len() == done.len(),
            forall|i: int| 0 <= i < out@.len() ==> is_descriptor(#[trigger] out@[i], done[i]),
            spec_split(raw@) == done + spec_split(raw@.skip(pos as int)),
        ensures
            out@.len() == spec_split(raw@).len(),
            forall|i: int|
                0 <= i < out@.len() ==> is_descriptor(#[trigger] out@[i], spec_split(raw@)[i]),
        decreases raw@.len() - pos,
    {
        let ghost rest = raw@.skip(pos as int);
        if raw.len() - pos < 2 {
            assert(spec_split(rest) =~= Seq::empty());
            assert(done + spec_split(rest) =~= done);
            break ;
        }
        let length: usize = raw[pos] as usize;
        assert(rest[0] == raw@[pos as int]);
        if length < 2 || length > raw.len() - pos {
            assert(spec_split(rest) =~= Seq::empty());
            assert(done + spec_split(rest) =~= done);
            break ;
        }
        let descriptor_type: u8 = raw[pos + 1];
        let data = slice_subrange(raw, pos, pos + length);
        proof {
            let d = rest.take(length as int);
            assert(data@ =~= d);
            assert(d[1] == raw@[pos + 1]);
            assert(rest.skip(length as int) =~= raw@.skip(pos + length));
            assert(spec_split(rest) == seq![d] + spec_split(rest.skip(length as int)));
            assert(done + (seq![d] + spec_split(rest.skip(length as int))) =~= done.push(d)
                + spec_split(raw@.skip(pos + length)));
            done = done.push(d);
        }
        out.push((descriptor_type, data));
        pos = pos + length;
    }
    out
}

/// `raw` followed by `extra` zero bytes.
pub open spec fn spec_zero_extended(raw: Seq<u8>, extra: nat) -> Seq<u8> {
    raw + Seq::new(extra, |i: int| 0u8)
}

/// Copies `raw` and appends `extra` zero bytes.
pub fn zero_extended(raw: &[u8], extra: usize) -> (buf: Vec<u8>)
    requires
        raw@.len() + extra <= usize::MAX,
    ensures
        buf@ == spec_zero_extended(raw@, extra as nat),
{
    let mut buf: Vec<u8> = Vec::new();
    let mut i: usize = 0;
    while i < raw.len()
        invariant
            i <= raw@.len(),
            buf@ == raw@.take(i as int),
        decreases raw@.len() - i,
    {
        buf.push(raw[i]);
        assert(buf@ =~= raw@.take(i + 1));
        i = i + 1;
    }
    assert(raw@.take(i as int) =~= raw@);
    let mut k: usize = 0;
    while k < extra
        invariant
            k <= extra,
            buf@ == spec_zero_extended(raw@, k as nat),
        decreases extra - k,
    {
        buf.push(0u8);
        assert(buf@ =~= spec_zero_extended(raw@, (k + 1) as nat));
        k = k + 1;
    }
    buf
}

/// A cursor over the bytes of one descriptor. Every read either succeeds and moves the
/// cursor past what it read, or fails and leaves the cursor where it was.
pub struct Reader<'a> {
    pub data: &'a [u8],
    pub pos: usize,
}

impl<'a> Reader<'a> {
    /// The cursor lies within the data.
    pub open spec fn wf(&self) -> bool {
        self.pos <= self.data@.len()
    }

    /// The number of bytes not yet read.
    pub open spec fn remaining(&self) -> int {
        self.data@.len() - self.pos
    }

    /// The cursor `n` bytes further on in the same data.
    pub open spec fn advanced(&self, n: int) -> Reader<'a> {
        Reader { data: self.data, pos: (self.pos + n) as usize }
    }

    /// A cursor at the start of `data`.
    pub fn new(data: &'a [u8]) -> (r: Self)
        ensures
            r == (Reader { data, pos: 0 }),
            r.wf(),
    {
        Reader { data, pos: 0 }
    }

    /// Reads one byte.
    pub fn read_u8(&mut self) -> (r: Result<u8, ErrorKind>)
        requires
            old(self).wf(),
        ensures
            final(self).wf(),
            old(self).remaining() >= 1 ==> r == Ok::<u8, ErrorKind>(old(self).data@[old(self).pos as int])
                && *final(self) == old(self).advanced(1),
            old(self).remaining() < 1 ==> r == Err::<u8, ErrorKind>(ErrorKind::unexpected_end())
                && *final(self) == *old(self),
    {
        if self.data.len() - self.pos < 1 {
            return Err(ErrorKind::Io(IoError::UnexpectedEnd));
        }
        let v = self.data[self.pos];
        self.pos = self.pos + 1;
        Ok(v)
    }

    /// Reads a little-endian 16-bit number.
    pub fn read_u16(&mut self) -> (r: Result<u16, ErrorKind>)
        requires
            old(self).wf(),
        ensures
            final(self).wf(),
            old(self).remaining() >= 2 ==> r == Ok::<u16, ErrorKind>(
                le16_at(old(self).data@, old(self).pos as int),
            ) && *final(self) == old(self).advanced(2),
            old(self).remaining() < 2 ==> r == Err::<u16, ErrorKind>(ErrorKind::unexpected_end())
                && *final(self) == *old(self),
    {
        if self.data.len() - self.pos < 2 {
            return Err(ErrorKind::Io(IoError::UnexpectedEnd));
        }
        let v = le_read_u16(slice_subrange(self.data, self.pos, self.pos + 2));
        self.pos = self.pos + 2;
        Ok(v)
    }

    /// Reads a little-endian 32-bit number.
    pub fn read_u32(&mut self) -> (r: Result<u32, ErrorKind>)
        requires
            old(self).wf(),
        ensures
            final(self).wf(),
            old(self).remaining() >= 4 ==> r == Ok::<u32, ErrorKind>(
                le32_at(old(self).data@, old(self).pos as int),
            ) && *final(self) == old(self).advanced(4),
            old(self).remaining() < 4 ==> r == Err::<u32, ErrorKind>(ErrorKind::unexpected_end())
                && *final(self) == *old(self),
    {
        if self.data.len() - self.pos < 4 {
            return Err(ErrorKind::Io(IoError::UnexpectedEnd));
        }
        let v = le_read_u32(slice_subrange(self.data, self.pos, self.pos + 4));
        self.pos = self.pos + 4;
        Ok(v)
    }

    /// Reads `n` bytes.
    pub fn read_bytes(&mut self, n: usize) -> (r: Result<Vec<u8>, ErrorKind>)
        requires
            old(self).wf(),
        ensures
            final(self).wf(),
            old(self).remaining() >= n ==> r is Ok && r->Ok_0@ == old(self).data@.subrange(
                old(self).pos as int,
                old(self).pos + n,
            ) && *final(self) == old(self).advanced(n as int),
            old(self).remaining() < n ==> r is Err && r->Err_0 == ErrorKind::unexpected_end()
                && *final(self) == *old(self),
    {
        if n > self.data.len() - self.pos {
            return Err(ErrorKind::Io(IoError::UnexpectedEnd));
        }
        let bytes = slice_to_vec(slice_subrange(self.data, self.pos, self.pos + n));
        self.pos = self.pos + n;
        Ok(bytes)
    }

    /// Reads a bitmask of `len` bytes, of which the first four count.
    pub fn read_bitmask(&mut self, len: u8) -> (r: Result<u32, ErrorKind>)
        requires
            old(self).wf(),
        ensures
            final(self).wf(),
            old(self).remaining() >= len ==> r == Ok::<u32, ErrorKind>(
                bitmask_at(old(self).data@, old(self).pos as int, len as int),
            ) && *final(self) == old(self).advanced(len as int),
            old(self).remaining() < len ==> r == Err::<u32, ErrorKind>(ErrorKind::unexpected_end())
                && *final(self) == *old(self),
    {
        let n: usize = len as usize;
        if n > self.data.len() - self.pos {
            return Err(ErrorKind::Io(IoError::UnexpectedEnd));
        }
        let b0: u32 = if n > 0 {
            self.data[self.pos] as u32
        } else {
            0
        };
        let b1: u32 = if n > 1 {
            self.data[self.pos + 1] as u32
        } else {
            0
        };
        let b2: u32 = if n > 2 {
            self.data[self.pos + 2] as u32
        } else {
            0
        };
        let b3: u32 = if n > 3 {
            self.data[self.pos + 3] as u32
        } else {
            0
        };
        self.pos = self.pos + n;
        Ok(b0 + 256 * b1 + 65536 * b2 + 16777216 * b3)
    }

    /// Reads a length byte `n`, then a bitmask of `n` bytes.
    pub fn read_length_prefixed_bitmask(&mut self) -> (r: Result<u32, ErrorKind>)
        requires
            old(self).wf(),
        ensures
            final(self).wf(),
            spec_has_prefixed(old(self).data@, old(self).pos as int) ==> r == Ok::<u32, ErrorKind>(
                bitmask_at(
                    old(self).data@,
                    old(self).pos + 1,
                    old(self).data@[old(self).pos as int] as int,
                ),
            ) && *final(self) == old(self).advanced(1 + old(self).data@[old(self).pos as int]),
            !spec_has_prefixed(old(self).data@, old(self).pos as int) ==> r == Err::<u32, ErrorKind>(
                ErrorKind::unexpected_end(),
            ) && *final(self) == *old(self),
    {
        if self.data.len() - self.pos < 1 {
            return Err(ErrorKind::Io(IoError::UnexpectedEnd));
        }
        let len = self.data[self.pos];
        if (len as usize) > self.data.len() - self.pos - 1 {
            return Err(ErrorKind::Io(IoError::UnexpectedEnd));
        }
        self.pos = self.pos + 1;
        self.read_bitmask(len)
    }

    /// Reads a source identifier, which must not be 0.
    pub fn read_nonzero_source_id(&mut self) -> (r: Result<SourceId, ErrorKind>)
        requires
            old(self).wf(),
        ensures
            final(self).wf(),
            r == spec_nonzero_id(
                old(self).data@,
                old(self).pos as int,
                ParseError::ZeroSourceId,
                |raw: u8| SourceId::from_raw(raw),
            ),
            *final(self) == (if r is Ok {
                old(self).advanced(1)
            } else {
                *old(self)
            }),
    {
        if self.data.len() - self.pos < 1 {
            return Err(ErrorKind::Io(IoError::UnexpectedEnd));
        }
        match SourceId::new(self.data[self.pos]) {
            Some(id) => {
                self.pos = self.pos + 1;
                Ok(id)
            },
            None => Err(ErrorKind::Parse(ParseError::ZeroSourceId)),
        }
    }

    /// Reads a terminal identifier, which must not be 0.
    pub fn read_nonzero_term_id(&mut self) -> (r: Result<TermId, ErrorKind>)
        requires
            old(self).wf(),
        ensures
            final(self).wf(),
            r == spec_nonzero_id(
                old(self).data@,
                old(self).pos as int,
                ParseError::ZeroTerminalId,
                |raw: u8| TermId::from_raw(raw),
            ),
            *final(self) == (if r is Ok {
                old(self).advanced(1)
            } else {
                *old(self)
            }),
    {
        if self.data.len() - self.pos < 1 {
            return Err(ErrorKind::Io(IoError::UnexpectedEnd));
        }
        match TermId::new(self.data[self.pos]) {
            Some(id) => {
                self.pos = self.pos + 1;
                Ok(id)
            },
            None => Err(ErrorKind::Parse(ParseError::ZeroTerminalId)),
        }
    }

    /// Reads a unit identifier, which must not be 0.
    pub fn read_nonzero_unit_id(&mut self) -> (r: Result<UnitId, ErrorKind>)
        requires
            old(self).wf(),
        ensures
            final(self).wf(),
            r == spec_nonzero_id(
                old(self).data@,
                old(self).pos as int,
                ParseError::ZeroUnitId,
                |raw: u8| UnitId::from_raw(raw),
            ),
            *final(self) == (if r is Ok {
                old(self).advanced(1)
            } else {
                *old(self)
            }),
    {
        if self.data.len() - self.pos < 1 {
            return Err(ErrorKind::Io(IoError::UnexpectedEnd));
        }
        match UnitId::new(self.data[self.pos]) {
            Some(id) => {
                self.pos = self.pos + 1;
                Ok(id)
            },
            None => Err(ErrorKind::Parse(ParseError::ZeroUnitId)),
        }
    }

    /// Reads a GUID and returns it as a UUID.
    pub fn read_guid(&mut self) -> (r: Result<Uuid, ErrorKind>)
        requires
            old(self).wf(),
        ensures
            final(self).wf(),
            old(self).remaining() >= 16 ==> r is Ok && uuid_bytes(r->Ok_0) == guid_at(
                old(self).data@,
                old(self).pos as int,
            ) && *final(self) == old(self).advanced(16),
            old(self).remaining() < 16 ==> r == Err::<Uuid, ErrorKind>(ErrorKind::unexpected_end())
                && *final(self) == *old(self),
    {
        if self.data.len() - self.pos < 16 {
            return Err(ErrorKind::Io(IoError::UnexpectedEnd));
        }
        let d1 = le_read_u32(slice_subrange(self.data, self.pos, self.pos + 4));
        let d2 = le_read_u16(slice_subrange(self.data, self.pos + 4, self.pos + 6));
        let d3 = le_read_u16(slice_subrange(self.data, self.pos + 6, self.pos + 8));
        let id = uuid_from_fields(d1, d2, d3, slice_subrange(self.data, self.pos + 8, self.pos + 16));
        proof {
            lemma_guid_fields(self.data@, self.pos as int);
        }
        self.pos = self.pos + 16;
        Ok(id)
    }

    /// Reads a little-endian 32-bit count of 100 ns units and returns it as a duration.
    pub fn read_time_100ns(&mut self) -> (r: Result<Duration, ErrorKind>)
        requires
            old(self).wf(),
        ensures
            final(self).wf(),
            old(self).remaining() >= 4 ==> r is Ok && duration_nanos(r->Ok_0) == nanos_of_100ns(
                le32_at(old(self).data@, old(self).pos as int),
            ) && *final(self) == old(self).advanced(4),
            old(self).remaining() < 4 ==> r == Err::<Duration, ErrorKind>(
                ErrorKind::unexpected_end(),
            ) && *final(self) == *old(self),
    {
        match self.read_u32() {
            Ok(units) => Ok(Duration::from_nanos((units as u64) * 100)),
            Err(e) => Err(e),
        }
    }
}

/// Whether a length byte and the bytes it announces lie at offset `at` of `s`.
pub open spec fn spec_has_prefixed(s: Seq<u8>, at: int) -> bool {
    at + 1 <= s.len() && at + 1 + s[at] <= s.len()
}

/// What reading an identifier at offset `at` of `s` gives: the end of the data, the error
/// `zero` for a 0 byte, or the identifier that `make` builds from the byte.
pub open spec fn spec_nonzero_id<Id>(
    s: Seq<u8>,
    at: int,
    zero: ParseError,
    make: spec_fn(u8) -> Id,
) -> Result<Id, ErrorKind> {
    if at >= s.len() {
        Err(ErrorKind::unexpected_end())
    } else if s[at] == 0 {
        Err(ErrorKind::Parse(zero))
    } else {
        Ok(make(s[at]))
    }
}

/// A version number in binary-coded decimal, as descriptors hold it: major version in the
/// high byte, minor version in the low byte.
#[derive(Clone, Copy, Debug, PartialEq, Eq, Structural)]
pub struct BcdVersion(pub u16);

impl BcdVersion {
    /// The major version: the high byte.
    pub fn major(&self) -> (v: u8)
        ensures
            v == self.0 / 256,
    {
        (self.0 / 256) as u8
    }

    /// The minor version: the low byte.
    pub fn minor(&self) -> (v: u8)
        ensures
            v == self.0 % 256,
    {
        (self.0 % 256) as u8
    }
}

} // verus!
