//! Big-endian wire codec for the fixed-width identifiers.
//!
//! Every identifier is encoded as an unsigned big-endian integer at the width
//! declared for its type: no padding, no length prefix, no tag byte. Writing
//! goes through [`ByteSink`], a byte buffer with a fixed capacity; the only
//! write failure is exhausting that capacity, and a failed write leaves the
//! sink untouched. Reading is from a plain byte slice; the only read failure
//! is a source holding fewer bytes than the width asks for.
use vstd::prelude::*;

verus! {

/// The failures of the wire codec, and of nothing else: an open enumeration
/// value itself has no invalid state, so decoding can only fail for want of
/// bytes and encoding for want of room.
#[derive(Clone, Copy, Debug, PartialEq, Eq, Structural)]
pub enum CodecError {
    /// The source ended before a whole fixed-width integer could be read.
    Truncated,
    /// The sink lacks room for a whole fixed-width integer.
    BufferTooSmall,
}

/// The big-endian encoding of an 8-bit value: the byte itself.
pub open spec fn spec_be_bytes8(v: u8) -> Seq<u8> {
    seq![v]
}

/// The big-endian encoding of a 16-bit value: high byte first.
pub open spec fn spec_be_bytes16(v: u16) -> Seq<u8> {
    seq![(v >> 8) as u8, (v & 0xff) as u8]
}

/// The big-endian encoding of a 32-bit value: highest byte first.
pub open spec fn spec_be_bytes32(v: u32) -> Seq<u8> {
    seq![
        (v >> 24) as u8,
        ((v >> 16) & 0xff) as u8,
        ((v >> 8) & 0xff) as u8,
        (v & 0xff) as u8,
    ]
}

/// The 8-bit value read back from a big-endian encoding.
pub open spec fn spec_be_value8(s: Seq<u8>) -> u8
    recommends
        s.len() == 1,
{
    s[0]
}

/// The 16-bit value read back from a big-endian encoding.
pub open spec fn spec_be_value16(s: Seq<u8>) -> u16
    recommends
        s.len() == 2,
{
    ((s[0] as u16) << 8) | (s[1] as u16)
}

/// The 32-bit value read back from a big-endian encoding.
pub open spec fn spec_be_value32(s: Seq<u8>) -> u32
    recommends
        s.len() == 4,
{
    ((s[0] as u32) << 24) | ((s[1] as u32) << 16) | ((s[2] as u32) << 8) | (s[3] as u32)
}

/// Round trip at width 8: a value marshaled big-endian and unmarshaled again
/// is unchanged.
pub proof fn lemma_be_round_trip8(v: u8)
    ensures
        spec_be_value8(spec_be_bytes8(v)) == v,
{
}

/// Round trip at width 16: a value marshaled big-endian and unmarshaled again
/// is unchanged.
pub proof fn lemma_be_round_trip16(v: u16)
    ensures
        spec_be_value16(spec_be_bytes16(v)) == v,
{
    let hi = (v >> 8) as u8;
    let lo = (v & 0xff) as u8;
    assert((((hi as u16) << 8) | (lo as u16)) == v) by (bit_vector)
        requires
            hi == (v >> 8) as u8 && lo == (v & 0xff) as u8,
    ;
}

/// Round trip at width 32: a value marshaled big-endian and unmarshaled again
/// is unchanged.
pub proof fn lemma_be_round_trip32(v: u32)
    ensures
        spec_be_value32(spec_be_bytes32(v)) == v,
{
    let b0 = (v >> 24) as u8;
    let b1 = ((v >> 16) & 0xff) as u8;
    let b2 = ((v >> 8) & 0xff) as u8;
    let b3 = (v & 0xff) as u8;
    assert((((b0 as u32) << 24) | ((b1 as u32) << 16) | ((b2 as u32) << 8) | (b3 as u32)) == v)
        by (bit_vector)
        requires
            b0 == (v >> 24) as u8 && b1 == ((v >> 16) & 0xff) as u8 && b2 == ((v >> 8) & 0xff) as u8
                && b3 == (v & 0xff) as u8,
    ;
}

/// A byte sink of fixed capacity. Writes append; a write that would pass the
/// capacity fails whole, leaving the contents as they were.
pub struct ByteSink {
    /// The bytes written so far.
    pub data: Vec<u8>,
    /// The fixed number of bytes this sink will hold.
    pub capacity: usize,
}

impl ByteSink {
    /// How many more bytes fit.
    pub open spec fn spec_remaining(&self) -> nat {
        if self.data@.len() >= self.capacity {
            0
        } else {
            (self.capacity - self.data@.len()) as nat
        }
    }

    /// An empty sink that will accept `capacity` bytes.
    pub fn new(capacity: usize) -> (r: ByteSink)
        ensures
            r.data@ == Seq::<u8>::empty(),
            r.capacity == capacity,
    {
        ByteSink { data: Vec::new(), capacity }
    }

    /// The number of bytes written so far.
    pub fn len(&self) -> (r: usize)
        ensures
            r == self.data@.len(),
    {
        self.data.len()
    }

    /// How many more bytes fit.
    pub fn remaining(&self) -> (r: usize)
        ensures
            r == self.spec_remaining(),
    {
        if self.data.len() >= self.capacity {
            0
        } else {
            self.capacity - self.data.len()
        }
    }

    /// Gives up the sink for the bytes written into it.
    pub fn into_vec(self) -> (r: Vec<u8>)
        ensures
            r@ == self.data@,
    {
        self.data
    }

    /// Appends one byte, whole or not at all.
    pub fn write_u8(&mut self, v: u8) -> (r: Result<(), CodecError>)
        ensures
            final(self).capacity == old(self).capacity,
            old(self).spec_remaining() >= 1 ==> r == Ok::<(), CodecError>(())
                && final(self).data@ == old(self).data@ + spec_be_bytes8(v),
            old(self).spec_remaining() < 1 ==> r == Err::<(), CodecError>(CodecError::BufferTooSmall)
                && final(self).data@ == old(self).data@,
    {
        if self.remaining() < 1 {
            return Err(CodecError::BufferTooSmall);
        }
        self.data.push(v);
        assert(self.data@ =~= old(self).data@ + spec_be_bytes8(v));
        Ok(())
    }

    /// Appends a 16-bit value big-endian, whole or not at all.
    pub fn write_be_u16(&mut self, v: u16) -> (r: Result<(), CodecError>)
        ensures
            final(self).capacity == old(self).capacity,
            old(self).spec_remaining() >= 2 ==> r == Ok::<(), CodecError>(())
                && final(self).data@ == old(self).data@ + spec_be_bytes16(v),
            old(self).spec_remaining() < 2 ==> r == Err::<(), CodecError>(CodecError::BufferTooSmall)
                && final(self).data@ == old(self).data@,
    {
        if self.remaining() < 2 {
            return Err(CodecError::BufferTooSmall);
        }
        self.data.push((v >> 8) as u8);
        self.data.push((v & 0xff) as u8);
        assert(self.data@ =~= old(self).data@ + spec_be_bytes16(v));
        Ok(())
    }

    /// Appends a 32-bit value big-endian, whole or not at all.
    pub fn write_be_u32(&mut self, v: u32) -> (r: Result<(), CodecError>)
        ensures
            final(self).capacity == old(self).capacity,
            old(self).spec_remaining() >= 4 ==> r == Ok::<(), CodecError>(())
                && final(self).data@ == old(self).data@ + spec_be_bytes32(v),
            old(self).spec_remaining() < 4 ==> r == Err::<(), CodecError>(CodecError::BufferTooSmall)
                && final(self).data@ == old(self).data@,
    {
        if self.remaining() < 4 {
            return Err(CodecError::BufferTooSmall);
        }
        self.data.push((v >> 24) as u8);
        self.data.push(((v >> 16) & 0xff) as u8);
        self.data.push(((v >> 8) & 0xff) as u8);
        self.data.push((v & 0xff) as u8);
        assert(self.data@ =~= old(self).data@ + spec_be_bytes32(v));
        Ok(())
    }
}

/// Reads one byte at `offset` and returns it with the offset just past it;
/// fails with [`CodecError::Truncated`] when the source holds fewer than
/// `offset + 1` bytes.
pub fn read_u8(buf: &[u8], offset: usize) -> (r: Result<(u8, usize), CodecError>)
    ensures
        offset + 1 <= buf@.len() ==> r == Ok::<(u8, usize), CodecError>(
            (spec_be_value8(buf@.subrange(offset as int, offset + 1)), (offset + 1) as usize),
        ),
        offset + 1 > buf@.len() ==> r == Err::<(u8, usize), CodecError>(CodecError::Truncated),
{
    if buf.len() < 1 || offset > buf.len() - 1 {
        return Err(CodecError::Truncated);
    }
    Ok((buf[offset], offset + 1))
}

/// Reads a big-endian 16-bit value at `offset` and returns it with the offset
/// just past it; fails with [`CodecError::Truncated`] when the source holds
/// fewer than `offset + 2` bytes.
pub fn read_be_u16(buf: &[u8], offset: usize) -> (r: Result<(u16, usize), CodecError>)
    ensures
        offset + 2 <= buf@.len() ==> r == Ok::<(u16, usize), CodecError>(
            (spec_be_value16(buf@.subrange(offset as int, offset + 2)), (offset + 2) as usize),
        ),
        offset + 2 > buf@.len() ==> r == Err::<(u16, usize), CodecError>(CodecError::Truncated),
{
    if buf.len() < 2 || offset > buf.len() - 2 {
        return Err(CodecError::Truncated);
    }
    let hi = buf[offset];
    let lo = buf[offset + 1];
    Ok((((hi as u16) << 8) | (lo as u16), offset + 2))
}

/// Reads a big-endian 32-bit value at `offset` and returns it with the offset
/// just past it; fails with [`CodecError::Truncated`] when the source holds
/// fewer than `offset + 4` bytes.
pub fn read_be_u32(buf: &[u8], offset: usize) -> (r: Result<(u32, usize), CodecError>)
    ensures
        offset + 4 <= buf@.len() ==> r == Ok::<(u32, usize), CodecError>(
            (spec_be_value32(buf@.subrange(offset as int, offset + 4)), (offset + 4) as usize),
        ),
        offset + 4 > buf@.len() ==> r == Err::<(u32, usize), CodecError>(CodecError::Truncated),
{
    if buf.len() < 4 || offset > buf.len() - 4 {
        return Err(CodecError::Truncated);
    }
    let b0 = buf[offset];
    let b1 = buf[offset + 1];
    let b2 = buf[offset + 2];
    let b3 = buf[offset + 3];
    Ok((((b0 as u32) << 24) | ((b1 as u32) << 16) | ((b2 as u32) << 8) | (b3 as u32), offset + 4))
}

} // verus!
