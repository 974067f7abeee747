//! Byte-level codec cursors for the OpenRGB wire format.
//!
//! [`WriteMessage`] is an append-only output buffer and [`ReceivedMessage`] a
//! read cursor over an input buffer; both carry the protocol version
//! negotiated for the session, because the wire shape of several values
//! depends on it. All integers are little-endian. A read never goes past the
//! buffer end: a short buffer gives [`ProtocolError::Truncated`].

use vstd::prelude::*;

use crate::error::{OpenRgbError, OpenRgbResult, ProtocolError};

verus! {

/// The 16-bit value stored little-endian as the bytes `b0`, `b1`.
pub open spec fn le16(b0: u8, b1: u8) -> u16 {
    (b0 + b1 * 0x100) as u16
}

/// The two bytes of `x` in little-endian order.
pub open spec fn le16_bytes(x: u16) -> Seq<u8> {
    seq![(x % 0x100) as u8, (x / 0x100) as u8]
}

/// The 32-bit value stored little-endian as the bytes `b0` through `b3`.
pub open spec fn le32(b0: u8, b1: u8, b2: u8, b3: u8) -> u32 {
    (b0 + b1 * 0x100 + b2 * 0x10000 + b3 * 0x1000000) as u32
}

/// The four bytes of `x` in little-endian order.
pub open spec fn le32_bytes(x: u32) -> Seq<u8> {
    seq![
        (x % 0x100) as u8,
        ((x / 0x100) % 0x100) as u8,
        ((x / 0x10000) % 0x100) as u8,
        ((x / 0x1000000) % 0x100) as u8,
    ]
}

/// Writing a 16-bit value and reading it back gives the value again.
pub proof fn lemma_le16_round_trip(x: u16)
    ensures
        le16(le16_bytes(x)[0], le16_bytes(x)[1]) == x,
{
}

/// Writing a 32-bit value and reading it back gives the value again.
pub proof fn lemma_le32_round_trip(x: u32)
    ensures
        le32(le32_bytes(x)[0], le32_bytes(x)[1], le32_bytes(x)[2], le32_bytes(x)[3]) == x,
{
}

/// Serialization half of the wire codec: a type that can append its wire
/// form to a [`WriteMessage`].
///
/// The wire form is pinned down by `spec_enc` over the value's deep view;
/// `serialize` succeeds exactly on values the format can carry
/// (`spec_encodable`) and then appends exactly `spec_enc`.
pub trait SerToBuf: DeepView {
    /// The wire bytes of the view value `v` at protocol version `version`.
    spec fn spec_enc(v: Self::V, version: u32) -> Seq<u8>;

    /// Whether `v` fits the wire format: sequences and strings are bounded
    /// by their 16-bit length prefix.
    spec fn spec_encodable(v: Self::V, version: u32) -> bool;

    /// Appends the wire form of `self` to `buf`. Fails, leaving the buffer
    /// in an unspecified grown state, exactly when the value does not fit
    /// the format.
    fn serialize(&self, buf: &mut WriteMessage) -> (r: OpenRgbResult<()>)
        ensures
            final(buf).spec_version() == old(buf).spec_version(),
            r is Ok <==> Self::spec_encodable(self.deep_view(), old(buf).spec_version()),
            r is Ok ==> final(buf)@ == old(buf)@ + Self::spec_enc(
                self.deep_view(),
                old(buf).spec_version(),
            ),
            r matches Err(e) ==> e.is_protocol(),
    ;
}

impl<'x, T: SerToBuf + ?Sized> SerToBuf for &'x T {
    open spec fn spec_enc(v: T::V, version: u32) -> Seq<u8> {
        T::spec_enc(v, version)
    }

    open spec fn spec_encodable(v: T::V, version: u32) -> bool {
        T::spec_encodable(v, version)
    }

    fn serialize(&self, buf: &mut WriteMessage) -> (r: OpenRgbResult<()>) {
        (*self).serialize(buf)
    }
}

/// Deserialization half of the wire codec: a type that can be read from the
/// front of a [`ReceivedMessage`].
///
/// `spec_dec` pins down both the value (as a deep view) and the number of
/// bytes consumed; `deserialize` agrees with it on success and on failure.
pub trait DeserFromBuf: Sized + DeepView {
    /// The view value and consumed byte count that decoding reads from the
    /// front of `bytes` at protocol version `version`; `None` when decoding
    /// fails.
    spec fn spec_dec(bytes: Seq<u8>, version: u32) -> Option<(Self::V, int)>;

    /// Decoding consumes between zero and all of the bytes.
    proof fn lemma_dec_len(bytes: Seq<u8>, version: u32)
        ensures
            Self::spec_dec(bytes, version) matches Some(d) ==> 0 <= d.1 <= bytes.len(),
    ;

    /// Extending the buffer behind a successful decode changes nothing: the
    /// result depends only on the bytes consumed.
    proof fn lemma_dec_extend(bytes: Seq<u8>, bytes2: Seq<u8>, version: u32)
        requires
            Self::spec_dec(bytes, version) is Some,
            bytes.len() <= bytes2.len(),
            bytes2.take(bytes.len() as int) == bytes,
        ensures
            Self::spec_dec(bytes2, version) == Self::spec_dec(bytes, version),
    ;

    /// Reads one value from the cursor, advancing it by exactly the consumed
    /// bytes; fails with a protocol error exactly when `spec_dec` does.
    fn deserialize(buf: &mut ReceivedMessage<'_>) -> (r: OpenRgbResult<Self>)
        requires
            old(buf).wf(),
        ensures
            final(buf).wf(),
            final(buf).all_bytes() == old(buf).all_bytes(),
            final(buf).spec_version() == old(buf).spec_version(),
            old(buf).spec_idx() <= final(buf).spec_idx(),
            match r {
                Ok(v) => Self::spec_dec(old(buf).remaining(), old(buf).spec_version())
                    == Some((v.deep_view(), final(buf).spec_idx() - old(buf).spec_idx())),
                Err(e) => {
                    &&& Self::spec_dec(old(buf).remaining(), old(buf).spec_version()) is None
                    &&& e.is_protocol()
                },
            },
    ;
}

/// Codec types whose decode inverts encode.
///
/// `spec_canonical` names the view values the wire can represent exactly:
/// those a decode can rebuild (for example, index fields that are not on the
/// wire must hold their decode-time placeholder).
pub trait RoundTrip: SerToBuf + DeserFromBuf {
    /// View values that decoding can rebuild exactly.
    spec fn spec_canonical(v: Self::V, version: u32) -> bool;

    /// Round-trip law: decoding an encoded value, with any bytes after it,
    /// gives the value back and consumes exactly its encoding.
    proof fn lemma_round_trip(v: Self::V, version: u32, rest: Seq<u8>)
        requires
            Self::spec_encodable(v, version),
            Self::spec_canonical(v, version),
        ensures
            Self::spec_dec(Self::spec_enc(v, version) + rest, version) == Some(
                (v, Self::spec_enc(v, version).len() as int),
            ),
    ;
}

/// Truncation law: when a buffer decodes successfully consuming `n` bytes,
/// decoding any strict prefix of those `n` bytes fails; a decode never
/// returns a partial value.
pub proof fn lemma_truncated_decode_fails<T: DeserFromBuf>(bytes: Seq<u8>, version: u32, k: int)
    requires
        T::spec_dec(bytes, version) matches Some(d) && 0 <= k < d.1,
    ensures
        T::spec_dec(bytes.take(k), version) is None,
{
    T::lemma_dec_len(bytes, version);
    if T::spec_dec(bytes.take(k), version) is Some {
        T::lemma_dec_len(bytes.take(k), version);
        assert(bytes.take(bytes.take(k).len() as int) =~= bytes.take(k));
        T::lemma_dec_extend(bytes.take(k), bytes, version);
        assert(false);
    }
}

/// Append-only output buffer for one wire message, tagged with the protocol
/// version the message is encoded for.
pub struct WriteMessage {
    protocol_version: u32,
    buf: Vec<u8>,
}

impl View for WriteMessage {
    type V = Seq<u8>;

    /// The bytes written so far.
    closed spec fn view(&self) -> Seq<u8> {
        self.buf@
    }
}

impl WriteMessage {
    /// The protocol version this message is encoded for.
    pub closed spec fn spec_version(&self) -> u32 {
        self.protocol_version
    }

    /// Creates an empty message for the given protocol version.
    pub fn new(protocol_version: u32) -> (r: Self)
        ensures
            r@ == Seq::<u8>::empty(),
            r.spec_version() == protocol_version,
    {
        Self::with_capacity(protocol_version, 8)
    }

    /// Creates an empty message with space reserved for `capacity` bytes.
    pub fn with_capacity(protocol_version: u32, capacity: usize) -> (r: Self)
        ensures
            r@ == Seq::<u8>::empty(),
            r.spec_version() == protocol_version,
    {
        Self { protocol_version, buf: Vec::with_capacity(capacity) }
    }

    /// Number of bytes written so far.
    pub fn len(&self) -> (r: usize)
        ensures
            r == self@.len(),
    {
        self.buf.len()
    }

    /// The bytes written so far.
    pub fn bytes(&self) -> (r: &[u8])
        ensures
            r@ == self@,
    {
        self.buf.as_slice()
    }

    /// The protocol version this message is encoded for.
    pub fn protocol_version(&self) -> (r: u32)
        ensures
            r == self.spec_version(),
    {
        self.protocol_version
    }

    /// Appends one byte.
    pub fn write_u8(&mut self, value: u8)
        ensures
            final(self)@ == old(self)@.push(value),
            final(self).spec_version() == old(self).spec_version(),
    {
        self.buf.push(value);
    }

    /// Appends a 16-bit value, little-endian.
    pub fn write_u16(&mut self, value: u16)
        ensures
            final(self)@ == old(self)@ + le16_bytes(value),
            final(self).spec_version() == old(self).spec_version(),
    {
        self.buf.push((value % 0x100) as u8);
        self.buf.push((value / 0x100) as u8);
        proof {
            assert(self.buf@ =~= old(self).buf@ + le16_bytes(value));
        }
    }

    /// Appends a 32-bit value, little-endian.
    pub fn write_u32(&mut self, value: u32)
        ensures
            final(self)@ == old(self)@ + le32_bytes(value),
            final(self).spec_version() == old(self).spec_version(),
    {
        self.buf.push((value % 0x100) as u8);
        self.buf.push(((value / 0x100) % 0x100) as u8);
        self.buf.push(((value / 0x10000) % 0x100) as u8);
        self.buf.push(((value / 0x1000000) % 0x100) as u8);
        proof {
            assert(self.buf@ =~= old(self).buf@ + le32_bytes(value));
        }
    }

    /// Appends raw bytes as they are.
    pub fn write_slice(&mut self, slice: &[u8])
        ensures
            final(self)@ == old(self)@ + slice@,
            final(self).spec_version() == old(self).spec_version(),
    {
        let mut i: usize = 0;
        while i < slice.len()
            invariant
                i <= slice@.len(),
                self.buf@ == old(self).buf@ + slice@.take(i as int),
                self.protocol_version == old(self).protocol_version,
            decreases slice@.len() - i,
        {
            self.buf.push(slice[i]);
            i = i + 1;
            proof {
                assert(self.buf@ =~= old(self).buf@ + slice@.take(i as int));
            }
        }
        proof {
            assert(self.buf@ =~= old(self).buf@ + slice@);
        }
    }

    /// Appends the wire form of `value`; same contract as
    /// [`SerToBuf::serialize`].
    pub fn write_value<T: SerToBuf>(&mut self, value: &T) -> (r: OpenRgbResult<()>)
        ensures
            final(self).spec_version() == old(self).spec_version(),
            r is Ok <==> T::spec_encodable(value.deep_view(), old(self).spec_version()),
            r is Ok ==> final(self)@ == old(self)@ + T::spec_enc(
                value.deep_view(),
                old(self).spec_version(),
            ),
            r matches Err(e) ==> e.is_protocol(),
    {
        value.serialize(self)
    }

    /// Appends the wire form of `value` and hands the message back for
    /// chaining further writes.
    pub fn push_value<T: SerToBuf>(self, value: &T) -> (r: OpenRgbResult<WriteMessage>)
        ensures
            r is Ok <==> T::spec_encodable(value.deep_view(), self.spec_version()),
            r matches Ok(m) ==> {
                &&& m@ == self@ + T::spec_enc(value.deep_view(), self.spec_version())
                &&& m.spec_version() == self.spec_version()
            },
            r matches Err(e) ==> e.is_protocol(),
    {
        let mut m = self;
        match value.serialize(&mut m) {
            Ok(()) => Ok(m),
            Err(e) => Err(e),
        }
    }

    /// Hands the written bytes over, consuming the message.
    pub fn into_bytes(self) -> (r: Vec<u8>)
        ensures
            r@ == self@,
    {
        self.buf
    }

    /// Borrows the written bytes as a read cursor with the same protocol
    /// version, positioned at the start.
    pub fn to_received_msg(&self) -> (r: ReceivedMessage<'_>)
        ensures
            r.wf(),
            r.all_bytes() == self@,
            r.spec_idx() == 0,
            r.spec_version() == self.spec_version(),
    {
        ReceivedMessage::new(self.buf.as_slice(), self.protocol_version)
    }
}

/// Read cursor over one received wire message, tagged with the protocol
/// version the message was encoded for.
pub struct ReceivedMessage<'a> {
    protocol_version: u32,
    buf: &'a [u8],
    idx: usize,
}

impl<'a> ReceivedMessage<'a> {
    /// The whole underlying buffer, consumed or not.
    pub closed spec fn all_bytes(&self) -> Seq<u8> {
        self.buf@
    }

    /// Position of the cursor in the underlying buffer.
    pub closed spec fn spec_idx(&self) -> int {
        self.idx as int
    }

    /// The protocol version the message was encoded for.
    pub closed spec fn spec_version(&self) -> u32 {
        self.protocol_version
    }

    /// The cursor never stands past the buffer end.
    pub open spec fn wf(&self) -> bool {
        0 <= self.spec_idx() <= self.all_bytes().len()
    }

    /// The bytes not yet consumed.
    pub open spec fn remaining(&self) -> Seq<u8> {
        self.all_bytes().skip(self.spec_idx())
    }

    /// Creates a cursor at the start of `buf`.
    pub fn new(buf: &'a [u8], protocol_version: u32) -> (r: Self)
        ensures
            r.wf(),
            r.all_bytes() == buf@,
            r.spec_idx() == 0,
            r.spec_version() == protocol_version,
    {
        Self { protocol_version, buf, idx: 0 }
    }

    /// The protocol version the message was encoded for.
    pub fn protocol_version(&self) -> (r: u32)
        ensures
            r == self.spec_version(),
    {
        self.protocol_version
    }

    /// Number of bytes not yet consumed.
    pub fn available_len(&self) -> (r: usize)
        requires
            self.wf(),
        ensures
            r == self.remaining().len(),
    {
        self.buf.len() - self.idx
    }

    /// The bytes not yet consumed.
    pub fn available_buf(&self) -> (r: &[u8])
        requires
            self.wf(),
        ensures
            r@ == self.remaining(),
    {
        let r = vstd::slice::slice_subrange(self.buf, self.idx, self.buf.len());
        proof {
            assert(r@ =~= self.remaining());
        }
        r
    }

    /// Reads one byte, or fails without moving if none is left.
    pub fn read_u8(&mut self) -> (r: OpenRgbResult<u8>)
        requires
            old(self).wf(),
        ensures
            final(self).wf(),
            final(self).all_bytes() == old(self).all_bytes(),
            final(self).spec_version() == old(self).spec_version(),
            match r {
                Ok(v) => {
                    &&& old(self).remaining().len() >= 1
                    &&& v == old(self).remaining()[0]
                    &&& final(self).spec_idx() == old(self).spec_idx() + 1
                },
                Err(e) => {
                    &&& old(self).remaining().len() == 0
                    &&& final(self).spec_idx() == old(self).spec_idx()
                    &&& e == OpenRgbError::ProtocolError(ProtocolError::Truncated)
                },
            },
    {
        if self.buf.len() - self.idx < 1 {
            return Err(OpenRgbError::ProtocolError(ProtocolError::Truncated));
        }
        let b = self.buf[self.idx];
        self.idx = self.idx + 1;
        Ok(b)
    }

    /// Reads one value of type `T`; same contract as
    /// [`DeserFromBuf::deserialize`].
    pub fn read_value<T: DeserFromBuf>(&mut self) -> (r: OpenRgbResult<T>)
        requires
            old(self).wf(),
        ensures
            final(self).wf(),
            final(self).all_bytes() == old(self).all_bytes(),
            final(self).spec_version() == old(self).spec_version(),
            old(self).spec_idx() <= final(self).spec_idx(),
            match r {
                Ok(v) => T::spec_dec(old(self).remaining(), old(self).spec_version()) == Some(
                    (v.deep_view(), final(self).spec_idx() - old(self).spec_idx()),
                ),
                Err(e) => {
                    &&& T::spec_dec(old(self).remaining(), old(self).spec_version()) is None
                    &&& e.is_protocol()
                },
            },
    {
        T::deserialize(self)
    }

    /// Reads a little-endian 16-bit value, or fails without moving if fewer
    /// than two bytes are left.
    pub fn read_u16(&mut self) -> (r: OpenRgbResult<u16>)
        requires
            old(self).wf(),
        ensures
            final(self).wf(),
            final(self).all_bytes() == old(self).all_bytes(),
            final(self).spec_version() == old(self).spec_version(),
            match r {
                Ok(v) => {
                    &&& old(self).remaining().len() >= 2
                    &&& v == le16(old(self).remaining()[0], old(self).remaining()[1])
                    &&& final(self).spec_idx() == old(self).spec_idx() + 2
                },
                Err(e) => {
                    &&& old(self).remaining().len() < 2
                    &&& final(self).spec_idx() == old(self).spec_idx()
                    &&& e == OpenRgbError::ProtocolError(ProtocolError::Truncated)
                },
            },
    {
        if self.buf.len() - self.idx < 2 {
            return Err(OpenRgbError::ProtocolError(ProtocolError::Truncated));
        }
        let b0 = self.buf[self.idx];
        let b1 = self.buf[self.idx + 1];
        self.idx = self.idx + 2;
        Ok(b0 as u16 + b1 as u16 * 0x100)
    }

    /// Reads a little-endian 32-bit value, or fails without moving if fewer
    /// than four bytes are left.
    pub fn read_u32(&mut self) -> (r: OpenRgbResult<u32>)
        requires
            old(self).wf(),
        ensures
            final(self).wf(),
            final(self).all_bytes() == old(self).all_bytes(),
            final(self).spec_version() == old(self).spec_version(),
            match r {
                Ok(v) => {
                    &&& old(self).remaining().len() >= 4
                    &&& v == le32(
                        old(self).remaining()[0],
                        old(self).remaining()[1],
                        old(self).remaining()[2],
                        old(self).remaining()[3],
                    )
                    &&& final(self).spec_idx() == old(self).spec_idx() + 4
                },
                Err(e) => {
                    &&& old(self).remaining().len() < 4
                    &&& final(self).spec_idx() == old(self).spec_idx()
                    &&& e == OpenRgbError::ProtocolError(ProtocolError::Truncated)
                },
            },
    {
        if self.buf.len() - self.idx < 4 {
            return Err(OpenRgbError::ProtocolError(ProtocolError::Truncated));
        }
        let b0 = self.buf[self.idx];
        let b1 = self.buf[self.idx + 1];
        let b2 = self.buf[self.idx + 2];
        let b3 = self.buf[self.idx + 3];
        self.idx = self.idx + 4;
        Ok(b0 as u32 + b1 as u32 * 0x100 + b2 as u32 * 0x10000 + b3 as u32 * 0x1000000)
    }
}

} // verus!
