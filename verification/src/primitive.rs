//! Codec implementations for the primitive wire types: fixed-width
//! little-endian unsigned integers, the signed 32-bit integer carried via its
//! unsigned bit pattern, and the empty value that holds no bytes at all.

use vstd::prelude::*;

use crate::codec::{
    le16, le16_bytes, le32, le32_bytes, DeserFromBuf, ReceivedMessage, RoundTrip, SerToBuf,
    WriteMessage,
};
use crate::error::OpenRgbResult;

verus! {

impl SerToBuf for () {
    open spec fn spec_enc(v: (), version: u32) -> Seq<u8> {
        Seq::empty()
    }

    open spec fn spec_encodable(v: (), version: u32) -> bool {
        true
    }

    fn serialize(&self, buf: &mut WriteMessage) -> (r: OpenRgbResult<()>) {
        proof {
            assert(buf@ =~= old(buf)@ + Seq::<u8>::empty());
        }
        Ok(())
    }
}

impl DeserFromBuf for () {
    open spec fn spec_dec(bytes: Seq<u8>, version: u32) -> Option<((), int)> {
        Some(((), 0))
    }

    proof fn lemma_dec_len(bytes: Seq<u8>, version: u32) {
    }

    proof fn lemma_dec_extend(bytes: Seq<u8>, bytes2: Seq<u8>, version: u32) {
    }

    fn deserialize(buf: &mut ReceivedMessage<'_>) -> (r: OpenRgbResult<()>) {
        Ok(())
    }
}

impl RoundTrip for () {
    open spec fn spec_canonical(v: (), version: u32) -> bool {
        true
    }

    proof fn lemma_round_trip(v: (), version: u32, rest: Seq<u8>) {
        assert(Self::spec_enc(v, version) + rest =~= rest);
    }
}

impl SerToBuf for u8 {
    open spec fn spec_enc(v: u8, version: u32) -> Seq<u8> {
        seq![v]
    }

    open spec fn spec_encodable(v: u8, version: u32) -> bool {
        true
    }

    fn serialize(&self, buf: &mut WriteMessage) -> (r: OpenRgbResult<()>) {
        buf.write_u8(*self);
        proof {
            assert(buf@ =~= old(buf)@ + seq![*self]);
        }
        Ok(())
    }
}

impl DeserFromBuf for u8 {
    open spec fn spec_dec(bytes: Seq<u8>, version: u32) -> Option<(u8, int)> {
        if bytes.len() >= 1 {
            Some((bytes[0], 1))
        } else {
            None
        }
    }

    proof fn lemma_dec_len(bytes: Seq<u8>, version: u32) {
    }

    proof fn lemma_dec_extend(bytes: Seq<u8>, bytes2: Seq<u8>, version: u32) {
        assert(bytes2[0] == bytes2.take(bytes.len() as int)[0]);
    }

    fn deserialize(buf: &mut ReceivedMessage<'_>) -> (r: OpenRgbResult<u8>) {
        buf.read_u8()
    }
}

impl RoundTrip for u8 {
    open spec fn spec_canonical(v: u8, version: u32) -> bool {
        true
    }

    proof fn lemma_round_trip(v: u8, version: u32, rest: Seq<u8>) {
    }
}

impl SerToBuf for u16 {
    open spec fn spec_enc(v: u16, version: u32) -> Seq<u8> {
        le16_bytes(v)
    }

    open spec fn spec_encodable(v: u16, version: u32) -> bool {
        true
    }

    fn serialize(&self, buf: &mut WriteMessage) -> (r: OpenRgbResult<()>) {
        buf.write_u16(*self);
        Ok(())
    }
}

impl DeserFromBuf for u16 {
    open spec fn spec_dec(bytes: Seq<u8>, version: u32) -> Option<(u16, int)> {
        if bytes.len() >= 2 {
            Some((le16(bytes[0], bytes[1]), 2))
        } else {
            None
        }
    }

    proof fn lemma_dec_len(bytes: Seq<u8>, version: u32) {
    }

    proof fn lemma_dec_extend(bytes: Seq<u8>, bytes2: Seq<u8>, version: u32) {
        assert(forall|i: int|
            0 <= i < bytes.len() ==> bytes2[i] == #[trigger] bytes.take(bytes.len() as int)[i]);
    }

    fn deserialize(buf: &mut ReceivedMessage<'_>) -> (r: OpenRgbResult<u16>) {
        buf.read_u16()
    }
}

impl RoundTrip for u16 {
    open spec fn spec_canonical(v: u16, version: u32) -> bool {
        true
    }

    proof fn lemma_round_trip(v: u16, version: u32, rest: Seq<u8>) {
        crate::codec::lemma_le16_round_trip(v);
    }
}

impl SerToBuf for u32 {
    open spec fn spec_enc(v: u32, version: u32) -> Seq<u8> {
        le32_bytes(v)
    }

    open spec fn spec_encodable(v: u32, version: u32) -> bool {
        true
    }

    fn serialize(&self, buf: &mut WriteMessage) -> (r: OpenRgbResult<()>) {
        buf.write_u32(*self);
        Ok(())
    }
}

impl DeserFromBuf for u32 {
    open spec fn spec_dec(bytes: Seq<u8>, version: u32) -> Option<(u32, int)> {
        if bytes.len() >= 4 {
            Some((le32(bytes[0], bytes[1], bytes[2], bytes[3]), 4))
        } else {
            None
        }
    }

    proof fn lemma_dec_len(bytes: Seq<u8>, version: u32) {
    }

    proof fn lemma_dec_extend(bytes: Seq<u8>, bytes2: Seq<u8>, version: u32) {
        assert(forall|i: int|
            0 <= i < bytes.len() ==> bytes2[i] == #[trigger] bytes.take(bytes.len() as int)[i]);
    }

    fn deserialize(buf: &mut ReceivedMessage<'_>) -> (r: OpenRgbResult<u32>) {
        buf.read_u32()
    }
}

impl RoundTrip for u32 {
    open spec fn spec_canonical(v: u32, version: u32) -> bool {
        true
    }

    proof fn lemma_round_trip(v: u32, version: u32, rest: Seq<u8>) {
        crate::codec::lemma_le32_round_trip(v);
    }
}

impl SerToBuf for i32 {
    open spec fn spec_enc(v: i32, version: u32) -> Seq<u8> {
        le32_bytes(v as u32)
    }

    open spec fn spec_encodable(v: i32, version: u32) -> bool {
        true
    }

    fn serialize(&self, buf: &mut WriteMessage) -> (r: OpenRgbResult<()>) {
        buf.write_u32(*self as u32);
        Ok(())
    }
}

impl DeserFromBuf for i32 {
    open spec fn spec_dec(bytes: Seq<u8>, version: u32) -> Option<(i32, int)> {
        if bytes.len() >= 4 {
            Some((le32(bytes[0], bytes[1], bytes[2], bytes[3]) as i32, 4))
        } else {
            None
        }
    }

    proof fn lemma_dec_len(bytes: Seq<u8>, version: u32) {
    }

    proof fn lemma_dec_extend(bytes: Seq<u8>, bytes2: Seq<u8>, version: u32) {
        assert(forall|i: int|
            0 <= i < bytes.len() ==> bytes2[i] == #[trigger] bytes.take(bytes.len() as int)[i]);
    }

    fn deserialize(buf: &mut ReceivedMessage<'_>) -> (r: OpenRgbResult<i32>) {
        match buf.read_u32() {
            Ok(v) => Ok(v as i32),
            Err(e) => Err(e),
        }
    }
}

impl RoundTrip for i32 {
    open spec fn spec_canonical(v: i32, version: u32) -> bool {
        true
    }

    proof fn lemma_round_trip(v: i32, version: u32, rest: Seq<u8>) {
        crate::codec::lemma_le32_round_trip(v as u32);
        assert((v as u32) as i32 == v) by (bit_vector);
    }
}


impl DeserFromBuf for [u8; 3] {
    open spec fn spec_dec(bytes: Seq<u8>, version: u32) -> Option<(Seq<u8>, int)> {
        if bytes.len() >= 3 {
            Some((seq![bytes[0], bytes[1], bytes[2]], 3))
        } else {
            None
        }
    }

    proof fn lemma_dec_len(bytes: Seq<u8>, version: u32) {
    }

    proof fn lemma_dec_extend(bytes: Seq<u8>, bytes2: Seq<u8>, version: u32) {
        assert forall|i: int|
            0 <= i < bytes.len() implies bytes2[i] == #[trigger] bytes.take(bytes.len() as int)[i] by {}
    }

    fn deserialize(buf: &mut ReceivedMessage<'_>) -> (r: OpenRgbResult<[u8; 3]>) {
        let b0 = match buf.read_u8() {
            Ok(b) => b,
            Err(e) => {
                return Err(e);
            },
        };
        let b1 = match buf.read_u8() {
            Ok(b) => b,
            Err(e) => {
                return Err(e);
            },
        };
        let b2 = match buf.read_u8() {
            Ok(b) => b,
            Err(e) => {
                return Err(e);
            },
        };
        let arr = [b0, b1, b2];
        proof {
            assert(arr.deep_view() =~= seq![b0, b1, b2]);
        }
        Ok(arr)
    }
}

impl DeserFromBuf for [u8; 4] {
    open spec fn spec_dec(bytes: Seq<u8>, version: u32) -> Option<(Seq<u8>, int)> {
        if bytes.len() >= 4 {
            Some((seq![bytes[0], bytes[1], bytes[2], bytes[3]], 4))
        } else {
            None
        }
    }

    proof fn lemma_dec_len(bytes: Seq<u8>, version: u32) {
    }

    proof fn lemma_dec_extend(bytes: Seq<u8>, bytes2: Seq<u8>, version: u32) {
        assert forall|i: int|
            0 <= i < bytes.len() implies bytes2[i] == #[trigger] bytes.take(bytes.len() as int)[i] by {}
    }

    fn deserialize(buf: &mut ReceivedMessage<'_>) -> (r: OpenRgbResult<[u8; 4]>) {
        let b0 = match buf.read_u8() {
            Ok(b) => b,
            Err(e) => {
                return Err(e);
            },
        };
        let b1 = match buf.read_u8() {
            Ok(b) => b,
            Err(e) => {
                return Err(e);
            },
        };
        let b2 = match buf.read_u8() {
            Ok(b) => b,
            Err(e) => {
                return Err(e);
            },
        };
        let b3 = match buf.read_u8() {
            Ok(b) => b,
            Err(e) => {
                return Err(e);
            },
        };
        let arr = [b0, b1, b2, b3];
        proof {
            assert(arr.deep_view() =~= seq![b0, b1, b2, b3]);
        }
        Ok(arr)
    }
}

} // verus!
