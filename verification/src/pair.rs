//! Codec implementation for pairs: the two fields one after the other, in
//! declared order, with no length prefix. Several packet payloads are pairs,
//! such as a zone id followed by its new size.

use vstd::prelude::*;

use crate::codec::{DeserFromBuf, ReceivedMessage, RoundTrip, SerToBuf, WriteMessage};
use crate::error::OpenRgbResult;
use crate::sequence::{lemma_skip_of_prefix, lemma_skip_skip};

verus! {

impl<A: SerToBuf, B: SerToBuf> SerToBuf for (A, B) {
    open spec fn spec_enc(v: (A::V, B::V), version: u32) -> Seq<u8> {
        A::spec_enc(v.0, version) + B::spec_enc(v.1, version)
    }

    open spec fn spec_encodable(v: (A::V, B::V), version: u32) -> bool {
        A::spec_encodable(v.0, version) && B::spec_encodable(v.1, version)
    }

    fn serialize(&self, buf: &mut WriteMessage) -> (r: OpenRgbResult<()>) {
        match self.0.serialize(buf) {
            Ok(()) => {},
            Err(e) => {
                return Err(e);
            },
        }
        match self.1.serialize(buf) {
            Ok(()) => {},
            Err(e) => {
                return Err(e);
            },
        }
        proof {
            assert(buf@ =~= old(buf)@ + Self::spec_enc(self.deep_view(), old(buf).spec_version()));
        }
        Ok(())
    }
}

impl<A: DeserFromBuf, B: DeserFromBuf> DeserFromBuf for (A, B) {
    open spec fn spec_dec(bytes: Seq<u8>, version: u32) -> Option<((A::V, B::V), int)> {
        match A::spec_dec(bytes, version) {
            Some(a) => match B::spec_dec(bytes.skip(a.1), version) {
                Some(b) => Some(((a.0, b.0), a.1 + b.1)),
                None => None,
            },
            None => None,
        }
    }

    proof fn lemma_dec_len(bytes: Seq<u8>, version: u32) {
        if let Some(a) = A::spec_dec(bytes, version) {
            A::lemma_dec_len(bytes, version);
            B::lemma_dec_len(bytes.skip(a.1), version);
        }
    }

    proof fn lemma_dec_extend(bytes: Seq<u8>, bytes2: Seq<u8>, version: u32) {
        let a = A::spec_dec(bytes, version)->Some_0;
        A::lemma_dec_len(bytes, version);
        A::lemma_dec_extend(bytes, bytes2, version);
        lemma_skip_of_prefix(bytes, bytes2, a.1);
        B::lemma_dec_extend(bytes.skip(a.1), bytes2.skip(a.1), version);
    }

    fn deserialize(buf: &mut ReceivedMessage<'_>) -> (r: OpenRgbResult<(A, B)>) {
        let ghost rem0 = buf.remaining();
        let first = match A::deserialize(buf) {
            Ok(v) => v,
            Err(e) => {
                return Err(e);
            },
        };
        let ghost consumed_a = buf.spec_idx() - old(buf).spec_idx();
        proof {
            lemma_skip_skip(buf.all_bytes(), old(buf).spec_idx(), consumed_a);
            assert(buf.remaining() == rem0.skip(consumed_a));
        }
        let second = match B::deserialize(buf) {
            Ok(v) => v,
            Err(e) => {
                return Err(e);
            },
        };
        Ok((first, second))
    }
}

impl<A: RoundTrip, B: RoundTrip> RoundTrip for (A, B) {
    open spec fn spec_canonical(v: (A::V, B::V), version: u32) -> bool {
        A::spec_canonical(v.0, version) && B::spec_canonical(v.1, version)
    }

    proof fn lemma_round_trip(v: (A::V, B::V), version: u32, rest: Seq<u8>) {
        let ea = A::spec_enc(v.0, version);
        let eb = B::spec_enc(v.1, version);
        assert(Self::spec_enc(v, version) + rest =~= ea + (eb + rest));
        A::lemma_round_trip(v.0, version, eb + rest);
        assert((ea + (eb + rest)).skip(ea.len() as int) =~= eb + rest);
        B::lemma_round_trip(v.1, version, rest);
    }
}

} // verus!
