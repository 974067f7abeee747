//! Codec implementation for sequences: a 16-bit element count followed by
//! that many encoded elements, the element shape given by the element type.

use vstd::prelude::*;

use crate::codec::{
    le16, le16_bytes, DeserFromBuf, ReceivedMessage, RoundTrip, SerToBuf, WriteMessage,
};
use crate::error::{OpenRgbError, OpenRgbResult, ProtocolError};

verus! {

/// Dropping `a` bytes and then `b` more is dropping `a + b` at once.
pub proof fn lemma_skip_skip(s: Seq<u8>, a: int, b: int)
    requires
        0 <= a,
        0 <= b,
        a + b <= s.len(),
    ensures
        s.skip(a).skip(b) == s.skip(a + b),
{
    assert(s.skip(a).skip(b) =~= s.skip(a + b));
}

/// A prefix relation survives dropping the same count from the front of both
/// sequences.
pub proof fn lemma_skip_of_prefix(b1: Seq<u8>, b2: Seq<u8>, k: int)
    requires
        0 <= k <= b1.len() <= b2.len(),
        b2.take(b1.len() as int) == b1,
    ensures
        b2.skip(k).take(b1.len() - k) == b1.skip(k),
{
    assert forall|i: int| 0 <= i < b1.len() implies b2[i] == b1[i] by {
        assert(b1[i] == b2.take(b1.len() as int)[i]);
    }
    assert(b2.skip(k).take(b1.len() - k) =~= b1.skip(k));
}

/// The value and consumed byte count that decoding exactly `n` consecutive
/// elements of type `T` reads from the front of `bytes`; `None` when any
/// element fails.
pub open spec fn spec_dec_n<T: DeserFromBuf>(bytes: Seq<u8>, version: u32, n: int) -> Option<
    (Seq<T::V>, int),
>
    decreases n,
{
    if n <= 0 {
        Some((Seq::empty(), 0))
    } else {
        match T::spec_dec(bytes, version) {
            Some(d) => match spec_dec_n::<T>(bytes.skip(d.1), version, n - 1) {
                Some(e) => Some((seq![d.0] + e.0, d.1 + e.1)),
                None => None,
            },
            None => None,
        }
    }
}

/// Decoding `n` elements consumes between zero and all of the bytes and
/// yields exactly `n` values.
pub proof fn lemma_dec_n_len<T: DeserFromBuf>(bytes: Seq<u8>, version: u32, n: int)
    ensures
        spec_dec_n::<T>(bytes, version, n) matches Some(d) ==> {
            &&& 0 <= d.1 <= bytes.len()
            &&& d.0.len() == (if n <= 0 { 0int } else { n })
        },
    decreases n,
{
    if n > 0 {
        if let Some(d) = T::spec_dec(bytes, version) {
            T::lemma_dec_len(bytes, version);
            lemma_dec_n_len::<T>(bytes.skip(d.1), version, n - 1);
        }
    }
}

/// Extending the buffer behind a successful `n`-element decode changes
/// nothing.
pub proof fn lemma_dec_n_extend<T: DeserFromBuf>(b1: Seq<u8>, b2: Seq<u8>, version: u32, n: int)
    requires
        spec_dec_n::<T>(b1, version, n) is Some,
        b1.len() <= b2.len(),
        b2.take(b1.len() as int) == b1,
    ensures
        spec_dec_n::<T>(b2, version, n) == spec_dec_n::<T>(b1, version, n),
    decreases n,
{
    if n > 0 {
        let d = T::spec_dec(b1, version)->Some_0;
        T::lemma_dec_len(b1, version);
        T::lemma_dec_extend(b1, b2, version);
        lemma_skip_of_prefix(b1, b2, d.1);
        lemma_dec_n_extend::<T>(b1.skip(d.1), b2.skip(d.1), version, n - 1);
    }
}

/// Decoding one more element than a successful `n`-element decode appends the
/// next element's value at the back.
pub proof fn lemma_dec_n_snoc<T: DeserFromBuf>(bytes: Seq<u8>, version: u32, n: int)
    requires
        n >= 0,
        spec_dec_n::<T>(bytes, version, n) is Some,
        T::spec_dec(bytes.skip(spec_dec_n::<T>(bytes, version, n)->Some_0.1), version) is Some,
    ensures
        spec_dec_n::<T>(bytes, version, n + 1) == {
            let d = spec_dec_n::<T>(bytes, version, n)->Some_0;
            let e = T::spec_dec(bytes.skip(d.1), version)->Some_0;
            Some((d.0.push(e.0), d.1 + e.1))
        },
    decreases n,
{
    let d = spec_dec_n::<T>(bytes, version, n)->Some_0;
    let e = T::spec_dec(bytes.skip(d.1), version)->Some_0;
    if n == 0 {
        assert(bytes.skip(0) =~= bytes);
        assert(T::spec_dec(bytes, version) == Some(e));
        assert(spec_dec_n::<T>(bytes.skip(e.1), version, 0) == Some((Seq::<T::V>::empty(), 0int)));
        assert(seq![e.0] + Seq::<T::V>::empty() =~= Seq::<T::V>::empty().push(e.0));
        assert(spec_dec_n::<T>(bytes, version, 1) == Some((seq![e.0] + Seq::<T::V>::empty(), e.1
            + 0)));
    } else {
        let f = T::spec_dec(bytes, version)->Some_0;
        let d2 = spec_dec_n::<T>(bytes.skip(f.1), version, n - 1)->Some_0;
        T::lemma_dec_len(bytes, version);
        lemma_dec_n_len::<T>(bytes.skip(f.1), version, n - 1);
        assert(d == (seq![f.0] + d2.0, f.1 + d2.1));
        lemma_skip_skip(bytes, f.1, d2.1);
        assert(T::spec_dec(bytes.skip(f.1).skip(d2.1), version) == Some(e));
        lemma_dec_n_snoc::<T>(bytes.skip(f.1), version, n - 1);
        assert(spec_dec_n::<T>(bytes.skip(f.1), version, n) == Some((d2.0.push(e.0), d2.1 + e.1)));
        assert(spec_dec_n::<T>(bytes, version, n + 1) == Some(
            (seq![f.0] + d2.0.push(e.0), f.1 + (d2.1 + e.1)),
        ));
        assert(seq![f.0] + d2.0.push(e.0) =~= (seq![f.0] + d2.0).push(e.0));
    }
}

/// When the element after a successful `i`-element decode fails to decode,
/// decoding any larger count fails too.
pub proof fn lemma_dec_n_fail<T: DeserFromBuf>(bytes: Seq<u8>, version: u32, i: int, n: int)
    requires
        0 <= i < n,
        spec_dec_n::<T>(bytes, version, i) is Some,
        T::spec_dec(bytes.skip(spec_dec_n::<T>(bytes, version, i)->Some_0.1), version) is None,
    ensures
        spec_dec_n::<T>(bytes, version, n) is None,
    decreases i,
{
    let d = spec_dec_n::<T>(bytes, version, i)->Some_0;
    if i == 0 {
        assert(bytes.skip(0) =~= bytes);
    } else {
        let f = T::spec_dec(bytes, version)->Some_0;
        T::lemma_dec_len(bytes, version);
        lemma_dec_n_len::<T>(bytes.skip(f.1), version, i - 1);
        let d2 = spec_dec_n::<T>(bytes.skip(f.1), version, i - 1)->Some_0;
        lemma_skip_skip(bytes, f.1, d2.1);
        lemma_dec_n_fail::<T>(bytes.skip(f.1), version, i - 1, n - 1);
    }
}

/// The concatenated wire bytes of the elements of `v`, in order, with no
/// length prefix.
pub open spec fn spec_enc_seq<T: SerToBuf>(v: Seq<T::V>, version: u32) -> Seq<u8>
    decreases v.len(),
{
    if v.len() <= 0 {
        Seq::empty()
    } else {
        T::spec_enc(v.first(), version) + spec_enc_seq::<T>(v.drop_first(), version)
    }
}

/// Appending one element at the back appends its wire bytes at the back.
pub proof fn lemma_enc_seq_snoc<T: SerToBuf>(v: Seq<T::V>, x: T::V, version: u32)
    ensures
        spec_enc_seq::<T>(v.push(x), version) == spec_enc_seq::<T>(v, version) + T::spec_enc(
            x,
            version,
        ),
    decreases v.len(),
{
    if v.len() == 0 {
        assert(v.push(x).drop_first() =~= Seq::<T::V>::empty());
        assert(v.push(x).first() == x);
        assert(spec_enc_seq::<T>(v.push(x), version) == T::spec_enc(x, version) + spec_enc_seq::<
            T,
        >(Seq::empty(), version));
        assert(spec_enc_seq::<T>(v.push(x), version) =~= spec_enc_seq::<T>(v, version)
            + T::spec_enc(x, version));
    } else {
        assert(v.push(x).first() == v.first());
        assert(v.push(x).drop_first() =~= v.drop_first().push(x));
        lemma_enc_seq_snoc::<T>(v.drop_first(), x, version);
        assert(spec_enc_seq::<T>(v.push(x), version) == T::spec_enc(v.first(), version) + (
        spec_enc_seq::<T>(v.drop_first(), version) + T::spec_enc(x, version)));
        assert(spec_enc_seq::<T>(v.push(x), version) =~= spec_enc_seq::<T>(v, version)
            + T::spec_enc(x, version));
    }
}

impl<T: SerToBuf> SerToBuf for Vec<T> {
    open spec fn spec_enc(v: Seq<T::V>, version: u32) -> Seq<u8> {
        le16_bytes(v.len() as u16) + spec_enc_seq::<T>(v, version)
    }

    open spec fn spec_encodable(v: Seq<T::V>, version: u32) -> bool {
        &&& v.len() <= 0xFFFF
        &&& forall|i: int| 0 <= i < v.len() ==> T::spec_encodable(#[trigger] v[i], version)
    }

    fn serialize(&self, buf: &mut WriteMessage) -> (r: OpenRgbResult<()>) {
        if self.len() > 0xFFFF {
            return Err(OpenRgbError::ProtocolError(ProtocolError::TooLong { len: self.len() }));
        }
        buf.write_u16(self.len() as u16);
        let ghost dv = self.deep_view();
        let ghost version = buf.spec_version();
        let mut i: usize = 0;
        while i < self.len()
            invariant
                i <= self@.len(),
                self@.len() <= 0xFFFF,
                dv == self.deep_view(),
                dv.len() == self@.len(),
                version == buf.spec_version(),
                version == old(buf).spec_version(),
                buf@ == old(buf)@ + le16_bytes(self@.len() as u16) + spec_enc_seq::<T>(
                    dv.take(i as int),
                    version,
                ),
                forall|j: int| 0 <= j < i ==> T::spec_encodable(#[trigger] dv[j], version),
            decreases self@.len() - i,
        {
            let ghost prefix = dv.take(i as int);
            proof {
                assert(dv[i as int] == self@[i as int].deep_view());
            }
            match self[i].serialize(buf) {
                Ok(()) => {},
                Err(e) => {
                    proof {
                        assert(!T::spec_encodable(dv[i as int], version));
                    }
                    return Err(e);
                },
            }
            proof {
                lemma_enc_seq_snoc::<T>(prefix, dv[i as int], version);
                assert(prefix.push(dv[i as int]) =~= dv.take(i + 1));
            }
            i = i + 1;
        }
        proof {
            assert(dv.take(dv.len() as int) =~= dv);
            assert(old(buf)@ + le16_bytes(self@.len() as u16) + spec_enc_seq::<T>(dv, version)
                =~= old(buf)@ + Self::spec_enc(dv, version));
        }
        Ok(())
    }
}

impl<T: DeserFromBuf> DeserFromBuf for Vec<T> {
    open spec fn spec_dec(bytes: Seq<u8>, version: u32) -> Option<(Seq<T::V>, int)> {
        if bytes.len() < 2 {
            None
        } else {
            match spec_dec_n::<T>(bytes.skip(2), version, le16(bytes[0], bytes[1]) as int) {
                Some(d) => Some((d.0, 2 + d.1)),
                None => None,
            }
        }
    }

    proof fn lemma_dec_len(bytes: Seq<u8>, version: u32) {
        if bytes.len() >= 2 {
            lemma_dec_n_len::<T>(bytes.skip(2), version, le16(bytes[0], bytes[1]) as int);
        }
    }

    proof fn lemma_dec_extend(bytes: Seq<u8>, bytes2: Seq<u8>, version: u32) {
        assert(bytes2[0] == bytes.take(bytes.len() as int)[0]);
        assert(bytes2[1] == bytes.take(bytes.len() as int)[1]);
        lemma_skip_of_prefix(bytes, bytes2, 2);
        lemma_dec_n_extend::<T>(
            bytes.skip(2),
            bytes2.skip(2),
            version,
            le16(bytes[0], bytes[1]) as int,
        );
    }

    fn deserialize(buf: &mut ReceivedMessage<'_>) -> (r: OpenRgbResult<Vec<T>>) {
        let ghost rem0 = buf.remaining();
        let n = match buf.read_u16() {
            Ok(n) => n,
            Err(e) => {
                return Err(e);
            },
        };
        proof {
            assert(buf.remaining() =~= rem0.skip(2));
        }
        buf.read_n_values::<T>(n as usize)
    }
}

impl<'a> ReceivedMessage<'a> {
    /// Reads exactly `n` consecutive values of type `T`, with no length
    /// prefix on the wire; fails exactly when some element fails.
    pub fn read_n_values<T: DeserFromBuf>(&mut self, n: usize) -> (r: OpenRgbResult<Vec<T>>)
        requires
            old(self).wf(),
        ensures
            final(self).wf(),
            final(self).all_bytes() == old(self).all_bytes(),
            final(self).spec_version() == old(self).spec_version(),
            old(self).spec_idx() <= final(self).spec_idx(),
            match r {
                Ok(v) => spec_dec_n::<T>(old(self).remaining(), old(self).spec_version(), n as int)
                    == Some((v.deep_view(), final(self).spec_idx() - old(self).spec_idx())),
                Err(e) => {
                    &&& spec_dec_n::<T>(
                        old(self).remaining(),
                        old(self).spec_version(),
                        n as int,
                    ) is None
                    &&& e.is_protocol()
                },
            },
    {
        let ghost version = self.spec_version();
        let ghost rem0 = self.remaining();
        let ghost start = self.spec_idx();
        let mut out: Vec<T> = Vec::with_capacity(n);
        let mut i: usize = 0;
        while i < n
            invariant
                self.wf(),
                i <= n,
                version == self.spec_version(),
                version == old(self).spec_version(),
                self.all_bytes() == old(self).all_bytes(),
                rem0 == old(self).remaining(),
                start == old(self).spec_idx(),
                rem0 == self.all_bytes().skip(start),
                0 <= start <= self.spec_idx() <= self.all_bytes().len(),
                spec_dec_n::<T>(rem0, version, i as int) == Some(
                    (out.deep_view(), self.spec_idx() - start),
                ),
                out.deep_view().len() == i,
            decreases n - i,
        {
            let ghost consumed = self.spec_idx() - start;
            proof {
                lemma_skip_skip(self.all_bytes(), start, consumed);
                assert(self.remaining() == rem0.skip(consumed));
            }
            match T::deserialize(self) {
                Ok(v) => {
                    proof {
                        lemma_dec_n_snoc::<T>(rem0, version, i as int);
                    }
                    out.push(v);
                    proof {
                        assert(out.deep_view().len() == i + 1);
                    }
                },
                Err(e) => {
                    proof {
                        lemma_dec_n_fail::<T>(rem0, version, i as int, n as int);
                    }
                    return Err(e);
                },
            }
            i = i + 1;
        }
        Ok(out)
    }
}

impl<T: RoundTrip> RoundTrip for Vec<T> {
    open spec fn spec_canonical(v: Seq<T::V>, version: u32) -> bool {
        forall|i: int| 0 <= i < v.len() ==> T::spec_canonical(#[trigger] v[i], version)
    }

    proof fn lemma_round_trip(v: Seq<T::V>, version: u32, rest: Seq<u8>) {
        let enc = Self::spec_enc(v, version);
        let body = spec_enc_seq::<T>(v, version);
        crate::codec::lemma_le16_round_trip(v.len() as u16);
        assert((enc + rest)[0] == le16_bytes(v.len() as u16)[0]);
        assert((enc + rest)[1] == le16_bytes(v.len() as u16)[1]);
        assert((enc + rest).skip(2) =~= body + rest);
        lemma_dec_n_of_enc_seq::<T>(v, version, rest);
    }
}

/// Decoding the concatenated encodings of `n` canonical elements, with any
/// bytes after them, yields the elements and consumes exactly their bytes.
pub proof fn lemma_dec_n_of_enc_seq<T: RoundTrip>(v: Seq<T::V>, version: u32, rest: Seq<u8>)
    requires
        forall|i: int| 0 <= i < v.len() ==> T::spec_encodable(#[trigger] v[i], version),
        forall|i: int| 0 <= i < v.len() ==> T::spec_canonical(#[trigger] v[i], version),
    ensures
        spec_dec_n::<T>(spec_enc_seq::<T>(v, version) + rest, version, v.len() as int) == Some(
            (v, spec_enc_seq::<T>(v, version).len() as int),
        ),
    decreases v.len(),
{
    if v.len() == 0 {
        assert(spec_dec_n::<T>(spec_enc_seq::<T>(v, version) + rest, version, 0) == Some(
            (Seq::<T::V>::empty(), 0int),
        ));
        assert(v =~= Seq::<T::V>::empty());
    } else {
        let e0 = T::spec_enc(v.first(), version);
        let tail = spec_enc_seq::<T>(v.drop_first(), version);
        assert(spec_enc_seq::<T>(v, version) + rest =~= e0 + (tail + rest));
        T::lemma_round_trip(v.first(), version, tail + rest);
        assert((e0 + (tail + rest)).skip(e0.len() as int) =~= tail + rest);
        lemma_dec_n_of_enc_seq::<T>(v.drop_first(), version, rest);
        assert(seq![v.first()] + v.drop_first() =~= v);
    }
}

} // verus!
