//! Codec implementations for strings.
//!
//! A string on the wire is a 16-bit byte count (UTF-8 bytes plus one
//! trailing NUL), the UTF-8 bytes, and one NUL byte; the NUL is appended on
//! encode and stripped on decode. [`RawString`] writes the bytes and NUL
//! with no length prefix, as a few packet payloads need.

use vstd::prelude::*;
use vstd::utf8::{decode_utf8, encode_utf8, valid_utf8};

use crate::codec::{
    le16, le16_bytes, DeserFromBuf, ReceivedMessage, RoundTrip, SerToBuf, WriteMessage,
};
use crate::error::{OpenRgbError, OpenRgbResult, ProtocolError};

verus! {

/// Relies on `String::from_utf8`: returns the string whose UTF-8 encoding is
/// the given bytes, or nothing exactly when the bytes are not valid UTF-8.
#[verifier::external_body]
fn bytes_to_string(bytes: Vec<u8>) -> (r: Option<String>)
    ensures
        r matches Some(s) ==> encode_utf8(s@) == bytes@ && valid_utf8(bytes@),
        r is None ==> !valid_utf8(bytes@),
{
    String::from_utf8(bytes).ok()
}

/// The wire bytes of a length-prefixed string with view `v`: byte count
/// (UTF-8 length plus one for the NUL), UTF-8 bytes, NUL.
pub open spec fn spec_enc_str(v: Seq<char>) -> Seq<u8> {
    le16_bytes((encode_utf8(v).len() + 1) as u16) + encode_utf8(v) + seq![0u8]
}

/// Whether a string fits its 16-bit length prefix, NUL included.
pub open spec fn spec_str_encodable(v: Seq<char>) -> bool {
    encode_utf8(v).len() + 1 <= 0xFFFF
}

/// The string value and consumed byte count decoded from the front of
/// `bytes`: a byte count, that many bytes of which the last is dropped as
/// the NUL, the rest read as UTF-8.
pub open spec fn spec_dec_str(bytes: Seq<u8>) -> Option<(Seq<char>, int)> {
    if bytes.len() < 2 {
        None
    } else {
        let n = le16(bytes[0], bytes[1]) as int;
        if bytes.len() - 2 < n {
            None
        } else {
            let content = if n > 0 {
                bytes.subrange(2, 2 + n - 1)
            } else {
                Seq::empty()
            };
            if valid_utf8(content) {
                Some((decode_utf8(content), 2 + n))
            } else {
                None
            }
        }
    }
}

impl SerToBuf for str {
    open spec fn spec_enc(v: Seq<char>, version: u32) -> Seq<u8> {
        spec_enc_str(v)
    }

    open spec fn spec_encodable(v: Seq<char>, version: u32) -> bool {
        spec_str_encodable(v)
    }

    fn serialize(&self, buf: &mut WriteMessage) -> (r: OpenRgbResult<()>) {
        let bytes = self.as_bytes();
        if bytes.len() > 0xFFFE {
            return Err(OpenRgbError::ProtocolError(ProtocolError::TooLong { len: bytes.len() }));
        }
        buf.write_u16((bytes.len() + 1) as u16);
        buf.write_slice(bytes);
        buf.write_u8(0);
        proof {
            assert(self.deep_view() == self@);
            assert(buf@ =~= old(buf)@ + spec_enc_str(self@));
            assert(<str as SerToBuf>::spec_enc(self@, old(buf).spec_version()) == spec_enc_str(
                self@,
            ));
            assert(<str as SerToBuf>::spec_encodable(self@, old(buf).spec_version())
                == spec_str_encodable(self@));
            assert(spec_str_encodable(self@));
        }
        Ok(())
    }
}

impl SerToBuf for String {
    open spec fn spec_enc(v: Seq<char>, version: u32) -> Seq<u8> {
        spec_enc_str(v)
    }

    open spec fn spec_encodable(v: Seq<char>, version: u32) -> bool {
        spec_str_encodable(v)
    }

    fn serialize(&self, buf: &mut WriteMessage) -> (r: OpenRgbResult<()>) {
        self.as_str().serialize(buf)
    }
}

impl DeserFromBuf for String {
    open spec fn spec_dec(bytes: Seq<u8>, version: u32) -> Option<(Seq<char>, int)> {
        spec_dec_str(bytes)
    }

    proof fn lemma_dec_len(bytes: Seq<u8>, version: u32) {
    }

    proof fn lemma_dec_extend(bytes: Seq<u8>, bytes2: Seq<u8>, version: u32) {
        assert forall|i: int| 0 <= i < bytes.len() implies bytes2[i] == bytes[i] by {
            assert(bytes[i] == bytes2.take(bytes.len() as int)[i]);
        }
        let n = le16(bytes[0], bytes[1]) as int;
        if n > 0 {
            assert(bytes2.subrange(2, 2 + n - 1) =~= bytes.subrange(2, 2 + n - 1));
        }
    }

    fn deserialize(buf: &mut ReceivedMessage<'_>) -> (r: OpenRgbResult<String>) {
        let ghost rem0 = buf.remaining();
        let n = match buf.read_u16() {
            Ok(n) => n,
            Err(e) => {
                return Err(e);
            },
        };
        if buf.available_len() < n as usize {
            return Err(OpenRgbError::ProtocolError(ProtocolError::Truncated));
        }
        let ghost content = if n > 0 {
            rem0.subrange(2, 2 + n - 1)
        } else {
            Seq::<u8>::empty()
        };
        let mut raw: Vec<u8> = Vec::with_capacity(n as usize);
        let mut i: usize = 0;
        while i < n as usize
            invariant
                old(buf).wf(),
                buf.wf(),
                i <= n as usize,
                buf.all_bytes() == old(buf).all_bytes(),
                buf.spec_version() == old(buf).spec_version(),
                rem0 == old(buf).remaining(),
                rem0.len() >= 2 + n,
                buf.spec_idx() == old(buf).spec_idx() + 2 + i,
                raw@ == rem0.subrange(2, 2 + i),
            decreases n as usize - i,
        {
            proof {
                assert(buf.remaining()[0] == rem0[2 + i]);
            }
            let b = match buf.read_u8() {
                Ok(b) => b,
                Err(_) => {
                    proof {
                        assert(false);
                    }
                    return Err(OpenRgbError::ProtocolError(ProtocolError::Truncated));
                },
            };
            raw.push(b);
            i = i + 1;
            proof {
                assert(raw@ =~= rem0.subrange(2, 2 + i));
            }
        }
        if raw.len() > 0 {
            raw.pop();
        }
        proof {
            assert(raw@ =~= content);
        }
        match bytes_to_string(raw) {
            Some(s) => {
                proof {
                    vstd::utf8::encode_utf8_decode_utf8(s@);
                }
                Ok(s)
            },
            None => Err(OpenRgbError::ProtocolError(ProtocolError::InvalidUtf8)),
        }
    }
}

impl RoundTrip for String {
    open spec fn spec_canonical(v: Seq<char>, version: u32) -> bool {
        true
    }

    proof fn lemma_round_trip(v: Seq<char>, version: u32, rest: Seq<u8>) {
        let utf8 = encode_utf8(v);
        let whole = spec_enc_str(v) + rest;
        crate::codec::lemma_le16_round_trip((utf8.len() + 1) as u16);
        assert(whole[0] == le16_bytes((utf8.len() + 1) as u16)[0]);
        assert(whole[1] == le16_bytes((utf8.len() + 1) as u16)[1]);
        assert(whole.subrange(2, 2 + utf8.len() as int) =~= utf8);
        vstd::utf8::encode_utf8_valid_utf8(v);
        vstd::utf8::encode_utf8_decode_utf8(v);
    }
}

/// A string serialized without its length prefix: the UTF-8 bytes and the
/// trailing NUL only.
pub struct RawString<'a>(pub &'a str);

impl<'a> DeepView for RawString<'a> {
    type V = Seq<char>;

    open spec fn deep_view(&self) -> Seq<char> {
        self.0@
    }
}

impl<'a> SerToBuf for RawString<'a> {
    open spec fn spec_enc(v: Seq<char>, version: u32) -> Seq<u8> {
        encode_utf8(v) + seq![0u8]
    }

    open spec fn spec_encodable(v: Seq<char>, version: u32) -> bool {
        true
    }

    fn serialize(&self, buf: &mut WriteMessage) -> (r: OpenRgbResult<()>) {
        buf.write_slice(self.0.as_bytes());
        buf.write_u8(0);
        proof {
            assert(buf@ =~= old(buf)@ + (encode_utf8(self.0@) + seq![0u8]));
        }
        Ok(())
    }
}

} // verus!
