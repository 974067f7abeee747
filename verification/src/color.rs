//! RGB color value and its codec: three channel bytes and one padding byte,
//! always exactly four bytes on the wire; the padding is written as zero and
//! ignored on read.

use vstd::prelude::*;

use crate::codec::{DeserFromBuf, ReceivedMessage, RoundTrip, SerToBuf, WriteMessage};
use crate::error::OpenRgbResult;

verus! {

/// RGB controller color: three unsigned 8-bit channels.
#[derive(Clone, Copy, Debug, PartialEq, Eq, Structural)]
pub struct Color {
    /// Red channel.
    pub r: u8,
    /// Green channel.
    pub g: u8,
    /// Blue channel.
    pub b: u8,
}

impl Color {
    /// Builds a color from its three channels.
    pub fn new(r: u8, g: u8, b: u8) -> (c: Color)
        ensures
            c == (Color { r, g, b }),
    {
        Color { r, g, b }
    }
}

impl Default for Color {
    /// Black, the color of untouched LEDs in a batch buffer.
    fn default() -> (c: Color)
        ensures
            c == (Color { r: 0u8, g: 0u8, b: 0u8 }),
    {
        Color { r: 0, g: 0, b: 0 }
    }
}

impl DeepView for Color {
    type V = Color;

    open spec fn deep_view(&self) -> Color {
        *self
    }
}

impl SerToBuf for Color {
    open spec fn spec_enc(v: Color, version: u32) -> Seq<u8> {
        seq![v.r, v.g, v.b, 0u8]
    }

    open spec fn spec_encodable(v: Color, version: u32) -> bool {
        true
    }

    fn serialize(&self, buf: &mut WriteMessage) -> (r: OpenRgbResult<()>) {
        buf.write_u8(self.r);
        buf.write_u8(self.g);
        buf.write_u8(self.b);
        buf.write_u8(0);
        proof {
            assert(buf@ =~= old(buf)@ + seq![self.r, self.g, self.b, 0u8]);
        }
        Ok(())
    }
}

impl DeserFromBuf for Color {
    open spec fn spec_dec(bytes: Seq<u8>, version: u32) -> Option<(Color, int)> {
        if bytes.len() >= 4 {
            Some((Color { r: bytes[0], g: bytes[1], b: bytes[2] }, 4))
        } else {
            None
        }
    }

    proof fn lemma_dec_len(bytes: Seq<u8>, version: u32) {
    }

    proof fn lemma_dec_extend(bytes: Seq<u8>, bytes2: Seq<u8>, version: u32) {
        assert forall|i: int| 0 <= i < bytes.len() implies bytes2[i] == bytes[i] by {
            assert(bytes[i] == bytes2.take(bytes.len() as int)[i]);
        }
    }

    fn deserialize(buf: &mut ReceivedMessage<'_>) -> (r: OpenRgbResult<Color>) {
        let red = match buf.read_u8() {
            Ok(b) => b,
            Err(e) => {
                return Err(e);
            },
        };
        let green = match buf.read_u8() {
            Ok(b) => b,
            Err(e) => {
                return Err(e);
            },
        };
        let blue = match buf.read_u8() {
            Ok(b) => b,
            Err(e) => {
                return Err(e);
            },
        };
        // The padding byte is consumed and ignored.
        match buf.read_u8() {
            Ok(_) => {},
            Err(e) => {
                return Err(e);
            },
        }
        Ok(Color { r: red, g: green, b: blue })
    }
}

impl RoundTrip for Color {
    open spec fn spec_canonical(v: Color, version: u32) -> bool {
        true
    }

    proof fn lemma_round_trip(v: Color, version: u32, rest: Seq<u8>) {
    }
}

} // verus!
