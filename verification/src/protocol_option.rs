//! The version-gated optional field: a wrapper whose wire presence depends
//! on the protocol version negotiated for the session.
//!
//! Below the minimum version `VER` the field holds no bytes at all: decoding
//! consumes nothing and yields the absent state, and encoding writes
//! nothing. From `VER` on it behaves exactly like the wrapped type. A value
//! read as absent is never invented on a later write: encoding the absent
//! state at a version that would carry the field writes nothing.

use vstd::prelude::*;

use crate::codec::{DeserFromBuf, ReceivedMessage, RoundTrip, SerToBuf, WriteMessage};
use crate::error::OpenRgbResult;

verus! {

/// A value of `T` present only from protocol version `VER` on.
#[derive(Clone, Copy, Debug, PartialEq, Eq)]
pub enum ProtocolOption<const VER: u32, T> {
    /// The field is on the wire: the active protocol version reaches `VER`.
    Value(T),
    /// The field is absent: the active protocol version is below `VER`.
    UnsupportedVersion,
}

impl<const VER: u32, T: DeepView> DeepView for ProtocolOption<VER, T> {
    type V = Option<T::V>;

    open spec fn deep_view(&self) -> Option<T::V> {
        match self {
            ProtocolOption::Value(v) => Some(v.deep_view()),
            ProtocolOption::UnsupportedVersion => None,
        }
    }
}

impl<const VER: u32, T> ProtocolOption<VER, T> {
    /// Wraps `val` when `version` reaches `VER`, else the absent state.
    pub fn new(val: T, version: u32) -> (r: Self)
        ensures
            version >= VER ==> r == ProtocolOption::<VER, T>::Value(val),
            version < VER ==> r == ProtocolOption::<VER, T>::UnsupportedVersion,
    {
        if version < VER {
            ProtocolOption::UnsupportedVersion
        } else {
            ProtocolOption::Value(val)
        }
    }

    /// Replaces the wrapped value; an absent field stays absent.
    pub fn replace(&mut self, val: T)
        ensures
            *old(self) is Value ==> *final(self) == ProtocolOption::<VER, T>::Value(val),
            *old(self) is UnsupportedVersion ==> *final(self) == *old(self),
    {
        match self {
            ProtocolOption::Value(_) => {
                *self = ProtocolOption::Value(val);
            },
            ProtocolOption::UnsupportedVersion => {},
        }
    }

    /// The wrapped value, or nothing when the field is absent: absence is a
    /// first-class case, never coerced to a default.
    pub fn value(&self) -> (r: Option<&T>)
        ensures
            match r {
                Some(v) => *self == ProtocolOption::<VER, T>::Value(*v),
                None => *self == ProtocolOption::<VER, T>::UnsupportedVersion,
            },
    {
        match self {
            ProtocolOption::Value(v) => Some(v),
            ProtocolOption::UnsupportedVersion => None,
        }
    }

    /// The wrapped value for writing, or nothing when the field is absent.
    pub fn value_mut(&mut self) -> (r: Option<&mut T>)
        ensures
            r is Some <==> *old(self) is Value,
    {
        match self {
            ProtocolOption::Value(v) => Some(v),
            ProtocolOption::UnsupportedVersion => None,
        }
    }
}

impl<const VER: u32, T: SerToBuf> SerToBuf for ProtocolOption<VER, T> {
    open spec fn spec_enc(v: Option<T::V>, version: u32) -> Seq<u8> {
        if version < VER {
            Seq::empty()
        } else {
            match v {
                Some(x) => T::spec_enc(x, version),
                None => Seq::empty(),
            }
        }
    }

    open spec fn spec_encodable(v: Option<T::V>, version: u32) -> bool {
        if version < VER {
            true
        } else {
            match v {
                Some(x) => T::spec_encodable(x, version),
                None => true,
            }
        }
    }

    fn serialize(&self, buf: &mut WriteMessage) -> (r: OpenRgbResult<()>) {
        if buf.protocol_version() < VER {
            proof {
                assert(buf@ =~= old(buf)@ + Seq::<u8>::empty());
            }
            return Ok(());
        }
        match self {
            ProtocolOption::Value(v) => v.serialize(buf),
            ProtocolOption::UnsupportedVersion => {
                proof {
                    assert(buf@ =~= old(buf)@ + Seq::<u8>::empty());
                }
                Ok(())
            },
        }
    }
}

impl<const VER: u32, T: DeserFromBuf> DeserFromBuf for ProtocolOption<VER, T> {
    open spec fn spec_dec(bytes: Seq<u8>, version: u32) -> Option<(Option<T::V>, int)> {
        if version < VER {
            Some((None, 0))
        } else {
            match T::spec_dec(bytes, version) {
                Some(d) => Some((Some(d.0), d.1)),
                None => None,
            }
        }
    }

    proof fn lemma_dec_len(bytes: Seq<u8>, version: u32) {
        if version >= VER {
            T::lemma_dec_len(bytes, version);
        }
    }

    proof fn lemma_dec_extend(bytes: Seq<u8>, bytes2: Seq<u8>, version: u32) {
        if version >= VER {
            T::lemma_dec_extend(bytes, bytes2, version);
        }
    }

    fn deserialize(buf: &mut ReceivedMessage<'_>) -> (r: OpenRgbResult<ProtocolOption<VER, T>>) {
        if buf.protocol_version() < VER {
            return Ok(ProtocolOption::UnsupportedVersion);
        }
        match T::deserialize(buf) {
            Ok(v) => Ok(ProtocolOption::Value(v)),
            Err(e) => Err(e),
        }
    }
}

impl<const VER: u32, T: RoundTrip> RoundTrip for ProtocolOption<VER, T> {
    /// The wire can only reproduce presence that matches the version: absent
    /// below `VER`, present with a canonical value from `VER` on.
    open spec fn spec_canonical(v: Option<T::V>, version: u32) -> bool {
        if version < VER {
            v is None
        } else {
            match v {
                Some(x) => T::spec_canonical(x, version),
                None => false,
            }
        }
    }

    proof fn lemma_round_trip(v: Option<T::V>, version: u32, rest: Seq<u8>) {
        if version < VER {
            assert(Self::spec_enc(v, version) + rest =~= rest);
        } else {
            T::lemma_round_trip(v->Some_0, version, rest);
        }
    }
}

/// Versioned-field law, absent side: below the minimum version the field
/// holds no bytes — encoding writes none and decoding consumes none, giving
/// the absent state whatever the buffer holds.
pub proof fn lemma_protocol_option_absent<const VER: u32, T: RoundTrip>(
    v: Option<T::V>,
    version: u32,
    bytes: Seq<u8>,
)
    requires
        version < VER,
    ensures
        ProtocolOption::<VER, T>::spec_enc(v, version) == Seq::<u8>::empty(),
        ProtocolOption::<VER, T>::spec_dec(bytes, version) == Some((None::<T::V>, 0int)),
{
}

/// Versioned-field law, present side: from the minimum version on, the field
/// encodes and decodes exactly like the wrapped type.
pub proof fn lemma_protocol_option_present<const VER: u32, T: RoundTrip>(
    x: T::V,
    version: u32,
    bytes: Seq<u8>,
)
    requires
        version >= VER,
    ensures
        ProtocolOption::<VER, T>::spec_enc(Some(x), version) == T::spec_enc(x, version),
        ProtocolOption::<VER, T>::spec_dec(bytes, version) == (match T::spec_dec(bytes, version) {
            Some(d) => Some((Some(d.0), d.1)),
            None => None,
        }),
{
}

} // verus!
