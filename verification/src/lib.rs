//! Client-side core of the OpenRGB SDK wire protocol: a versioned binary
//! codec, packet framing, session version negotiation, and LED-update
//! batching, with machine-checked contracts.
//!
//! All I/O lives outside this crate; every function here is a pure
//! computation on plain values and is verified against its contract.

pub mod codec;
pub mod color;
pub mod command;
pub mod controller;
pub mod data;
pub mod enums;
pub mod error;
pub mod flags;
pub mod mode;
pub mod packet;
pub mod pair;
pub mod primitive;
pub mod protocol_option;
pub mod segment;
pub mod sequence;
pub mod session;
pub mod text;
pub mod zone;

pub use codec::{DeserFromBuf, ReceivedMessage, RoundTrip, SerToBuf, WriteMessage};
pub use color::Color;
pub use command::{BatchWarning, Command, CommandGroup};
pub use controller::ControllerData;
pub use data::{Led, PluginData};
pub use enums::{ColorMode, DeviceType, Direction, ZoneType};
pub use error::{CommandError, OpenRgbError, OpenRgbResult, ProtocolError};
pub use flags::{ControllerFlagSet, ControllerFlags, ModeFlag, ModeFlagSet, ZoneFlagSet, ZoneFlags};
pub use mode::ModeData;
pub use packet::{OpenRgbPacket, PacketId};
pub use protocol_option::ProtocolOption;
pub use segment::SegmentData;
pub use session::{OpenRgbProtocol, DEFAULT_PROTOCOL};
pub use text::RawString;
pub use zone::{LedMatrix, ZoneData};
