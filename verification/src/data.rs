//! Small wire data records: one LED descriptor and one plugin entry. Both
//! are read from the server and never written back.

use vstd::prelude::*;

use crate::codec::{DeserFromBuf, ReceivedMessage};
use crate::error::OpenRgbResult;

verus! {

/// Ghost mirror of a [`Led`]: its fields as mathematical values.
pub ghost struct LedV {
    /// LED name.
    pub name: Seq<char>,
    /// Device-internal LED value.
    pub value: u32,
}

/// A single LED descriptor of a controller.
#[derive(Debug, Clone, PartialEq, Eq)]
pub struct Led {
    name: String,
    value: u32,
}

impl DeepView for Led {
    type V = LedV;

    closed spec fn deep_view(&self) -> LedV {
        LedV { name: self.name.deep_view(), value: self.value }
    }
}

impl Led {
    /// The LED's name.
    pub fn name(&self) -> (r: &str)
        ensures
            r@ == self.deep_view().name,
    {
        self.name.as_str()
    }

    /// The device-internal LED value.
    pub fn value(&self) -> (r: u32)
        ensures
            r == self.deep_view().value,
    {
        self.value
    }
}

impl DeserFromBuf for Led {
    open spec fn spec_dec(bytes: Seq<u8>, version: u32) -> Option<(LedV, int)> {
        match <(String, u32)>::spec_dec(bytes, version) {
            Some(d) => Some((LedV { name: d.0.0, value: d.0.1 }, d.1)),
            None => None,
        }
    }

    proof fn lemma_dec_len(bytes: Seq<u8>, version: u32) {
        <(String, u32)>::lemma_dec_len(bytes, version);
    }

    proof fn lemma_dec_extend(bytes: Seq<u8>, bytes2: Seq<u8>, version: u32) {
        <(String, u32)>::lemma_dec_extend(bytes, bytes2, version);
    }

    fn deserialize(buf: &mut ReceivedMessage<'_>) -> (r: OpenRgbResult<Led>) {
        let (name, value) = match buf.read_value::<(String, u32)>() {
            Ok(t) => t,
            Err(e) => {
                return Err(e);
            },
        };
        Ok(Led { name, value })
    }
}

/// Ghost mirror of a [`PluginData`]: its fields as mathematical values.
pub ghost struct PluginDataV {
    /// Plugin name.
    pub name: Seq<char>,
    /// Plugin description.
    pub description: Seq<char>,
    /// Plugin version string.
    pub version: Seq<char>,
    /// Plugin index, the id used in plugin-specific commands.
    pub index: u32,
    /// The plugin's own protocol version.
    pub plugin_protocol_version: u32,
}

/// One entry of the server's installed-plugin list.
#[derive(Debug, Clone, PartialEq, Eq)]
pub struct PluginData {
    name: String,
    description: String,
    version: String,
    index: u32,
    plugin_protocol_version: u32,
}

impl DeepView for PluginData {
    type V = PluginDataV;

    closed spec fn deep_view(&self) -> PluginDataV {
        PluginDataV {
            name: self.name.deep_view(),
            description: self.description.deep_view(),
            version: self.version.deep_view(),
            index: self.index,
            plugin_protocol_version: self.plugin_protocol_version,
        }
    }
}

impl PluginData {
    /// The plugin's name.
    pub fn name(&self) -> (r: &str)
        ensures
            r@ == self.deep_view().name,
    {
        self.name.as_str()
    }

    /// The plugin's description.
    pub fn description(&self) -> (r: &str)
        ensures
            r@ == self.deep_view().description,
    {
        self.description.as_str()
    }

    /// The plugin's version string.
    pub fn version(&self) -> (r: &str)
        ensures
            r@ == self.deep_view().version,
    {
        self.version.as_str()
    }

    /// The plugin's index, its id in plugin-specific commands.
    pub fn index(&self) -> (r: u32)
        ensures
            r == self.deep_view().index,
    {
        self.index
    }

    /// The plugin's own protocol version.
    pub fn plugin_protocol_version(&self) -> (r: u32)
        ensures
            r == self.deep_view().plugin_protocol_version,
    {
        self.plugin_protocol_version
    }
}

impl DeserFromBuf for PluginData {
    open spec fn spec_dec(bytes: Seq<u8>, version: u32) -> Option<(PluginDataV, int)> {
        match <(String, (String, (String, (u32, u32))))>::spec_dec(bytes, version) {
            Some(d) => Some(
                (
                    PluginDataV {
                        name: d.0.0,
                        description: d.0.1.0,
                        version: d.0.1.1.0,
                        index: d.0.1.1.1.0,
                        plugin_protocol_version: d.0.1.1.1.1,
                    },
                    d.1,
                ),
            ),
            None => None,
        }
    }

    proof fn lemma_dec_len(bytes: Seq<u8>, version: u32) {
        <(String, (String, (String, (u32, u32))))>::lemma_dec_len(bytes, version);
    }

    proof fn lemma_dec_extend(bytes: Seq<u8>, bytes2: Seq<u8>, version: u32) {
        <(String, (String, (String, (u32, u32))))>::lemma_dec_extend(bytes, bytes2, version);
    }

    fn deserialize(buf: &mut ReceivedMessage<'_>) -> (r: OpenRgbResult<PluginData>) {
        let (name, (description, (version, (index, plugin_protocol_version)))) = match buf
            .read_value::<(String, (String, (String, (u32, u32))))>() {
            Ok(t) => t,
            Err(e) => {
                return Err(e);
            },
        };
        Ok(PluginData { name, description, version, index, plugin_protocol_version })
    }
}

} // verus!
