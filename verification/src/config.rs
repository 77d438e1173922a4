//! The config record that is stored beside the content layer of an artifact.

use std::collections::BTreeMap;
use vstd::prelude::*;
use vstd::string::StringExecFns;
use crate::component::{extraction, Component};
use crate::decode::decoding;
use crate::digest::{digest_text, sha256_digest};
use crate::error::WasmError;
use crate::media::{COMPONENT_OS, MODULE_OS, WASM_ARCHITECTURE, WASM_LAYER_MEDIA_TYPE};
use crate::names::texts;
use crate::time::{now, Timestamp};

verus! {

/// The config record of an artifact.
#[derive(Debug, Clone, PartialEq, Eq)]
pub struct WasmConfig {
    /// The time when the config was created.
    pub created: Timestamp,
    /// The name of the author of the config.
    pub author: Option<String>,
    /// The architecture of the artifact, always `wasm`.
    pub architecture: String,
    /// The OS tag of the artifact: `wasip1` for a plain module, `wasip2` for
    /// a component.
    pub os: String,
    /// The digest of each content layer, in the order of the manifest. They
    /// make the digest of the config differ where the layers differ.
    pub layer_digests: Vec<String>,
    /// The descriptor of the component; present where `os` is `wasip2`.
    pub component: Option<Component>,
}

/// The content layer of an artifact: raw WebAssembly bytes.
#[derive(Debug, Clone, PartialEq, Eq)]
pub struct Layer {
    pub data: Vec<u8>,
    pub media_type: String,
    pub annotations: Option<BTreeMap<String, String>>,
}

/// The blob of a config: the bytes of its record, their media type and the
/// annotations of the blob.
#[derive(Debug, Clone, PartialEq, Eq)]
pub struct ConfigBlob {
    pub data: Vec<u8>,
    pub media_type: String,
    pub annotations: Option<BTreeMap<String, String>>,
}

/// The mathematical content of a [`Layer`] and of a [`ConfigBlob`].
pub struct BlobView {
    pub data: Seq<u8>,
    pub media_type: Seq<char>,
    pub annotations: Option<Map<String, String>>,
}

/// The entries of optional annotations.
pub open spec fn opt_entries(annotations: Option<BTreeMap<String, String>>) -> Option<
    Map<String, String>,
> {
    match annotations {
        Some(a) => Some(a@),
        None => None,
    }
}

impl View for Layer {
    type V = BlobView;

    open spec fn view(&self) -> BlobView {
        BlobView {
            data: self.data@,
            media_type: self.media_type@,
            annotations: opt_entries(self.annotations),
        }
    }
}

impl View for ConfigBlob {
    type V = BlobView;

    open spec fn view(&self) -> BlobView {
        BlobView {
            data: self.data@,
            media_type: self.media_type@,
            annotations: opt_entries(self.annotations),
        }
    }
}

/// A value that can be stored as the config blob of an artifact.
pub trait ToConfig {
    /// The config blob of the value.
    fn to_config(&self) -> Result<ConfigBlob, WasmError>;
}

/// A config together with annotations for its blob.
pub struct AnnotatedWasmConfig<'a> {
    pub config: &'a WasmConfig,
    pub annotations: BTreeMap<String, String>,
}

/// `config` and `layer` are the record and the content layer of the bytes
/// `raw`, by `author`, with the OS tag `os`: the record holds the digest of
/// the bytes as its one layer digest, and the layer holds the bytes under
/// the media type of a WebAssembly layer.
pub open spec fn record_of(
    config: WasmConfig,
    layer: Layer,
    raw: Seq<u8>,
    author: Option<String>,
    os: Seq<char>,
) -> bool {
    &&& config.author == author
    &&& config.architecture@ == WASM_ARCHITECTURE@
    &&& config.os@ == os
    &&& texts(config.layer_digests@) == seq![digest_text(raw)]
    &&& layer.data@ == raw
    &&& layer.media_type@ == WASM_LAYER_MEDIA_TYPE@
    &&& layer.annotations is None
}

impl WasmConfig {
    /// The config and the content layer of the bytes `raw`.
    fn record(
        raw: Vec<u8>,
        author: Option<String>,
        created: Timestamp,
        os: &str,
        component: Option<Component>,
    ) -> (r: (WasmConfig, Layer))
        ensures
            record_of(r.0, r.1, raw@, author, os@),
            r.0.created == created,
            r.0.component == component,
    {
        let mut layer_digests: Vec<String> = Vec::new();
        layer_digests.push(sha256_digest(raw.as_slice()));
        assert(texts(layer_digests@) =~= seq![digest_text(raw@)]);
        let config = WasmConfig {
            created,
            author,
            architecture: String::from_str(WASM_ARCHITECTURE),
            os: String::from_str(os),
            layer_digests,
            component,
        };
        let layer = Layer {
            data: raw,
            media_type: String::from_str(WASM_LAYER_MEDIA_TYPE),
            annotations: None,
        };
        (config, layer)
    }

    /// The config and the content layer of a component with the bytes
    /// `raw` and the descriptor `component`, created at `created`.
    pub fn for_component(
        raw: Vec<u8>,
        author: Option<String>,
        created: Timestamp,
        component: Component,
    ) -> (r: (WasmConfig, Layer))
        ensures
            record_of(r.0, r.1, raw@, author, COMPONENT_OS@),
            r.0.created == created,
            r.0.component == Some(component),
    {
        WasmConfig::record(raw, author, created, COMPONENT_OS, Some(component))
    }

    /// The config and the content layer of a plain module with the bytes
    /// `raw`, created at `created`.
    pub fn for_module(
        raw: Vec<u8>,
        author: Option<String>,
        created: Timestamp,
    ) -> (r: (WasmConfig, Layer))
        ensures
            record_of(r.0, r.1, raw@, author, MODULE_OS@),
            r.0.created == created,
            r.0.component is None,
    {
        WasmConfig::record(raw, author, created, MODULE_OS, None)
    }

    /// The config and the content layer of the component, or binary
    /// interface package, with the bytes `raw`, created now. The config
    /// holds the descriptor that is extracted from the bytes; it fails as
    /// that extraction fails.
    pub fn from_raw_component(raw: Vec<u8>, author: Option<String>) -> (r: Result<
        (WasmConfig, Layer),
        WasmError,
    >)
        ensures
            match decoding(raw@) {
                None => r is Err && r->Err_0 is MalformedBinary,
                Some(decoded) => match r {
                    Ok((config, layer)) => {
                        &&& record_of(config, layer, raw@, author, COMPONENT_OS@)
                        &&& config.component is Some
                        &&& extraction(decoded, Ok(config.component->Some_0))
                    },
                    Err(e) => extraction(decoded, Err(e)),
                },
            },
    {
        match Component::from_raw_component(raw.as_slice()) {
            Ok(component) => Ok(WasmConfig::for_component(raw, author, now(), component)),
            Err(e) => Err(e),
        }
    }

    /// The config and the content layer of the plain module with the bytes
    /// `raw`, created now. The bytes are not inspected, and it never fails.
    pub fn from_raw_module(raw: Vec<u8>, author: Option<String>) -> (r: Result<
        (WasmConfig, Layer),
        WasmError,
    >)
        ensures
            r is Ok,
            record_of(r->Ok_0.0, r->Ok_0.1, raw@, author, MODULE_OS@),
            r->Ok_0.0.component is None,
    {
        Ok(WasmConfig::for_module(raw, author, now()))
    }

    /// This config with annotations for its blob.
    #[must_use]
    pub fn with_annotations(&self, annotations: BTreeMap<String, String>) -> (r:
        AnnotatedWasmConfig<'_>)
        ensures
            *r.config == *self,
            r.annotations == annotations,
    {
        AnnotatedWasmConfig { config: self, annotations }
    }
}

} // verus!
