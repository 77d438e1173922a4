//! Fixed media types and platform tags of a WebAssembly artifact.

use vstd::prelude::*;

verus! {

/// Media type of the manifest that wraps a WebAssembly artifact.
pub const WASM_MANIFEST_MEDIA_TYPE: &'static str = "application/vnd.oci.image.manifest.v1+json";

/// Media type of the config blob of a WebAssembly artifact.
pub const WASM_MANIFEST_CONFIG_MEDIA_TYPE: &'static str = "application/vnd.wasm.config.v0+json";

/// Media type of the content layer holding raw WebAssembly bytes.
pub const WASM_LAYER_MEDIA_TYPE: &'static str = "application/wasm";

/// Architecture tag of every WebAssembly artifact.
pub const WASM_ARCHITECTURE: &'static str = "wasm";

/// OS tag of a plain module.
pub const MODULE_OS: &'static str = "wasip1";

/// OS tag of a component.
pub const COMPONENT_OS: &'static str = "wasip2";

} // verus!
