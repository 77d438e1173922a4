//! The shape that a registry artifact must have to be a WebAssembly artifact.

use vstd::prelude::*;
use crate::error::{Mismatch, WasmError};
use crate::media::{WASM_MANIFEST_CONFIG_MEDIA_TYPE, WASM_MANIFEST_MEDIA_TYPE};
use crate::text::str_eq;

verus! {

/// The verdict on a pulled image with `layers` content layers and a config
/// of media type `config`: the first of the two conditions that it breaks.
pub open spec fn image_verdict(layers: nat, config: Seq<char>) -> Result<(), WasmError> {
    if layers != 1 {
        Err(WasmError::ArtifactShapeMismatch(Mismatch::LayerCount))
    } else if config != WASM_MANIFEST_CONFIG_MEDIA_TYPE@ {
        Err(WasmError::ArtifactShapeMismatch(Mismatch::ConfigMediaType))
    } else {
        Ok(())
    }
}

/// The verdict on a manifest that lists `layers` content layers, declares
/// the media type `manifest` and a config of media type `config`: the first
/// of the three conditions that it breaks. A manifest without media type
/// counts as one with the empty media type.
pub open spec fn manifest_verdict(
    layers: nat,
    manifest: Option<Seq<char>>,
    config: Seq<char>,
) -> Result<(), WasmError> {
    let declared = match manifest {
        Some(m) => m,
        None => Seq::<char>::empty(),
    };
    if layers != 1 {
        Err(WasmError::ArtifactShapeMismatch(Mismatch::LayerCount))
    } else if declared != WASM_MANIFEST_MEDIA_TYPE@ {
        Err(WasmError::ArtifactShapeMismatch(Mismatch::ManifestMediaType))
    } else if config != WASM_MANIFEST_CONFIG_MEDIA_TYPE@ {
        Err(WasmError::ArtifactShapeMismatch(Mismatch::ConfigMediaType))
    } else {
        Ok(())
    }
}

/// The text of an optional string slice.
pub open spec fn opt_str_text(s: Option<&str>) -> Option<Seq<char>> {
    match s {
        Some(s) => Some(s@),
        None => None,
    }
}

/// Accepts a pulled image only if it carries exactly one content layer and
/// its config has the media type of a WebAssembly config.
pub fn check_image(layers: usize, config_media_type: &str) -> (r: Result<(), WasmError>)
    ensures
        r == image_verdict(layers as nat, config_media_type@),
{
    if layers != 1 {
        return Err(WasmError::ArtifactShapeMismatch(Mismatch::LayerCount));
    }
    if !str_eq(config_media_type, WASM_MANIFEST_CONFIG_MEDIA_TYPE) {
        return Err(WasmError::ArtifactShapeMismatch(Mismatch::ConfigMediaType));
    }
    Ok(())
}

/// Accepts a manifest only if it lists exactly one content layer, declares
/// the media type of a WebAssembly manifest, and its config has the media
/// type of a WebAssembly config.
pub fn check_manifest(
    layers: usize,
    manifest_media_type: Option<&str>,
    config_media_type: &str,
) -> (r: Result<(), WasmError>)
    ensures
        r == manifest_verdict(layers as nat, opt_str_text(manifest_media_type), config_media_type@),
{
    if layers != 1 {
        return Err(WasmError::ArtifactShapeMismatch(Mismatch::LayerCount));
    }
    let declared = match manifest_media_type {
        Some(m) => m,
        None => "",
    };
    proof {
        reveal_strlit("");
        assert(""@ =~= Seq::<char>::empty());
    }
    if !str_eq(declared, WASM_MANIFEST_MEDIA_TYPE) {
        return Err(WasmError::ArtifactShapeMismatch(Mismatch::ManifestMediaType));
    }
    if !str_eq(config_media_type, WASM_MANIFEST_CONFIG_MEDIA_TYPE) {
        return Err(WasmError::ArtifactShapeMismatch(Mismatch::ConfigMediaType));
    }
    Ok(())
}

/// An artifact is accepted exactly if it has one layer and the two fixed
/// media types; every other artifact is refused as `ArtifactShapeMismatch`.
pub proof fn law_only_wasm_artifacts_pass(
    layers: nat,
    manifest: Option<Seq<char>>,
    config: Seq<char>,
)
    ensures
        image_verdict(layers, config) is Ok <==> layers == 1 && config
            == WASM_MANIFEST_CONFIG_MEDIA_TYPE@,
        image_verdict(layers, config) is Err ==> image_verdict(layers, config)->Err_0
            is ArtifactShapeMismatch,
        manifest_verdict(layers, manifest, config) is Ok <==> layers == 1 && manifest == Some(
            WASM_MANIFEST_MEDIA_TYPE@,
        ) && config == WASM_MANIFEST_CONFIG_MEDIA_TYPE@,
        manifest_verdict(layers, manifest, config) is Err ==> manifest_verdict(
            layers,
            manifest,
            config,
        )->Err_0 is ArtifactShapeMismatch,
{
    reveal_strlit("application/vnd.oci.image.manifest.v1+json");
    assert(WASM_MANIFEST_MEDIA_TYPE@.len() > 0);
}

} // verus!
