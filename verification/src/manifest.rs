//! The manifest that wraps the config blob and the content layer of an
//! artifact.

use std::collections::BTreeMap;
use vstd::prelude::*;
use crate::config::{opt_entries, BlobView, ConfigBlob, Layer, ToConfig};
use crate::error::WasmError;
use crate::media::WASM_MANIFEST_MEDIA_TYPE;

verus! {

/// An image manifest of `oci_client`.
#[verifier::external_type_specification]
#[verifier::external_body]
pub struct ExOciImageManifest(oci_client::manifest::OciImageManifest);

/// The manifest that `oci_client` builds for one layer, a config blob and
/// the annotations of the manifest.
pub uninterp spec fn built_manifest(
    layer: BlobView,
    config: BlobView,
    annotations: Option<Map<String, String>>,
) -> oci_client::manifest::OciImageManifest;

/// The media type that a manifest declares.
pub uninterp spec fn manifest_media_type(m: oci_client::manifest::OciImageManifest) -> Option<
    Seq<char>,
>;

/// The manifest `m` with its declared media type replaced by `media_type`.
pub uninterp spec fn retyped(
    m: oci_client::manifest::OciImageManifest,
    media_type: Seq<char>,
) -> oci_client::manifest::OciImageManifest;

/// `oci_client::manifest::OciImageManifest::build` on the one layer and the
/// config, handed over as an `ImageLayer` and a `Config` with the same
/// data, media types and annotations. The manifest depends on these alone.
#[verifier::external_body]
fn build(layer: &Layer, config: &ConfigBlob, annotations: Option<BTreeMap<String, String>>) -> (m:
    oci_client::manifest::OciImageManifest)
    ensures
        m == built_manifest(layer@, config@, opt_entries(annotations)),
{
    let layers = [
        oci_client::client::ImageLayer::new(
            layer.data.clone(),
            layer.media_type.clone(),
            layer.annotations.clone(),
        ),
    ];
    let config = oci_client::client::Config::new(
        config.data.clone(),
        config.media_type.clone(),
        config.annotations.clone(),
    );
    oci_client::manifest::OciImageManifest::build(&layers, &config, annotations)
}

/// Assigns the field `media_type` of a manifest and leaves the other
/// fields as they are.
#[verifier::external_body]
fn set_media_type(m: &mut oci_client::manifest::OciImageManifest, media_type: &str)
    ensures
        *final(m) == retyped(*old(m), media_type@),
        manifest_media_type(*final(m)) == Some(media_type@),
{
    m.media_type = Some(media_type.to_string());
}

/// The manifest of a WebAssembly artifact: what `oci_client` builds for
/// the layer, the config and the annotations, declared with the media type
/// of a WebAssembly manifest.
pub fn wasm_manifest(
    layer: &Layer,
    config: &ConfigBlob,
    annotations: Option<BTreeMap<String, String>>,
) -> (m: oci_client::manifest::OciImageManifest)
    ensures
        m == retyped(
            built_manifest(layer@, config@, opt_entries(annotations)),
            WASM_MANIFEST_MEDIA_TYPE@,
        ),
        manifest_media_type(m) == Some(WASM_MANIFEST_MEDIA_TYPE@),
{
    let mut m = build(layer, config, annotations);
    set_media_type(&mut m, WASM_MANIFEST_MEDIA_TYPE);
    m
}

/// What is handed to a registry to store an artifact: the content layer,
/// the config blob and the manifest that wraps both.
pub struct PushRequest {
    pub layer: Layer,
    pub config: ConfigBlob,
    pub manifest: oci_client::manifest::OciImageManifest,
}

/// What is handed to a registry for the content layer `layer` and the
/// config blob `config`: the two and the manifest of a WebAssembly
/// artifact for them, with `annotations` as the annotations of the manifest.
pub fn push_request(
    layer: Layer,
    config: ConfigBlob,
    annotations: Option<BTreeMap<String, String>>,
) -> (request: PushRequest)
    ensures
        request.layer == layer,
        request.config == config,
        request.manifest == retyped(
            built_manifest(layer@, config@, opt_entries(annotations)),
            WASM_MANIFEST_MEDIA_TYPE@,
        ),
        manifest_media_type(request.manifest) == Some(WASM_MANIFEST_MEDIA_TYPE@),
{
    let manifest = wasm_manifest(&layer, &config, annotations);
    PushRequest { layer, config, manifest }
}

/// Prepares the push of an artifact with the content layer `layer` and the
/// config `config`: asks `config` for its blob and returns the push
/// request for the layer and that blob. It succeeds exactly if `config`
/// gives a blob: the request then holds that blob, and a failure is the
/// error that `config` gave.
pub fn prepare_push<C: ToConfig>(
    layer: Layer,
    config: &C,
    annotations: Option<BTreeMap<String, String>>,
) -> (r: Result<PushRequest, WasmError>)
    ensures
        match r {
            Ok(request) => {
                &&& call_ensures(
                    C::to_config,
                    (config,),
                    Ok::<ConfigBlob, WasmError>(request.config),
                )
                &&& request.layer == layer
                &&& request.manifest == retyped(
                    built_manifest(layer@, request.config@, opt_entries(annotations)),
                    WASM_MANIFEST_MEDIA_TYPE@,
                )
                &&& manifest_media_type(request.manifest) == Some(WASM_MANIFEST_MEDIA_TYPE@)
            },
            Err(e) => call_ensures(C::to_config, (config,), Err::<ConfigBlob, WasmError>(e)),
        },
{
    match config.to_config() {
        Ok(blob) => Ok(push_request(layer, blob, annotations)),
        Err(e) => Err(e),
    }
}

} // verus!
