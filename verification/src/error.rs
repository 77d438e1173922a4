//! The failures of descriptor extraction and artifact validation.

use vstd::prelude::*;
use vstd::string::StringExecFns;
use crate::media::{WASM_MANIFEST_CONFIG_MEDIA_TYPE, WASM_MANIFEST_MEDIA_TYPE};

verus! {

/// A kind of node that an identifier may fail to name.
#[derive(Debug, Clone, Copy, PartialEq, Eq, Structural)]
pub enum Node {
    World,
    Package,
}

/// The two shapes of a decoded artifact.
#[derive(Debug, Clone, Copy, PartialEq, Eq, Structural)]
pub enum Shape {
    /// A component, entered by a world.
    Component,
    /// An interface package, entered by a package.
    Package,
}

/// What a registry artifact may have wrong in its shape.
#[derive(Debug, Clone, Copy, PartialEq, Eq, Structural)]
pub enum Mismatch {
    /// It does not carry exactly one content layer.
    LayerCount,
    /// Its manifest has another media type than that of a WebAssembly manifest.
    ManifestMediaType,
    /// Its config has another media type than that of a WebAssembly config.
    ConfigMediaType,
}

/// Why an extraction or a validation failed.
#[derive(Debug, Clone, PartialEq, Eq)]
pub enum WasmError {
    /// The graph holds no node of this kind under the identifier asked for.
    NotFound(Node),
    /// The artifact was expected in one shape and has the other; the value
    /// is the shape it has.
    WrongArtifactShape(Shape),
    /// The decoder rejected the bytes; the value is its report, unchanged.
    MalformedBinary(String),
    /// The registry artifact is not a WebAssembly artifact.
    ArtifactShapeMismatch(Mismatch),
    /// The config blob is not the JSON record of a config; the value says
    /// what is wrong with it.
    MalformedConfig(String),
}

impl WasmError {
    /// The text of the error message.
    pub open spec fn message_text(self) -> Seq<char> {
        match self {
            WasmError::NotFound(Node::World) => "component world not found"@,
            WasmError::NotFound(Node::Package) => "package not found"@,
            WasmError::WrongArtifactShape(Shape::Component) =>
                "this is a component, use the component extraction path"@,
            WasmError::WrongArtifactShape(Shape::Package) =>
                "this is a package, use the package extraction path"@,
            WasmError::MalformedBinary(report) => "failed to decode WIT component: "@ + report@,
            WasmError::ArtifactShapeMismatch(Mismatch::LayerCount) =>
                "Wasm components must have exactly one layer"@,
            WasmError::ArtifactShapeMismatch(Mismatch::ManifestMediaType) =>
                "Wasm components must have a manifest of type "@ + WASM_MANIFEST_MEDIA_TYPE@,
            WasmError::ArtifactShapeMismatch(Mismatch::ConfigMediaType) =>
                "Wasm components must have a config of type "@ + WASM_MANIFEST_CONFIG_MEDIA_TYPE@,
            WasmError::MalformedConfig(report) => "invalid Wasm config: "@ + report@,
        }
    }

    /// The error message.
    pub fn message(&self) -> (s: String)
        ensures
            s@ == self.message_text(),
    {
        match self {
            WasmError::NotFound(Node::World) => String::from_str("component world not found"),
            WasmError::NotFound(Node::Package) => String::from_str("package not found"),
            WasmError::WrongArtifactShape(Shape::Component) => String::from_str(
                "this is a component, use the component extraction path",
            ),
            WasmError::WrongArtifactShape(Shape::Package) => String::from_str(
                "this is a package, use the package extraction path",
            ),
            WasmError::MalformedBinary(report) => {
                let mut s = String::from_str("failed to decode WIT component: ");
                s.append(report.as_str());
                s
            },
            WasmError::ArtifactShapeMismatch(Mismatch::LayerCount) => String::from_str(
                "Wasm components must have exactly one layer",
            ),
            WasmError::ArtifactShapeMismatch(Mismatch::ManifestMediaType) => {
                let mut s = String::from_str("Wasm components must have a manifest of type ");
                s.append(WASM_MANIFEST_MEDIA_TYPE);
                s
            },
            WasmError::ArtifactShapeMismatch(Mismatch::ConfigMediaType) => {
                let mut s = String::from_str("Wasm components must have a config of type ");
                s.append(WASM_MANIFEST_CONFIG_MEDIA_TYPE);
                s
            },
            WasmError::MalformedConfig(report) => {
                let mut s = String::from_str("invalid Wasm config: ");
                s.append(report.as_str());
                s
            },
        }
    }
}

} // verus!
