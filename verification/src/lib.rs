//! Capability descriptors for WebAssembly artifacts stored in OCI registries.
//!
//! A component, or a binary interface package, carries a graph of packages,
//! interfaces and worlds. This library flattens that graph into a
//! [`Component`]: the set of fully qualified names that the artifact
//! exports and the set that it imports. It also builds the config record
//! that is stored beside the artifact, writes and reads that record as
//! JSON, and judges whether a pulled artifact has the shape of a
//! WebAssembly artifact.
//!
//! - [`graph`] holds the graph and resolves references to canonical names;
//!   [`version`] writes semantic versions.
//! - [`component`] extracts descriptors from a world or from a package;
//!   [`names`] and [`order`] keep the name lists strictly ascending, so
//!   that a set has one list form. [`laws`] states what holds of both on
//!   every graph.
//! - [`decode`] reads the bytes of an artifact with `wit_component` and
//!   copies the result into a graph.
//! - [`config`], [`digest`] and [`time`] build the config record;
//!   [`document`] and [`json`] write and read it with `serde_json`.
//! - [`artifact`] and [`manifest`] judge and build what a registry holds;
//!   [`media`] has the fixed media types and tags.

pub mod artifact;
pub mod component;
pub mod config;
pub mod decode;
pub mod digest;
pub mod document;
pub mod error;
pub mod graph;
pub mod json;
pub mod laws;
pub mod manifest;
pub mod media;
pub mod names;
pub mod order;
pub mod text;
pub mod time;
pub mod version;

pub use component::Component;
pub use config::{ToConfig, WasmConfig};
pub use media::{
    COMPONENT_OS, MODULE_OS, WASM_ARCHITECTURE, WASM_LAYER_MEDIA_TYPE,
    WASM_MANIFEST_CONFIG_MEDIA_TYPE, WASM_MANIFEST_MEDIA_TYPE,
};
