use oci_wasm::component::Component;
use oci_wasm::artifact::check_image;
use oci_wasm::config::WasmConfig;
use oci_wasm::document::read_pulled_config;
use oci_wasm::manifest::prepare_push;
use oci_wasm::decode::{decode_artifact, Entry};
use oci_wasm::error::WasmError;
use oci_wasm::graph::WorldKey;
use oci_wasm::{
    COMPONENT_OS, MODULE_OS, WASM_ARCHITECTURE, WASM_LAYER_MEDIA_TYPE,
    WASM_MANIFEST_CONFIG_MEDIA_TYPE, WASM_MANIFEST_MEDIA_TYPE,
};

const HTTP_WIT: &str = "
package wasi:http@0.2.0;

interface types {
    type status = u16;
}

interface incoming-handler {
    use types.{status};
    handle: func(request: u32) -> status;
}

interface outgoing-handler {
    use types.{status};
    send: func(request: u32) -> status;
}

world proxy {
    import outgoing-handler;
    export incoming-handler;
}

world imports {
    import outgoing-handler;
}
";

const APP_WIT: &str = "
package example:app@1.2.3-rc.1;

interface environment {
    get: func() -> u32;
}

interface exit {
    leave: func(code: u32);
}

interface handler {
    handle: func(request: u32) -> u32;
}

world service {
    import environment;
    import exit;
    import log: func(level: u32);
    export handler;
    export run: func();
}
";

const WASI_WIT: &str = "
package example:service;

world root {
    import wasi:io/streams@0.2.0;
    import wasi:io/error@0.2.0;
    import wasi:filesystem/types@0.2.0;
    import wasi:filesystem/preopens@0.2.0;
    import wasi:clocks/wall-clock@0.2.0;
    import wasi:cli/stdout@0.2.0;
    import wasi:cli/stdin@0.2.0;
    import wasi:cli/stderr@0.2.0;
    import wasi:cli/exit@0.2.0;
    import wasi:cli/environment@0.2.0;
    export wasi:http/incoming-handler@0.2.0;
}

package wasi:cli@0.2.0 {
    interface environment { get: func() -> u32; }
    interface exit { leave: func(code: u32); }
    interface stderr { get: func() -> u32; }
    interface stdin { get: func() -> u32; }
    interface stdout { get: func() -> u32; }
}

package wasi:clocks@0.2.0 {
    interface wall-clock { now: func() -> u64; }
}

package wasi:filesystem@0.2.0 {
    interface preopens { get: func() -> u32; }
    interface types { stat: func(file: u32) -> u64; }
}

package wasi:io@0.2.0 {
    interface error { code: func(e: u32) -> u32; }
    interface streams { read: func(source: u32) -> u32; }
}

package wasi:http@0.2.0 {
    interface incoming-handler { handle: func(request: u32, response: u32); }
}
";

const PROXY_WIT: &str = "
package example:proxy;

world root {
    import wasi:io/streams@0.2.0;
    import wasi:io/error@0.2.0;
    import wasi:filesystem/types@0.2.0;
    import wasi:filesystem/preopens@0.2.0;
    import wasi:clocks/wall-clock@0.2.0;
    import wasi:cli/stdout@0.2.0;
    import wasi:cli/stdin@0.2.0;
    import wasi:cli/stderr@0.2.0;
    import wasi:cli/exit@0.2.0;
    import wasi:cli/environment@0.2.0;
    export wasi:http/incoming-handler@0.2.0;
}

package wasi:cli@0.2.0 {
    interface environment { get: func() -> u32; }
    interface exit { leave: func(code: u32); }
    interface stderr { get: func() -> u32; }
    interface stdin { get: func() -> u32; }
    interface stdout { get: func() -> u32; }
}

package wasi:clocks@0.2.0 {
    interface wall-clock { now: func() -> u64; }
}

package wasi:filesystem@0.2.0 {
    interface preopens { get: func() -> u32; }
    interface types { stat: func(file: u32) -> u64; }
}

package wasi:io@0.2.0 {
    interface error { code: func(e: u32) -> u32; }
    interface streams { read: func(source: u32) -> u32; }
}

package wasi:http@0.2.0 {
    interface types {
        record request { code: u32 }
    }
    interface incoming-handler {
        use types.{request};
        handle: func(request: request);
    }
}
";

fn binary_package(wit: &str) -> Vec<u8> {
    let mut resolve = wit_parser::Resolve::default();
    let package = resolve.push_str("package.wit", wit).expect("the text should parse");
    wit_component::encode(&resolve, package, false).expect("the package should encode")
}

fn component(wit: &str, world: &str) -> Vec<u8> {
    let mut resolve = wit_parser::Resolve::default();
    let package = resolve.push_str("component.wit", wit).expect("the text should parse");
    let world = resolve.select_world(&[package], Some(world)).expect("the world should exist");
    let mut module =
        wit_component::dummy_module(&resolve, world, wit_parser::ManglingAndAbi::Standard32);
    wit_component::embed_component_metadata(
        &mut module,
        &resolve,
        world,
        wit_component::StringEncoding::UTF8,
        false,
    )
    .expect("the metadata should embed");
    wit_component::ComponentEncoder::default()
        .module(&module)
        .expect("the module should be accepted")
        .validate(true)
        .encode()
        .expect("the component should encode")
}

fn strings(names: &[&str]) -> Vec<String> {
    names.iter().map(|s| s.to_string()).collect()
}

#[test]
fn test_push_and_pull() {
    let (conf, component) =
        WasmConfig::from_raw_component(component(PROXY_WIT, "root"), Some("Bugs Bunny".to_string()))
            .expect("Should be able to parse component and create config");
    let pushed = prepare_push(component, &conf, None).expect("Should be able to push component");

    // Check that just reading the manifest and the config works and check the config
    let conf = read_pulled_config(
        pushed.manifest.layers.len(),
        pushed.manifest.media_type.as_deref(),
        &pushed.manifest.config.media_type,
        std::str::from_utf8(&pushed.config.data).unwrap(),
    )
    .expect("Should be able to pull manifest and config");
    assert_eq!(
        conf.author.expect("Author should be set"),
        "Bugs Bunny",
        "Should have the correct author set"
    );
    assert_eq!(
        conf.architecture, WASM_ARCHITECTURE,
        "Should have the correct architecture set in config"
    );
    assert_eq!(conf.os, COMPONENT_OS, "Should have the right OS value set");
    let component_info = conf.component.expect("Should have component information set in config");

    let expected_exports = vec!["wasi:http/incoming-handler@0.2.0".to_string()];
    // This is already sorted
    let expected_imports = vec![
        "wasi:cli/environment@0.2.0".to_string(),
        "wasi:cli/exit@0.2.0".to_string(),
        "wasi:cli/stderr@0.2.0".to_string(),
        "wasi:cli/stdin@0.2.0".to_string(),
        "wasi:cli/stdout@0.2.0".to_string(),
        "wasi:clocks/wall-clock@0.2.0".to_string(),
        "wasi:filesystem/preopens@0.2.0".to_string(),
        "wasi:filesystem/types@0.2.0".to_string(),
        "wasi:http/types@0.2.0".to_string(),
        "wasi:io/error@0.2.0".to_string(),
        "wasi:io/streams@0.2.0".to_string(),
    ];

    let exports = component_info.exports;
    let mut imports = component_info.imports;
    imports.sort();

    assert_eq!(
        exports, expected_exports,
        "Expected exports to match:\nGot: {exports:?}\nExpected:\n{expected_exports:?}"
    );
    assert_eq!(
        imports, expected_imports,
        "Expected imports to match:\nGot: {imports:?}\nExpected:\n{expected_imports:?}"
    );

    // Now make sure all the data of the artifact is correct
    assert_eq!(check_image(1, &pushed.config.media_type), Ok(()));
    assert_eq!(
        pushed.config.media_type, WASM_MANIFEST_CONFIG_MEDIA_TYPE,
        "Should have the proper config media type"
    );
    assert_eq!(pushed.manifest.layers.len(), 1, "Should have exactly one layer");
    assert_eq!(
        pushed.layer.media_type, WASM_LAYER_MEDIA_TYPE,
        "Should have the proper layer media type"
    );
    assert_eq!(
        pushed.manifest.media_type.expect("Must have media type"),
        WASM_MANIFEST_MEDIA_TYPE,
        "Should have the proper manifest media type"
    );

    // As a sanity check, make sure we can still parse the bytes out (by loading a component)
    let _ = Component::from_raw_component(&pushed.layer.data)
        .expect("Returned bytes should still be valid");
}

#[test]
fn test_binary_wit_parse() {
    let (conf, _) = WasmConfig::from_raw_component(binary_package(HTTP_WIT), None)
        .expect("Should be able to parse binary wit");

    assert_eq!(
        conf.architecture, WASM_ARCHITECTURE,
        "Should have the correct architecture set in config"
    );
    assert_eq!(conf.os, COMPONENT_OS, "Should have the right OS value set");
    let component_info = conf.component.expect("Should have component information set in config");

    let mut expected_exports = vec![
        "wasi:http/incoming-handler@0.2.0".to_string(),
        "wasi:http/types@0.2.0".to_string(),
        "wasi:http/outgoing-handler@0.2.0".to_string(),
        "wasi:http/proxy@0.2.0".to_string(),
        "wasi:http/imports@0.2.0".to_string(),
    ];
    expected_exports.sort();

    let mut exports = component_info.exports;
    exports.sort();

    assert_eq!(exports, expected_exports);
    assert!(component_info.imports.is_empty(), "Should have no imports");
}

#[test]
fn package_exports_come_out_sorted() {
    let c = Component::from_raw_component(&binary_package(HTTP_WIT)).unwrap();
    assert_eq!(
        c.exports,
        strings(&[
            "wasi:http/imports@0.2.0",
            "wasi:http/incoming-handler@0.2.0",
            "wasi:http/outgoing-handler@0.2.0",
            "wasi:http/proxy@0.2.0",
            "wasi:http/types@0.2.0",
        ])
    );
    assert_eq!(c.target, None);
}

#[test]
fn decoded_package_is_entered_by_its_package() {
    let decoded = decode_artifact(&binary_package(HTTP_WIT)).unwrap();
    let p = match decoded.entry {
        Entry::Package(p) => p,
        Entry::World(_) => panic!("a binary package should decode as a package"),
    };
    let package = &decoded.graph.packages[p];
    assert_eq!(package.namespace, "wasi");
    assert_eq!(package.name, "http");
    assert_eq!(package.version.as_ref().unwrap().to_text(), "0.2.0");
    let worlds: Vec<&str> = package.worlds.iter().map(|m| m.name.as_str()).collect();
    assert_eq!(worlds, vec!["proxy", "imports"]);
    let interfaces: Vec<&str> = package.interfaces.iter().map(|m| m.name.as_str()).collect();
    assert_eq!(interfaces, vec!["types", "incoming-handler", "outgoing-handler"]);
    for m in &package.interfaces {
        let node = &decoded.graph.interfaces[m.id];
        assert_eq!(node.name.as_deref(), Some(m.name.as_str()));
        assert_eq!(node.package, Some(p));
    }
    let proxy = &decoded.graph.worlds[package.worlds[0].id];
    assert_eq!(proxy.name, "proxy");
    assert_eq!(proxy.exports.len(), 1);
    assert!(matches!(proxy.exports[0], WorldKey::InterfaceRef(_)));
}

#[test]
fn component_world_is_extracted() {
    let bytes = component(APP_WIT, "service");
    let decoded = decode_artifact(&bytes).unwrap();
    assert!(matches!(decoded.entry, Entry::World(_)));
    let c = Component::from_raw_component(&bytes).unwrap();
    assert_eq!(c.exports, strings(&["example:app/handler@1.2.3-rc.1", "run"]));
    assert_eq!(
        c.imports,
        strings(&["example:app/environment@1.2.3-rc.1", "example:app/exit@1.2.3-rc.1", "log"])
    );
    assert_eq!(c.target, None);
    assert_eq!(Component::from_decoded(&decoded), Ok(c.clone()));
    assert_eq!(Component::from_decoded_component(&decoded), Ok(c));
}

#[test]
fn shape_is_reported_apart_from_decode_failure() {
    let package = decode_artifact(&binary_package(HTTP_WIT)).unwrap();
    assert_eq!(
        Component::from_decoded_component(&package),
        Err(WasmError::WrongArtifactShape(oci_wasm::error::Shape::Package))
    );
    assert!(Component::from_decoded_package(&package).is_ok());
    let component = decode_artifact(&component(APP_WIT, "service")).unwrap();
    assert_eq!(
        Component::from_decoded_package(&component),
        Err(WasmError::WrongArtifactShape(oci_wasm::error::Shape::Component))
    );
}

#[test]
fn malformed_bytes_are_rejected() {
    let err = Component::from_raw_component(b"not wasm").unwrap_err();
    assert!(matches!(err, WasmError::MalformedBinary(_)));
    assert!(err.message().starts_with("failed to decode WIT component: "));
    let err = WasmConfig::from_raw_component(vec![0, 1, 2], None).unwrap_err();
    assert!(matches!(err, WasmError::MalformedBinary(_)));
    assert!(matches!(decode_artifact(&[]), Err(WasmError::MalformedBinary(_))));
}

#[test]
fn component_config_holds_digest_and_descriptor() {
    let bytes = component(APP_WIT, "service");
    let (conf, layer) =
        WasmConfig::from_raw_component(bytes.clone(), Some("Bugs Bunny".to_string())).unwrap();
    assert_eq!(conf.author.as_deref(), Some("Bugs Bunny"));
    assert_eq!(conf.architecture, WASM_ARCHITECTURE);
    assert_eq!(conf.os, COMPONENT_OS);
    assert_eq!(conf.layer_digests, vec![oci_wasm::digest::sha256_digest(&bytes)]);
    assert_eq!(conf.component, Some(Component::from_raw_component(&bytes).unwrap()));
    assert_eq!(layer.data, bytes);
    assert_eq!(layer.media_type, WASM_LAYER_MEDIA_TYPE);
    assert_eq!(layer.annotations, None);
}

#[test]
fn module_config_has_no_descriptor() {
    let (conf, layer) = WasmConfig::from_raw_module(b"abc".to_vec(), None).unwrap();
    assert_eq!(conf.author, None);
    assert_eq!(conf.architecture, WASM_ARCHITECTURE);
    assert_eq!(conf.os, MODULE_OS);
    assert_eq!(
        conf.layer_digests,
        vec!["sha256:ba7816bf8f01cfea414140de5dae2223b00361a396177a9cb410ff61f20015ad".to_string()]
    );
    assert_eq!(conf.component, None);
    assert!(conf.created.seconds > 1_700_000_000);
    assert!(conf.created.nanos < 2_000_000_000);
    assert!(conf.to_json().is_ok());
    assert_eq!(layer.data, b"abc".to_vec());
    assert_eq!(layer.media_type, "application/wasm");
}

#[test]
fn names_agree_with_the_parser() {
    for bytes in [component(APP_WIT, "service"), binary_package(HTTP_WIT), binary_package(APP_WIT)]
    {
        let outside = wit_component::decode(&bytes).unwrap();
        let resolve = outside.resolve();
        let ours = decode_artifact(&bytes).unwrap().graph;
        assert_eq!(ours.worlds.len(), resolve.worlds.len());
        assert_eq!(ours.interfaces.len(), resolve.interfaces.len());
        assert_eq!(ours.packages.len(), resolve.packages.len());
        for (id, world) in resolve.worlds.iter() {
            let copy = &ours.worlds[id.index()];
            assert_eq!(copy.name, world.name);
            let exports: Vec<Option<String>> =
                copy.exports.iter().map(|k| ours.name_world_key(k)).collect();
            let expected: Vec<Option<String>> =
                world.exports.keys().map(|k| Some(resolve.name_world_key(k))).collect();
            assert_eq!(exports, expected);
            let imports: Vec<Option<String>> =
                copy.imports.iter().map(|k| ours.name_world_key(k)).collect();
            let expected: Vec<Option<String>> =
                world.imports.keys().map(|k| Some(resolve.name_world_key(k))).collect();
            assert_eq!(imports, expected);
        }
        for (id, interface) in resolve.interfaces.iter() {
            if interface.package.is_some() {
                assert_eq!(ours.id_of(id.index()), resolve.id_of(id));
            }
        }
        for (id, package) in resolve.packages.iter() {
            let copy = &ours.packages[id.index()];
            assert_eq!(copy.namespace, package.name.namespace);
            assert_eq!(copy.name, package.name.name);
            assert_eq!(
                copy.version.as_ref().map(|v| v.to_text()),
                package.name.version.as_ref().map(|v| v.to_string())
            );
            assert_eq!(copy.qualify("x"), resolve.id_of_name(id, "x"));
        }
    }
}

#[test]
fn component_with_wasi_imports_end_to_end() {
    let bytes = component(WASI_WIT, "root");
    let c = Component::from_raw_component(&bytes).unwrap();
    assert_eq!(c.exports, strings(&["wasi:http/incoming-handler@0.2.0"]));
    assert_eq!(
        c.imports,
        strings(&[
            "wasi:cli/environment@0.2.0",
            "wasi:cli/exit@0.2.0",
            "wasi:cli/stderr@0.2.0",
            "wasi:cli/stdin@0.2.0",
            "wasi:cli/stdout@0.2.0",
            "wasi:clocks/wall-clock@0.2.0",
            "wasi:filesystem/preopens@0.2.0",
            "wasi:filesystem/types@0.2.0",
            "wasi:io/error@0.2.0",
            "wasi:io/streams@0.2.0",
        ])
    );
    assert_eq!(c.target, None);
    assert_eq!(Component::from_raw_component(&bytes), Ok(c.clone()));
    let (conf, layer) = WasmConfig::from_raw_component(bytes.clone(), None).unwrap();
    assert_eq!(conf.component, Some(c));
    assert_eq!(layer.data, bytes);
}

#[test]
fn graph_is_copied_from_a_resolve() {
    let mut resolve = wit_parser::Resolve::default();
    let package = resolve.push_str("http.wit", HTTP_WIT).unwrap();
    let world = resolve.select_world(&[package], Some("proxy")).unwrap();
    let graph = oci_wasm::graph::Graph::from_resolve(&resolve);
    assert_eq!(graph.worlds.len(), 2);
    assert_eq!(graph.interfaces.len(), 3);
    assert_eq!(graph.packages.len(), 1);
    let c = Component::from_world(&graph, world.index()).unwrap();
    assert_eq!(c.exports, strings(&["wasi:http/incoming-handler@0.2.0"]));
    assert_eq!(
        c.imports,
        strings(&["wasi:http/outgoing-handler@0.2.0", "wasi:http/types@0.2.0"])
    );
    let p = Component::from_package(&graph, package.index()).unwrap();
    assert_eq!(
        p.exports,
        strings(&[
            "wasi:http/imports@0.2.0",
            "wasi:http/incoming-handler@0.2.0",
            "wasi:http/outgoing-handler@0.2.0",
            "wasi:http/proxy@0.2.0",
            "wasi:http/types@0.2.0",
        ])
    );
    let empty = oci_wasm::graph::Graph::from_resolve(&wit_parser::Resolve::default());
    assert_eq!(empty, oci_wasm::graph::Graph::new());
}
