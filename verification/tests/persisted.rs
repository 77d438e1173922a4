use std::collections::BTreeMap;

use oci_wasm::component::Component;
use oci_wasm::config::{ConfigBlob, ToConfig, WasmConfig};
use oci_wasm::manifest::{prepare_push, push_request};
use oci_wasm::document::read_pulled_config;
use oci_wasm::error::{Mismatch, WasmError};
use oci_wasm::json::{encode, parse};
use oci_wasm::time::Timestamp;

fn strings(names: &[&str]) -> Vec<String> {
    names.iter().map(|s| s.to_string()).collect()
}

fn text(s: &str) -> serde_json::Value {
    serde_json::Value::String(s.to_string())
}

fn list(items: &[&str]) -> serde_json::Value {
    serde_json::Value::Array(items.iter().map(|s| text(s)).collect())
}

fn record(fields: Vec<(&str, serde_json::Value)>) -> serde_json::Value {
    let mut map = serde_json::Map::new();
    for (key, value) in fields {
        map.insert(key.to_string(), value);
    }
    serde_json::Value::Object(map)
}

fn descriptor() -> Component {
    Component {
        exports: strings(&["wasi:http/incoming-handler@0.2.0"]),
        imports: strings(&["wasi:cli/exit@0.2.0", "wasi:io/streams@0.2.0"]),
        target: None,
    }
}

fn config() -> WasmConfig {
    WasmConfig {
        created: Timestamp { seconds: 1431648000, nanos: 0 },
        author: Some("Bugs \"Bunny\"".to_string()),
        architecture: "wasm".to_string(),
        os: "wasip2".to_string(),
        layer_digests: strings(&["sha256:abc"]),
        component: Some(descriptor()),
    }
}

fn invalid(r: Result<WasmConfig, WasmError>) -> bool {
    matches!(r, Err(WasmError::MalformedConfig(_)))
}

#[test]
fn descriptor_record_has_three_fields() {
    let expected = record(vec![
        ("exports", list(&["wasi:http/incoming-handler@0.2.0"])),
        ("imports", list(&["wasi:cli/exit@0.2.0", "wasi:io/streams@0.2.0"])),
        ("target", serde_json::Value::Null),
    ]);
    assert_eq!(descriptor().to_json(), expected);
    let mut with_target = descriptor();
    with_target.target = Some("wasi:http/proxy".to_string());
    let v = with_target.to_json();
    assert_eq!(v.get("target"), Some(&text("wasi:http/proxy")));
}

#[test]
fn descriptor_round_trip() {
    for c in [
        descriptor(),
        Component { exports: vec![], imports: vec![], target: Some(String::new()) },
        Component {
            exports: strings(&["b", "a", "b", "line\nbreak", "quote\"", "grüß", "\u{1F600}"]),
            imports: strings(&[""]),
            target: Some("t".to_string()),
        },
    ] {
        assert_eq!(Component::from_json(&c.to_json()), Ok(c.clone()));
        let bytes = encode(&c.to_json()).unwrap();
        assert_eq!(Component::from_json(&parse(&bytes).unwrap()), Ok(c));
    }
}

#[test]
fn descriptor_sets_do_not_depend_on_record_order() {
    let a = parse(br#"{"exports":["x","y","z"],"imports":["p","q"],"target":null}"#).unwrap();
    let b = parse(br#" { "target" : null, "imports":["q","p"], "exports":["z","x","y"] } "#)
        .unwrap();
    let mut a = Component::from_json(&a).unwrap();
    let mut b = Component::from_json(&b).unwrap();
    assert_eq!(a.exports, strings(&["x", "y", "z"]));
    assert_eq!(b.exports, strings(&["z", "x", "y"]));
    a.exports.sort();
    a.imports.sort();
    b.exports.sort();
    b.imports.sort();
    assert_eq!(a, b);
}

#[test]
fn descriptor_record_is_checked() {
    let read = |s: &str| Component::from_json(&parse(s.as_bytes()).unwrap());
    let bad = |s: &str| matches!(read(s), Err(WasmError::MalformedConfig(_)));
    assert_eq!(
        read(r#"{"exports":[],"imports":[]}"#),
        Ok(Component { exports: vec![], imports: vec![], target: None })
    );
    assert_eq!(
        read(r#"{"exports":["a"],"imports":[],"target":"t","more":[1,{"x":true}]}"#),
        Ok(Component { exports: strings(&["a"]), imports: vec![], target: Some("t".to_string()) })
    );
    assert!(bad(r#"["a"]"#));
    assert!(bad(r#"null"#));
    assert!(bad(r#""exports""#));
    assert!(bad(r#"{"imports":[]}"#));
    assert!(bad(r#"{"exports":[]}"#));
    assert!(bad(r#"{"exports":null,"imports":[]}"#));
    assert!(bad(r#"{"exports":"a","imports":[]}"#));
    assert!(bad(r#"{"exports":["a",1],"imports":[]}"#));
    assert!(bad(r#"{"exports":[],"imports":[null]}"#));
    assert!(bad(r#"{"exports":[],"imports":{}}"#));
    assert!(bad(r#"{"exports":[],"imports":[],"target":1}"#));
    assert!(bad(r#"{"exports":[],"imports":[],"target":["t"]}"#));
}

#[test]
fn config_record_is_written_with_camel_case_keys() {
    let expected = record(vec![
        ("created", text("2015-05-15T00:00:00Z")),
        ("author", text("Bugs \"Bunny\"")),
        ("architecture", text("wasm")),
        ("os", text("wasip2")),
        ("layerDigests", list(&["sha256:abc"])),
        ("component", descriptor().to_json()),
    ]);
    assert_eq!(config().to_json(), Ok(expected.clone()));
    let blob = config().to_config().unwrap();
    assert_eq!(blob.media_type, "application/vnd.wasm.config.v0+json");
    assert_eq!(blob.annotations, None);
    assert_eq!(blob.data, serde_json::to_vec(&expected).unwrap());
    assert_eq!(serde_json::from_slice::<serde_json::Value>(&blob.data).unwrap(), expected);

    let mut module = config();
    module.author = None;
    module.component = None;
    module.os = "wasip1".to_string();
    module.created = Timestamp { seconds: 1704164645, nanos: 123456789 };
    let v = module.to_json().unwrap();
    assert_eq!(v.get("created"), Some(&text("2024-01-02T03:04:05.123456789Z")));
    assert_eq!(v.get("author"), Some(&serde_json::Value::Null));
    assert_eq!(v.get("component"), Some(&serde_json::Value::Null));
    assert_eq!(v.get("os"), Some(&text("wasip1")));
}

#[test]
fn config_round_trip() {
    let blob = config().to_config().unwrap();
    assert_eq!(WasmConfig::from_json_bytes(&blob.data), Ok(config()));
    assert_eq!(WasmConfig::try_from(blob.data.clone()), Ok(config()));
    assert_eq!(WasmConfig::try_from(blob.data.as_slice()), Ok(config()));
    let as_text = String::from_utf8(blob.data).unwrap();
    assert_eq!(WasmConfig::try_from(as_text.as_str()), Ok(config()));
    assert_eq!(WasmConfig::from_json_str(&as_text), Ok(config()));
    assert_eq!(WasmConfig::try_from(as_text), Ok(config()));
    assert_eq!(WasmConfig::from_json(&config().to_json().unwrap()), Ok(config()));
}

#[test]
fn config_is_read_from_foreign_text() {
    let read = WasmConfig::try_from(
        r#"{
            "created": "2024-01-02T04:04:05.5+01:00",
            "architecture": "wasm",
            "os": "wasip1",
            "layerDigests": ["sha256:one", "sha256:two"],
            "unknown": {"nested": [1, 2.5, false]}
        }"#,
    )
    .unwrap();
    assert_eq!(
        read,
        WasmConfig {
            created: Timestamp { seconds: 1704164645, nanos: 500000000 },
            author: None,
            architecture: "wasm".to_string(),
            os: "wasip1".to_string(),
            layer_digests: strings(&["sha256:one", "sha256:two"]),
            component: None,
        }
    );
    let read = WasmConfig::try_from(
        r#"{"created":"1970-01-01T00:00:00Z","author":null,"architecture":"a","os":"o",
            "layerDigests":[],"component":{"exports":["e"],"imports":["i"]}}"#,
    )
    .unwrap();
    assert_eq!(read.created, Timestamp { seconds: 0, nanos: 0 });
    assert_eq!(
        read.component,
        Some(Component { exports: strings(&["e"]), imports: strings(&["i"]), target: None })
    );
}

#[test]
fn config_record_is_checked() {
    let full = |created: &str, rest: &str| {
        format!(r#"{{"created":{created},"architecture":"wasm","os":"wasip2"{rest}}}"#)
    };
    let digests = r#","layerDigests":[]"#;
    assert!(WasmConfig::try_from(full(r#""2015-05-15T00:00:00Z""#, digests)).is_ok());
    assert!(invalid(WasmConfig::try_from(full(r#""2015-05-15T00:00:00Z""#, ""))));
    assert!(invalid(WasmConfig::try_from(full(r#""yesterday""#, digests))));
    assert!(invalid(WasmConfig::try_from(full(r#""2015-05-15""#, digests))));
    assert!(invalid(WasmConfig::try_from(full("1431648000", digests))));
    assert!(invalid(WasmConfig::try_from(full("null", digests))));
    let with = |extra: &str| full(r#""2015-05-15T00:00:00Z""#, &format!("{digests}{extra}"));
    assert!(WasmConfig::try_from(with(r#","author":"a""#)).is_ok());
    assert!(invalid(WasmConfig::try_from(with(r#","author":7"#))));
    assert!(invalid(WasmConfig::try_from(with(r#","component":"c""#))));
    assert!(invalid(WasmConfig::try_from(with(r#","component":{"exports":[]}"#))));
    assert!(invalid(WasmConfig::try_from(
        r#"{"created":"2015-05-15T00:00:00Z","os":"o","layerDigests":[]}"#
    )));
    assert!(invalid(WasmConfig::try_from(
        r#"{"created":"2015-05-15T00:00:00Z","architecture":"a","layerDigests":[]}"#
    )));
    assert!(invalid(WasmConfig::try_from(r#"{"architecture":"a","os":"o","layerDigests":[]}"#)));
    assert!(invalid(WasmConfig::try_from(
        r#"{"created":"2015-05-15T00:00:00Z","architecture":["a"],"os":"o","layerDigests":[]}"#
    )));
    assert!(invalid(WasmConfig::try_from(r#"[]"#)));
    assert!(invalid(WasmConfig::try_from(r#"{"created":"#)));
    assert!(invalid(WasmConfig::try_from("")));
    assert!(invalid(WasmConfig::try_from(vec![0xff, 0xfe])));
    assert!(invalid(WasmConfig::try_from(&b"not json"[..])));
}

#[test]
fn time_out_of_range_is_refused() {
    let mut c = config();
    c.created = Timestamp { seconds: i64::MAX, nanos: 0 };
    assert!(matches!(c.to_json(), Err(WasmError::MalformedConfig(_))));
    assert!(matches!(c.to_config(), Err(WasmError::MalformedConfig(_))));
    c.created = Timestamp { seconds: 0, nanos: 2_000_000_000 };
    assert!(matches!(c.to_config(), Err(WasmError::MalformedConfig(_))));
    assert!(matches!(
        c.with_annotations(BTreeMap::new()).to_config(),
        Err(WasmError::MalformedConfig(_))
    ));
}

#[test]
fn annotations_are_attached_to_the_blob() {
    let mut annotations = BTreeMap::new();
    annotations.insert("org.opencontainers.image.title".to_string(), "demo".to_string());
    let c = config();
    let annotated = c.with_annotations(annotations.clone());
    assert_eq!(annotated.config, &c);
    assert_eq!(annotated.annotations, annotations);
    let blob = annotated.to_config().unwrap();
    let plain = c.to_config().unwrap();
    assert_eq!(blob.data, plain.data);
    assert_eq!(blob.media_type, plain.media_type);
    assert_eq!(blob.annotations, Some(annotations));
    assert_eq!(plain.annotations, None);
    let empty = c.with_annotations(BTreeMap::new()).to_config().unwrap();
    assert_eq!(empty.data, plain.data);
    assert_eq!(empty.media_type, "application/vnd.wasm.config.v0+json");
    assert_eq!(empty.annotations, Some(BTreeMap::new()));
}

#[test]
fn blob_is_one_record_with_six_keys() {
    let mut c = config();
    c.author = None;
    let blob = c.to_config().unwrap();
    let v: serde_json::Value = serde_json::from_slice(&blob.data).unwrap();
    let fields = v.as_object().unwrap();
    let mut keys: Vec<&str> = fields.keys().map(|k| k.as_str()).collect();
    keys.sort();
    assert_eq!(keys, vec!["architecture", "author", "component", "created", "layerDigests", "os"]);
    assert_eq!(fields["author"], serde_json::Value::Null);
    let component = fields["component"].as_object().unwrap();
    let mut keys: Vec<&str> = component.keys().map(|k| k.as_str()).collect();
    keys.sort();
    assert_eq!(keys, vec!["exports", "imports", "target"]);
    assert_eq!(component["target"], serde_json::Value::Null);
    assert_eq!(component["exports"], list(&["wasi:http/incoming-handler@0.2.0"]));
    assert_eq!(component["imports"], list(&["wasi:cli/exit@0.2.0", "wasi:io/streams@0.2.0"]));
}

#[test]
fn json_text_is_parsed_and_written() {
    let v = parse(br#" {"b": [1, "x"], "a": null} "#).unwrap();
    assert_eq!(v, record(vec![
        ("b", serde_json::Value::Array(vec![serde_json::Value::from(1), text("x")])),
        ("a", serde_json::Value::Null),
    ]));
    assert_eq!(parse(&encode(&v).unwrap()).unwrap(), v);
    assert_eq!(encode(&text("a\"b")).unwrap(), br#""a\"b""#.to_vec());
    assert!(matches!(parse(b"{"), Err(WasmError::MalformedConfig(_))));
}

#[test]
fn manifest_is_declared_as_a_wasm_manifest() {
    let (conf, layer) = WasmConfig::from_raw_module(b"\0asm\x01\0\0\0".to_vec(), None).unwrap();
    let blob = conf.to_config().unwrap();
    let mut annotations = BTreeMap::new();
    annotations.insert("k".to_string(), "v".to_string());
    let m = oci_wasm::manifest::wasm_manifest(&layer, &blob, Some(annotations.clone()));
    assert_eq!(m.media_type.as_deref(), Some("application/vnd.oci.image.manifest.v1+json"));
    assert_eq!(m.annotations, Some(annotations));
    assert_eq!(m.config.media_type, "application/vnd.wasm.config.v0+json");
    assert_eq!(m.config.size, blob.data.len() as i64);
    assert_eq!(m.config.digest, oci_wasm::digest::sha256_digest(&blob.data));
    assert_eq!(m.layers.len(), 1);
    assert_eq!(m.layers[0].media_type, "application/wasm");
    assert_eq!(m.layers[0].size, 8);
    assert_eq!(m.layers[0].digest, conf.layer_digests[0]);
    assert_eq!(m.layers[0].annotations, None);
    let plain = oci_wasm::manifest::wasm_manifest(&layer, &blob, None);
    assert_eq!(plain.annotations, None);
    assert_eq!(plain.media_type.as_deref(), Some(oci_wasm::WASM_MANIFEST_MEDIA_TYPE));
}

#[test]
fn shape_is_judged_before_the_config_is_read() {
    let manifest = Some("application/vnd.oci.image.manifest.v1+json");
    let config_type = "application/vnd.wasm.config.v0+json";
    let text = String::from_utf8(config().to_config().unwrap().data).unwrap();
    assert_eq!(read_pulled_config(1, manifest, config_type, &text), Ok(config()));
    for body in [text.as_str(), "not json", ""] {
        assert_eq!(
            read_pulled_config(0, manifest, config_type, body),
            Err(WasmError::ArtifactShapeMismatch(Mismatch::LayerCount))
        );
        assert_eq!(
            read_pulled_config(2, manifest, config_type, body),
            Err(WasmError::ArtifactShapeMismatch(Mismatch::LayerCount))
        );
        assert_eq!(
            read_pulled_config(1, None, config_type, body),
            Err(WasmError::ArtifactShapeMismatch(Mismatch::ManifestMediaType))
        );
        assert_eq!(
            read_pulled_config(1, manifest, "application/vnd.oci.image.config.v1+json", body),
            Err(WasmError::ArtifactShapeMismatch(Mismatch::ConfigMediaType))
        );
    }
    assert!(invalid(read_pulled_config(1, manifest, config_type, "not json")));
    assert!(invalid(read_pulled_config(1, manifest, config_type, "{}")));
}

struct Fixed(Option<ConfigBlob>);

impl ToConfig for Fixed {
    fn to_config(&self) -> Result<ConfigBlob, WasmError> {
        self.0.clone().ok_or(WasmError::MalformedConfig("nothing to store".to_string()))
    }
}

#[test]
fn push_is_prepared_from_layer_and_config() {
    let (conf, layer) = WasmConfig::from_raw_module(b"\0asm\x01\0\0\0".to_vec(), None).unwrap();
    let request = prepare_push(layer.clone(), &conf, None).unwrap();
    assert_eq!(request.layer, layer);
    assert_eq!(request.config, conf.to_config().unwrap());
    assert_eq!(
        request.manifest.media_type.as_deref(),
        Some("application/vnd.oci.image.manifest.v1+json")
    );
    assert_eq!(request.manifest.layers.len(), 1);
    assert_eq!(request.manifest.layers[0].digest, conf.layer_digests[0]);
    assert_eq!(
        request.manifest.config.digest,
        oci_wasm::digest::sha256_digest(&request.config.data)
    );

    let mut annotations = BTreeMap::new();
    annotations.insert("a".to_string(), "b".to_string());
    let annotated = conf.with_annotations(annotations.clone());
    let request = prepare_push(layer.clone(), &annotated, Some(annotations.clone())).unwrap();
    assert_eq!(request.config.annotations, Some(annotations.clone()));
    assert_eq!(request.manifest.annotations, Some(annotations));

    let blob =
        ConfigBlob { data: b"{}".to_vec(), media_type: "x/y".to_string(), annotations: None };
    let direct = push_request(layer.clone(), blob.clone(), None);
    assert_eq!(direct.layer, layer);
    assert_eq!(direct.config, blob);
    assert_eq!(direct.manifest.config.digest, oci_wasm::digest::sha256_digest(b"{}"));
    let request = prepare_push(layer.clone(), &Fixed(Some(blob.clone())), None).unwrap();
    assert_eq!(request.config, blob);
    assert_eq!(request.manifest.config.media_type, "x/y");
    assert_eq!(request.manifest.config.size, 2);
    assert!(matches!(
        prepare_push(layer, &Fixed(None), None),
        Err(WasmError::MalformedConfig(_))
    ));
}
