//! The persisted form of descriptors and config records: JSON records with
//! the keys `exports`, `imports` and `target`, and `created`, `author`,
//! `architecture`, `os`, `layerDigests` and `component`.

use vstd::prelude::*;
use vstd::string::StringExecFns;
use vstd::utf8::encode_utf8;
use crate::artifact::{check_manifest, manifest_verdict, opt_str_text};
use crate::component::Component;
use crate::config::{AnnotatedWasmConfig, ConfigBlob, ToConfig, WasmConfig};
use crate::error::WasmError;
use crate::json::{
    encode, field, items, json_encoding, json_fields, json_items, json_kind, json_parsing,
    json_text, kind, list_value, null_value, parse, record_value, set_field, text, text_value,
    Kind,
};
use crate::media::WASM_MANIFEST_CONFIG_MEDIA_TYPE;
use crate::names::texts;
use crate::text::opt_text;
use crate::time::{parse_timestamp, rfc3339, timestamp_of, timestamp_text};

verus! {

/// The text that a document holds, if it is a text.
pub open spec fn text_of(v: serde_json::Value) -> Option<Seq<char>> {
    if json_kind(v) == Kind::Text {
        Some(json_text(v))
    } else {
        None
    }
}

/// Every one of `items` is a text.
pub open spec fn all_texts(items: Seq<serde_json::Value>) -> bool {
    forall|i: int| 0 <= i < items.len() ==> json_kind(#[trigger] items[i]) == Kind::Text
}

/// The texts that a document lists, if it is a list of texts.
pub open spec fn text_list_of(v: serde_json::Value) -> Option<Seq<Seq<char>>> {
    if json_kind(v) == Kind::List && all_texts(json_items(v)) {
        Some(json_items(v).map_values(|x: serde_json::Value| json_text(x)))
    } else {
        None
    }
}

/// The field `key` of a record, if the record has it.
pub open spec fn field_of(v: serde_json::Value, key: Seq<char>) -> Option<serde_json::Value> {
    if json_fields(v).dom().contains(key) {
        Some(json_fields(v)[key])
    } else {
        None
    }
}

/// What an optional field is read as: a missing field and `null` as
/// nothing, a valid document as itself; `None` where the field holds
/// something invalid.
pub open spec fn optional<T>(field: Option<serde_json::Value>, read: Option<T>) -> Option<
    Option<T>,
> {
    match field {
        None => Some(None),
        Some(v) => if json_kind(v) == Kind::Null {
            Some(None)
        } else {
            match read {
                Some(x) => Some(Some(x)),
                None => None,
            }
        },
    }
}

/// The text of an optional field.
pub open spec fn optional_text_of(field: Option<serde_json::Value>) -> Option<Option<Seq<char>>> {
    optional(
        field,
        match field {
            Some(v) => text_of(v),
            None => None,
        },
    )
}

/// What the record of a descriptor says.
pub struct DescriptorDoc {
    pub exports: Seq<Seq<char>>,
    pub imports: Seq<Seq<char>>,
    pub target: Option<Seq<char>>,
}

/// What the record of a config says; `created` is the text of the time.
pub struct ConfigDoc {
    pub created: Seq<char>,
    pub author: Option<Seq<char>>,
    pub architecture: Seq<char>,
    pub os: Seq<char>,
    pub layer_digests: Seq<Seq<char>>,
    pub component: Option<DescriptorDoc>,
}

/// What a document says as the record of a descriptor: it must be a record
/// whose fields `exports` and `imports` are lists of texts and whose field
/// `target`, if it is there and not `null`, is a text. Other fields are
/// not looked at.
pub open spec fn descriptor_of(v: serde_json::Value) -> Option<DescriptorDoc> {
    if json_kind(v) != Kind::Record {
        None
    } else {
        match (field_of(v, "exports"@), field_of(v, "imports"@)) {
            (Some(e), Some(i)) => match (
                text_list_of(e),
                text_list_of(i),
                optional_text_of(field_of(v, "target"@)),
            ) {
                (Some(exports), Some(imports), Some(target)) => Some(
                    DescriptorDoc { exports, imports, target },
                ),
                _ => None,
            },
            _ => None,
        }
    }
}

/// The descriptor of an optional field.
pub open spec fn optional_descriptor_of(field: Option<serde_json::Value>) -> Option<
    Option<DescriptorDoc>,
> {
    optional(
        field,
        match field {
            Some(v) => descriptor_of(v),
            None => None,
        },
    )
}

/// What a document says as the record of a config: it must be a record
/// whose fields `created`, `architecture` and `os` are texts, whose field
/// `layerDigests` is a list of texts, and whose fields `author` and
/// `component`, if they are there and not `null`, are a text and the
/// record of a descriptor.
pub open spec fn config_of(v: serde_json::Value) -> Option<ConfigDoc> {
    if json_kind(v) != Kind::Record {
        None
    } else {
        match (
            field_of(v, "created"@),
            field_of(v, "architecture"@),
            field_of(v, "os"@),
            field_of(v, "layerDigests"@),
        ) {
            (Some(c), Some(a), Some(o), Some(l)) => match (
                text_of(c),
                text_of(a),
                text_of(o),
                text_list_of(l),
                optional_text_of(field_of(v, "author"@)),
                optional_descriptor_of(field_of(v, "component"@)),
            ) {
                (
                    Some(created),
                    Some(architecture),
                    Some(os),
                    Some(layer_digests),
                    Some(author),
                    Some(component),
                ) => Some(
                    ConfigDoc { created, author, architecture, os, layer_digests, component },
                ),
                _ => None,
            },
            _ => None,
        }
    }
}

/// The document is `null` for nothing, or the text.
pub open spec fn writes_optional_text(v: serde_json::Value, text: Option<Seq<char>>) -> bool {
    match text {
        Some(t) => text_of(v) == Some(t),
        None => json_kind(v) == Kind::Null,
    }
}

/// The document is the record of `doc` and nothing more: it has the three
/// fields `exports`, `imports` and `target`, the lists in the order of
/// `doc`, and `null` for a missing target.
pub open spec fn is_descriptor_record(v: serde_json::Value, doc: DescriptorDoc) -> bool {
    &&& json_kind(v) == Kind::Record
    &&& json_fields(v).dom() =~= set!["exports"@, "imports"@, "target"@]
    &&& text_list_of(json_fields(v)["exports"@]) == Some(doc.exports)
    &&& text_list_of(json_fields(v)["imports"@]) == Some(doc.imports)
    &&& writes_optional_text(json_fields(v)["target"@], doc.target)
}

/// The document is `null` for nothing, or the record of the descriptor.
pub open spec fn writes_optional_descriptor(
    v: serde_json::Value,
    doc: Option<DescriptorDoc>,
) -> bool {
    match doc {
        Some(d) => is_descriptor_record(v, d),
        None => json_kind(v) == Kind::Null,
    }
}

/// The document is the record of `doc` and nothing more: it has the six
/// fields of a config, with `null` for a missing author or component.
pub open spec fn is_config_record(v: serde_json::Value, doc: ConfigDoc) -> bool {
    &&& json_kind(v) == Kind::Record
    &&& json_fields(v).dom() =~= set![
        "created"@,
        "author"@,
        "architecture"@,
        "os"@,
        "layerDigests"@,
        "component"@,
    ]
    &&& text_of(json_fields(v)["created"@]) == Some(doc.created)
    &&& writes_optional_text(json_fields(v)["author"@], doc.author)
    &&& text_of(json_fields(v)["architecture"@]) == Some(doc.architecture)
    &&& text_of(json_fields(v)["os"@]) == Some(doc.os)
    &&& text_list_of(json_fields(v)["layerDigests"@]) == Some(doc.layer_digests)
    &&& writes_optional_descriptor(json_fields(v)["component"@], doc.component)
}

/// The record of a descriptor reads as what it was written from.
pub proof fn lemma_descriptor_record_reads_back(v: serde_json::Value, doc: DescriptorDoc)
    requires
        is_descriptor_record(v, doc),
    ensures
        descriptor_of(v) == Some(doc),
{
}

/// The record of a config reads as what it was written from.
pub proof fn lemma_config_record_reads_back(v: serde_json::Value, doc: ConfigDoc)
    requires
        is_config_record(v, doc),
    ensures
        config_of(v) == Some(doc),
{
    if doc.component is Some {
        lemma_descriptor_record_reads_back(json_fields(v)["component"@], doc.component->Some_0);
    }
}

impl Component {
    /// What the record of this descriptor says.
    pub open spec fn doc(&self) -> DescriptorDoc {
        DescriptorDoc {
            exports: texts(self.exports@),
            imports: texts(self.imports@),
            target: opt_text(self.target),
        }
    }
}

/// The descriptor of an optional component.
pub open spec fn opt_doc(c: Option<Component>) -> Option<DescriptorDoc> {
    match c {
        Some(c) => Some(c.doc()),
        None => None,
    }
}

impl WasmConfig {
    /// What the record of this config says, with `created` as the text of
    /// its time.
    pub open spec fn doc(&self, created: Seq<char>) -> ConfigDoc {
        ConfigDoc {
            created,
            author: opt_text(self.author),
            architecture: self.architecture@,
            os: self.os@,
            layer_digests: texts(self.layer_digests@),
            component: opt_doc(self.component),
        }
    }
}

/// The keys of the two records differ from each other.
proof fn lemma_keys_differ()
    ensures
        "exports"@ != "imports"@,
        "exports"@ != "target"@,
        "imports"@ != "target"@,
        "created"@ != "author"@,
        "created"@ != "architecture"@,
        "created"@ != "os"@,
        "created"@ != "layerDigests"@,
        "created"@ != "component"@,
        "author"@ != "architecture"@,
        "author"@ != "os"@,
        "author"@ != "layerDigests"@,
        "author"@ != "component"@,
        "architecture"@ != "os"@,
        "architecture"@ != "layerDigests"@,
        "architecture"@ != "component"@,
        "os"@ != "layerDigests"@,
        "os"@ != "component"@,
        "layerDigests"@ != "component"@,
{
    reveal_strlit("exports");
    reveal_strlit("imports");
    reveal_strlit("target");
    reveal_strlit("created");
    reveal_strlit("author");
    reveal_strlit("architecture");
    reveal_strlit("os");
    reveal_strlit("layerDigests");
    reveal_strlit("component");
    assert("exports"@.len() == 7 && "imports"@.len() == 7 && "target"@.len() == 6);
    assert("created"@.len() == 7 && "author"@.len() == 6 && "architecture"@.len() == 12);
    assert("os"@.len() == 2 && "layerDigests"@.len() == 12 && "component"@.len() == 9);
    assert("exports"@[0] != "imports"@[0]);
    assert("architecture"@[0] != "layerDigests"@[0]);
}

/// The list of the texts of `list`.
fn write_text_list(list: &Vec<String>) -> (v: serde_json::Value)
    ensures
        text_list_of(v) == Some(texts(list@)),
{
    let mut values: Vec<serde_json::Value> = Vec::new();
    let n = list.len();
    let mut i: usize = 0;
    while i < n
        invariant
            i <= n,
            n == list@.len(),
            values@.len() == i,
            forall|k: int|
                0 <= k < i ==> json_kind(#[trigger] values@[k]) == Kind::Text && json_text(
                    values@[k],
                ) == list@[k]@,
        decreases n - i,
    {
        values.push(text_value(list[i].as_str()));
        i = i + 1;
    }
    let v = list_value(values);
    assert(json_items(v).map_values(|x: serde_json::Value| json_text(x)) =~= texts(list@));
    v
}

/// The text of `s`, or `null` for none.
fn write_optional_text(s: &Option<String>) -> (v: serde_json::Value)
    ensures
        writes_optional_text(v, opt_text(*s)),
{
    match s {
        Some(s) => text_value(s.as_str()),
        None => null_value(),
    }
}

/// The text that a document holds, if it is a text.
fn read_text(v: &serde_json::Value) -> (s: Option<String>)
    ensures
        opt_text(s) == text_of(*v),
{
    match kind(v) {
        Kind::Text => Some(String::from_str(text(v))),
        _ => None,
    }
}

/// The texts that a document lists, if it is a list of texts.
fn read_text_list(v: &serde_json::Value) -> (list: Option<Vec<String>>)
    ensures
        match list {
            Some(l) => text_list_of(*v) == Some(texts(l@)),
            None => text_list_of(*v) is None,
        },
{
    match kind(v) {
        Kind::List => {},
        _ => {
            return None;
        },
    }
    let values = items(v);
    let mut list: Vec<String> = Vec::new();
    let n = values.len();
    let mut i: usize = 0;
    while i < n
        invariant
            i <= n,
            n == values@.len(),
            values@ == json_items(*v),
            list@.len() == i,
            forall|k: int|
                0 <= k < i ==> json_kind(#[trigger] values@[k]) == Kind::Text && json_text(
                    values@[k],
                ) == list@[k]@,
        decreases n - i,
    {
        match kind(&values[i]) {
            Kind::Text => {
                list.push(String::from_str(text(&values[i])));
            },
            _ => {
                return None;
            },
        }
        i = i + 1;
    }
    assert(json_items(*v).map_values(|x: serde_json::Value| json_text(x)) =~= texts(list@));
    Some(list)
}

/// The value behind an optional reference.
pub open spec fn held(field: Option<&serde_json::Value>) -> Option<serde_json::Value> {
    match field {
        Some(v) => Some(*v),
        None => None,
    }
}

/// The text of an optional field; the outer `None` where the field holds
/// something else than a text or `null`.
fn read_optional_text(field: Option<&serde_json::Value>) -> (s: Option<Option<String>>)
    ensures
        match s {
            Some(s) => optional_text_of(held(field)) == Some(opt_text(s)),
            None => optional_text_of(held(field)) is None,
        },
{
    match field {
        None => Some(None),
        Some(v) => match kind(v) {
            Kind::Null => Some(None),
            Kind::Text => Some(Some(String::from_str(text(v)))),
            _ => None,
        },
    }
}

/// What reading the record of a descriptor returns.
pub open spec fn descriptor_reading(v: serde_json::Value, r: Result<Component, WasmError>) -> bool {
    match descriptor_of(v) {
        Some(doc) => r is Ok && r->Ok_0.doc() == doc,
        None => r is Err && r->Err_0 is MalformedConfig,
    }
}

/// What reading the record of a config returns.
pub open spec fn config_reading(v: serde_json::Value, r: Result<WasmConfig, WasmError>) -> bool {
    match config_of(v) {
        Some(doc) => match timestamp_of(doc.created) {
            Some(t) => r is Ok && r->Ok_0.created == t && r->Ok_0.doc(doc.created) == doc,
            None => r is Err && r->Err_0 is MalformedConfig,
        },
        None => r is Err && r->Err_0 is MalformedConfig,
    }
}

/// The failure of reading a record that is not as it must be.
fn invalid(what: &str) -> (e: WasmError)
    ensures
        e is MalformedConfig,
{
    WasmError::MalformedConfig(String::from_str(what))
}

impl Component {
    /// The record of this descriptor: the lists of `exports` and of
    /// `imports` in their order, and `target` as a text or as `null`. Read
    /// back, it says what the descriptor holds.
    pub fn to_json(&self) -> (v: serde_json::Value)
        ensures
            is_descriptor_record(v, self.doc()),
            descriptor_of(v) == Some(self.doc()),
    {
        proof {
            lemma_keys_differ();
        }
        let mut v = record_value();
        set_field(&mut v, "exports", write_text_list(&self.exports));
        set_field(&mut v, "imports", write_text_list(&self.imports));
        set_field(&mut v, "target", write_optional_text(&self.target));
        v
    }

    /// Reads the record of a descriptor. The lists keep the order of the
    /// record. Fails as `MalformedConfig` exactly where the document is
    /// not such a record.
    pub fn from_json(v: &serde_json::Value) -> (r: Result<Component, WasmError>)
        ensures
            descriptor_reading(*v, r),
    {
        match kind(v) {
            Kind::Record => {},
            _ => {
                return Err(invalid("a component must be a record"));
            },
        }
        let exports = match field(v, "exports") {
            Some(e) => match read_text_list(e) {
                Some(list) => list,
                None => {
                    return Err(invalid("`exports` must be a list of texts"));
                },
            },
            None => {
                return Err(invalid("missing field `exports`"));
            },
        };
        let imports = match field(v, "imports") {
            Some(i) => match read_text_list(i) {
                Some(list) => list,
                None => {
                    return Err(invalid("`imports` must be a list of texts"));
                },
            },
            None => {
                return Err(invalid("missing field `imports`"));
            },
        };
        let target = match read_optional_text(field(v, "target")) {
            Some(t) => t,
            None => {
                return Err(invalid("`target` must be a text"));
            },
        };
        Ok(Component { exports, imports, target })
    }
}

/// The record of an optional descriptor: `null` for none.
fn write_optional_descriptor(c: &Option<Component>) -> (v: serde_json::Value)
    ensures
        writes_optional_descriptor(v, opt_doc(*c)),
{
    match c {
        Some(c) => c.to_json(),
        None => null_value(),
    }
}

/// The descriptor of an optional field; the outer `None` where the field
/// holds something else than the record of a descriptor or `null`.
fn read_optional_descriptor(field: Option<&serde_json::Value>) -> (c: Option<Option<Component>>)
    ensures
        match c {
            Some(c) => optional_descriptor_of(held(field)) == Some(opt_doc(c)),
            None => optional_descriptor_of(held(field)) is None,
        },
{
    match field {
        None => Some(None),
        Some(v) => match kind(v) {
            Kind::Null => Some(None),
            _ => match Component::from_json(v) {
                Ok(c) => Some(Some(c)),
                Err(_) => None,
            },
        },
    }
}

/// What writing `config` as a blob returns. Where `chrono` cannot hold
/// the time, it fails. Otherwise there is a record of the config, with
/// exactly its six fields: where `serde_json` writes the record, the blob
/// holds the bytes under the media type of a WebAssembly config, and
/// where `serde_json` fails to write it, writing the blob fails.
pub open spec fn blob_writing(config: WasmConfig, r: Result<ConfigBlob, WasmError>) -> bool {
    match rfc3339(config.created.seconds as int, config.created.nanos as int) {
        None => r is Err && r->Err_0 is MalformedConfig,
        Some(created) => exists|v: serde_json::Value|
            #![trigger json_encoding(v)]
            is_config_record(v, config.doc(created)) && match r {
                Ok(blob) => json_encoding(v) == Some(blob.data@) && blob.media_type@
                    == WASM_MANIFEST_CONFIG_MEDIA_TYPE@,
                Err(e) => json_encoding(v) is None && e is MalformedConfig,
            },
    }
}

impl WasmConfig {
    /// The record of this config. Read back, it says what the config holds,
    /// with the time as `chrono` writes it. Fails exactly where `chrono`
    /// cannot hold the time.
    pub fn to_json(&self) -> (r: Result<serde_json::Value, WasmError>)
        ensures
            match rfc3339(self.created.seconds as int, self.created.nanos as int) {
                Some(created) => r is Ok && is_config_record(r->Ok_0, self.doc(created))
                    && config_of(r->Ok_0) == Some(self.doc(created)),
                None => r is Err && r->Err_0 is MalformedConfig,
            },
    {
        proof {
            lemma_keys_differ();
        }
        let created = match timestamp_text(self.created) {
            Some(text) => text,
            None => {
                return Err(invalid("`created` is out of range"));
            },
        };
        let mut v = record_value();
        set_field(&mut v, "created", text_value(created.as_str()));
        set_field(&mut v, "author", write_optional_text(&self.author));
        set_field(&mut v, "architecture", text_value(self.architecture.as_str()));
        set_field(&mut v, "os", text_value(self.os.as_str()));
        set_field(&mut v, "layerDigests", write_text_list(&self.layer_digests));
        set_field(&mut v, "component", write_optional_descriptor(&self.component));
        proof {
            lemma_config_record_reads_back(
                v,
                self.doc(rfc3339(self.created.seconds as int, self.created.nanos as int)->Some_0),
            );
        }
        Ok(v)
    }

    /// Reads the record of a config. Fails as `MalformedConfig` exactly
    /// where the document is not such a record or `chrono` rejects the
    /// text of `created`.
    pub fn from_json(v: &serde_json::Value) -> (r: Result<WasmConfig, WasmError>)
        ensures
            config_reading(*v, r),
    {
        match kind(v) {
            Kind::Record => {},
            _ => {
                return Err(invalid("a config must be a record"));
            },
        }
        let created = match field(v, "created") {
            Some(c) => match read_text(c) {
                Some(text) => text,
                None => {
                    return Err(invalid("`created` must be a text"));
                },
            },
            None => {
                return Err(invalid("missing field `created`"));
            },
        };
        let architecture = match field(v, "architecture") {
            Some(a) => match read_text(a) {
                Some(text) => text,
                None => {
                    return Err(invalid("`architecture` must be a text"));
                },
            },
            None => {
                return Err(invalid("missing field `architecture`"));
            },
        };
        let os = match field(v, "os") {
            Some(o) => match read_text(o) {
                Some(text) => text,
                None => {
                    return Err(invalid("`os` must be a text"));
                },
            },
            None => {
                return Err(invalid("missing field `os`"));
            },
        };
        let layer_digests = match field(v, "layerDigests") {
            Some(l) => match read_text_list(l) {
                Some(list) => list,
                None => {
                    return Err(invalid("`layerDigests` must be a list of texts"));
                },
            },
            None => {
                return Err(invalid("missing field `layerDigests`"));
            },
        };
        let author = match read_optional_text(field(v, "author")) {
            Some(a) => a,
            None => {
                return Err(invalid("`author` must be a text"));
            },
        };
        let component = match read_optional_descriptor(field(v, "component")) {
            Some(c) => c,
            None => {
                return Err(invalid("`component` must be the record of a component"));
            },
        };
        let created = match parse_timestamp(created.as_str()) {
            Some(t) => t,
            None => {
                return Err(invalid("`created` must be an RFC 3339 date and time"));
            },
        };
        Ok(WasmConfig { created, author, architecture, os, layer_digests, component })
    }

    /// Reads a config from the bytes of its blob: what [`WasmConfig::from_json`]
    /// returns for the document that the bytes write. Fails as
    /// `MalformedConfig` where the bytes are no JSON text.
    pub fn from_json_bytes(bytes: &[u8]) -> (r: Result<WasmConfig, WasmError>)
        ensures
            match json_parsing(bytes@) {
                Some(v) => config_reading(v, r),
                None => r is Err && r->Err_0 is MalformedConfig,
            },
    {
        match parse(bytes) {
            Ok(v) => WasmConfig::from_json(&v),
            Err(e) => Err(e),
        }
    }

    /// Reads a config from the JSON text of its blob.
    pub fn from_json_str(text: &str) -> (r: Result<WasmConfig, WasmError>)
        ensures
            match json_parsing(encode_utf8(text@)) {
                Some(v) => config_reading(v, r),
                None => r is Err && r->Err_0 is MalformedConfig,
            },
    {
        WasmConfig::from_json_bytes(text.as_bytes())
    }
}

/// The result of `try_from` is stated by the contract of `try_from`
/// itself: its error says in words what is wrong, so the result is not
/// given as a function of the input.
impl vstd::std_specs::convert::TryFromSpecImpl<Vec<u8>> for WasmConfig {
    open spec fn obeys_try_from_spec() -> bool {
        false
    }

    open spec fn try_from_spec(v: Vec<u8>) -> Result<WasmConfig, WasmError> {
        arbitrary()
    }
}

impl TryFrom<Vec<u8>> for WasmConfig {
    type Error = WasmError;

    /// Reads a config from the bytes of its blob.
    fn try_from(value: Vec<u8>) -> (r: Result<WasmConfig, WasmError>)
        ensures
            match json_parsing(value@) {
                Some(v) => config_reading(v, r),
                None => r is Err && r->Err_0 is MalformedConfig,
            },
    {
        WasmConfig::from_json_bytes(value.as_slice())
    }
}

/// The result of `try_from` is stated by the contract of `try_from`
/// itself: its error says in words what is wrong, so the result is not
/// given as a function of the input.
impl vstd::std_specs::convert::TryFromSpecImpl<&[u8]> for WasmConfig {
    open spec fn obeys_try_from_spec() -> bool {
        false
    }

    open spec fn try_from_spec(v: &[u8]) -> Result<WasmConfig, WasmError> {
        arbitrary()
    }
}

impl TryFrom<&[u8]> for WasmConfig {
    type Error = WasmError;

    /// Reads a config from the bytes of its blob.
    fn try_from(value: &[u8]) -> (r: Result<WasmConfig, WasmError>)
        ensures
            match json_parsing(value@) {
                Some(v) => config_reading(v, r),
                None => r is Err && r->Err_0 is MalformedConfig,
            },
    {
        WasmConfig::from_json_bytes(value)
    }
}

/// The result of `try_from` is stated by the contract of `try_from`
/// itself: its error says in words what is wrong, so the result is not
/// given as a function of the input.
impl vstd::std_specs::convert::TryFromSpecImpl<String> for WasmConfig {
    open spec fn obeys_try_from_spec() -> bool {
        false
    }

    open spec fn try_from_spec(v: String) -> Result<WasmConfig, WasmError> {
        arbitrary()
    }
}

impl TryFrom<String> for WasmConfig {
    type Error = WasmError;

    /// Reads a config from the JSON text of its blob.
    fn try_from(value: String) -> (r: Result<WasmConfig, WasmError>)
        ensures
            match json_parsing(encode_utf8(value@)) {
                Some(v) => config_reading(v, r),
                None => r is Err && r->Err_0 is MalformedConfig,
            },
    {
        WasmConfig::from_json_str(value.as_str())
    }
}

/// The result of `try_from` is stated by the contract of `try_from`
/// itself: its error says in words what is wrong, so the result is not
/// given as a function of the input.
impl vstd::std_specs::convert::TryFromSpecImpl<&str> for WasmConfig {
    open spec fn obeys_try_from_spec() -> bool {
        false
    }

    open spec fn try_from_spec(v: &str) -> Result<WasmConfig, WasmError> {
        arbitrary()
    }
}

impl TryFrom<&str> for WasmConfig {
    type Error = WasmError;

    /// Reads a config from the JSON text of its blob.
    fn try_from(value: &str) -> (r: Result<WasmConfig, WasmError>)
        ensures
            match json_parsing(encode_utf8(value@)) {
                Some(v) => config_reading(v, r),
                None => r is Err && r->Err_0 is MalformedConfig,
            },
    {
        WasmConfig::from_json_str(value)
    }
}

/// What reading the config of a pulled artifact returns: the verdict on
/// the shape of the manifest where that is a failure, and else what
/// reading the JSON text of the config returns.
pub open spec fn pulled_config_reading(
    layers: nat,
    manifest_media_type: Option<Seq<char>>,
    config_media_type: Seq<char>,
    config: Seq<char>,
    r: Result<WasmConfig, WasmError>,
) -> bool {
    match manifest_verdict(layers, manifest_media_type, config_media_type) {
        Err(e) => r == Err::<WasmConfig, WasmError>(e),
        Ok(_) => match json_parsing(encode_utf8(config)) {
            Some(v) => config_reading(v, r),
            None => r is Err && r->Err_0 is MalformedConfig,
        },
    }
}

/// Reads the config of a pulled artifact whose manifest lists `layers`
/// content layers and declares the given media types. The shape of the
/// artifact is judged first: an artifact that is not a WebAssembly
/// artifact is refused as `ArtifactShapeMismatch`, whatever its config
/// holds, and only the config of one that is accepted is read.
pub fn read_pulled_config(
    layers: usize,
    manifest_media_type: Option<&str>,
    config_media_type: &str,
    config: &str,
) -> (r: Result<WasmConfig, WasmError>)
    ensures
        pulled_config_reading(
            layers as nat,
            opt_str_text(manifest_media_type),
            config_media_type@,
            config@,
            r,
        ),
{
    match check_manifest(layers, manifest_media_type, config_media_type) {
        Err(e) => Err(e),
        Ok(_) => WasmConfig::from_json_str(config),
    }
}

impl ToConfig for WasmConfig {
    /// The config blob of this config, without annotations: the JSON text
    /// of its record. Fails exactly where `chrono` cannot hold the time or
    /// `serde_json` fails to write the record.
    fn to_config(&self) -> (r: Result<ConfigBlob, WasmError>)
        ensures
            blob_writing(*self, r),
            r is Ok ==> r->Ok_0.annotations is None,
    {
        match self.to_json() {
            Ok(v) => match encode(&v) {
                Ok(data) => Ok(
                    ConfigBlob {
                        data,
                        media_type: String::from_str(WASM_MANIFEST_CONFIG_MEDIA_TYPE),
                        annotations: None,
                    },
                ),
                Err(e) => Err(e),
            },
            Err(e) => Err(e),
        }
    }
}

impl ToConfig for AnnotatedWasmConfig<'_> {
    /// The config blob of the config, with the annotations: the data and
    /// the media type of the blob that the config itself gives, and a copy
    /// of the annotations. It fails exactly if the config gives no blob,
    /// with its error.
    fn to_config(&self) -> (r: Result<ConfigBlob, WasmError>)
        ensures
            blob_writing(*self.config, r),
            match r {
                Ok(blob) => {
                    &&& blob.annotations is Some
                    &&& blob.annotations->Some_0@ == self.annotations@
                    &&& call_ensures(
                        WasmConfig::to_config,
                        (self.config,),
                        Ok::<ConfigBlob, WasmError>(
                            (ConfigBlob {
                                data: blob.data,
                                media_type: blob.media_type,
                                annotations: None,
                            }),
                        ),
                    )
                },
                Err(e) => call_ensures(
                    WasmConfig::to_config,
                    (self.config,),
                    Err::<ConfigBlob, WasmError>(e),
                ),
            },
    {
        match self.config.to_config() {
            Ok(base) => Ok(
                ConfigBlob {
                    data: base.data,
                    media_type: base.media_type,
                    annotations: Some(self.annotations.clone()),
                },
            ),
            Err(e) => Err(e),
        }
    }
}

/// A descriptor that is written as a record and read back is the same
/// descriptor: the same lists, and so the same sets.
pub proof fn law_descriptor_round_trip(
    c: Component,
    v: serde_json::Value,
    r: Result<Component, WasmError>,
)
    requires
        is_descriptor_record(v, c.doc()),
        descriptor_reading(v, r),
    ensures
        r is Ok,
        r->Ok_0@ == c@,
        texts(r->Ok_0.exports@) == texts(c.exports@),
        texts(r->Ok_0.imports@) == texts(c.imports@),
{
    lemma_descriptor_record_reads_back(v, c.doc());
}

/// The sets of a descriptor do not depend on the order in which a record
/// lists the names: two records that list the same names read as
/// descriptors of the same sets.
pub proof fn law_record_order_is_irrelevant(
    first: serde_json::Value,
    second: serde_json::Value,
    a: Result<Component, WasmError>,
    b: Result<Component, WasmError>,
)
    requires
        descriptor_reading(first, a),
        descriptor_reading(second, b),
        descriptor_of(first) is Some,
        descriptor_of(second) is Some,
        descriptor_of(first)->Some_0.exports.to_set() == descriptor_of(
            second,
        )->Some_0.exports.to_set(),
        descriptor_of(first)->Some_0.imports.to_set() == descriptor_of(
            second,
        )->Some_0.imports.to_set(),
    ensures
        a is Ok && b is Ok,
        a->Ok_0@.exports == b->Ok_0@.exports,
        a->Ok_0@.imports == b->Ok_0@.imports,
{
}

/// A config that is written as a record and read back is the same config,
/// but for its time: reading succeeds exactly if `chrono` reads a time
/// from the text that it wrote for the time, and then the config holds
/// that time and the same author, architecture, OS tag, layer digests and
/// descriptor, list by list.
pub proof fn law_config_record_round_trip(
    c: WasmConfig,
    created: Seq<char>,
    v: serde_json::Value,
    r: Result<WasmConfig, WasmError>,
)
    requires
        is_config_record(v, c.doc(created)),
        config_reading(v, r),
    ensures
        r is Ok <==> timestamp_of(created) is Some,
        r is Ok ==> {
            &&& r->Ok_0.created == timestamp_of(created)->Some_0
            &&& opt_text(r->Ok_0.author) == opt_text(c.author)
            &&& r->Ok_0.architecture@ == c.architecture@
            &&& r->Ok_0.os@ == c.os@
            &&& texts(r->Ok_0.layer_digests@) == texts(c.layer_digests@)
            &&& opt_doc(r->Ok_0.component) == opt_doc(c.component)
        },
{
    lemma_config_record_reads_back(v, c.doc(created));
}

/// The part of the round trip through bytes that is this library's: where
/// `serde_json` reads from the bytes of a blob a record of what was
/// written, and `chrono` reads the time back from its text, reading the
/// blob of a config gives the same config. That the two read back what
/// they wrote is theirs, and is not claimed here.
pub proof fn law_blob_reads_back_where_the_readers_do(
    c: WasmConfig,
    blob: ConfigBlob,
    created: Seq<char>,
    read: serde_json::Value,
    r: Result<WasmConfig, WasmError>,
)
    requires
        blob_writing(c, Ok(blob)),
        rfc3339(c.created.seconds as int, c.created.nanos as int) == Some(created),
        json_parsing(blob.data@) == Some(read),
        is_config_record(read, c.doc(created)),
        timestamp_of(created) == Some(c.created),
        config_reading(read, r),
    ensures
        r is Ok,
        r->Ok_0.created == c.created,
        r->Ok_0.doc(created) == c.doc(created),
{
    law_config_record_round_trip(c, created, read, r);
}

} // verus!
