//! Decoding the bytes of an artifact into its interface graph.
//!
//! The binary format is read by `wit_component::decode`. What it hands back
//! is copied, node by node, into a [`Graph`] of this library.

use vstd::prelude::*;
use crate::graph::{
    key_views, member_views, Graph, GraphView, Interface, Member, Package, World, WorldKey,
};
use crate::error::WasmError;
use crate::version::Version;

verus! {

/// What the decoder returns for an artifact.
#[verifier::external_type_specification]
#[verifier::external_body]
pub struct ExDecodedWasm(wit_component::DecodedWasm);

/// The graph of `wit_parser`: arenas of worlds, interfaces and packages.
#[verifier::external_type_specification]
#[verifier::external_body]
pub struct ExResolve(wit_parser::Resolve);

/// The decoder's error.
#[verifier::external_type_specification]
#[verifier::external_body]
pub struct ExDecodeError(anyhow::Error);

/// Where the extraction of a decoded artifact starts.
#[derive(Debug, Clone, Copy, PartialEq, Eq, Structural)]
pub enum Entry {
    /// The artifact is a component; the value is the index of its world.
    World(usize),
    /// The artifact is an interface package; the value is the index of the
    /// package.
    Package(usize),
}

/// A decoded artifact: the graph and the entry point.
#[derive(Debug, Clone, PartialEq, Eq)]
pub struct Decoded {
    pub graph: Graph,
    pub entry: Entry,
}

/// The mathematical content of a [`Decoded`].
pub struct DecodedView {
    pub graph: GraphView,
    pub entry: Entry,
}

impl View for Decoded {
    type V = DecodedView;

    open spec fn view(&self) -> DecodedView {
        DecodedView { graph: self.graph@, entry: self.entry }
    }
}

/// What the decoder makes of `bytes`: the graph and entry point of the
/// artifact, or `None` where it rejects them.
pub uninterp spec fn decoding(bytes: Seq<u8>) -> Option<DecodedView>;

/// The graph and entry point that a value of the decoder holds.
pub uninterp spec fn content(decoded: wit_component::DecodedWasm) -> DecodedView;

/// The worlds, interfaces and packages that a `Resolve` holds, each at its
/// arena index; an interface reference, a world or a package is named by
/// its arena index.
pub uninterp spec fn graph_of(resolve: wit_parser::Resolve) -> GraphView;

/// `wit_component::decode`: reads a component or a binary interface package.
/// The result is a function of the bytes alone: on success it holds
/// `decoding(raw)`, and it fails exactly where `decoding(raw)` is `None`.
#[verifier::external_body]
fn decode(raw: &[u8]) -> (r: Result<wit_component::DecodedWasm, anyhow::Error>)
    ensures
        match r {
            Ok(d) => decoding(raw@) == Some(content(d)),
            Err(_) => decoding(raw@) is None,
        },
{
    wit_component::decode(raw)
}

/// The report of a decoder error with its chain of causes, as `anyhow`
/// formats it. Nothing is claimed of the text.
#[verifier::external_body]
fn report(e: &anyhow::Error) -> String {
    format!("{:#}", e)
}

/// The entry point of a decoded artifact: the index of the world of
/// `DecodedWasm::Component`, or of the package of `DecodedWasm::WitPackage`.
#[verifier::external_body]
fn entry(d: &wit_component::DecodedWasm) -> (e: Entry)
    ensures
        e == content(*d).entry,
{
    match d {
        wit_component::DecodedWasm::Component(_, world) => Entry::World(world.index()),
        wit_component::DecodedWasm::WitPackage(_, package) => Entry::Package(package.index()),
    }
}

/// `DecodedWasm::resolve`: the `Resolve` of a decoded artifact.
#[verifier::external_body]
fn resolve_of(d: &wit_component::DecodedWasm) -> (r: &wit_parser::Resolve)
    ensures
        graph_of(*r) == content(*d).graph,
{
    d.resolve()
}

/// The number of worlds in the arena `worlds` of a `Resolve`.
#[verifier::external_body]
fn world_count(r: &wit_parser::Resolve) -> (n: usize)
    ensures
        n == graph_of(*r).worlds.len(),
{
    r.worlds.len()
}

/// The field `name` of the world at index `w` of the arena.
#[verifier::external_body]
fn world_name(r: &wit_parser::Resolve, w: usize) -> (s: String)
    requires
        w < graph_of(*r).worlds.len(),
    ensures
        s@ == graph_of(*r).worlds[w as int].name,
{
    r.worlds.iter().nth(w).unwrap().1.name.clone()
}

/// The number of entries in the map `exports` of the world at index `w`.
#[verifier::external_body]
fn export_count(r: &wit_parser::Resolve, w: usize) -> (n: usize)
    requires
        w < graph_of(*r).worlds.len(),
    ensures
        n == graph_of(*r).worlds[w as int].exports.len(),
{
    r.worlds.iter().nth(w).unwrap().1.exports.len()
}

/// The key at position `k` of the map `exports` of the world at index `w`:
/// the name of a `WorldKey::Name`, the arena index of a `WorldKey::Interface`.
#[verifier::external_body]
fn export_key(r: &wit_parser::Resolve, w: usize, k: usize) -> (key: WorldKey)
    requires
        w < graph_of(*r).worlds.len(),
        k < graph_of(*r).worlds[w as int].exports.len(),
    ensures
        key@ == graph_of(*r).worlds[w as int].exports[k as int],
{
    match r.worlds.iter().nth(w).unwrap().1.exports.get_index(k).unwrap().0 {
        wit_parser::WorldKey::Name(s) => WorldKey::PlainName(s.clone()),
        wit_parser::WorldKey::Interface(i) => WorldKey::InterfaceRef(i.index()),
    }
}

/// The number of entries in the map `imports` of the world at index `w`.
#[verifier::external_body]
fn import_count(r: &wit_parser::Resolve, w: usize) -> (n: usize)
    requires
        w < graph_of(*r).worlds.len(),
    ensures
        n == graph_of(*r).worlds[w as int].imports.len(),
{
    r.worlds.iter().nth(w).unwrap().1.imports.len()
}

/// The key at position `k` of the map `imports` of the world at index `w`:
/// the name of a `WorldKey::Name`, the arena index of a `WorldKey::Interface`.
#[verifier::external_body]
fn import_key(r: &wit_parser::Resolve, w: usize, k: usize) -> (key: WorldKey)
    requires
        w < graph_of(*r).worlds.len(),
        k < graph_of(*r).worlds[w as int].imports.len(),
    ensures
        key@ == graph_of(*r).worlds[w as int].imports[k as int],
{
    match r.worlds.iter().nth(w).unwrap().1.imports.get_index(k).unwrap().0 {
        wit_parser::WorldKey::Name(s) => WorldKey::PlainName(s.clone()),
        wit_parser::WorldKey::Interface(i) => WorldKey::InterfaceRef(i.index()),
    }
}

/// The number of interfaces in the arena `interfaces` of a `Resolve`.
#[verifier::external_body]
fn interface_count(r: &wit_parser::Resolve) -> (n: usize)
    ensures
        n == graph_of(*r).interfaces.len(),
{
    r.interfaces.len()
}

/// The fields `name` and `package` of the interface at index `i` of the
/// arena, the package by its arena index.
#[verifier::external_body]
fn interface_at(r: &wit_parser::Resolve, i: usize) -> (node: Interface)
    requires
        i < graph_of(*r).interfaces.len(),
    ensures
        node@ == graph_of(*r).interfaces[i as int],
{
    let interface = r.interfaces.iter().nth(i).unwrap().1;
    Interface { name: interface.name.clone(), package: interface.package.map(|p| p.index()) }
}

/// The number of packages in the arena `packages` of a `Resolve`.
#[verifier::external_body]
fn package_count(r: &wit_parser::Resolve) -> (n: usize)
    ensures
        n == graph_of(*r).packages.len(),
{
    r.packages.len()
}

/// The field `name.namespace` of the package at index `p` of the arena.
#[verifier::external_body]
fn package_namespace(r: &wit_parser::Resolve, p: usize) -> (s: String)
    requires
        p < graph_of(*r).packages.len(),
    ensures
        s@ == graph_of(*r).packages[p as int].namespace,
{
    r.packages.iter().nth(p).unwrap().1.name.namespace.clone()
}

/// The field `name.name` of the package at index `p` of the arena.
#[verifier::external_body]
fn package_name(r: &wit_parser::Resolve, p: usize) -> (s: String)
    requires
        p < graph_of(*r).packages.len(),
    ensures
        s@ == graph_of(*r).packages[p as int].name,
{
    r.packages.iter().nth(p).unwrap().1.name.name.clone()
}

/// The field `name.version` of the package at index `p` of the arena: the
/// three numbers of the `semver::Version`, and its pre-release tag and
/// build metadata as text.
#[verifier::external_body]
fn package_version(r: &wit_parser::Resolve, p: usize) -> (v: Option<Version>)
    requires
        p < graph_of(*r).packages.len(),
    ensures
        match v {
            Some(v) => graph_of(*r).packages[p as int].version == Some(v@),
            None => graph_of(*r).packages[p as int].version is None,
        },
{
    r.packages.iter().nth(p).unwrap().1.name.version.as_ref().map(|v| Version {
        major: v.major,
        minor: v.minor,
        patch: v.patch,
        pre: v.pre.as_str().to_string(),
        build: v.build.as_str().to_string(),
    })
}

/// The number of entries in the map `worlds` of the package at index `p`.
#[verifier::external_body]
fn package_world_count(r: &wit_parser::Resolve, p: usize) -> (n: usize)
    requires
        p < graph_of(*r).packages.len(),
    ensures
        n == graph_of(*r).packages[p as int].worlds.len(),
{
    r.packages.iter().nth(p).unwrap().1.worlds.len()
}

/// The entry at position `k` of the map `worlds` of the package at index
/// `p`: its key and the arena index of the world.
#[verifier::external_body]
fn package_world(r: &wit_parser::Resolve, p: usize, k: usize) -> (m: Member)
    requires
        p < graph_of(*r).packages.len(),
        k < graph_of(*r).packages[p as int].worlds.len(),
    ensures
        m@ == graph_of(*r).packages[p as int].worlds[k as int],
{
    let (name, id) = r.packages.iter().nth(p).unwrap().1.worlds.get_index(k).unwrap();
    Member { name: name.clone(), id: id.index() }
}

/// The number of entries in the map `interfaces` of the package at index `p`.
#[verifier::external_body]
fn package_interface_count(r: &wit_parser::Resolve, p: usize) -> (n: usize)
    requires
        p < graph_of(*r).packages.len(),
    ensures
        n == graph_of(*r).packages[p as int].interfaces.len(),
{
    r.packages.iter().nth(p).unwrap().1.interfaces.len()
}

/// The entry at position `k` of the map `interfaces` of the package at
/// index `p`: its key and the arena index of the interface.
#[verifier::external_body]
fn package_interface(r: &wit_parser::Resolve, p: usize, k: usize) -> (m: Member)
    requires
        p < graph_of(*r).packages.len(),
        k < graph_of(*r).packages[p as int].interfaces.len(),
    ensures
        m@ == graph_of(*r).packages[p as int].interfaces[k as int],
{
    let (name, id) =
        r.packages.iter().nth(p).unwrap().1.interfaces.get_index(k).unwrap();
    Member { name: name.clone(), id: id.index() }
}

/// A prefix of a sequence grows by the element behind it.
proof fn lemma_take_next<T>(s: Seq<T>, i: int)
    requires
        0 <= i < s.len(),
    ensures
        s.take(i + 1) == s.take(i).push(s[i]),
{
    assert(s.take(i + 1) =~= s.take(i).push(s[i]));
}

/// Copies the world at index `w`.
fn copy_world(r: &wit_parser::Resolve, w: usize) -> (world: World)
    requires
        w < graph_of(*r).worlds.len(),
    ensures
        world@ == graph_of(*r).worlds[w as int],
{
    let ghost model = graph_of(*r).worlds[w as int];
    let name = world_name(r, w);
    let mut exports: Vec<WorldKey> = Vec::new();
    let n = export_count(r, w);
    let mut k: usize = 0;
    while k < n
        invariant
            k <= n,
            n == model.exports.len(),
            w < graph_of(*r).worlds.len(),
            model == graph_of(*r).worlds[w as int],
            key_views(exports@) =~= model.exports.take(k as int),
        decreases n - k,
    {
        let key = export_key(r, w, k);
        let ghost prev = key_views(exports@);
        exports.push(key);
        proof {
            assert(key_views(exports@) =~= prev.push(key@));
            lemma_take_next(model.exports, k as int);
        }
        k = k + 1;
    }
    assert(model.exports.take(n as int) =~= model.exports);
    let mut imports: Vec<WorldKey> = Vec::new();
    let n = import_count(r, w);
    let mut k: usize = 0;
    while k < n
        invariant
            k <= n,
            n == model.imports.len(),
            w < graph_of(*r).worlds.len(),
            model == graph_of(*r).worlds[w as int],
            key_views(imports@) =~= model.imports.take(k as int),
        decreases n - k,
    {
        let key = import_key(r, w, k);
        let ghost prev = key_views(imports@);
        imports.push(key);
        proof {
            assert(key_views(imports@) =~= prev.push(key@));
            lemma_take_next(model.imports, k as int);
        }
        k = k + 1;
    }
    assert(model.imports.take(n as int) =~= model.imports);
    World { name, exports, imports }
}

/// Copies the package at index `p`.
fn copy_package(r: &wit_parser::Resolve, p: usize) -> (package: Package)
    requires
        p < graph_of(*r).packages.len(),
    ensures
        package@ == graph_of(*r).packages[p as int],
{
    let ghost model = graph_of(*r).packages[p as int];
    let namespace = package_namespace(r, p);
    let name = package_name(r, p);
    let version = package_version(r, p);
    let mut worlds: Vec<Member> = Vec::new();
    let n = package_world_count(r, p);
    let mut k: usize = 0;
    while k < n
        invariant
            k <= n,
            n == model.worlds.len(),
            p < graph_of(*r).packages.len(),
            model == graph_of(*r).packages[p as int],
            member_views(worlds@) =~= model.worlds.take(k as int),
        decreases n - k,
    {
        let m = package_world(r, p, k);
        let ghost prev = member_views(worlds@);
        worlds.push(m);
        proof {
            assert(member_views(worlds@) =~= prev.push(m@));
            lemma_take_next(model.worlds, k as int);
        }
        k = k + 1;
    }
    assert(model.worlds.take(n as int) =~= model.worlds);
    let mut interfaces: Vec<Member> = Vec::new();
    let n = package_interface_count(r, p);
    let mut k: usize = 0;
    while k < n
        invariant
            k <= n,
            n == model.interfaces.len(),
            p < graph_of(*r).packages.len(),
            model == graph_of(*r).packages[p as int],
            member_views(interfaces@) =~= model.interfaces.take(k as int),
        decreases n - k,
    {
        let m = package_interface(r, p, k);
        let ghost prev = member_views(interfaces@);
        interfaces.push(m);
        proof {
            assert(member_views(interfaces@) =~= prev.push(m@));
            lemma_take_next(model.interfaces, k as int);
        }
        k = k + 1;
    }
    assert(model.interfaces.take(n as int) =~= model.interfaces);
    Package { namespace, name, version, worlds, interfaces }
}

impl Graph {
    /// The graph that a `Resolve` of `wit_parser` holds: a copy of its
    /// worlds, interfaces and packages, each under its arena index.
    pub fn from_resolve(r: &wit_parser::Resolve) -> (graph: Graph)
        ensures
            graph@ == graph_of(*r),
    {
        let ghost model = graph_of(*r);
        let mut graph = Graph::new();
        let n = world_count(r);
        let mut i: usize = 0;
        while i < n
            invariant
                i <= n,
                n == model.worlds.len(),
                model == graph_of(*r),
                graph@.worlds =~= model.worlds.take(i as int),
                graph@.interfaces.len() == 0,
                graph@.packages.len() == 0,
            decreases n - i,
        {
            let world = copy_world(r, i);
            let ghost prev = graph@.worlds;
            graph.worlds.push(world);
            proof {
                assert(graph@.worlds =~= prev.push(world@));
                lemma_take_next(model.worlds, i as int);
            }
            i = i + 1;
        }
        assert(model.worlds.take(n as int) =~= model.worlds);
        let n = interface_count(r);
        let mut i: usize = 0;
        while i < n
            invariant
                i <= n,
                n == model.interfaces.len(),
                model == graph_of(*r),
                graph@.worlds == model.worlds,
                graph@.interfaces =~= model.interfaces.take(i as int),
                graph@.packages.len() == 0,
            decreases n - i,
        {
            let interface = interface_at(r, i);
            let ghost prev = graph@.interfaces;
            graph.interfaces.push(interface);
            proof {
                assert(graph@.interfaces =~= prev.push(interface@));
                lemma_take_next(model.interfaces, i as int);
            }
            i = i + 1;
        }
        assert(model.interfaces.take(n as int) =~= model.interfaces);
        let n = package_count(r);
        let mut i: usize = 0;
        while i < n
            invariant
                i <= n,
                n == model.packages.len(),
                model == graph_of(*r),
                graph@.worlds == model.worlds,
                graph@.interfaces == model.interfaces,
                graph@.packages =~= model.packages.take(i as int),
            decreases n - i,
        {
            let package = copy_package(r, i);
            let ghost prev = graph@.packages;
            graph.packages.push(package);
            proof {
                assert(graph@.packages =~= prev.push(package@));
                lemma_take_next(model.packages, i as int);
            }
            i = i + 1;
        }
        assert(model.packages.take(n as int) =~= model.packages);
        graph
    }
}

/// Copies the graph and the entry point out of a value of the decoder.
fn copy_decoded(d: &wit_component::DecodedWasm) -> (r: Decoded)
    ensures
        r@ == content(*d),
{
    Decoded { graph: Graph::from_resolve(resolve_of(d)), entry: entry(d) }
}

/// What [`decode_artifact`] owes for an artifact that the decoder reads as
/// `model`.
pub open spec fn decoded_as(model: Option<DecodedView>, r: Result<Decoded, WasmError>) -> bool {
    match model {
        Some(v) => r is Ok && r->Ok_0@ == v,
        None => r is Err && r->Err_0 is MalformedBinary,
    }
}

/// Decodes the bytes of a component or of a binary interface package into
/// the graph and the entry point that the decoder finds in them. Fails,
/// with the decoder's report, exactly where the decoder rejects the bytes.
pub fn decode_artifact(raw: &[u8]) -> (r: Result<Decoded, WasmError>)
    ensures
        decoded_as(decoding(raw@), r),
{
    match decode(raw) {
        Ok(d) => Ok(copy_decoded(&d)),
        Err(e) => Err(WasmError::MalformedBinary(report(&e))),
    }
}

} // verus!
