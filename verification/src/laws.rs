//! What holds of name resolution and of descriptor extraction on every graph.

use vstd::prelude::*;
use crate::component::{package_extraction, world_extraction, Component};
use crate::error::WasmError;
use crate::graph::{GraphView, WorldKeyView};
use crate::names::{ascending, lemma_ascending_unique, texts};
use crate::order::lemma_text_order_total;
use crate::version::version_text;

verus! {

/// A plain name resolves to itself, whatever the graph holds.
pub proof fn law_plain_name_resolves_to_itself(graph: GraphView, name: Seq<char>)
    ensures
        graph.key_name(WorldKeyView::PlainName(name)) == Some(name),
{
}

/// An interface that the graph holds with a name and with its package is
/// named `namespace:package/interface`, followed by `@` and the version's
/// text exactly if the package has a version.
pub proof fn law_qualified_name_format(graph: GraphView, id: nat)
    requires
        id < graph.interfaces.len(),
        graph.interfaces[id as int].name is Some,
        graph.interfaces[id as int].package is Some,
        graph.interfaces[id as int].package->Some_0 < graph.packages.len(),
    ensures
        ({
            let name = graph.interfaces[id as int].name->Some_0;
            let package = graph.packages[graph.interfaces[id as int].package->Some_0 as int];
            let plain = package.namespace + seq![':'] + package.name + seq!['/'] + name;
            graph.key_name(WorldKeyView::InterfaceRef(id)) == Some(
                match package.version {
                    Some(v) => plain + seq!['@'] + version_text(v),
                    None => plain,
                },
            )
        }),
{
    let name = graph.interfaces[id as int].name->Some_0;
    let package = graph.packages[graph.interfaces[id as int].package->Some_0 as int];
    let plain = package.namespace + seq![':'] + package.name + seq!['/'] + name;
    match package.version {
        Some(v) => {
            assert(plain + (seq!['@'] + version_text(v)) =~= plain + seq!['@'] + version_text(v));
        },
        None => {
            assert(plain + Seq::<char>::empty() =~= plain);
        },
    }
}

/// A reference to an interface that the graph does not hold has no name.
pub proof fn law_dangling_reference_has_no_name(graph: GraphView, id: nat)
    requires
        id >= graph.interfaces.len(),
    ensures
        graph.key_name(WorldKeyView::InterfaceRef(id)) is None,
{
}

/// A key that does not resolve contributes nothing: the keys name the same
/// set with it and without it.
pub proof fn law_unresolved_key_is_skipped(graph: GraphView, keys: Seq<WorldKeyView>, k: int)
    requires
        0 <= k < keys.len(),
        graph.key_name(keys[k]) is None,
    ensures
        graph.key_names(keys) == graph.key_names(keys.remove(k)),
{
    let rest = keys.remove(k);
    assert forall|s: Seq<char>| graph.key_names(keys).contains(s) implies graph.key_names(
        rest,
    ).contains(s) by {
        let i = choose|i: int| 0 <= i < keys.len() && graph.key_name(#[trigger] keys[i]) == Some(s);
        if i < k {
            assert(graph.key_name(rest[i]) == Some(s));
        } else {
            assert(graph.key_name(rest[i - 1]) == Some(s));
        }
    }
    assert forall|s: Seq<char>| graph.key_names(rest).contains(s) implies graph.key_names(
        keys,
    ).contains(s) by {
        let i = choose|i: int| 0 <= i < rest.len() && graph.key_name(#[trigger] rest[i]) == Some(s);
        if i < k {
            assert(graph.key_name(keys[i]) == Some(s));
        } else {
            assert(graph.key_name(keys[i + 1]) == Some(s));
        }
    }
    assert(graph.key_names(keys) =~= graph.key_names(rest));
}

/// In a well-formed graph every key of every world resolves, so that
/// extraction leaves no key out.
pub proof fn law_well_formed_graph_resolves_every_key(graph: GraphView, w: int, k: int)
    requires
        graph.well_formed(),
        0 <= w < graph.worlds.len(),
    ensures
        0 <= k < graph.worlds[w].exports.len() ==> graph.key_name(graph.worlds[w].exports[k])
            is Some,
        0 <= k < graph.worlds[w].imports.len() ==> graph.key_name(graph.worlds[w].imports[k])
            is Some,
{
    let world = graph.worlds[w];
    assert(graph.keys_are_backed(world.exports) && graph.keys_are_backed(world.imports));
    if 0 <= k < world.exports.len() {
        assert(graph.key_is_backed(world.exports[k]));
        match world.exports[k] {
            WorldKeyView::InterfaceRef(id) => {
                assert(graph.interfaces[id as int].package is Some);
            },
            WorldKeyView::PlainName(_) => {},
        }
    }
    if 0 <= k < world.imports.len() {
        assert(graph.key_is_backed(world.imports[k]));
        match world.imports[k] {
            WorldKeyView::InterfaceRef(id) => {
                assert(graph.interfaces[id as int].package is Some);
            },
            WorldKeyView::PlainName(_) => {},
        }
    }
}

/// The names of a list of keys do not depend on the order of the keys, nor
/// on how often a key occurs: two lists of the same keys name the same set.
pub proof fn law_key_order_is_irrelevant(
    graph: GraphView,
    a: Seq<WorldKeyView>,
    b: Seq<WorldKeyView>,
)
    requires
        a.to_set() == b.to_set(),
    ensures
        graph.key_names(a) == graph.key_names(b),
{
    assert forall|s: Seq<char>| graph.key_names(a).contains(s) implies graph.key_names(b).contains(
        s,
    ) by {
        let i = choose|i: int| 0 <= i < a.len() && graph.key_name(#[trigger] a[i]) == Some(s);
        assert(a.contains(a[i]));
        assert(b.to_set().contains(a[i]));
        let j = choose|j: int| 0 <= j < b.len() && b[j] == a[i];
        assert(graph.key_name(b[j]) == Some(s));
    }
    assert forall|s: Seq<char>| graph.key_names(b).contains(s) implies graph.key_names(a).contains(
        s,
    ) by {
        let i = choose|i: int| 0 <= i < b.len() && graph.key_name(#[trigger] b[i]) == Some(s);
        assert(b.contains(b[i]));
        assert(a.to_set().contains(b[i]));
        let j = choose|j: int| 0 <= j < a.len() && a[j] == b[i];
        assert(graph.key_name(a[j]) == Some(s));
    }
    assert(graph.key_names(a) =~= graph.key_names(b));
}

/// Extraction from a world that the graph holds succeeds, whether or not
/// the keys of the world resolve.
pub proof fn law_world_extraction_tolerates_unresolved_keys(
    graph: GraphView,
    w: nat,
    r: Result<Component, WasmError>,
)
    requires
        w < graph.worlds.len(),
        world_extraction(graph, w, r),
    ensures
        r is Ok,
        r->Ok_0@.exports == graph.key_names(graph.worlds[w as int].exports),
{
}

/// Two descriptors in canonical form whose sets are equal hold the same
/// lists.
pub proof fn law_canonical_form_is_unique(a: Component, b: Component)
    requires
        a.is_canonical(),
        b.is_canonical(),
        a@.exports == b@.exports,
        a@.imports == b@.imports,
    ensures
        texts(a.exports@) == texts(b.exports@),
        texts(a.imports@) == texts(b.imports@),
{
    lemma_ascending_unique(texts(a.exports@), texts(b.exports@));
    lemma_ascending_unique(texts(a.imports@), texts(b.imports@));
}

/// Extraction from a world is deterministic: whatever two calls on one
/// graph and one world return, both succeed or both fail alike, and on
/// success the descriptors hold the same sets, in the same lists.
pub proof fn law_world_extraction_is_deterministic(
    graph: GraphView,
    w: nat,
    first: Result<Component, WasmError>,
    second: Result<Component, WasmError>,
)
    requires
        world_extraction(graph, w, first),
        world_extraction(graph, w, second),
    ensures
        first is Ok <==> second is Ok,
        first is Err ==> first == second,
        first is Ok ==> first->Ok_0@ == second->Ok_0@ && texts(first->Ok_0.exports@) == texts(
            second->Ok_0.exports@,
        ) && texts(first->Ok_0.imports@) == texts(second->Ok_0.imports@),
{
    if first is Ok {
        law_canonical_form_is_unique(first->Ok_0, second->Ok_0);
    }
}

/// Extraction from a package is deterministic in the same way.
pub proof fn law_package_extraction_is_deterministic(
    graph: GraphView,
    p: nat,
    first: Result<Component, WasmError>,
    second: Result<Component, WasmError>,
)
    requires
        package_extraction(graph, p, first),
        package_extraction(graph, p, second),
    ensures
        first is Ok <==> second is Ok,
        first is Err ==> first == second,
        first is Ok ==> first->Ok_0@ == second->Ok_0@ && texts(first->Ok_0.exports@) == texts(
            second->Ok_0.exports@,
        ) && texts(first->Ok_0.imports@) == texts(second->Ok_0.imports@),
{
    if first is Ok {
        law_canonical_form_is_unique(first->Ok_0, second->Ok_0);
    }
}

/// An ascending list holds each of its names once: it is as long as its
/// set is large.
pub proof fn law_ascending_list_holds_each_name_once(list: Seq<Seq<char>>)
    requires
        ascending(list),
    ensures
        list.no_duplicates(),
        list.len() == list.to_set().len(),
{
    assert forall|i: int, j: int|
        0 <= i < list.len() && 0 <= j < list.len() && i != j implies list[i] != list[j] by {
        if i < j {
            lemma_text_order_total(list[i], list[j]);
        } else {
            lemma_text_order_total(list[j], list[i]);
        }
    }
    list.unique_seq_to_set();
}

/// The exports of a package hold a name if and only if one of three
/// sources gives it: the export keys of a world of the package, the
/// qualified name of such a world, or an interface that the package
/// declares. A name that several sources give is held once.
pub proof fn law_package_exports_are_the_union(
    graph: GraphView,
    p: nat,
    r: Result<Component, WasmError>,
    name: Seq<char>,
)
    requires
        p < graph.packages.len(),
        package_extraction(graph, p, r),
    ensures
        r is Ok,
        r->Ok_0@.exports.contains(name) <==> {
            let package = graph.packages[p as int];
            ||| exists|k: int|
                0 <= k < package.worlds.len() && (#[trigger] package.worlds[k]).id
                    < graph.worlds.len() && graph.key_names(
                    graph.worlds[package.worlds[k].id as int].exports,
                ).contains(name)
            ||| exists|k: int|
                0 <= k < package.worlds.len() && (#[trigger] package.worlds[k]).id
                    < graph.worlds.len() && name == package.qualified(
                    graph.worlds[package.worlds[k].id as int].name,
                )
            ||| exists|k: int|
                0 <= k < package.interfaces.len() && graph.interface_name(
                    (#[trigger] package.interfaces[k]).id,
                ) == Some(name)
        },
        texts(r->Ok_0.exports@).len() == r->Ok_0@.exports.len(),
        r->Ok_0@.imports == Set::<Seq<char>>::empty(),
{
    let package = graph.packages[p as int];
    let c = r->Ok_0;
    law_ascending_list_holds_each_name_once(texts(c.exports@));
    if c@.exports.contains(name) {
        if graph.worlds_names(package, package.worlds).contains(name) {
            let k = choose|k: int|
                0 <= k < package.worlds.len() && graph.world_member_names(
                    package,
                    #[trigger] package.worlds[k],
                ).contains(name);
            assert(package.worlds[k].id < graph.worlds.len());
        } else {
            assert(graph.interfaces_names(package.interfaces).contains(name));
        }
    }
    if exists|k: int|
        0 <= k < package.worlds.len() && (#[trigger] package.worlds[k]).id < graph.worlds.len()
            && graph.key_names(graph.worlds[package.worlds[k].id as int].exports).contains(name) {
        let k = choose|k: int|
            0 <= k < package.worlds.len() && (#[trigger] package.worlds[k]).id
                < graph.worlds.len() && graph.key_names(
                graph.worlds[package.worlds[k].id as int].exports,
            ).contains(name);
        assert(graph.world_member_names(package, package.worlds[k]).contains(name));
        assert(graph.worlds_names(package, package.worlds).contains(name));
    }
    if exists|k: int|
        0 <= k < package.worlds.len() && (#[trigger] package.worlds[k]).id < graph.worlds.len()
            && name == package.qualified(graph.worlds[package.worlds[k].id as int].name) {
        let k = choose|k: int|
            0 <= k < package.worlds.len() && (#[trigger] package.worlds[k]).id
                < graph.worlds.len() && name == package.qualified(
                graph.worlds[package.worlds[k].id as int].name,
            );
        assert(graph.world_member_names(package, package.worlds[k]).contains(name));
        assert(graph.worlds_names(package, package.worlds).contains(name));
    }
    if exists|k: int|
        0 <= k < package.interfaces.len() && graph.interface_name(
            (#[trigger] package.interfaces[k]).id,
        ) == Some(name) {
        assert(graph.interfaces_names(package.interfaces).contains(name));
    }
    assert(c.imports@.len() == 0);
    assert(c@.imports =~= Set::<Seq<char>>::empty());
}

} // verus!
