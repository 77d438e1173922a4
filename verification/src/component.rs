//! The capability descriptor of an artifact and its extraction from a graph.

use vstd::prelude::*;
use crate::decode::{decode_artifact, decoding, Decoded, DecodedView, Entry};
use crate::error::{Node, Shape, WasmError};
use crate::graph::{
    key_views, member_views, Graph, GraphView, Member, MemberView, PackageView, WorldKey,
    WorldKeyView,
};
use crate::names::{ascending, insert_name, lemma_ascending_unique, name_set, texts};
use crate::text::opt_text;

verus! {

/// What an artifact offers and what it requires of its host, as fully
/// qualified names. `exports` and `imports` stand for sets: the extraction
/// functions return each as a strictly ascending list.
#[derive(Debug, Clone, PartialEq, Eq)]
pub struct Component {
    /// The names of all exports.
    pub exports: Vec<String>,
    /// The names of all imports.
    pub imports: Vec<String>,
    /// A hint for indexing, which extraction never sets.
    pub target: Option<String>,
}

/// The mathematical content of a [`Component`].
pub struct ComponentView {
    pub exports: Set<Seq<char>>,
    pub imports: Set<Seq<char>>,
    pub target: Option<Seq<char>>,
}

impl View for Component {
    type V = ComponentView;

    open spec fn view(&self) -> ComponentView {
        ComponentView {
            exports: name_set(self.exports@),
            imports: name_set(self.imports@),
            target: opt_text(self.target),
        }
    }
}

impl Component {
    /// Both lists are strictly ascending, so each set has one list form.
    pub open spec fn is_canonical(&self) -> bool {
        ascending(texts(self.exports@)) && ascending(texts(self.imports@))
    }
}

impl GraphView {
    /// The names that the keys of `keys` resolve to. A key that does not
    /// resolve contributes nothing.
    pub open spec fn key_names(self, keys: Seq<WorldKeyView>) -> Set<Seq<char>> {
        Set::new(
            |s: Seq<char>|
                exists|k: int| 0 <= k < keys.len() && self.key_name(#[trigger] keys[k]) == Some(s),
        )
    }

    /// What the world listed as `member` of `package` contributes to the
    /// package's exports: the names of its export keys and its own name,
    /// qualified by the package. Nothing where the graph lacks the world.
    pub open spec fn world_member_names(self, package: PackageView, member: MemberView) -> Set<
        Seq<char>,
    > {
        if member.id < self.worlds.len() {
            let world = self.worlds[member.id as int];
            self.key_names(world.exports).insert(package.qualified(world.name))
        } else {
            Set::empty()
        }
    }

    /// What the worlds listed in `members` contribute together.
    pub open spec fn worlds_names(self, package: PackageView, members: Seq<MemberView>) -> Set<
        Seq<char>,
    > {
        Set::new(
            |s: Seq<char>|
                exists|k: int|
                    0 <= k < members.len() && self.world_member_names(
                        package,
                        #[trigger] members[k],
                    ).contains(s),
        )
    }

    /// The canonical names of the interfaces listed in `members`.
    pub open spec fn interfaces_names(self, members: Seq<MemberView>) -> Set<Seq<char>> {
        Set::new(
            |s: Seq<char>|
                exists|k: int|
                    0 <= k < members.len() && self.interface_name((#[trigger] members[k]).id)
                        == Some(s),
        )
    }

    /// The descriptor of the world `w`.
    pub open spec fn world_descriptor(self, w: nat) -> ComponentView
        recommends
            w < self.worlds.len(),
    {
        ComponentView {
            exports: self.key_names(self.worlds[w as int].exports),
            imports: self.key_names(self.worlds[w as int].imports),
            target: None,
        }
    }

    /// The descriptor of the package `p`: the union of what its worlds
    /// contribute and of the interfaces it declares, and no imports.
    pub open spec fn package_descriptor(self, p: nat) -> ComponentView
        recommends
            p < self.packages.len(),
    {
        let package = self.packages[p as int];
        ComponentView {
            exports: self.worlds_names(package, package.worlds).union(
                self.interfaces_names(package.interfaces),
            ),
            imports: Set::empty(),
            target: None,
        }
    }
}

/// What extraction from the world `w` of `graph` returns: the world's
/// descriptor in canonical form, or `NotFound` where the graph holds no
/// such world.
pub open spec fn world_extraction(
    graph: GraphView,
    w: nat,
    r: Result<Component, WasmError>,
) -> bool {
    if w < graph.worlds.len() {
        r is Ok && r->Ok_0@ == graph.world_descriptor(w) && r->Ok_0.is_canonical()
    } else {
        r == Err::<Component, WasmError>(WasmError::NotFound(Node::World))
    }
}

/// What extraction from the package `p` of `graph` returns: the package's
/// descriptor in canonical form and with an empty import list, or
/// `NotFound` where the graph holds no such package.
pub open spec fn package_extraction(
    graph: GraphView,
    p: nat,
    r: Result<Component, WasmError>,
) -> bool {
    if p < graph.packages.len() {
        r is Ok && r->Ok_0@ == graph.package_descriptor(p) && r->Ok_0.is_canonical()
            && r->Ok_0.imports@.len() == 0
    } else {
        r == Err::<Component, WasmError>(WasmError::NotFound(Node::Package))
    }
}

/// What extraction from a decoded artifact returns: that of its world for
/// a component, that of its package for an interface package.
pub open spec fn extraction(decoded: DecodedView, r: Result<Component, WasmError>) -> bool {
    match decoded.entry {
        Entry::World(w) => world_extraction(decoded.graph, w as nat, r),
        Entry::Package(p) => package_extraction(decoded.graph, p as nat, r),
    }
}

/// The names of `list` as a strictly ascending list.
fn sorted_names(list: &Vec<String>) -> (out: Vec<String>)
    ensures
        ascending(texts(out@)),
        name_set(out@) == name_set(list@),
{
    let mut out: Vec<String> = Vec::new();
    let n = list.len();
    let mut i: usize = 0;
    assert(name_set(out@) =~= texts(list@).take(0).to_set());
    while i < n
        invariant
            i <= n,
            n == list@.len(),
            ascending(texts(out@)),
            name_set(out@) == texts(list@).take(i as int).to_set(),
        decreases n - i,
    {
        insert_name(&mut out, list[i].clone());
        proof {
            let t = texts(list@);
            assert(t.take(i + 1) =~= t.take(i as int).push(t[i as int]));
            t.take(i as int).lemma_push_to_set_commute(t[i as int]);
        }
        i = i + 1;
    }
    assert(texts(list@).take(n as int) =~= texts(list@));
    out
}

/// Whether two lists hold the same texts in the same order.
fn same_texts(a: &Vec<String>, b: &Vec<String>) -> (same: bool)
    ensures
        same == (texts(a@) == texts(b@)),
{
    if a.len() != b.len() {
        assert(texts(a@).len() != texts(b@).len());
        return false;
    }
    let n = a.len();
    let mut i: usize = 0;
    while i < n
        invariant
            i <= n,
            n == a@.len(),
            n == b@.len(),
            forall|k: int| 0 <= k < i ==> texts(a@)[k] == texts(b@)[k],
        decreases n - i,
    {
        if a[i] != b[i] {
            assert(texts(a@)[i as int] != texts(b@)[i as int]);
            return false;
        }
        i = i + 1;
    }
    assert(texts(a@) =~= texts(b@));
    true
}

/// The set of an optional name: the name alone, or nothing.
pub open spec fn option_set(name: Option<Seq<char>>) -> Set<Seq<char>> {
    match name {
        Some(s) => Set::empty().insert(s),
        None => Set::empty(),
    }
}

/// The names of a prefix of keys grow by the name of the key behind it.
proof fn lemma_key_names_next(graph: GraphView, keys: Seq<WorldKeyView>, i: int)
    requires
        0 <= i < keys.len(),
    ensures
        graph.key_names(keys.take(i + 1)) == graph.key_names(keys.take(i)).union(
            option_set(graph.key_name(keys[i])),
        ),
{
    let longer = keys.take(i + 1);
    let shorter = keys.take(i);
    let grown = graph.key_names(shorter).union(option_set(graph.key_name(keys[i])));
    assert forall|s: Seq<char>| graph.key_names(longer).contains(s) implies grown.contains(s) by {
        let k = choose|k: int|
            0 <= k < longer.len() && graph.key_name(#[trigger] longer[k]) == Some(s);
        if k < i {
            assert(graph.key_name(shorter[k]) == Some(s));
        }
    }
    assert forall|s: Seq<char>| grown.contains(s) implies graph.key_names(longer).contains(s) by {
        if graph.key_names(shorter).contains(s) {
            let k = choose|k: int|
                0 <= k < shorter.len() && graph.key_name(#[trigger] shorter[k]) == Some(s);
            assert(graph.key_name(longer[k]) == Some(s));
        } else {
            assert(graph.key_name(longer[i]) == Some(s));
        }
    }
    assert(graph.key_names(longer) =~= grown);
}

/// What a prefix of worlds contributes grows by what the world behind it
/// contributes.
proof fn lemma_worlds_names_next(
    graph: GraphView,
    package: PackageView,
    members: Seq<MemberView>,
    i: int,
)
    requires
        0 <= i < members.len(),
    ensures
        graph.worlds_names(package, members.take(i + 1)) == graph.worlds_names(
            package,
            members.take(i),
        ).union(graph.world_member_names(package, members[i])),
{
    let longer = members.take(i + 1);
    let shorter = members.take(i);
    let grown = graph.worlds_names(package, shorter).union(
        graph.world_member_names(package, members[i]),
    );
    assert forall|s: Seq<char>|
        graph.worlds_names(package, longer).contains(s) implies grown.contains(s) by {
        let k = choose|k: int|
            0 <= k < longer.len() && graph.world_member_names(
                package,
                #[trigger] longer[k],
            ).contains(s);
        if k < i {
            assert(graph.world_member_names(package, shorter[k]).contains(s));
        }
    }
    assert forall|s: Seq<char>|
        grown.contains(s) implies graph.worlds_names(package, longer).contains(s) by {
        if graph.worlds_names(package, shorter).contains(s) {
            let k = choose|k: int|
                0 <= k < shorter.len() && graph.world_member_names(
                    package,
                    #[trigger] shorter[k],
                ).contains(s);
            assert(graph.world_member_names(package, longer[k]).contains(s));
        } else {
            assert(graph.world_member_names(package, longer[i]).contains(s));
        }
    }
    assert(graph.worlds_names(package, longer) =~= grown);
}

/// The names of a prefix of interfaces grow by the name of the interface
/// behind it.
proof fn lemma_interfaces_names_next(graph: GraphView, members: Seq<MemberView>, i: int)
    requires
        0 <= i < members.len(),
    ensures
        graph.interfaces_names(members.take(i + 1)) == graph.interfaces_names(
            members.take(i),
        ).union(option_set(graph.interface_name(members[i].id))),
{
    let longer = members.take(i + 1);
    let shorter = members.take(i);
    let grown = graph.interfaces_names(shorter).union(
        option_set(graph.interface_name(members[i].id)),
    );
    assert forall|s: Seq<char>|
        graph.interfaces_names(longer).contains(s) implies grown.contains(s) by {
        let k = choose|k: int|
            0 <= k < longer.len() && graph.interface_name((#[trigger] longer[k]).id) == Some(s);
        if k < i {
            assert(graph.interface_name(shorter[k].id) == Some(s));
        }
    }
    assert forall|s: Seq<char>|
        grown.contains(s) implies graph.interfaces_names(longer).contains(s) by {
        if graph.interfaces_names(shorter).contains(s) {
            let k = choose|k: int|
                0 <= k < shorter.len() && graph.interface_name((#[trigger] shorter[k]).id)
                    == Some(s);
            assert(graph.interface_name(longer[k].id) == Some(s));
        } else {
            assert(graph.interface_name(longer[i].id) == Some(s));
        }
    }
    assert(graph.interfaces_names(longer) =~= grown);
}

/// Adds `name` to `out`, if there is one.
fn add_name(out: &mut Vec<String>, name: Option<String>)
    requires
        ascending(texts(old(out)@)),
    ensures
        ascending(texts(final(out)@)),
        name_set(final(out)@) == name_set(old(out)@).union(option_set(opt_text(name))),
{
    match name {
        Some(s) => {
            insert_name(out, s);
            assert(name_set(out@) =~= name_set(old(out)@).union(option_set(Some(s@))));
        },
        None => {
            assert(name_set(out@) =~= name_set(old(out)@).union(option_set(None)));
        },
    }
}

/// Adds to `out` the name of each key of `keys` that resolves in `graph`.
fn add_key_names(graph: &Graph, keys: &Vec<WorldKey>, out: &mut Vec<String>)
    requires
        ascending(texts(old(out)@)),
    ensures
        ascending(texts(final(out)@)),
        name_set(final(out)@) == name_set(old(out)@).union(graph@.key_names(key_views(keys@))),
{
    let n = keys.len();
    let ghost kv = key_views(keys@);
    let mut i: usize = 0;
    assert(graph@.key_names(kv.take(0)) =~= Set::empty());
    assert(name_set(out@) =~= name_set(out@).union(Set::empty()));
    while i < n
        invariant
            i <= n,
            n == keys@.len(),
            kv == key_views(keys@),
            ascending(texts(out@)),
            name_set(out@) == name_set(old(out)@).union(graph@.key_names(kv.take(i as int))),
        decreases n - i,
    {
        add_name(out, graph.name_world_key(&keys[i]));
        proof {
            lemma_key_names_next(graph@, kv, i as int);
            assert(name_set(out@) =~= name_set(old(out)@).union(
                graph@.key_names(kv.take(i + 1)),
            ));
        }
        i = i + 1;
    }
    assert(kv.take(n as int) =~= kv);
}

/// Adds to `out` what the worlds listed in `members` contribute to the
/// exports of `package`.
fn add_world_names(graph: &Graph, package: usize, members: &Vec<Member>, out: &mut Vec<String>)
    requires
        package < graph@.packages.len(),
        ascending(texts(old(out)@)),
    ensures
        ascending(texts(final(out)@)),
        name_set(final(out)@) == name_set(old(out)@).union(
            graph@.worlds_names(graph@.packages[package as int], member_views(members@)),
        ),
{
    let n = members.len();
    let ghost pv = graph@.packages[package as int];
    let ghost mv = member_views(members@);
    let mut i: usize = 0;
    assert(graph@.worlds_names(pv, mv.take(0)) =~= Set::empty());
    assert(name_set(out@) =~= name_set(out@).union(Set::empty()));
    while i < n
        invariant
            i <= n,
            n == members@.len(),
            package < graph@.packages.len(),
            pv == graph@.packages[package as int],
            mv == member_views(members@),
            ascending(texts(out@)),
            name_set(out@) == name_set(old(out)@).union(
                graph@.worlds_names(pv, mv.take(i as int)),
            ),
        decreases n - i,
    {
        let ghost before = name_set(out@);
        let id = members[i].id;
        if id < graph.worlds.len() {
            let world = &graph.worlds[id];
            add_key_names(graph, &world.exports, out);
            insert_name(out, graph.packages[package].qualify(world.name.as_str()));
        }
        proof {
            lemma_worlds_names_next(graph@, pv, mv, i as int);
            assert(name_set(out@) =~= before.union(graph@.world_member_names(pv, mv[i as int])));
            assert(name_set(out@) =~= name_set(old(out)@).union(
                graph@.worlds_names(pv, mv.take(i + 1)),
            ));
        }
        i = i + 1;
    }
    assert(mv.take(n as int) =~= mv);
}

/// Adds to `out` the canonical name of each interface listed in `members`
/// that has one.
fn add_interface_names(graph: &Graph, members: &Vec<Member>, out: &mut Vec<String>)
    requires
        ascending(texts(old(out)@)),
    ensures
        ascending(texts(final(out)@)),
        name_set(final(out)@) == name_set(old(out)@).union(
            graph@.interfaces_names(member_views(members@)),
        ),
{
    let n = members.len();
    let ghost mv = member_views(members@);
    let mut i: usize = 0;
    assert(graph@.interfaces_names(mv.take(0)) =~= Set::empty());
    assert(name_set(out@) =~= name_set(out@).union(Set::empty()));
    while i < n
        invariant
            i <= n,
            n == members@.len(),
            mv == member_views(members@),
            ascending(texts(out@)),
            name_set(out@) == name_set(old(out)@).union(
                graph@.interfaces_names(mv.take(i as int)),
            ),
        decreases n - i,
    {
        add_name(out, graph.id_of(members[i].id));
        proof {
            lemma_interfaces_names_next(graph@, mv, i as int);
            assert(name_set(out@) =~= name_set(old(out)@).union(
                graph@.interfaces_names(mv.take(i + 1)),
            ));
        }
        i = i + 1;
    }
    assert(mv.take(n as int) =~= mv);
}

impl Component {
    /// This descriptor in canonical form: the same sets and the same
    /// target, each set as a strictly ascending list.
    pub fn canonical(&self) -> (c: Component)
        ensures
            c.is_canonical(),
            c@ == self@,
    {
        let target = match &self.target {
            Some(t) => Some(t.clone()),
            None => None,
        };
        Component {
            exports: sorted_names(&self.exports),
            imports: sorted_names(&self.imports),
            target,
        }
    }

    /// Whether two descriptors are equal as descriptors: their exports
    /// are the same set and their imports are the same set, in whatever
    /// order and however often the lists hold the names.
    pub fn same_sets(&self, other: &Component) -> (same: bool)
        ensures
            same == (self@.exports == other@.exports && self@.imports == other@.imports),
    {
        let a = self.canonical();
        let b = other.canonical();
        proof {
            if a@.exports == b@.exports {
                lemma_ascending_unique(texts(a.exports@), texts(b.exports@));
            }
            if a@.imports == b@.imports {
                lemma_ascending_unique(texts(a.imports@), texts(b.imports@));
            }
        }
        same_texts(&a.exports, &b.exports) && same_texts(&a.imports, &b.imports)
    }

    /// The descriptor of the world `world_id` of `graph`: the names that
    /// the keys of its export and import maps resolve to, each as a
    /// strictly ascending list. Fails only if the graph holds no such world.
    pub fn from_world(graph: &Graph, world_id: usize) -> (r: Result<Component, WasmError>)
        ensures
            world_extraction(graph@, world_id as nat, r),
    {
        if world_id >= graph.worlds.len() {
            return Err(WasmError::NotFound(Node::World));
        }
        let world = &graph.worlds[world_id];
        let mut exports: Vec<String> = Vec::new();
        let mut imports: Vec<String> = Vec::new();
        assert(name_set(exports@) =~= Set::empty());
        assert(name_set(imports@) =~= Set::empty());
        add_key_names(graph, &world.exports, &mut exports);
        add_key_names(graph, &world.imports, &mut imports);
        let c = Component { exports, imports, target: None };
        assert(c@.exports =~= graph@.world_descriptor(world_id as nat).exports);
        assert(c@.imports =~= graph@.world_descriptor(world_id as nat).imports);
        Ok(c)
    }

    /// The descriptor of the package `pkg_id` of `graph`. Its exports are,
    /// as one strictly ascending list: for each world of the package that
    /// the graph holds, the names of the world's export keys and the
    /// world's own qualified name; and the canonical name of each interface
    /// that the package declares. It has no imports. Fails only if the
    /// graph holds no such package.
    pub fn from_package(graph: &Graph, pkg_id: usize) -> (r: Result<Component, WasmError>)
        ensures
            package_extraction(graph@, pkg_id as nat, r),
    {
        if pkg_id >= graph.packages.len() {
            return Err(WasmError::NotFound(Node::Package));
        }
        let package = &graph.packages[pkg_id];
        let mut exports: Vec<String> = Vec::new();
        assert(name_set(exports@) =~= Set::empty());
        add_world_names(graph, pkg_id, &package.worlds, &mut exports);
        add_interface_names(graph, &package.interfaces, &mut exports);
        let c = Component { exports, imports: Vec::new(), target: None };
        assert(c@.exports =~= graph@.package_descriptor(pkg_id as nat).exports);
        assert(c@.imports =~= Set::empty());
        Ok(c)
    }

    /// The descriptor of a decoded artifact: that of its world if it is a
    /// component, that of its package if it is an interface package.
    pub fn from_decoded(decoded: &Decoded) -> (r: Result<Component, WasmError>)
        ensures
            extraction(decoded@, r),
    {
        match decoded.entry {
            Entry::World(w) => Component::from_world(&decoded.graph, w),
            Entry::Package(p) => Component::from_package(&decoded.graph, p),
        }
    }

    /// The descriptor of a decoded artifact that has to be a component.
    /// An interface package is refused as `WrongArtifactShape`.
    pub fn from_decoded_component(decoded: &Decoded) -> (r: Result<Component, WasmError>)
        ensures
            match decoded.entry {
                Entry::World(w) => world_extraction(decoded@.graph, w as nat, r),
                Entry::Package(_) => r == Err::<Component, WasmError>(
                    WasmError::WrongArtifactShape(Shape::Package),
                ),
            },
    {
        match decoded.entry {
            Entry::World(w) => Component::from_world(&decoded.graph, w),
            Entry::Package(_) => Err(WasmError::WrongArtifactShape(Shape::Package)),
        }
    }

    /// The descriptor of a decoded artifact that has to be an interface
    /// package. A component is refused as `WrongArtifactShape`.
    pub fn from_decoded_package(decoded: &Decoded) -> (r: Result<Component, WasmError>)
        ensures
            match decoded.entry {
                Entry::Package(p) => package_extraction(decoded@.graph, p as nat, r),
                Entry::World(_) => r == Err::<Component, WasmError>(
                    WasmError::WrongArtifactShape(Shape::Component),
                ),
            },
    {
        match decoded.entry {
            Entry::Package(p) => Component::from_package(&decoded.graph, p),
            Entry::World(_) => Err(WasmError::WrongArtifactShape(Shape::Component)),
        }
    }

    /// The descriptor of the artifact in `raw`, the bytes of a component or
    /// of a binary interface package: what [`Component::from_decoded`]
    /// returns for what the decoder reads. Fails as `MalformedBinary`
    /// exactly where the decoder rejects the bytes.
    pub fn from_raw_component(raw: &[u8]) -> (r: Result<Component, WasmError>)
        ensures
            match decoding(raw@) {
                Some(decoded) => extraction(decoded, r),
                None => r is Err && r->Err_0 is MalformedBinary,
            },
    {
        match decode_artifact(raw) {
            Ok(decoded) => Component::from_decoded(&decoded),
            Err(e) => Err(e),
        }
    }
}

} // verus!
