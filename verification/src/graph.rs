//! The interface graph of an artifact: packages, interfaces and worlds held in
//! arenas and addressed by index, and the canonical name of each reference.

use vstd::prelude::*;
use vstd::string::StringExecFns;
use crate::text::opt_text;
use crate::version::{version_text, Version, VersionView};

verus! {

/// A key of a world's export or import map.
#[derive(Debug, Clone, PartialEq, Eq)]
pub enum WorldKey {
    /// A reference to an interface of the graph, by its index.
    InterfaceRef(usize),
    /// A bare name that no interface stands behind.
    PlainName(String),
}

/// An interface: its local name and the package that owns it.
#[derive(Debug, Clone, PartialEq, Eq)]
pub struct Interface {
    /// `None` for an interface written inline in a world.
    pub name: Option<String>,
    /// Index of the owning package.
    pub package: Option<usize>,
}

/// A world: its name and the keys of its export and import maps, in map order.
#[derive(Debug, Clone, PartialEq, Eq)]
pub struct World {
    pub name: String,
    pub exports: Vec<WorldKey>,
    pub imports: Vec<WorldKey>,
}

/// An entry of a package's world or interface map: the name it is listed
/// under and the index of the node.
#[derive(Debug, Clone, PartialEq, Eq)]
pub struct Member {
    pub name: String,
    pub id: usize,
}

/// A package: its identity, the worlds it owns and the interfaces it declares.
#[derive(Debug, Clone, PartialEq, Eq)]
pub struct Package {
    pub namespace: String,
    pub name: String,
    pub version: Option<Version>,
    pub worlds: Vec<Member>,
    pub interfaces: Vec<Member>,
}

/// The graph: three arenas. An index into `worlds`, `interfaces` or
/// `packages` is the identifier of that node.
#[derive(Debug, Clone, PartialEq, Eq)]
pub struct Graph {
    pub worlds: Vec<World>,
    pub interfaces: Vec<Interface>,
    pub packages: Vec<Package>,
}

/// The mathematical content of a [`WorldKey`].
pub enum WorldKeyView {
    InterfaceRef(nat),
    PlainName(Seq<char>),
}

/// The mathematical content of an [`Interface`].
pub struct InterfaceView {
    pub name: Option<Seq<char>>,
    pub package: Option<nat>,
}

/// The mathematical content of a [`World`].
pub struct WorldView {
    pub name: Seq<char>,
    pub exports: Seq<WorldKeyView>,
    pub imports: Seq<WorldKeyView>,
}

/// The mathematical content of a [`Member`].
pub struct MemberView {
    pub name: Seq<char>,
    pub id: nat,
}

/// The mathematical content of a [`Package`].
pub struct PackageView {
    pub namespace: Seq<char>,
    pub name: Seq<char>,
    pub version: Option<VersionView>,
    pub worlds: Seq<MemberView>,
    pub interfaces: Seq<MemberView>,
}

/// The mathematical content of a [`Graph`].
pub struct GraphView {
    pub worlds: Seq<WorldView>,
    pub interfaces: Seq<InterfaceView>,
    pub packages: Seq<PackageView>,
}

impl View for WorldKey {
    type V = WorldKeyView;

    open spec fn view(&self) -> WorldKeyView {
        match self {
            WorldKey::InterfaceRef(id) => WorldKeyView::InterfaceRef(*id as nat),
            WorldKey::PlainName(s) => WorldKeyView::PlainName(s@),
        }
    }
}

impl View for Interface {
    type V = InterfaceView;

    open spec fn view(&self) -> InterfaceView {
        InterfaceView {
            name: match self.name {
                Some(s) => Some(s@),
                None => None,
            },
            package: match self.package {
                Some(p) => Some(p as nat),
                None => None,
            },
        }
    }
}

/// The views of a list of keys.
pub open spec fn key_views(keys: Seq<WorldKey>) -> Seq<WorldKeyView> {
    keys.map_values(|k: WorldKey| k@)
}

/// The views of a list of members.
pub open spec fn member_views(members: Seq<Member>) -> Seq<MemberView> {
    members.map_values(|m: Member| m@)
}

impl View for World {
    type V = WorldView;

    open spec fn view(&self) -> WorldView {
        WorldView {
            name: self.name@,
            exports: key_views(self.exports@),
            imports: key_views(self.imports@),
        }
    }
}

impl View for Member {
    type V = MemberView;

    open spec fn view(&self) -> MemberView {
        MemberView { name: self.name@, id: self.id as nat }
    }
}

impl View for Package {
    type V = PackageView;

    open spec fn view(&self) -> PackageView {
        PackageView {
            namespace: self.namespace@,
            name: self.name@,
            version: match self.version {
                Some(v) => Some(v@),
                None => None,
            },
            worlds: member_views(self.worlds@),
            interfaces: member_views(self.interfaces@),
        }
    }
}

impl View for Graph {
    type V = GraphView;

    open spec fn view(&self) -> GraphView {
        GraphView {
            worlds: self.worlds@.map_values(|w: World| w@),
            interfaces: self.interfaces@.map_values(|i: Interface| i@),
            packages: self.packages@.map_values(|p: Package| p@),
        }
    }
}

/// `@` and the version's text, or nothing for an unversioned package.
pub open spec fn version_suffix(version: Option<VersionView>) -> Seq<char> {
    match version {
        Some(v) => seq!['@'] + version_text(v),
        None => Seq::<char>::empty(),
    }
}

impl PackageView {
    /// The fully qualified name of `item` in this package:
    /// `namespace:package/item`, then `@version` if the package has one.
    pub open spec fn qualified(self, item: Seq<char>) -> Seq<char> {
        self.namespace + seq![':'] + self.name + seq!['/'] + item + version_suffix(self.version)
    }
}

impl GraphView {
    /// The canonical name of the interface `id`: that of its local name in
    /// its owning package. `None` where the interface, its name or its
    /// package is missing.
    pub open spec fn interface_name(self, id: nat) -> Option<Seq<char>> {
        if id < self.interfaces.len() {
            let interface = self.interfaces[id as int];
            match (interface.name, interface.package) {
                (Some(name), Some(p)) => if p < self.packages.len() {
                    Some(self.packages[p as int].qualified(name))
                } else {
                    None
                },
                _ => None,
            }
        } else {
            None
        }
    }

    /// The canonical name of a world key: a plain name is its own name, an
    /// interface reference has the name of the interface.
    pub open spec fn key_name(self, key: WorldKeyView) -> Option<Seq<char>> {
        match key {
            WorldKeyView::PlainName(s) => Some(s),
            WorldKeyView::InterfaceRef(id) => self.interface_name(id),
        }
    }

    /// The key is a plain name, or refers to an interface that the graph
    /// holds under a name.
    pub open spec fn key_is_backed(self, key: WorldKeyView) -> bool {
        match key {
            WorldKeyView::PlainName(_) => true,
            WorldKeyView::InterfaceRef(id) => id < self.interfaces.len()
                && self.interfaces[id as int].name is Some,
        }
    }

    /// Every key of `keys` is backed.
    pub open spec fn keys_are_backed(self, keys: Seq<WorldKeyView>) -> bool {
        forall|k: int| 0 <= k < keys.len() ==> self.key_is_backed(#[trigger] keys[k])
    }

    /// No reference of the graph dangles: every interface belongs to a
    /// package that the graph holds, and every key of every world is
    /// backed. A decoder is expected to hand over such a graph; the
    /// functions of this library work on every graph.
    pub open spec fn well_formed(self) -> bool {
        &&& forall|i: int|
            0 <= i < self.interfaces.len() ==> (#[trigger] self.interfaces[i]).package is Some
                && self.interfaces[i].package->Some_0 < self.packages.len()
        &&& forall|w: int|
            0 <= w < self.worlds.len() ==> self.keys_are_backed((#[trigger] self.worlds[w]).exports)
                && self.keys_are_backed(self.worlds[w].imports)
    }
}

impl Package {
    /// The fully qualified name of `item` in this package.
    pub fn qualify(&self, item: &str) -> (s: String)
        ensures
            s@ == self@.qualified(item@),
    {
        proof {
            reveal_strlit(":");
            reveal_strlit("/");
            reveal_strlit("@");
        }
        let mut s = self.namespace.clone();
        s.append(":");
        s.append(self.name.as_str());
        s.append("/");
        s.append(item);
        assert(":"@ =~= seq![':']);
        assert("/"@ =~= seq!['/']);
        assert("@"@ =~= seq!['@']);
        match &self.version {
            Some(v) => {
                s.append("@");
                let text = v.to_text();
                s.append(text.as_str());
                assert(s@ =~= self@.qualified(item@));
            },
            None => {
                assert(s@ =~= self@.qualified(item@));
            },
        }
        s
    }
}

impl Graph {
    /// A graph without nodes.
    pub fn new() -> (g: Graph)
        ensures
            g@ == (GraphView {
                worlds: Seq::empty(),
                interfaces: Seq::empty(),
                packages: Seq::empty(),
            }),
            g.worlds@.len() == 0,
            g.interfaces@.len() == 0,
            g.packages@.len() == 0,
    {
        let g = Graph { worlds: Vec::new(), interfaces: Vec::new(), packages: Vec::new() };
        assert(g@.worlds =~= Seq::empty());
        assert(g@.interfaces =~= Seq::empty());
        assert(g@.packages =~= Seq::empty());
        g
    }

    /// The canonical name of the interface `id`, if the graph holds the
    /// interface, its name and its owning package.
    pub fn id_of(&self, id: usize) -> (name: Option<String>)
        ensures
            opt_text(name) == self@.interface_name(id as nat),
    {
        if id >= self.interfaces.len() {
            return None;
        }
        let interface = &self.interfaces[id];
        match (&interface.name, interface.package) {
            (Some(name), Some(p)) => {
                if p < self.packages.len() {
                    Some(self.packages[p].qualify(name.as_str()))
                } else {
                    None
                }
            },
            _ => None,
        }
    }

    /// The canonical name of a world key. A plain name resolves to itself
    /// whatever the graph holds; an interface reference that does not
    /// resolve gives `None`.
    pub fn name_world_key(&self, key: &WorldKey) -> (name: Option<String>)
        ensures
            opt_text(name) == self@.key_name(key@),
    {
        match key {
            WorldKey::PlainName(s) => Some(s.clone()),
            WorldKey::InterfaceRef(id) => self.id_of(*id),
        }
    }
}

} // verus!
