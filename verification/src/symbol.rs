use crate::pos::Pos;
use crate::strings::last_seg;
use vstd::prelude::*;
use vstd::string::StringExecFns;

verus! {

/// The kinds of symbols the naming pass discovers.
#[derive(Clone, Copy, PartialEq, Eq, Structural, Debug)]
pub enum SymbolKind {
    Value,
    Schema,
    Attribute,
    TypeAlias,
    Rule,
    Package,
    Unresolved,
}

/// A stable handle into the store: the arena index together with the
/// kind the symbol was allocated under.
#[derive(Clone, Copy, PartialEq, Eq, Structural, Debug)]
pub struct SymbolRef {
    pub id: usize,
    pub kind: SymbolKind,
}

impl SymbolRef {
    pub fn get_id(&self) -> (r: usize)
        ensures
            r == self.id,
    {
        self.id
    }

    pub fn get_kind(&self) -> (r: SymbolKind)
        ensures
            r == self.kind,
    {
        self.kind
    }
}

/// An import record: the local alias and the imported path.
#[derive(Debug)]
pub struct ImportInfo {
    pub name: String,
    pub path: String,
}

/// Kind-specific extension fields of a symbol.
#[derive(Debug)]
pub enum SymbolDetail {
    Value,
    Attribute,
    TypeAlias,
    Rule,
    Unresolved,
    Schema {
        parent_schema: Option<SymbolRef>,
        mixins: Vec<SymbolRef>,
        attributes: Vec<(String, SymbolRef)>,
    },
    Package { members: Vec<(String, SymbolRef)>, modules: Vec<String>, imports: Vec<ImportInfo> },
}

/// A named, owned entity discovered during naming. Symbols are allocated
/// once and never deleted; only the kind-specific extension fields grow.
#[derive(Debug)]
pub struct Symbol {
    pub name: String,
    pub start: Pos,
    pub end: Pos,
    pub owner: Option<SymbolRef>,
    pub detail: SymbolDetail,
}

/// The mathematical image of the extension fields.
pub enum DetailDesc {
    Value,
    Attribute,
    TypeAlias,
    Rule,
    Unresolved,
    Schema {
        parent_schema: Option<SymbolRef>,
        mixins: Seq<SymbolRef>,
        attributes: Seq<(Seq<char>, SymbolRef)>,
    },
    Package {
        members: Seq<(Seq<char>, SymbolRef)>,
        modules: Seq<Seq<char>>,
        imports: Seq<(Seq<char>, Seq<char>)>,
    },
}

/// The mathematical image of a symbol.
pub struct SymDesc {
    pub name: Seq<char>,
    pub start: Pos,
    pub end: Pos,
    pub owner: Option<SymbolRef>,
    pub detail: DetailDesc,
}

pub open spec fn entries_view(v: Seq<(String, SymbolRef)>) -> Seq<(Seq<char>, SymbolRef)> {
    v.map_values(|e: (String, SymbolRef)| (e.0@, e.1))
}

impl View for Symbol {
    type V = SymDesc;

    open spec fn view(&self) -> SymDesc {
        SymDesc {
            name: self.name@,
            start: self.start,
            end: self.end,
            owner: self.owner,
            detail: match self.detail {
                SymbolDetail::Value => DetailDesc::Value,
                SymbolDetail::Attribute => DetailDesc::Attribute,
                SymbolDetail::TypeAlias => DetailDesc::TypeAlias,
                SymbolDetail::Rule => DetailDesc::Rule,
                SymbolDetail::Unresolved => DetailDesc::Unresolved,
                SymbolDetail::Schema { parent_schema, mixins, attributes } => DetailDesc::Schema {
                    parent_schema,
                    mixins: mixins@,
                    attributes: entries_view(attributes@),
                },
                SymbolDetail::Package { members, modules, imports } => DetailDesc::Package {
                    members: entries_view(members@),
                    modules: modules@.map_values(|m: String| m@),
                    imports: imports@.map_values(|i: ImportInfo| (i.name@, i.path@)),
                },
            },
        }
    }
}

/// The kind a description answers to.
pub open spec fn desc_kind(d: SymDesc) -> SymbolKind {
    match d.detail {
        DetailDesc::Value => SymbolKind::Value,
        DetailDesc::Attribute => SymbolKind::Attribute,
        DetailDesc::TypeAlias => SymbolKind::TypeAlias,
        DetailDesc::Rule => SymbolKind::Rule,
        DetailDesc::Unresolved => SymbolKind::Unresolved,
        DetailDesc::Schema { .. } => SymbolKind::Schema,
        DetailDesc::Package { .. } => SymbolKind::Package,
    }
}

/// A handle is well formed when it points into the arena at its kind.
pub open spec fn ref_wf(symbols: Seq<SymDesc>, r: SymbolRef) -> bool {
    r.id < symbols.len() && desc_kind(symbols[r.id as int]) == r.kind
}

/// Owners always point to an earlier symbol, so owner chains terminate.
pub open spec fn store_wf(symbols: Seq<SymDesc>) -> bool {
    forall|i: int|
        0 <= i < symbols.len() ==> match (#[trigger] symbols[i]).owner {
            Some(o) => o.id < i && ref_wf(symbols, o),
            None => true,
        }
}

/// The dotted path from the root to a symbol, joining display names
/// along the owner chain.
pub open spec fn fqn(symbols: Seq<SymDesc>, id: int) -> Seq<char>
    decreases id,
{
    if 0 <= id < symbols.len() {
        match symbols[id].owner {
            Some(o) => if o.id < id {
                fqn(symbols, o.id as int) + "."@ + symbols[id].name
            } else {
                symbols[id].name
            },
            None => symbols[id].name,
        }
    } else {
        Seq::<char>::empty()
    }
}

/// A symbol's fully qualified name is untouched by growing the arena or
/// by changes that keep every name and owner.
pub proof fn lemma_fqn_same_names(s1: Seq<SymDesc>, s2: Seq<SymDesc>, id: int)
    requires
        0 <= id < s1.len(),
        s1.len() <= s2.len(),
        forall|j: int|
            0 <= j < s1.len() ==> (#[trigger] s2[j]).name == s1[j].name && s2[j].owner
                == s1[j].owner,
    ensures
        fqn(s2, id) == fqn(s1, id),
    decreases id,
{
    match s1[id].owner {
        Some(o) => {
            if o.id < id {
                lemma_fqn_same_names(s1, s2, o.id as int);
            }
        },
        None => {},
    }
}

/// The rightmost binding of a key in an association sequence.
pub open spec fn assoc_get(entries: Seq<(Seq<char>, SymbolRef)>, key: Seq<char>) -> Option<
    SymbolRef,
>
    decreases entries.len(),
{
    if entries.len() == 0 {
        None
    } else if entries.last().0 == key {
        Some(entries.last().1)
    } else {
        assoc_get(entries.drop_last(), key)
    }
}

/// Later bindings shadow earlier ones: when two entries carry the same
/// key and none after the second does, the map holds the second handle.
pub proof fn lemma_assoc_last_wins(
    entries: Seq<(Seq<char>, SymbolRef)>,
    i: int,
    j: int,
    key: Seq<char>,
)
    requires
        0 <= i < j < entries.len(),
        entries[i].0 == key,
        entries[j].0 == key,
        forall|l: int| j < l < entries.len() ==> (#[trigger] entries[l]).0 != key,
    ensures
        assoc_get(entries, key) == Some(entries[j].1),
    decreases entries.len(),
{
    if j == entries.len() - 1 {
    } else {
        assert(entries.drop_last() =~= entries.subrange(0, entries.len() - 1));
        lemma_assoc_last_wins(entries.drop_last(), i, j, key);
    }
}

// ---------------------------------------------------------------------
// Description builders for the mutating operations
// ---------------------------------------------------------------------
pub open spec fn desc_with_member(d: SymDesc, name: Seq<char>, r: SymbolRef) -> SymDesc {
    SymDesc {
        detail: match d.detail {
            DetailDesc::Package { members, modules, imports } => DetailDesc::Package {
                members: members.push((name, r)),
                modules,
                imports,
            },
            other => other,
        },
        ..d
    }
}

pub open spec fn desc_with_module(d: SymDesc, filename: Seq<char>) -> SymDesc {
    SymDesc {
        detail: match d.detail {
            DetailDesc::Package { members, modules, imports } => DetailDesc::Package {
                members,
                modules: modules.push(filename),
                imports,
            },
            other => other,
        },
        ..d
    }
}

pub open spec fn desc_with_import(d: SymDesc, name: Seq<char>, path: Seq<char>) -> SymDesc {
    SymDesc {
        detail: match d.detail {
            DetailDesc::Package { members, modules, imports } => DetailDesc::Package {
                members,
                modules,
                imports: imports.push((name, path)),
            },
            other => other,
        },
        ..d
    }
}

pub open spec fn desc_with_parent(d: SymDesc, parent: Option<SymbolRef>) -> SymDesc {
    SymDesc {
        detail: match d.detail {
            DetailDesc::Schema { parent_schema, mixins, attributes } => DetailDesc::Schema {
                parent_schema: parent,
                mixins,
                attributes,
            },
            other => other,
        },
        ..d
    }
}

pub open spec fn desc_with_mixin(d: SymDesc, mixin: SymbolRef) -> SymDesc {
    SymDesc {
        detail: match d.detail {
            DetailDesc::Schema { parent_schema, mixins, attributes } => DetailDesc::Schema {
                parent_schema,
                mixins: mixins.push(mixin),
                attributes,
            },
            other => other,
        },
        ..d
    }
}

pub open spec fn desc_with_attr(d: SymDesc, name: Seq<char>, r: SymbolRef) -> SymDesc {
    SymDesc {
        detail: match d.detail {
            DetailDesc::Schema { parent_schema, mixins, attributes } => DetailDesc::Schema {
                parent_schema,
                mixins,
                attributes: attributes.push((name, r)),
            },
            other => other,
        },
        ..d
    }
}

// ---------------------------------------------------------------------
// The store
// ---------------------------------------------------------------------
/// The mathematical image of the store: the arena in allocation order,
/// and the bindings from syntax-node identity to allocated handle.
pub struct StoreView {
    pub symbols: Seq<SymDesc>,
    pub node_map: Seq<(u64, SymbolRef)>,
}

/// The arena owning every symbol; everything else holds only handles.
#[derive(Debug)]
pub struct SymbolStore {
    pub symbols: Vec<Symbol>,
    pub node_symbol_map: Vec<(u64, SymbolRef)>,
}

impl View for SymbolStore {
    type V = StoreView;

    open spec fn view(&self) -> StoreView {
        StoreView {
            symbols: self.symbols@.map_values(|s: Symbol| s@),
            node_map: self.node_symbol_map@,
        }
    }
}

impl SymbolStore {
    /// A fresh, empty store; one is created per compilation unit.
    pub fn new() -> (r: SymbolStore)
        ensures
            r@.symbols == Seq::<SymDesc>::empty(),
            r@.node_map == Seq::<(u64, SymbolRef)>::empty(),
    {
        let r = SymbolStore { symbols: Vec::new(), node_symbol_map: Vec::new() };
        proof {
            assert(r@.symbols =~= Seq::<SymDesc>::empty());
        }
        r
    }

    /// Allocates a symbol and binds it to the declaring syntax node.
    fn alloc_sym(&mut self, sym: Symbol, node_id: u64) -> (r: SymbolRef)
        ensures
            r.id == old(self)@.symbols.len(),
            r.kind == desc_kind(sym@),
            final(self)@.symbols == old(self)@.symbols.push(sym@),
            final(self)@.node_map == old(self)@.node_map.push((node_id, r)),
    {
        let kind = match &sym.detail {
            SymbolDetail::Value => SymbolKind::Value,
            SymbolDetail::Attribute => SymbolKind::Attribute,
            SymbolDetail::TypeAlias => SymbolKind::TypeAlias,
            SymbolDetail::Rule => SymbolKind::Rule,
            SymbolDetail::Unresolved => SymbolKind::Unresolved,
            SymbolDetail::Schema { .. } => SymbolKind::Schema,
            SymbolDetail::Package { .. } => SymbolKind::Package,
        };
        let ghost sv = sym@;
        let id = self.symbols.len();
        self.symbols.push(sym);
        let r = SymbolRef { id, kind };
        self.node_symbol_map.push((node_id, r));
        proof {
            assert(self@.symbols =~= old(self)@.symbols.push(sv));
        }
        r
    }

    pub fn alloc_value_symbol(
        &mut self,
        name: String,
        start: Pos,
        end: Pos,
        owner: SymbolRef,
        node_id: u64,
    ) -> (r: SymbolRef)
        ensures
            r.id == old(self)@.symbols.len(),
            r.kind == SymbolKind::Value,
            final(self)@.symbols == old(self)@.symbols.push(
                SymDesc {
                    name: name@,
                    start,
                    end,
                    owner: Some(owner),
                    detail: DetailDesc::Value,
                },
            ),
            final(self)@.node_map == old(self)@.node_map.push((node_id, r)),
    {
        self.alloc_sym(Symbol { name, start, end, owner: Some(owner), detail: SymbolDetail::Value }, node_id)
    }

    pub fn alloc_type_alias_symbol(
        &mut self,
        name: String,
        start: Pos,
        end: Pos,
        owner: SymbolRef,
        node_id: u64,
    ) -> (r: SymbolRef)
        ensures
            r.id == old(self)@.symbols.len(),
            r.kind == SymbolKind::TypeAlias,
            final(self)@.symbols == old(self)@.symbols.push(
                SymDesc {
                    name: name@,
                    start,
                    end,
                    owner: Some(owner),
                    detail: DetailDesc::TypeAlias,
                },
            ),
            final(self)@.node_map == old(self)@.node_map.push((node_id, r)),
    {
        self.alloc_sym(
            Symbol { name, start, end, owner: Some(owner), detail: SymbolDetail::TypeAlias },
            node_id,
        )
    }

    pub fn alloc_rule_symbol(
        &mut self,
        name: String,
        start: Pos,
        end: Pos,
        owner: SymbolRef,
        node_id: u64,
    ) -> (r: SymbolRef)
        ensures
            r.id == old(self)@.symbols.len(),
            r.kind == SymbolKind::Rule,
            final(self)@.symbols == old(self)@.symbols.push(
                SymDesc { name: name@, start, end, owner: Some(owner), detail: DetailDesc::Rule },
            ),
            final(self)@.node_map == old(self)@.node_map.push((node_id, r)),
    {
        self.alloc_sym(Symbol { name, start, end, owner: Some(owner), detail: SymbolDetail::Rule }, node_id)
    }

    pub fn alloc_attribute_symbol(
        &mut self,
        name: String,
        start: Pos,
        end: Pos,
        owner: SymbolRef,
        node_id: u64,
    ) -> (r: SymbolRef)
        ensures
            r.id == old(self)@.symbols.len(),
            r.kind == SymbolKind::Attribute,
            final(self)@.symbols == old(self)@.symbols.push(
                SymDesc {
                    name: name@,
                    start,
                    end,
                    owner: Some(owner),
                    detail: DetailDesc::Attribute,
                },
            ),
            final(self)@.node_map == old(self)@.node_map.push((node_id, r)),
    {
        self.alloc_sym(
            Symbol { name, start, end, owner: Some(owner), detail: SymbolDetail::Attribute },
            node_id,
        )
    }

    pub fn alloc_unresolved_symbol(
        &mut self,
        name: String,
        start: Pos,
        end: Pos,
        owner: SymbolRef,
        node_id: u64,
    ) -> (r: SymbolRef)
        ensures
            r.id == old(self)@.symbols.len(),
            r.kind == SymbolKind::Unresolved,
            final(self)@.symbols == old(self)@.symbols.push(
                SymDesc {
                    name: name@,
                    start,
                    end,
                    owner: Some(owner),
                    detail: DetailDesc::Unresolved,
                },
            ),
            final(self)@.node_map == old(self)@.node_map.push((node_id, r)),
    {
        self.alloc_sym(
            Symbol { name, start, end, owner: Some(owner), detail: SymbolDetail::Unresolved },
            node_id,
        )
    }

    pub fn alloc_schema_symbol(
        &mut self,
        name: String,
        start: Pos,
        end: Pos,
        owner: SymbolRef,
        node_id: u64,
    ) -> (r: SymbolRef)
        ensures
            r.id == old(self)@.symbols.len(),
            r.kind == SymbolKind::Schema,
            final(self)@.symbols == old(self)@.symbols.push(
                SymDesc {
                    name: name@,
                    start,
                    end,
                    owner: Some(owner),
                    detail: DetailDesc::Schema {
                        parent_schema: None,
                        mixins: Seq::<SymbolRef>::empty(),
                        attributes: Seq::<(Seq<char>, SymbolRef)>::empty(),
                    },
                },
            ),
            final(self)@.node_map == old(self)@.node_map.push((node_id, r)),
    {
        let sym = Symbol {
            name,
            start,
            end,
            owner: Some(owner),
            detail: SymbolDetail::Schema {
                parent_schema: None,
                mixins: Vec::new(),
                attributes: Vec::new(),
            },
        };
        proof {
            assert(sym@.detail->Schema_mixins =~= Seq::<SymbolRef>::empty());
            assert(sym@.detail->Schema_attributes =~= Seq::<(Seq<char>, SymbolRef)>::empty());
        }
        self.alloc_sym(sym, node_id)
    }

    /// Allocates a package symbol; packages are roots and answer to no
    /// syntax node.
    pub fn alloc_package_symbol(&mut self, name: String, start: Pos, end: Pos) -> (r: SymbolRef)
        ensures
            r.id == old(self)@.symbols.len(),
            r.kind == SymbolKind::Package,
            final(self)@.symbols == old(self)@.symbols.push(
                SymDesc {
                    name: name@,
                    start,
                    end,
                    owner: None,
                    detail: DetailDesc::Package {
                        members: Seq::<(Seq<char>, SymbolRef)>::empty(),
                        modules: Seq::<Seq<char>>::empty(),
                        imports: Seq::<(Seq<char>, Seq<char>)>::empty(),
                    },
                },
            ),
            final(self)@.node_map == old(self)@.node_map,
    {
        let sym = Symbol {
            name,
            start,
            end,
            owner: None,
            detail: SymbolDetail::Package {
                members: Vec::new(),
                modules: Vec::new(),
                imports: Vec::new(),
            },
        };
        proof {
            assert(sym@.detail->Package_members =~= Seq::<(Seq<char>, SymbolRef)>::empty());
            assert(sym@.detail->Package_modules =~= Seq::<Seq<char>>::empty());
            assert(sym@.detail->Package_imports =~= Seq::<(Seq<char>, Seq<char>)>::empty());
        }
        let ghost sv = sym@;
        let id = self.symbols.len();
        self.symbols.push(sym);
        let r = SymbolRef { id, kind: SymbolKind::Package };
        proof {
            assert(self@.symbols =~= old(self)@.symbols.push(sv));
        }
        r
    }

    /// Borrows a symbol by handle; `None` when the handle does not point
    /// into the arena at its kind.
    pub fn get(&self, r: SymbolRef) -> (o: Option<&Symbol>)
        ensures
            match o {
                Some(s) => ref_wf(self@.symbols, r) && s@ == self@.symbols[r.id as int],
                None => !ref_wf(self@.symbols, r),
            },
    {
        if r.id < self.symbols.len() {
            let sym = &self.symbols[r.id];
            let kind = match &sym.detail {
                SymbolDetail::Value => SymbolKind::Value,
                SymbolDetail::Attribute => SymbolKind::Attribute,
                SymbolDetail::TypeAlias => SymbolKind::TypeAlias,
                SymbolDetail::Rule => SymbolKind::Rule,
                SymbolDetail::Unresolved => SymbolKind::Unresolved,
                SymbolDetail::Schema { .. } => SymbolKind::Schema,
                SymbolDetail::Package { .. } => SymbolKind::Package,
            };
            if kind == r.kind {
                Some(sym)
            } else {
                None
            }
        } else {
            None
        }
    }

    /// The dotted path built by walking owner links to the root; `None`
    /// only on a dangling owner link, which a correct naming pass never
    /// produces.
    pub fn get_fully_qualified_name(&self, r: SymbolRef) -> (o: Option<String>)
        ensures
            store_wf(self@.symbols) && r.id < self@.symbols.len() ==> match o {
                Some(s) => s@ == fqn(self@.symbols, r.id as int),
                None => false,
            },
        decreases r.id,
    {
        if r.id >= self.symbols.len() {
            return None;
        }
        let sym = &self.symbols[r.id];
        proof {
            assert(self@.symbols[r.id as int] == self.symbols@[r.id as int]@);
        }
        match sym.owner {
            None => Some(sym.name.clone()),
            Some(o) => {
                if o.id < r.id {
                    match self.get_fully_qualified_name(o) {
                        Some(mut prefix) => {
                            prefix.append(".");
                            prefix.append(sym.name.as_str());
                            Some(prefix)
                        },
                        None => None,
                    }
                } else {
                    proof {
                        if store_wf(self@.symbols) {
                            assert(self@.symbols[r.id as int].owner == Some(o));
                            assert(false);
                        }
                    }
                    None
                }
            },
        }
    }

    /// Inserts a member binding on a package; later bindings shadow
    /// earlier ones.
    pub fn add_package_member(&mut self, pkg: SymbolRef, name: String, member: SymbolRef)
        requires
            pkg.id < old(self)@.symbols.len(),
            old(self)@.symbols[pkg.id as int].detail is Package,
        ensures
            final(self)@.symbols == old(self)@.symbols.update(
                pkg.id as int,
                desc_with_member(old(self)@.symbols[pkg.id as int], name@, member),
            ),
            final(self)@.node_map == old(self)@.node_map,
    {
        let ghost gname = name@;
        let idx = pkg.id;
        let sym = &mut self.symbols[idx];
        match &mut sym.detail {
            SymbolDetail::Package { members, .. } => {
                members.push((name, member));
            },
            _ => {},
        }
        proof {
            assert(entries_view(self.symbols@[pkg.id as int].detail->Package_members@) =~= entries_view(
                old(self).symbols@[pkg.id as int].detail->Package_members@,
            ).push((gname, member)));
            assert(self@.symbols =~= old(self)@.symbols.update(
                pkg.id as int,
                desc_with_member(old(self)@.symbols[pkg.id as int], gname, member),
            ));
        }
    }

    /// Appends a per-file module record on a package.
    pub fn add_package_module_info(&mut self, pkg: SymbolRef, filename: String)
        requires
            pkg.id < old(self)@.symbols.len(),
            old(self)@.symbols[pkg.id as int].detail is Package,
        ensures
            final(self)@.symbols == old(self)@.symbols.update(
                pkg.id as int,
                desc_with_module(old(self)@.symbols[pkg.id as int], filename@),
            ),
            final(self)@.node_map == old(self)@.node_map,
    {
        let ghost gname = filename@;
        let idx = pkg.id;
        let sym = &mut self.symbols[idx];
        match &mut sym.detail {
            SymbolDetail::Package { modules, .. } => {
                modules.push(filename);
            },
            _ => {},
        }
        proof {
            assert(self.symbols@[pkg.id as int].detail->Package_modules@.map_values(
                |m: String| m@,
            ) =~= old(self).symbols@[pkg.id as int].detail->Package_modules@.map_values(
                |m: String| m@,
            ).push(gname));
            assert(self@.symbols =~= old(self)@.symbols.update(
                pkg.id as int,
                desc_with_module(old(self)@.symbols[pkg.id as int], gname),
            ));
        }
    }

    /// Appends an import record on a package.
    pub fn add_package_import_info(&mut self, pkg: SymbolRef, name: String, path: String)
        requires
            pkg.id < old(self)@.symbols.len(),
            old(self)@.symbols[pkg.id as int].detail is Package,
        ensures
            final(self)@.symbols == old(self)@.symbols.update(
                pkg.id as int,
                desc_with_import(old(self)@.symbols[pkg.id as int], name@, path@),
            ),
            final(self)@.node_map == old(self)@.node_map,
    {
        let ghost gname = name@;
        let ghost gpath = path@;
        let idx = pkg.id;
        let sym = &mut self.symbols[idx];
        match &mut sym.detail {
            SymbolDetail::Package { imports, .. } => {
                imports.push(ImportInfo { name, path });
            },
            _ => {},
        }
        proof {
            assert(self.symbols@[pkg.id as int].detail->Package_imports@.map_values(
                |i: ImportInfo| (i.name@, i.path@),
            ) =~= old(self).symbols@[pkg.id as int].detail->Package_imports@.map_values(
                |i: ImportInfo| (i.name@, i.path@),
            ).push((gname, gpath)));
            assert(self@.symbols =~= old(self)@.symbols.update(
                pkg.id as int,
                desc_with_import(old(self)@.symbols[pkg.id as int], gname, gpath),
            ));
        }
    }

    /// Stores the placeholder handle for a schema's parent.
    pub fn set_schema_parent(&mut self, schema: SymbolRef, parent: Option<SymbolRef>)
        requires
            schema.id < old(self)@.symbols.len(),
            old(self)@.symbols[schema.id as int].detail is Schema,
        ensures
            final(self)@.symbols == old(self)@.symbols.update(
                schema.id as int,
                desc_with_parent(old(self)@.symbols[schema.id as int], parent),
            ),
            final(self)@.node_map == old(self)@.node_map,
    {
        let idx = schema.id;
        let sym = &mut self.symbols[idx];
        match &mut sym.detail {
            SymbolDetail::Schema { parent_schema, .. } => {
                *parent_schema = parent;
            },
            _ => {},
        }
        proof {
            assert(self@.symbols =~= old(self)@.symbols.update(
                schema.id as int,
                desc_with_parent(old(self)@.symbols[schema.id as int], parent),
            ));
        }
    }

    /// Appends a mixin placeholder handle, keeping source order.
    pub fn add_schema_mixin(&mut self, schema: SymbolRef, mixin: SymbolRef)
        requires
            schema.id < old(self)@.symbols.len(),
            old(self)@.symbols[schema.id as int].detail is Schema,
        ensures
            final(self)@.symbols == old(self)@.symbols.update(
                schema.id as int,
                desc_with_mixin(old(self)@.symbols[schema.id as int], mixin),
            ),
            final(self)@.node_map == old(self)@.node_map,
    {
        let idx = schema.id;
        let sym = &mut self.symbols[idx];
        match &mut sym.detail {
            SymbolDetail::Schema { mixins, .. } => {
                mixins.push(mixin);
            },
            _ => {},
        }
        proof {
            assert(self@.symbols =~= old(self)@.symbols.update(
                schema.id as int,
                desc_with_mixin(old(self)@.symbols[schema.id as int], mixin),
            ));
        }
    }

    /// Inserts an attribute binding on a schema; later bindings shadow
    /// earlier ones.
    pub fn add_schema_attribute(&mut self, schema: SymbolRef, name: String, attr: SymbolRef)
        requires
            schema.id < old(self)@.symbols.len(),
            old(self)@.symbols[schema.id as int].detail is Schema,
        ensures
            final(self)@.symbols == old(self)@.symbols.update(
                schema.id as int,
                desc_with_attr(old(self)@.symbols[schema.id as int], name@, attr),
            ),
            final(self)@.node_map == old(self)@.node_map,
    {
        let ghost gname = name@;
        let idx = schema.id;
        let sym = &mut self.symbols[idx];
        match &mut sym.detail {
            SymbolDetail::Schema { attributes, .. } => {
                attributes.push((name, attr));
            },
            _ => {},
        }
        proof {
            assert(entries_view(self.symbols@[schema.id as int].detail->Schema_attributes@) =~= entries_view(
                old(self).symbols@[schema.id as int].detail->Schema_attributes@,
            ).push((gname, attr)));
            assert(self@.symbols =~= old(self)@.symbols.update(
                schema.id as int,
                desc_with_attr(old(self)@.symbols[schema.id as int], gname, attr),
            ));
        }
    }

    /// The member the package map answers for a local name, after all
    /// shadowing.
    pub fn get_package_member(&self, pkg: SymbolRef, name: &String) -> (o: Option<SymbolRef>)
        requires
            pkg.id < self@.symbols.len(),
            self@.symbols[pkg.id as int].detail is Package,
        ensures
            o == assoc_get(self@.symbols[pkg.id as int].detail->Package_members, name@),
    {
        let sym = &self.symbols[pkg.id];
        match &sym.detail {
            SymbolDetail::Package { members, .. } => {
                let ghost gm = self@.symbols[pkg.id as int].detail->Package_members;
                let mut i: usize = members.len();
                proof {
                    assert(self@.symbols[pkg.id as int] == self.symbols@[pkg.id as int]@);
                    assert(gm =~= entries_view(members@));
                    assert(gm.subrange(0, i as int) =~= gm);
                }
                while i > 0
                    invariant
                        i <= members@.len(),
                        gm == self@.symbols[pkg.id as int].detail->Package_members,
                        pkg.id < self@.symbols.len(),
                        gm == entries_view(members@),
                        gm.len() == members@.len(),
                        assoc_get(gm, name@) == assoc_get(gm.subrange(0, i as int), name@),
                    decreases i,
                {
                    i = i - 1;
                    proof {
                        assert(gm[i as int] == (members@[i as int].0@, members@[i as int].1));
                        assert(gm.subrange(0, i as int + 1).last() == gm[i as int]);
                    }
                    if members[i].0 == *name {
                        proof {
                            assert(gm[i as int].0 == name@);
                            assert(assoc_get(gm.subrange(0, i as int + 1), name@) == Some(
                                gm[i as int].1,
                            ));
                        }
                        return Some(members[i].1);
                    }
                    proof {
                        assert(gm.subrange(0, i as int + 1).drop_last() =~= gm.subrange(
                            0,
                            i as int,
                        ));
                    }
                }
                proof {
                    assert(gm.subrange(0, 0) =~= Seq::<(Seq<char>, SymbolRef)>::empty());
                }
                None
            },
            _ => None,
        }
    }
}

} // verus!
