use crate::ast::{
    ident_name, AssignStmt, Identifier, ImportStmt, Module, Node, RuleStmt, SchemaAttr,
    SchemaStmt, Stmt, TypeAliasStmt, UnificationStmt,
};
use crate::pos::Pos;
use crate::strings::{last_dot_segment, last_seg};
use crate::symbol::{
    desc_kind, desc_with_attr, desc_with_import, desc_with_member, desc_with_mixin,
    desc_with_module, desc_with_parent, fqn, ref_wf, store_wf, DetailDesc, StoreView, SymDesc,
    SymbolKind, SymbolRef, SymbolStore,
};
use vstd::prelude::*;

verus! {

// ---------------------------------------------------------------------
// Symbol descriptions per declaration form
// ---------------------------------------------------------------------
pub open spec fn value_desc(t: Node<Identifier>, owner: SymbolRef) -> SymDesc {
    SymDesc {
        name: ident_name(t.node),
        start: t.start,
        end: t.end,
        owner: Some(owner),
        detail: DetailDesc::Value,
    }
}

pub open spec fn type_alias_desc(t: Node<Identifier>, owner: SymbolRef) -> SymDesc {
    SymDesc {
        name: ident_name(t.node),
        start: t.start,
        end: t.end,
        owner: Some(owner),
        detail: DetailDesc::TypeAlias,
    }
}

pub open spec fn rule_desc(n: Node<String>, owner: SymbolRef) -> SymDesc {
    SymDesc { name: n.node@, start: n.start, end: n.end, owner: Some(owner), detail: DetailDesc::Rule }
}

pub open spec fn attr_desc(n: Node<String>, owner: SymbolRef) -> SymDesc {
    SymDesc {
        name: n.node@,
        start: n.start,
        end: n.end,
        owner: Some(owner),
        detail: DetailDesc::Attribute,
    }
}

pub open spec fn unresolved_desc(name: Seq<char>, start: Pos, end: Pos, owner: SymbolRef) -> SymDesc {
    SymDesc { name, start, end, owner: Some(owner), detail: DetailDesc::Unresolved }
}

pub open spec fn schema_base_desc(n: Node<String>, owner: SymbolRef) -> SymDesc {
    SymDesc {
        name: n.node@,
        start: n.start,
        end: n.end,
        owner: Some(owner),
        detail: DetailDesc::Schema {
            parent_schema: None,
            mixins: Seq::<SymbolRef>::empty(),
            attributes: Seq::<(Seq<char>, SymbolRef)>::empty(),
        },
    }
}

// ---------------------------------------------------------------------
// The functional model of the walk
// ---------------------------------------------------------------------
/// Allocation: append the description and bind the declaring node.
pub open spec fn alloc_desc(sv: StoreView, d: SymDesc, node_id: u64) -> StoreView {
    StoreView {
        symbols: sv.symbols.push(d),
        node_map: sv.node_map.push(
            (node_id, SymbolRef { id: sv.symbols.len() as usize, kind: desc_kind(d) }),
        ),
    }
}

/// In-place change of one symbol's extension fields.
pub open spec fn update_sym(sv: StoreView, id: int, d: SymDesc) -> StoreView {
    if 0 <= id < sv.symbols.len() {
        StoreView { symbols: sv.symbols.update(id, d), node_map: sv.node_map }
    } else {
        sv
    }
}

/// The handles a statement walk returns, given where the arena stood.
pub open spec fn stmt_refs(base: int, stmt: Stmt) -> Option<Seq<SymbolRef>> {
    match stmt {
        Stmt::Assign(a) => Some(
            Seq::new(
                a.targets@.len(),
                |i: int| SymbolRef { id: (base + i) as usize, kind: SymbolKind::Value },
            ),
        ),
        Stmt::Unification(_) => Some(
            seq![SymbolRef { id: base as usize, kind: SymbolKind::Value }],
        ),
        Stmt::TypeAlias(_) => Some(
            seq![SymbolRef { id: base as usize, kind: SymbolKind::TypeAlias }],
        ),
        Stmt::Schema(_) => Some(seq![SymbolRef { id: base as usize, kind: SymbolKind::Schema }]),
        Stmt::Rule(_) => Some(seq![SymbolRef { id: base as usize, kind: SymbolKind::Rule }]),
        Stmt::SchemaAttr(_) => Some(
            seq![SymbolRef { id: base as usize, kind: SymbolKind::Attribute }],
        ),
        _ => None,
    }
}

pub open spec fn assign_spec(
    sv: StoreView,
    owner: SymbolRef,
    targets: Seq<Node<Identifier>>,
    n: int,
) -> StoreView
    decreases n,
{
    if n <= 0 {
        sv
    } else {
        let prev = assign_spec(sv, owner, targets, n - 1);
        alloc_desc(prev, value_desc(targets[n - 1], owner), targets[n - 1].id)
    }
}

/// Mixin placeholders carry the schema name's own source range.
pub open spec fn mixins_spec(
    sv: StoreView,
    sid: int,
    sref: SymbolRef,
    mstart: Pos,
    mend: Pos,
    mixins: Seq<Node<Identifier>>,
    n: int,
) -> StoreView
    decreases n,
{
    if n <= 0 {
        sv
    } else {
        let prev = mixins_spec(sv, sid, sref, mstart, mend, mixins, n - 1);
        let mref = SymbolRef { id: prev.symbols.len() as usize, kind: SymbolKind::Unresolved };
        let t = alloc_desc(
            prev,
            unresolved_desc(ident_name(mixins[n - 1].node), mstart, mend, sref),
            mixins[n - 1].id,
        );
        update_sym(t, sid, desc_with_mixin(t.symbols[sid], mref))
    }
}

/// Attribute bindings a schema collects from one body statement's
/// returned handles: the final dotted segment of each attribute's
/// fully qualified name.
pub open spec fn add_attrs_spec(sv: StoreView, sid: int, refs: Seq<SymbolRef>, k: int) -> StoreView
    decreases k,
{
    if k <= 0 {
        sv
    } else {
        let prev = add_attrs_spec(sv, sid, refs, k - 1);
        let r = refs[k - 1];
        if r.kind == SymbolKind::Attribute && r.id < prev.symbols.len() && 0 <= sid
            < prev.symbols.len() {
            update_sym(
                prev,
                sid,
                desc_with_attr(prev.symbols[sid], last_seg(fqn(prev.symbols, r.id as int)), r),
            )
        } else {
            prev
        }
    }
}

/// Member bindings a package collects from one statement's returned
/// handles.
pub open spec fn add_members_spec(sv: StoreView, pkg: int, refs: Seq<SymbolRef>, k: int) -> StoreView
    decreases k,
{
    if k <= 0 {
        sv
    } else {
        let prev = add_members_spec(sv, pkg, refs, k - 1);
        let r = refs[k - 1];
        if r.id < prev.symbols.len() && 0 <= pkg < prev.symbols.len() {
            update_sym(
                prev,
                pkg,
                desc_with_member(prev.symbols[pkg], last_seg(fqn(prev.symbols, r.id as int)), r),
            )
        } else {
            prev
        }
    }
}

/// What walking one statement does to the store.
pub open spec fn walk_stmt_spec(sv: StoreView, owner: SymbolRef, pkg: SymbolRef, stmt: Stmt) -> StoreView
    decreases stmt, 0int,
{
    match stmt {
        Stmt::Expr => sv,
        Stmt::AugAssign => sv,
        Stmt::Assert => sv,
        Stmt::If => sv,
        Stmt::Assign(a) => assign_spec(sv, owner, a.targets@, a.targets@.len() as int),
        Stmt::Unification(u) => alloc_desc(sv, value_desc(u.target, owner), u.target.id),
        Stmt::TypeAlias(t) => alloc_desc(sv, type_alias_desc(t.ty_name, owner), t.ty_name.id),
        Stmt::Import(i) => update_sym(
            sv,
            pkg.id as int,
            desc_with_import(sv.symbols[pkg.id as int], i.name@, i.path@),
        ),
        Stmt::Schema(s) => schema_spec(sv, owner, pkg, s),
        Stmt::Rule(r) => alloc_desc(sv, rule_desc(r.name, owner), r.name.id),
        Stmt::SchemaAttr(a) => alloc_desc(sv, attr_desc(a.name, owner), a.name.id),
    }
}

/// What walking a schema declaration does: allocate the schema, the
/// parent placeholder, the mixin placeholders in source order, then walk
/// the body collecting attribute bindings.
pub open spec fn schema_spec(sv: StoreView, owner: SymbolRef, pkg: SymbolRef, s: SchemaStmt) -> StoreView
    decreases s, 1int,
{
    let sid = sv.symbols.len() as int;
    let sref = SymbolRef { id: sid as usize, kind: SymbolKind::Schema };
    let sv1 = alloc_desc(sv, schema_base_desc(s.name, owner), s.name.id);
    let sv2 = match s.parent_name {
        Some(p) => {
            let pref = SymbolRef { id: sv1.symbols.len() as usize, kind: SymbolKind::Unresolved };
            let t = alloc_desc(sv1, unresolved_desc(ident_name(p.node), p.start, p.end, sref), p.id);
            update_sym(t, sid, desc_with_parent(t.symbols[sid], Some(pref)))
        },
        None => sv1,
    };
    let sv3 = mixins_spec(sv2, sid, sref, s.name.start, s.name.end, s.mixins@, s.mixins@.len() as int);
    schema_body_spec(sv3, sref, pkg, sid, s.body@, s.body@.len() as int)
}

/// The body fold: walk each statement, then bind its returned attribute
/// handles on the schema.
pub open spec fn schema_body_spec(
    sv: StoreView,
    sref: SymbolRef,
    pkg: SymbolRef,
    sid: int,
    stmts: Seq<Node<Stmt>>,
    n: int,
) -> StoreView
    decreases stmts, n,
{
    if n <= 0 || n > stmts.len() {
        sv
    } else {
        let prev = schema_body_spec(sv, sref, pkg, sid, stmts, n - 1);
        let cur = walk_stmt_spec(prev, sref, pkg, stmts[n - 1].node);
        match stmt_refs(prev.symbols.len() as int, stmts[n - 1].node) {
            Some(refs) => add_attrs_spec(cur, sid, refs, refs.len() as int),
            None => cur,
        }
    }
}

/// The module fold: walk each top-level statement, then bind all its
/// returned handles as package members.
pub open spec fn module_body_spec(
    sv: StoreView,
    pkg: SymbolRef,
    stmts: Seq<Node<Stmt>>,
    n: int,
) -> StoreView
    decreases stmts, n,
{
    if n <= 0 || n > stmts.len() {
        sv
    } else {
        let prev = module_body_spec(sv, pkg, stmts, n - 1);
        let cur = walk_stmt_spec(prev, pkg, pkg, stmts[n - 1].node);
        match stmt_refs(prev.symbols.len() as int, stmts[n - 1].node) {
            Some(refs) => add_members_spec(cur, pkg.id as int, refs, refs.len() as int),
            None => cur,
        }
    }
}

/// What naming one module does: the body fold, then the per-file module
/// record on the package.
pub open spec fn walk_module_spec(sv: StoreView, pkg: SymbolRef, m: Module) -> StoreView {
    let body = module_body_spec(sv, pkg, m.body@, m.body@.len() as int);
    update_sym(body, pkg.id as int, desc_with_module(body.symbols[pkg.id as int], m.filename@))
}

// ---------------------------------------------------------------------
// The namer
// ---------------------------------------------------------------------
/// The naming pass: walks a syntax tree, allocating symbols into the
/// store and threading the lexical owner stack.
#[derive(Debug)]
pub struct Namer {
    pub gs: SymbolStore,
    pub owner_symbols: Vec<SymbolRef>,
    pub current_pkg: SymbolRef,
}

pub open spec fn stack_top(n: Namer) -> SymbolRef {
    n.owner_symbols@.last()
}

/// The namer's invariant: a well-formed store, a nonempty owner stack of
/// valid handles, and a valid package under work.
pub open spec fn namer_wf(n: Namer) -> bool {
    &&& store_wf(n.gs@.symbols)
    &&& n.owner_symbols@.len() > 0
    &&& forall|i: int|
        0 <= i < n.owner_symbols@.len() ==> ref_wf(n.gs@.symbols, #[trigger] n.owner_symbols@[i])
    &&& ref_wf(n.gs@.symbols, n.current_pkg)
    &&& n.gs@.symbols[n.current_pkg.id as int].detail is Package
}

/// Appended symbols do not disturb the names and owners already there.
/// What a later store keeps of an earlier symbol: everything but the
/// attribute and package-metadata maps, which may grow.
pub open spec fn entry_preserved(d1: SymDesc, d2: SymDesc) -> bool {
    &&& d2.name == d1.name
    &&& d2.owner == d1.owner
    &&& desc_kind(d2) == desc_kind(d1)
    &&& (d1.detail is Schema <==> d2.detail is Schema)
    &&& (d1.detail is Package <==> d2.detail is Package)
    &&& (d1.detail is Schema ==> d2.detail->Schema_mixins == d1.detail->Schema_mixins
        && d2.detail->Schema_parent_schema == d1.detail->Schema_parent_schema)
}

pub open spec fn prefix_preserved(s1: Seq<SymDesc>, s2: Seq<SymDesc>) -> bool {
    &&& s2.len() >= s1.len()
    &&& forall|j: int| 0 <= j < s1.len() ==> entry_preserved(s1[j], #[trigger] s2[j])
}

/// Returned handles are valid and owned by the scope that declared them.
pub open spec fn refs_ok(refs: Option<Seq<SymbolRef>>, syms: Seq<SymDesc>, owner: SymbolRef) -> bool {
    match refs {
        Some(v) => forall|k: int|
            0 <= k < v.len() ==> ref_wf(syms, #[trigger] v[k]) && syms[v[k].id as int].owner
                == Some(owner),
        None => true,
    }
}

/// Pushing a symbol owned by an existing symbol keeps the store well
/// formed.
pub proof fn lemma_wf_push(syms: Seq<SymDesc>, d: SymDesc)
    requires
        store_wf(syms),
        match d.owner {
            Some(o) => o.id < syms.len() && ref_wf(syms, o),
            None => true,
        },
    ensures
        store_wf(syms.push(d)),
{
    let s2 = syms.push(d);
    assert forall|i: int| 0 <= i < s2.len() implies match (#[trigger] s2[i]).owner {
        Some(o) => o.id < i && ref_wf(s2, o),
        None => true,
    } by {
        if i < syms.len() {
            assert(s2[i] == syms[i]);
            match syms[i].owner {
                Some(o) => {
                    assert(s2[o.id as int] == syms[o.id as int]);
                },
                None => {},
            }
        } else {
            match d.owner {
                Some(o) => {
                    assert(s2[o.id as int] == syms[o.id as int]);
                },
                None => {},
            }
        }
    }
}

/// Changing only extension fields keeps the store well formed.
pub proof fn lemma_wf_update(syms: Seq<SymDesc>, id: int, d: SymDesc)
    requires
        store_wf(syms),
        0 <= id < syms.len(),
        d.owner == syms[id].owner,
        desc_kind(d) == desc_kind(syms[id]),
    ensures
        store_wf(syms.update(id, d)),
{
    let s2 = syms.update(id, d);
    assert forall|i: int| 0 <= i < s2.len() implies match (#[trigger] s2[i]).owner {
        Some(o) => o.id < i && ref_wf(s2, o),
        None => true,
    } by {
        let pre = if i == id {
            d
        } else {
            syms[i]
        };
        match syms[i].owner {
            Some(o) => {
                assert(desc_kind(s2[o.id as int]) == desc_kind(syms[o.id as int]));
            },
            None => {},
        }
    }
}

impl Namer {
    /// A namer over a fresh store, with the root package allocated and
    /// on the owner stack.
    pub fn new(pkg_name: String) -> (r: Namer)
        ensures
            namer_wf(r),
            r.gs@.symbols == seq![
                SymDesc {
                    name: pkg_name@,
                    start: (Pos { line: 0, column: 0 }),
                    end: (Pos { line: 0, column: 0 }),
                    owner: None,
                    detail: DetailDesc::Package {
                        members: Seq::<(Seq<char>, SymbolRef)>::empty(),
                        modules: Seq::<Seq<char>>::empty(),
                        imports: Seq::<(Seq<char>, Seq<char>)>::empty(),
                    },
                },
            ],
            r.gs@.node_map == Seq::<(u64, SymbolRef)>::empty(),
            r.owner_symbols@ == seq![r.current_pkg],
            r.current_pkg == (SymbolRef { id: 0, kind: SymbolKind::Package }),
    {
        let mut gs = SymbolStore::new();
        let pos = Pos { line: 0, column: 0 };
        let pkg = gs.alloc_package_symbol(pkg_name, pos, pos);
        let mut owner_symbols: Vec<SymbolRef> = Vec::new();
        owner_symbols.push(pkg);
        let r = Namer { gs, owner_symbols, current_pkg: pkg };
        proof {
            assert(r.gs@.symbols =~= Seq::<SymDesc>::empty().push(r.gs@.symbols[0]));
            assert(r.owner_symbols@ =~= seq![pkg]);
        }
        r
    }

    fn top_owner(&self) -> (r: SymbolRef)
        requires
            self.owner_symbols@.len() > 0,
        ensures
            r == stack_top(*self),
    {
        self.owner_symbols[self.owner_symbols.len() - 1]
    }

    pub fn walk_expr_stmt(&mut self) -> (res: Option<Vec<SymbolRef>>)
        ensures
            *final(self) == *old(self),
            res is None,
    {
        None
    }

    pub fn walk_aug_assign_stmt(&mut self) -> (res: Option<Vec<SymbolRef>>)
        ensures
            *final(self) == *old(self),
            res is None,
    {
        None
    }

    pub fn walk_assert_stmt(&mut self) -> (res: Option<Vec<SymbolRef>>)
        ensures
            *final(self) == *old(self),
            res is None,
    {
        None
    }

    pub fn walk_if_stmt(&mut self) -> (res: Option<Vec<SymbolRef>>)
        ensures
            *final(self) == *old(self),
            res is None,
    {
        None
    }

    /// One Value symbol per assignment target, owned by the current
    /// scope.
    pub fn walk_assign_stmt(&mut self, assign_stmt: &AssignStmt) -> (res: Option<Vec<SymbolRef>>)
        requires
            namer_wf(*old(self)),
        ensures
            namer_wf(*final(self)),
            final(self).gs@ == assign_spec(
                old(self).gs@,
                stack_top(*old(self)),
                assign_stmt.targets@,
                assign_stmt.targets@.len() as int,
            ),
            final(self).owner_symbols@ == old(self).owner_symbols@,
            final(self).current_pkg == old(self).current_pkg,
            prefix_preserved(old(self).gs@.symbols, final(self).gs@.symbols),
            match res {
                Some(v) => stmt_refs(old(self).gs@.symbols.len() as int, Stmt::Assign(*assign_stmt))
                    == Some(v@) && refs_ok(Some(v@), final(self).gs@.symbols, stack_top(*old(self))),
                None => false,
            },
    {
        let ghost sv0 = self.gs@;
        let ghost owner0 = stack_top(*self);
        let mut value_symbols: Vec<SymbolRef> = Vec::new();
        let mut ti: usize = 0;
        while ti < assign_stmt.targets.len()
            invariant
                namer_wf(*self),
                ti <= assign_stmt.targets@.len(),
                self.gs@ == assign_spec(sv0, owner0, assign_stmt.targets@, ti as int),
                self.owner_symbols@ == old(self).owner_symbols@,
                self.current_pkg == old(self).current_pkg,
                owner0 == stack_top(*self),
                prefix_preserved(sv0.symbols, self.gs@.symbols),
                value_symbols@.len() == ti,
                forall|k: int|
                    0 <= k < ti ==> (#[trigger] value_symbols@[k]) == (SymbolRef {
                        id: (sv0.symbols.len() + k) as usize,
                        kind: SymbolKind::Value,
                    }),
                forall|k: int|
                    0 <= k < ti ==> ref_wf(self.gs@.symbols, #[trigger] value_symbols@[k])
                        && self.gs@.symbols[value_symbols@[k].id as int].owner == Some(owner0),
                sv0.symbols.len() + ti == self.gs@.symbols.len(),
            decreases assign_stmt.targets@.len() - ti,
        {
            let target = &assign_stmt.targets[ti];
            let (start_pos, end_pos) = target.get_span_pos();
            let owner = self.top_owner();
            let name = target.node.get_name();
            proof {
                lemma_wf_push(self.gs@.symbols, value_desc(assign_stmt.targets@[ti as int], owner0));
            }
            let value_ref = self.gs.alloc_value_symbol(name, start_pos, end_pos, owner, target.id);
            value_symbols.push(value_ref);
            proof {
                assert(self.gs@.symbols[value_ref.id as int].owner == Some(owner0));
                assert forall|k: int| 0 <= k < ti + 1 implies ref_wf(
                    self.gs@.symbols,
                    #[trigger] value_symbols@[k],
                ) && self.gs@.symbols[value_symbols@[k].id as int].owner == Some(owner0) by {
                    if k < ti {
                        assert(value_symbols@[k] == value_symbols@.drop_last()[k]);
                    }
                }
            }
            ti = ti + 1;
        }
        proof {
            let refs = stmt_refs(sv0.symbols.len() as int, Stmt::Assign(*assign_stmt));
            assert(refs == Some(
                Seq::new(
                    assign_stmt.targets@.len(),
                    |i: int| SymbolRef {
                        id: (sv0.symbols.len() + i) as usize,
                        kind: SymbolKind::Value,
                    },
                ),
            ));
            assert(value_symbols@ =~= refs->0);
        }
        Some(value_symbols)
    }

    /// Exactly one Value symbol for the unification target.
    pub fn walk_unification_stmt(&mut self, unification_stmt: &UnificationStmt) -> (res: Option<
        Vec<SymbolRef>,
    >)
        requires
            namer_wf(*old(self)),
        ensures
            namer_wf(*final(self)),
            final(self).gs@ == alloc_desc(
                old(self).gs@,
                value_desc(unification_stmt.target, stack_top(*old(self))),
                unification_stmt.target.id,
            ),
            final(self).owner_symbols@ == old(self).owner_symbols@,
            final(self).current_pkg == old(self).current_pkg,
            prefix_preserved(old(self).gs@.symbols, final(self).gs@.symbols),
            match res {
                Some(v) => stmt_refs(
                    old(self).gs@.symbols.len() as int,
                    Stmt::Unification(*unification_stmt),
                ) == Some(v@) && refs_ok(
                    Some(v@),
                    final(self).gs@.symbols,
                    stack_top(*old(self)),
                ),
                None => false,
            },
    {
        let (start_pos, end_pos) = unification_stmt.target.get_span_pos();
        let owner = self.top_owner();
        let name = unification_stmt.target.node.get_name();
        proof {
            lemma_wf_push(self.gs@.symbols, value_desc(unification_stmt.target, owner));
        }
        let value_ref = self.gs.alloc_value_symbol(
            name,
            start_pos,
            end_pos,
            owner,
            unification_stmt.target.id,
        );
        let res = vec![value_ref];
        proof {
            let base = old(self).gs@.symbols.len() as int;
            assert(res@ =~= seq![SymbolRef { id: base as usize, kind: SymbolKind::Value }]);
            assert(self.gs@.symbols[value_ref.id as int].owner == Some(owner));
        }
        Some(res)
    }

    /// Exactly one TypeAlias symbol for the alias name.
    pub fn walk_type_alias_stmt(&mut self, type_alias_stmt: &TypeAliasStmt) -> (res: Option<
        Vec<SymbolRef>,
    >)
        requires
            namer_wf(*old(self)),
        ensures
            namer_wf(*final(self)),
            final(self).gs@ == alloc_desc(
                old(self).gs@,
                type_alias_desc(type_alias_stmt.ty_name, stack_top(*old(self))),
                type_alias_stmt.ty_name.id,
            ),
            final(self).owner_symbols@ == old(self).owner_symbols@,
            final(self).current_pkg == old(self).current_pkg,
            prefix_preserved(old(self).gs@.symbols, final(self).gs@.symbols),
            match res {
                Some(v) => stmt_refs(
                    old(self).gs@.symbols.len() as int,
                    Stmt::TypeAlias(*type_alias_stmt),
                ) == Some(v@) && refs_ok(
                    Some(v@),
                    final(self).gs@.symbols,
                    stack_top(*old(self)),
                ),
                None => false,
            },
    {
        let (start_pos, end_pos) = type_alias_stmt.ty_name.get_span_pos();
        let owner = self.top_owner();
        let name = type_alias_stmt.ty_name.node.get_name();
        proof {
            lemma_wf_push(self.gs@.symbols, type_alias_desc(type_alias_stmt.ty_name, owner));
        }
        let type_alias_ref = self.gs.alloc_type_alias_symbol(
            name,
            start_pos,
            end_pos,
            owner,
            type_alias_stmt.ty_name.id,
        );
        let res = vec![type_alias_ref];
        proof {
            let base = old(self).gs@.symbols.len() as int;
            assert(res@ =~= seq![SymbolRef { id: base as usize, kind: SymbolKind::TypeAlias }]);
            assert(self.gs@.symbols[type_alias_ref.id as int].owner == Some(owner));
        }
        Some(res)
    }

    /// Imports produce no symbol: they are recorded on the package and
    /// resolved lazily by a later pass.
    pub fn walk_import_stmt(&mut self, import_stmt: &ImportStmt) -> (res: Option<Vec<SymbolRef>>)
        requires
            namer_wf(*old(self)),
        ensures
            namer_wf(*final(self)),
            final(self).gs@ == update_sym(
                old(self).gs@,
                old(self).current_pkg.id as int,
                desc_with_import(
                    old(self).gs@.symbols[old(self).current_pkg.id as int],
                    import_stmt.name@,
                    import_stmt.path@,
                ),
            ),
            final(self).owner_symbols@ == old(self).owner_symbols@,
            final(self).current_pkg == old(self).current_pkg,
            prefix_preserved(old(self).gs@.symbols, final(self).gs@.symbols),
            res is None,
    {
        let pkg = self.current_pkg;
        proof {
            lemma_wf_update(
                self.gs@.symbols,
                pkg.id as int,
                desc_with_import(
                    self.gs@.symbols[pkg.id as int],
                    import_stmt.name@,
                    import_stmt.path@,
                ),
            );
        }
        self.gs.add_package_import_info(pkg, import_stmt.name.clone(), import_stmt.path.clone());
        None
    }

    /// Exactly one Rule symbol; a rule body introduces no nested scope
    /// here.
    pub fn walk_rule_stmt(&mut self, rule_stmt: &RuleStmt) -> (res: Option<Vec<SymbolRef>>)
        requires
            namer_wf(*old(self)),
        ensures
            namer_wf(*final(self)),
            final(self).gs@ == alloc_desc(
                old(self).gs@,
                rule_desc(rule_stmt.name, stack_top(*old(self))),
                rule_stmt.name.id,
            ),
            final(self).owner_symbols@ == old(self).owner_symbols@,
            final(self).current_pkg == old(self).current_pkg,
            prefix_preserved(old(self).gs@.symbols, final(self).gs@.symbols),
            match res {
                Some(v) => stmt_refs(old(self).gs@.symbols.len() as int, Stmt::Rule(*rule_stmt))
                    == Some(v@) && refs_ok(Some(v@), final(self).gs@.symbols, stack_top(*old(self))),
                None => false,
            },
    {
        let (start_pos, end_pos) = rule_stmt.name.get_span_pos();
        let owner = self.top_owner();
        proof {
            lemma_wf_push(self.gs@.symbols, rule_desc(rule_stmt.name, owner));
        }
        let rule_ref = self.gs.alloc_rule_symbol(
            rule_stmt.name.node.clone(),
            start_pos,
            end_pos,
            owner,
            rule_stmt.name.id,
        );
        let res = vec![rule_ref];
        proof {
            let base = old(self).gs@.symbols.len() as int;
            assert(res@ =~= seq![SymbolRef { id: base as usize, kind: SymbolKind::Rule }]);
            assert(self.gs@.symbols[rule_ref.id as int].owner == Some(owner));
        }
        Some(res)
    }

    /// Exactly one Attribute symbol, owned by the enclosing schema.
    pub fn walk_schema_attr(&mut self, schema_attr: &SchemaAttr) -> (res: Option<Vec<SymbolRef>>)
        requires
            namer_wf(*old(self)),
        ensures
            namer_wf(*final(self)),
            final(self).gs@ == alloc_desc(
                old(self).gs@,
                attr_desc(schema_attr.name, stack_top(*old(self))),
                schema_attr.name.id,
            ),
            final(self).owner_symbols@ == old(self).owner_symbols@,
            final(self).current_pkg == old(self).current_pkg,
            prefix_preserved(old(self).gs@.symbols, final(self).gs@.symbols),
            match res {
                Some(v) => stmt_refs(
                    old(self).gs@.symbols.len() as int,
                    Stmt::SchemaAttr(*schema_attr),
                ) == Some(v@) && refs_ok(
                    Some(v@),
                    final(self).gs@.symbols,
                    stack_top(*old(self)),
                ),
                None => false,
            },
    {
        let (start_pos, end_pos) = schema_attr.name.get_span_pos();
        let owner = self.top_owner();
        proof {
            lemma_wf_push(self.gs@.symbols, attr_desc(schema_attr.name, owner));
        }
        let attribute_ref = self.gs.alloc_attribute_symbol(
            schema_attr.name.node.clone(),
            start_pos,
            end_pos,
            owner,
            schema_attr.name.id,
        );
        let res = vec![attribute_ref];
        proof {
            let base = old(self).gs@.symbols.len() as int;
            assert(res@ =~= seq![SymbolRef { id: base as usize, kind: SymbolKind::Attribute }]);
            assert(self.gs@.symbols[attribute_ref.id as int].owner == Some(owner));
        }
        Some(res)
    }

    /// Dispatches one statement to its walker.
    pub fn walk_stmt(&mut self, stmt: &Stmt) -> (res: Option<Vec<SymbolRef>>)
        requires
            namer_wf(*old(self)),
        ensures
            namer_wf(*final(self)),
            final(self).gs@ == walk_stmt_spec(
                old(self).gs@,
                stack_top(*old(self)),
                old(self).current_pkg,
                *stmt,
            ),
            final(self).owner_symbols@ == old(self).owner_symbols@,
            final(self).current_pkg == old(self).current_pkg,
            prefix_preserved(old(self).gs@.symbols, final(self).gs@.symbols),
            match res {
                Some(v) => stmt_refs(old(self).gs@.symbols.len() as int, *stmt) == Some(v@)
                    && refs_ok(Some(v@), final(self).gs@.symbols, stack_top(*old(self))),
                None => stmt_refs(old(self).gs@.symbols.len() as int, *stmt) is None,
            },
        decreases *stmt, 0int,
    {
        match stmt {
            Stmt::Expr => self.walk_expr_stmt(),
            Stmt::AugAssign => self.walk_aug_assign_stmt(),
            Stmt::Assert => self.walk_assert_stmt(),
            Stmt::If => self.walk_if_stmt(),
            Stmt::Assign(a) => self.walk_assign_stmt(a),
            Stmt::Unification(u) => self.walk_unification_stmt(u),
            Stmt::TypeAlias(t) => self.walk_type_alias_stmt(t),
            Stmt::Import(i) => self.walk_import_stmt(i),
            Stmt::Schema(s) => self.walk_schema_stmt(s),
            Stmt::Rule(r) => self.walk_rule_stmt(r),
            Stmt::SchemaAttr(a) => self.walk_schema_attr(a),
        }
    }

    /// Allocates the schema and its placeholders, walks the body with
    /// the schema as owner, collects attribute bindings, and restores
    /// the owner stack.
    pub fn walk_schema_stmt(&mut self, schema_stmt: &SchemaStmt) -> (res: Option<Vec<SymbolRef>>)
        requires
            namer_wf(*old(self)),
        ensures
            namer_wf(*final(self)),
            final(self).gs@ == schema_spec(
                old(self).gs@,
                stack_top(*old(self)),
                old(self).current_pkg,
                *schema_stmt,
            ),
            final(self).owner_symbols@ == old(self).owner_symbols@,
            final(self).current_pkg == old(self).current_pkg,
            prefix_preserved(old(self).gs@.symbols, final(self).gs@.symbols),
            match res {
                Some(v) => stmt_refs(old(self).gs@.symbols.len() as int, Stmt::Schema(*schema_stmt))
                    == Some(v@) && refs_ok(Some(v@), final(self).gs@.symbols, stack_top(*old(self))),
                None => false,
            },
        decreases *schema_stmt, 1int,
    {
        let ghost sv0 = self.gs@;
        let ghost owner0 = stack_top(*self);
        let ghost pkg = self.current_pkg;
        let ghost sid = sv0.symbols.len() as int;

        let (start_pos, end_pos) = schema_stmt.name.get_span_pos();
        let owner = self.top_owner();
        proof {
            lemma_wf_push(self.gs@.symbols, schema_base_desc(schema_stmt.name, owner0));
        }
        let schema_ref = self.gs.alloc_schema_symbol(
            schema_stmt.name.node.clone(),
            start_pos,
            end_pos,
            owner,
            schema_stmt.name.id,
        );
        self.owner_symbols.push(schema_ref);
        let ghost sv1 = self.gs@;

        // The parent placeholder, when a parent name is present.
        let parent = match &schema_stmt.parent_name {
            Some(name) => {
                let (ps, pe) = name.get_span_pos();
                proof {
                    lemma_wf_push(
                        self.gs@.symbols,
                        unresolved_desc(ident_name(name.node), ps, pe, schema_ref),
                    );
                }
                let parent_ref = self.gs.alloc_unresolved_symbol(
                    name.node.get_name(),
                    ps,
                    pe,
                    schema_ref,
                    name.id,
                );
                Some(parent_ref)
            },
            None => None,
        };
        if parent.is_some() {
            proof {
                lemma_wf_update(
                    self.gs@.symbols,
                    sid,
                    desc_with_parent(self.gs@.symbols[sid], parent),
                );
            }
            self.gs.set_schema_parent(schema_ref, parent);
        }
        let ghost sv2 = self.gs@;
        proof {
            assert(sv2 == match schema_stmt.parent_name {
                Some(p) => {
                    let pref = SymbolRef {
                        id: sv1.symbols.len() as usize,
                        kind: SymbolKind::Unresolved,
                    };
                    let t = alloc_desc(
                        sv1,
                        unresolved_desc(ident_name(p.node), p.start, p.end, schema_ref),
                        p.id,
                    );
                    update_sym(t, sid, desc_with_parent(t.symbols[sid], Some(pref)))
                },
                None => sv1,
            });
        }

        // Mixin placeholders, in source order, at the schema name's span.
        let mut mi: usize = 0;
        while mi < schema_stmt.mixins.len()
            invariant
                namer_wf(*self),
                mi <= schema_stmt.mixins@.len(),
                self.gs@ == mixins_spec(
                    sv2,
                    sid,
                    schema_ref,
                    schema_stmt.name.start,
                    schema_stmt.name.end,
                    schema_stmt.mixins@,
                    mi as int,
                ),
                self.owner_symbols@ == old(self).owner_symbols@.push(schema_ref),
                self.current_pkg == pkg,
                sid < self.gs@.symbols.len(),
                self.gs@.symbols[sid].detail is Schema,
                self.gs@.symbols[sid].owner == Some(owner0),
                schema_ref.id as int == sid,
                schema_ref.kind == SymbolKind::Schema,
                sid == sv0.symbols.len() as int,
                prefix_preserved(sv0.symbols, self.gs@.symbols),
            decreases schema_stmt.mixins@.len() - mi,
        {
            let ghost pre = self.gs@.symbols;
            let mixin = &schema_stmt.mixins[mi];
            let (ms, me) = schema_stmt.name.get_span_pos();
            proof {
                lemma_wf_push(
                    self.gs@.symbols,
                    unresolved_desc(ident_name(mixin.node), ms, me, schema_ref),
                );
            }
            let mixin_ref = self.gs.alloc_unresolved_symbol(
                mixin.node.get_name(),
                ms,
                me,
                schema_ref,
                mixin.id,
            );
            proof {
                lemma_wf_update(
                    self.gs@.symbols,
                    sid,
                    desc_with_mixin(self.gs@.symbols[sid], mixin_ref),
                );
            }
            self.gs.add_schema_mixin(schema_ref, mixin_ref);
            proof {
                assert forall|j: int| 0 <= j < sv0.symbols.len() implies self.gs@.symbols[j]
                    == pre[j] by {}
            }
            mi = mi + 1;
        }
        let ghost sv3 = self.gs@;

        // The body, with the schema as the innermost owner; returned
        // attribute handles are bound on the schema.
        let mut bi: usize = 0;
        while bi < schema_stmt.body.len()
            invariant
                namer_wf(*self),
                bi <= schema_stmt.body@.len(),
                self.gs@ == schema_body_spec(
                    sv3,
                    schema_ref,
                    pkg,
                    sid,
                    schema_stmt.body@,
                    bi as int,
                ),
                self.owner_symbols@ == old(self).owner_symbols@.push(schema_ref),
                self.current_pkg == pkg,
                sid < self.gs@.symbols.len(),
                self.gs@.symbols[sid].detail is Schema,
                self.gs@.symbols[sid].owner == Some(owner0),
                schema_ref.id as int == sid,
                schema_ref.kind == SymbolKind::Schema,
                sid == sv0.symbols.len() as int,
                prefix_preserved(sv0.symbols, self.gs@.symbols),
            decreases schema_stmt.body@.len() - bi,
        {
            let ghost base = self.gs@.symbols.len() as int;
            let ghost pre = self.gs@;
            let symbol_refs = self.walk_stmt(&schema_stmt.body[bi].node);
            let ghost cur = self.gs@;
            if let Some(symbol_refs) = symbol_refs {
                let ghost refsv = symbol_refs@;
                let mut ri: usize = 0;
                while ri < symbol_refs.len()
                    invariant
                        namer_wf(*self),
                        ri <= symbol_refs@.len(),
                        symbol_refs@ == refsv,
                        self.gs@ == add_attrs_spec(cur, sid, refsv, ri as int),
                        refs_ok(Some(refsv), cur.symbols, schema_ref),
                        self.gs@.symbols.len() == cur.symbols.len(),
                        prefix_preserved(cur.symbols, self.gs@.symbols),
                        self.owner_symbols@ == old(self).owner_symbols@.push(schema_ref),
                        self.current_pkg == pkg,
                        sid < cur.symbols.len(),
                        self.gs@.symbols[sid].detail is Schema,
                        self.gs@.symbols[sid].owner == Some(owner0),
                        schema_ref.id as int == sid,
                schema_ref.kind == SymbolKind::Schema,
                sid == sv0.symbols.len() as int,
                        prefix_preserved(sv0.symbols, self.gs@.symbols),
                    decreases symbol_refs@.len() - ri,
                {
                    let symbol_ref = symbol_refs[ri];
                    if symbol_ref.get_kind() == SymbolKind::Attribute {
                        let full = self.gs.get_fully_qualified_name(symbol_ref);
                        match full {
                            Some(full_attribute_name) => {
                                proof {
                                    crate::symbol::lemma_fqn_same_names(
                                        cur.symbols,
                                        self.gs@.symbols,
                                        symbol_ref.id as int,
                                    );
                                    lemma_wf_update(
                                        self.gs@.symbols,
                                        sid,
                                        desc_with_attr(
                                            self.gs@.symbols[sid],
                                            last_seg(fqn(self.gs@.symbols, symbol_ref.id as int)),
                                            symbol_ref,
                                        ),
                                    );
                                }
                                let attribute_name = last_dot_segment(&full_attribute_name);
                                self.gs.add_schema_attribute(
                                    schema_ref,
                                    attribute_name,
                                    symbol_ref,
                                );
                            },
                            None => {
                                proof {
                                    assert(false);
                                }
                            },
                        }
                    }
                    ri = ri + 1;
                }
            }
            bi = bi + 1;
        }
        self.owner_symbols.pop();
        proof {
            assert(self.owner_symbols@ =~= old(self).owner_symbols@);
        }
        let res = vec![schema_ref];
        proof {
            assert(res@ =~= seq![
                SymbolRef { id: sv0.symbols.len() as usize, kind: SymbolKind::Schema },
            ]);
            assert(ref_wf(self.gs@.symbols, schema_ref));
            assert(self.gs@.symbols[schema_ref.id as int].owner == Some(owner0));
            assert(self.gs@ == schema_spec(sv0, owner0, pkg, *schema_stmt));
        }
        Some(res)
    }

    /// Walks one module's statements, binding every returned handle as a
    /// package member under the final dotted segment of its fully
    /// qualified name, then records the file on the package.
    pub fn walk_module(&mut self, module: &Module) -> (res: Option<Vec<SymbolRef>>)
        requires
            namer_wf(*old(self)),
            stack_top(*old(self)) == old(self).current_pkg,
        ensures
            namer_wf(*final(self)),
            final(self).gs@ == walk_module_spec(old(self).gs@, old(self).current_pkg, *module),
            final(self).owner_symbols@ == old(self).owner_symbols@,
            final(self).current_pkg == old(self).current_pkg,
            res is None,
    {
        let ghost sv0 = self.gs@;
        let ghost pkg = self.current_pkg;
        let owner = self.top_owner();
        let mut bi: usize = 0;
        while bi < module.body.len()
            invariant
                namer_wf(*self),
                bi <= module.body@.len(),
                self.gs@ == module_body_spec(sv0, pkg, module.body@, bi as int),
                self.owner_symbols@ == old(self).owner_symbols@,
                self.current_pkg == pkg,
                owner == pkg,
                stack_top(*self) == pkg,
            decreases module.body@.len() - bi,
        {
            let ghost base = self.gs@.symbols.len() as int;
            let symbol_refs = self.walk_stmt(&module.body[bi].node);
            let ghost cur = self.gs@;
            if let Some(symbol_refs) = symbol_refs {
                let ghost refsv = symbol_refs@;
                let mut ri: usize = 0;
                while ri < symbol_refs.len()
                    invariant
                        namer_wf(*self),
                        ri <= symbol_refs@.len(),
                        symbol_refs@ == refsv,
                        self.gs@ == add_members_spec(cur, pkg.id as int, refsv, ri as int),
                        refs_ok(Some(refsv), cur.symbols, pkg),
                        self.gs@.symbols.len() == cur.symbols.len(),
                        prefix_preserved(cur.symbols, self.gs@.symbols),
                        self.owner_symbols@ == old(self).owner_symbols@,
                        self.current_pkg == pkg,
                        owner == pkg,
                        pkg.id < cur.symbols.len(),
                        stack_top(*self) == pkg,
                    decreases symbol_refs@.len() - ri,
                {
                    let symbol_ref = symbol_refs[ri];
                    let full = self.gs.get_fully_qualified_name(symbol_ref);
                    match full {
                        Some(full_name) => {
                            proof {
                                crate::symbol::lemma_fqn_same_names(
                                    cur.symbols,
                                    self.gs@.symbols,
                                    symbol_ref.id as int,
                                );
                                lemma_wf_update(
                                    self.gs@.symbols,
                                    pkg.id as int,
                                    desc_with_member(
                                        self.gs@.symbols[pkg.id as int],
                                        last_seg(fqn(self.gs@.symbols, symbol_ref.id as int)),
                                        symbol_ref,
                                    ),
                                );
                            }
                            let name = last_dot_segment(&full_name);
                            self.gs.add_package_member(owner, name, symbol_ref);
                        },
                        None => {
                            proof {
                                assert(false);
                            }
                        },
                    }
                    ri = ri + 1;
                }
            }
            bi = bi + 1;
        }
        proof {
            lemma_wf_update(
                self.gs@.symbols,
                pkg.id as int,
                desc_with_module(self.gs@.symbols[pkg.id as int], module.filename@),
            );
        }
        self.gs.add_package_module_info(owner, module.filename.clone());
        None
    }
}

} // verus!
