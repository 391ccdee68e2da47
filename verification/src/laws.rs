//! The library's general laws, proved once and for all inputs: symbol
//! counts per declaration form, the owner-stack invariant, mixin order,
//! the variadic bypass, and the determinism of naming.

use crate::ast::{Module, Node, SchemaStmt, Stmt};
use crate::diag::DiagKind;
use crate::namer::{
    add_attrs_spec, assign_spec, entry_preserved, mixins_spec, prefix_preserved,
    schema_body_spec, schema_spec, stmt_refs, unresolved_desc, value_desc, walk_module_spec,
    walk_stmt_spec,
};
use crate::pos::Pos;
use crate::resolver::{check_call_diags, kw_diags_upto, kwty_diags_upto, pos_diags_upto};
use crate::symbol::{desc_kind, StoreView, SymDesc, SymbolKind, SymbolRef};
use crate::ty::{FunctionType, Parameter, TypeEngine, TypeRef};
use vstd::prelude::*;

verus! {

// ---------------------------------------------------------------------
// Symbol counts per declaration form
// ---------------------------------------------------------------------
/// How many symbols a statement's walk returns as declarations.
pub open spec fn decl_count(stmt: Stmt) -> int {
    match stmt {
        Stmt::Assign(a) => a.targets@.len() as int,
        Stmt::Unification(_) => 1,
        Stmt::TypeAlias(_) => 1,
        Stmt::Schema(_) => 1,
        Stmt::Rule(_) => 1,
        Stmt::SchemaAttr(_) => 1,
        _ => 0,
    }
}

/// The kind of the symbols a statement declares.
pub open spec fn decl_kind(stmt: Stmt) -> SymbolKind {
    match stmt {
        Stmt::TypeAlias(_) => SymbolKind::TypeAlias,
        Stmt::Schema(_) => SymbolKind::Schema,
        Stmt::Rule(_) => SymbolKind::Rule,
        Stmt::SchemaAttr(_) => SymbolKind::Attribute,
        _ => SymbolKind::Value,
    }
}

pub proof fn lemma_prefix_trans(a: Seq<SymDesc>, b: Seq<SymDesc>, c: Seq<SymDesc>)
    requires
        prefix_preserved(a, b),
        prefix_preserved(b, c),
    ensures
        prefix_preserved(a, c),
{
    assert forall|j: int| 0 <= j < a.len() implies entry_preserved(a[j], #[trigger] c[j]) by {
        assert(entry_preserved(a[j], b[j]));
        assert(entry_preserved(b[j], c[j]));
    }
}

/// An assignment's walk appends exactly one Value symbol per target, in
/// source order, each owned by the current scope.
pub proof fn lemma_assign_props(
    sv: StoreView,
    owner: SymbolRef,
    targets: Seq<Node<crate::ast::Identifier>>,
    n: int,
)
    requires
        0 <= n,
    ensures
        assign_spec(sv, owner, targets, n).symbols.len() == sv.symbols.len() + n,
        prefix_preserved(sv.symbols, assign_spec(sv, owner, targets, n).symbols),
        forall|i: int|
            0 <= i < n ==> assign_spec(sv, owner, targets, n).symbols[sv.symbols.len() + i]
                == value_desc(targets[i], owner),
    decreases n,
{
    if n > 0 {
        lemma_assign_props(sv, owner, targets, n - 1);
    }
}

/// Mixin placeholders go in source order right after where the arena
/// stood; the schema's mixin sequence gets exactly their handles, in
/// that order, and nothing else of the schema's entry changes.
pub proof fn lemma_mixins_props(
    sv: StoreView,
    sid: int,
    sref: SymbolRef,
    ms: Pos,
    me: Pos,
    mixins: Seq<Node<crate::ast::Identifier>>,
    n: int,
)
    requires
        0 <= n,
        0 <= sid < sv.symbols.len(),
        sv.symbols[sid].detail is Schema,
    ensures
        mixins_spec(sv, sid, sref, ms, me, mixins, n).symbols.len() == sv.symbols.len() + n,
        forall|j: int|
            0 <= j < sv.symbols.len() && j != sid ==> mixins_spec(
                sv,
                sid,
                sref,
                ms,
                me,
                mixins,
                n,
            ).symbols[j] == sv.symbols[j],
        mixins_spec(sv, sid, sref, ms, me, mixins, n).symbols[sid].name == sv.symbols[sid].name,
        mixins_spec(sv, sid, sref, ms, me, mixins, n).symbols[sid].owner == sv.symbols[sid].owner,
        mixins_spec(sv, sid, sref, ms, me, mixins, n).symbols[sid].detail is Schema,
        mixins_spec(
            sv,
            sid,
            sref,
            ms,
            me,
            mixins,
            n,
        ).symbols[sid].detail->Schema_parent_schema == sv.symbols[sid].detail->Schema_parent_schema,
        mixins_spec(sv, sid, sref, ms, me, mixins, n).symbols[sid].detail->Schema_mixins
            == sv.symbols[sid].detail->Schema_mixins + Seq::new(
            n as nat,
            |i: int| SymbolRef {
                id: (sv.symbols.len() + i) as usize,
                kind: SymbolKind::Unresolved,
            },
        ),
        forall|i: int|
            0 <= i < n ==> mixins_spec(sv, sid, sref, ms, me, mixins, n).symbols[sv.symbols.len()
                + i] == unresolved_desc(crate::ast::ident_name(mixins[i].node), ms, me, sref),
    decreases n,
{
    if n <= 0 {
        assert(sv.symbols[sid].detail->Schema_mixins + Seq::new(
            0nat,
            |i: int| SymbolRef {
                id: (sv.symbols.len() + i) as usize,
                kind: SymbolKind::Unresolved,
            },
        ) =~= sv.symbols[sid].detail->Schema_mixins);
    } else {
        lemma_mixins_props(sv, sid, sref, ms, me, mixins, n - 1);
        let prev = mixins_spec(sv, sid, sref, ms, me, mixins, n - 1);
        let full = Seq::new(
            n as nat,
            |i: int| SymbolRef {
                id: (sv.symbols.len() + i) as usize,
                kind: SymbolKind::Unresolved,
            },
        );
        assert(prev.symbols[sid].detail->Schema_mixins.push(
            SymbolRef { id: prev.symbols.len() as usize, kind: SymbolKind::Unresolved },
        ) =~= sv.symbols[sid].detail->Schema_mixins + full);
    }
}

/// Binding attributes changes nothing a later reader of names, owners,
/// mixins, or parents can see.
pub proof fn lemma_add_attrs_props(sv: StoreView, sid: int, refs: Seq<SymbolRef>, k: int)
    ensures
        add_attrs_spec(sv, sid, refs, k).symbols.len() == sv.symbols.len(),
        prefix_preserved(sv.symbols, add_attrs_spec(sv, sid, refs, k).symbols),
        forall|j: int|
            0 <= j < sv.symbols.len() && j != sid ==> add_attrs_spec(sv, sid, refs, k).symbols[j]
                == sv.symbols[j],
    decreases k,
{
    if k > 0 {
        lemma_add_attrs_props(sv, sid, refs, k - 1);
    }
}

/// What any statement walk preserves and declares: the existing prefix
/// keeps its names and owners, and the declared symbols sit right after
/// where the arena stood, owned by the current scope, of the declared
/// kind.
pub proof fn lemma_walk_stmt_props(sv: StoreView, owner: SymbolRef, pkg: SymbolRef, stmt: Stmt)
    ensures
        prefix_preserved(sv.symbols, walk_stmt_spec(sv, owner, pkg, stmt).symbols),
        walk_stmt_spec(sv, owner, pkg, stmt).symbols.len() >= sv.symbols.len() + decl_count(stmt),
        !(stmt is Schema) ==> walk_stmt_spec(sv, owner, pkg, stmt).symbols.len()
            == sv.symbols.len() + decl_count(stmt),
        forall|k: int|
            0 <= k < decl_count(stmt) ==> (#[trigger] walk_stmt_spec(
                sv,
                owner,
                pkg,
                stmt,
            ).symbols[sv.symbols.len() + k]).owner == Some(owner) && desc_kind(
                walk_stmt_spec(sv, owner, pkg, stmt).symbols[sv.symbols.len() + k],
            ) == decl_kind(stmt),
    decreases stmt, 2int,
{
    match stmt {
        Stmt::Assign(a) => {
            lemma_assign_props(sv, owner, a.targets@, a.targets@.len() as int);
            assert forall|k: int| 0 <= k < decl_count(stmt) implies (
            #[trigger] walk_stmt_spec(sv, owner, pkg, stmt).symbols[sv.symbols.len() + k]).owner
                == Some(owner) && desc_kind(
                walk_stmt_spec(sv, owner, pkg, stmt).symbols[sv.symbols.len() + k],
            ) == decl_kind(stmt) by {
                assert(walk_stmt_spec(sv, owner, pkg, stmt).symbols[sv.symbols.len() + k]
                    == value_desc(a.targets@[k], owner));
            }
        },
        Stmt::Schema(s) => {
            lemma_schema_props(sv, owner, pkg, s);
        },
        Stmt::Unification(u) => {
            assert(walk_stmt_spec(sv, owner, pkg, stmt).symbols[sv.symbols.len() as int]
                == value_desc(u.target, owner));
        },
        Stmt::TypeAlias(t) => {
            assert(walk_stmt_spec(sv, owner, pkg, stmt).symbols[sv.symbols.len() as int]
                == crate::namer::type_alias_desc(t.ty_name, owner));
        },
        Stmt::Rule(r) => {
            assert(walk_stmt_spec(sv, owner, pkg, stmt).symbols[sv.symbols.len() as int]
                == crate::namer::rule_desc(r.name, owner));
        },
        Stmt::SchemaAttr(a) => {
            assert(walk_stmt_spec(sv, owner, pkg, stmt).symbols[sv.symbols.len() as int]
                == crate::namer::attr_desc(a.name, owner));
        },
        _ => {},
    }
}

/// A schema walk keeps the prefix and leaves the schema symbol itself
/// owned by the enclosing scope.
pub proof fn lemma_schema_props(sv: StoreView, owner: SymbolRef, pkg: SymbolRef, s: SchemaStmt)
    ensures
        prefix_preserved(sv.symbols, schema_spec(sv, owner, pkg, s).symbols),
        schema_spec(sv, owner, pkg, s).symbols.len() >= sv.symbols.len() + 1,
        schema_spec(sv, owner, pkg, s).symbols[sv.symbols.len() as int].owner == Some(owner),
        desc_kind(schema_spec(sv, owner, pkg, s).symbols[sv.symbols.len() as int])
            == SymbolKind::Schema,
    decreases s, 1int,
{
    let sid = sv.symbols.len() as int;
    let sref = SymbolRef { id: sid as usize, kind: SymbolKind::Schema };
    let sv1 = crate::namer::alloc_desc(
        sv,
        crate::namer::schema_base_desc(s.name, owner),
        s.name.id,
    );
    let sv2 = match s.parent_name {
        Some(p) => {
            let pref = SymbolRef { id: sv1.symbols.len() as usize, kind: SymbolKind::Unresolved };
            let t = crate::namer::alloc_desc(
                sv1,
                unresolved_desc(crate::ast::ident_name(p.node), p.start, p.end, sref),
                p.id,
            );
            crate::namer::update_sym(
                t,
                sid,
                crate::symbol::desc_with_parent(t.symbols[sid], Some(pref)),
            )
        },
        None => sv1,
    };
    lemma_mixins_props(sv2, sid, sref, s.name.start, s.name.end, s.mixins@, s.mixins@.len() as int);
    let sv3 = mixins_spec(sv2, sid, sref, s.name.start, s.name.end, s.mixins@, s.mixins@.len() as int);
    lemma_schema_body_props(sv3, sref, pkg, sid, s.body@, s.body@.len() as int);
    let r = schema_body_spec(sv3, sref, pkg, sid, s.body@, s.body@.len() as int);
    assert forall|j: int| 0 <= j < sv.symbols.len() implies entry_preserved(
        sv.symbols[j],
        #[trigger] r.symbols[j],
    ) by {
        assert(sv3.symbols[j] == sv2.symbols[j]);
        assert(sv2.symbols[j] == sv.symbols[j]);
        assert(entry_preserved(sv3.symbols[j], r.symbols[j]));
    }
    assert(entry_preserved(sv3.symbols[sid], r.symbols[sid]));
}

/// The body fold keeps every name and owner already in the store.
pub proof fn lemma_schema_body_props(
    sv: StoreView,
    sref: SymbolRef,
    pkg: SymbolRef,
    sid: int,
    stmts: Seq<Node<Stmt>>,
    n: int,
)
    ensures
        prefix_preserved(sv.symbols, schema_body_spec(sv, sref, pkg, sid, stmts, n).symbols),
    decreases stmts, n,
{
    if n <= 0 || n > stmts.len() {
    } else {
        lemma_schema_body_props(sv, sref, pkg, sid, stmts, n - 1);
        let prev = schema_body_spec(sv, sref, pkg, sid, stmts, n - 1);
        lemma_walk_stmt_props(prev, sref, pkg, stmts[n - 1].node);
        let cur = walk_stmt_spec(prev, sref, pkg, stmts[n - 1].node);
        match stmt_refs(prev.symbols.len() as int, stmts[n - 1].node) {
            Some(refs) => {
                lemma_add_attrs_props(cur, sid, refs, refs.len() as int);
                lemma_prefix_trans(
                    prev.symbols,
                    cur.symbols,
                    add_attrs_spec(cur, sid, refs, refs.len() as int).symbols,
                );
                lemma_prefix_trans(
                    sv.symbols,
                    prev.symbols,
                    add_attrs_spec(cur, sid, refs, refs.len() as int).symbols,
                );
            },
            None => {
                lemma_prefix_trans(sv.symbols, prev.symbols, cur.symbols);
            },
        }
    }
}

/// Walking farther never disturbs what an earlier fold step placed.
pub proof fn lemma_schema_body_mono(
    sv: StoreView,
    sref: SymbolRef,
    pkg: SymbolRef,
    sid: int,
    stmts: Seq<Node<Stmt>>,
    m: int,
    n: int,
)
    requires
        0 <= m <= n <= stmts.len(),
    ensures
        prefix_preserved(
            schema_body_spec(sv, sref, pkg, sid, stmts, m).symbols,
            schema_body_spec(sv, sref, pkg, sid, stmts, n).symbols,
        ),
    decreases n - m,
{
    if m == n {
    } else {
        lemma_schema_body_mono(sv, sref, pkg, sid, stmts, m, n - 1);
        let prev = schema_body_spec(sv, sref, pkg, sid, stmts, n - 1);
        lemma_walk_stmt_props(prev, sref, pkg, stmts[n - 1].node);
        let cur = walk_stmt_spec(prev, sref, pkg, stmts[n - 1].node);
        match stmt_refs(prev.symbols.len() as int, stmts[n - 1].node) {
            Some(refs) => {
                lemma_add_attrs_props(cur, sid, refs, refs.len() as int);
                lemma_prefix_trans(
                    prev.symbols,
                    cur.symbols,
                    add_attrs_spec(cur, sid, refs, refs.len() as int).symbols,
                );
            },
            None => {},
        }
        lemma_prefix_trans(
            schema_body_spec(sv, sref, pkg, sid, stmts, m).symbols,
            prev.symbols,
            schema_body_spec(sv, sref, pkg, sid, stmts, n).symbols,
        );
    }
}

/// Every declaration statement produces exactly the declared symbol
/// count: one Value per assignment target; one symbol for a
/// unification, type alias, rule, or schema attribute; none for an
/// import or a non-declaring statement; and a schema returns exactly
/// its own handle.
pub proof fn lemma_declaration_symbol_counts(
    sv: StoreView,
    owner: SymbolRef,
    pkg: SymbolRef,
    stmt: Stmt,
)
    ensures
        walk_stmt_spec(sv, owner, pkg, stmt).symbols.len() >= sv.symbols.len() + decl_count(stmt),
        !(stmt is Schema) ==> walk_stmt_spec(sv, owner, pkg, stmt).symbols.len()
            == sv.symbols.len() + decl_count(stmt),
        forall|k: int|
            0 <= k < decl_count(stmt) ==> desc_kind(
                #[trigger] walk_stmt_spec(sv, owner, pkg, stmt).symbols[sv.symbols.len() + k],
            ) == decl_kind(stmt),
        match stmt_refs(sv.symbols.len() as int, stmt) {
            Some(refs) => refs.len() == decl_count(stmt),
            None => decl_count(stmt) == 0,
        },
{
    lemma_walk_stmt_props(sv, owner, pkg, stmt);
}

/// The owner-stack invariant: every symbol a schema-body statement
/// declares is owned by that schema's handle, and stays so through the
/// rest of the body. (That the owner stack itself returns to its
/// pre-entry state is part of the schema walker's contract.)
pub proof fn lemma_owner_stack_invariant(
    sv: StoreView,
    sref: SymbolRef,
    pkg: SymbolRef,
    sid: int,
    stmts: Seq<Node<Stmt>>,
    m: int,
    k: int,
)
    requires
        0 <= m < stmts.len(),
        0 <= k < decl_count(stmts[m].node),
        0 <= sid < sv.symbols.len(),
    ensures
        ({
            let prev = schema_body_spec(sv, sref, pkg, sid, stmts, m);
            let full = schema_body_spec(sv, sref, pkg, sid, stmts, stmts.len() as int);
            prev.symbols.len() + k < full.symbols.len() && full.symbols[prev.symbols.len()
                + k].owner == Some(sref)
        }),
{
    let prev = schema_body_spec(sv, sref, pkg, sid, stmts, m);
    lemma_schema_body_props(sv, sref, pkg, sid, stmts, m);
    lemma_walk_stmt_props(prev, sref, pkg, stmts[m].node);
    let cur = walk_stmt_spec(prev, sref, pkg, stmts[m].node);
    let pos = prev.symbols.len() + k;
    let step = schema_body_spec(sv, sref, pkg, sid, stmts, m + 1);
    match stmt_refs(prev.symbols.len() as int, stmts[m].node) {
        Some(refs) => {
            lemma_add_attrs_props(cur, sid, refs, refs.len() as int);
            assert(step.symbols[pos] == cur.symbols[pos]);
        },
        None => {},
    }
    lemma_schema_body_mono(sv, sref, pkg, sid, stmts, m + 1, stmts.len() as int);
    let full = schema_body_spec(sv, sref, pkg, sid, stmts, stmts.len() as int);
    assert(entry_preserved(step.symbols[pos], full.symbols[pos]));
}

/// Mixin order: for a schema with mixins `[A, B, ...]`, the schema's
/// mixin sequence holds exactly their placeholder handles, in source
/// order, and the placeholder at each handle's position carries that
/// mixin's name.
pub proof fn lemma_mixin_order(sv: StoreView, owner: SymbolRef, pkg: SymbolRef, s: SchemaStmt)
    ensures
        ({
            let r = schema_spec(sv, owner, pkg, s);
            let sid = sv.symbols.len() as int;
            let mix_base = sid + 1 + (if s.parent_name is Some {
                1int
            } else {
                0int
            });
            r.symbols[sid].detail is Schema && r.symbols[sid].detail->Schema_mixins == Seq::new(
                s.mixins@.len(),
                |i: int| SymbolRef { id: (mix_base + i) as usize, kind: SymbolKind::Unresolved },
            ) && forall|i: int|
                0 <= i < s.mixins@.len() ==> r.symbols[mix_base + i].name == crate::ast::ident_name(
                    #[trigger] s.mixins@[i].node,
                )
        }),
{
    let sid = sv.symbols.len() as int;
    let sref = SymbolRef { id: sid as usize, kind: SymbolKind::Schema };
    let sv1 = crate::namer::alloc_desc(
        sv,
        crate::namer::schema_base_desc(s.name, owner),
        s.name.id,
    );
    let sv2 = match s.parent_name {
        Some(p) => {
            let pref = SymbolRef { id: sv1.symbols.len() as usize, kind: SymbolKind::Unresolved };
            let t = crate::namer::alloc_desc(
                sv1,
                unresolved_desc(crate::ast::ident_name(p.node), p.start, p.end, sref),
                p.id,
            );
            crate::namer::update_sym(
                t,
                sid,
                crate::symbol::desc_with_parent(t.symbols[sid], Some(pref)),
            )
        },
        None => sv1,
    };
    let mix_base = sv2.symbols.len() as int;
    lemma_mixins_props(sv2, sid, sref, s.name.start, s.name.end, s.mixins@, s.mixins@.len() as int);
    let sv3 = mixins_spec(sv2, sid, sref, s.name.start, s.name.end, s.mixins@, s.mixins@.len() as int);
    assert(sv2.symbols[sid].detail->Schema_mixins =~= Seq::<SymbolRef>::empty());
    assert(sv3.symbols[sid].detail->Schema_mixins =~= Seq::new(
        s.mixins@.len(),
        |i: int| SymbolRef { id: (mix_base + i) as usize, kind: SymbolKind::Unresolved },
    ));
    lemma_schema_body_props(sv3, sref, pkg, sid, s.body@, s.body@.len() as int);
    let r = schema_body_spec(sv3, sref, pkg, sid, s.body@, s.body@.len() as int);
    assert(entry_preserved(sv3.symbols[sid], r.symbols[sid]));
    assert forall|i: int| 0 <= i < s.mixins@.len() implies r.symbols[mix_base + i].name
        == crate::ast::ident_name(#[trigger] s.mixins@[i].node) by {
        assert(entry_preserved(sv3.symbols[mix_base + i], r.symbols[mix_base + i]));
    }
}

/// Naming is a function of the tree alone: two walks of the same module
/// from equal stores, under the same package, leave equal stores —
/// the same names, owners, kinds, and member maps, handle for handle.
pub proof fn lemma_naming_deterministic(
    sv1: StoreView,
    sv2: StoreView,
    pkg: SymbolRef,
    m: Module,
    r1: StoreView,
    r2: StoreView,
)
    requires
        sv1 == sv2,
        r1 == walk_module_spec(sv1, pkg, m),
        r2 == walk_module_spec(sv2, pkg, m),
    ensures
        r1 == r2,
{
}

// ---------------------------------------------------------------------
// The variadic bypass
// ---------------------------------------------------------------------
pub proof fn lemma_kw_diag_kinds(f: Seq<char>, kwargs: Seq<Node<crate::ast::Keyword>>, n: int)
    ensures
        forall|i: int|
            0 <= i < kw_diags_upto(f, kwargs, n).len() ==> (#[trigger] kw_diags_upto(
                f,
                kwargs,
                n,
            )[i]).kind == DiagKind::DuplicateKeywordArgument || kw_diags_upto(f, kwargs, n)[i].kind
                == DiagKind::MissingArgumentName,
    decreases n,
{
    if n > 0 {
        lemma_kw_diag_kinds(f, kwargs, n - 1);
    }
}

pub proof fn lemma_pos_diag_kinds(
    eng: TypeEngine,
    args: Seq<Node<crate::ast::Expr>>,
    params: Seq<Parameter>,
    n: int,
)
    ensures
        forall|i: int|
            0 <= i < pos_diags_upto(eng, args, params, n).len() ==> (#[trigger] pos_diags_upto(
                eng,
                args,
                params,
                n,
            )[i]).kind == DiagKind::TypeMismatch,
    decreases n,
{
    if n > 0 {
        lemma_pos_diag_kinds(eng, args, params, n - 1);
    }
}

pub proof fn lemma_kwty_diag_kinds_variadic(
    eng: TypeEngine,
    f: Seq<char>,
    kwargs: Seq<Node<crate::ast::Keyword>>,
    params: Seq<Parameter>,
    pairs: Seq<(Seq<char>, TypeRef, int)>,
    n: int,
)
    ensures
        forall|i: int|
            0 <= i < kwty_diags_upto(eng, f, kwargs, params, true, pairs, n).len() ==> (
            #[trigger] kwty_diags_upto(eng, f, kwargs, params, true, pairs, n)[i]).kind
                == DiagKind::TypeMismatch,
    decreases n,
{
    if n > 0 {
        lemma_kwty_diag_kinds_variadic(eng, f, kwargs, params, pairs, n - 1);
    }
}

/// The variadic bypass: against a variadic signature, a call check never
/// reports too few arguments, excess positionals, or an unknown keyword —
/// whatever the argument counts and names.
pub proof fn lemma_variadic_bypass(
    eng: TypeEngine,
    func: Node<crate::ast::Expr>,
    args: Seq<Node<crate::ast::Expr>>,
    kwargs: Seq<Node<crate::ast::Keyword>>,
    fty: FunctionType,
)
    requires
        fty.is_variadic,
    ensures
        forall|i: int|
            0 <= i < check_call_diags(eng, func, args, kwargs, fty).len() ==> {
                let k = (#[trigger] check_call_diags(eng, func, args, kwargs, fty)[i]).kind;
                k != DiagKind::ArityTooFew && k != DiagKind::ArityTooMany
                    && k != DiagKind::UnknownKeywordArgument
            },
{
    let f = crate::resolver::func_name_spec(func.node);
    let params = fty.params@;
    lemma_kw_diag_kinds(f, kwargs, kwargs.len() as int);
    lemma_pos_diag_kinds(
        eng,
        args,
        params,
        crate::resolver::checked_len(args.len() as int, params.len() as int),
    );
    let pairs = crate::resolver::kw_pairs_upto(eng, kwargs, kwargs.len() as int);
    lemma_kwty_diag_kinds_variadic(eng, f, kwargs, params, pairs, pairs.len() as int);
}

} // verus!
