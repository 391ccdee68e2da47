use sema_core::ast::{
    AssignStmt, Identifier, ImportStmt, Module, Node, RuleStmt, SchemaAttr, SchemaStmt, Stmt,
    TypeAliasStmt, UnificationStmt,
};
use sema_core::namer::Namer;
use sema_core::pos::Pos;
use sema_core::symbol::{SymbolDetail, SymbolKind, SymbolRef};

fn node<T>(id: u64, payload: T, line: u64) -> Node<T> {
    Node {
        id,
        node: payload,
        start: Pos { line, column: 0 },
        end: Pos { line, column: 9 },
    }
}

fn ident(id: u64, names: &[&str]) -> Identifier {
    Identifier {
        names: names
            .iter()
            .enumerate()
            .map(|(i, s)| node(id * 1000 + i as u64 + 1, s.to_string(), 0))
            .collect(),
    }
}

fn schema_a(with_parent: bool) -> Node<Stmt> {
    node(
        100,
        Stmt::Schema(SchemaStmt {
            name: node(101, "A".to_string(), 2),
            parent_name: if with_parent { Some(node(102, ident(102, &["Base"]), 2)) } else { None },
            mixins: vec![node(103, ident(103, &["M1"]), 2), node(104, ident(104, &["M2"]), 2)],
            body: vec![
                node(110, Stmt::SchemaAttr(SchemaAttr { name: node(111, "x".to_string(), 3) }), 3),
                node(
                    120,
                    Stmt::Assign(AssignStmt { targets: vec![node(121, ident(121, &["y"]), 4)] }),
                    4,
                ),
            ],
        }),
        2,
    )
}

#[test]
fn assignment_yields_one_value_symbol_per_target() {
    let mut namer = Namer::new("pkg".to_string());
    let stmt = Stmt::Assign(AssignStmt {
        targets: vec![node(1, ident(1, &["a"]), 1), node(2, ident(2, &["b"]), 1)],
    });
    let refs = namer.walk_stmt(&stmt).unwrap();
    assert_eq!(refs.len(), 2);
    for r in &refs {
        assert_eq!(r.kind, SymbolKind::Value);
    }
    // The package plus the two values.
    assert_eq!(namer.gs.symbols.len(), 3);
    let a = namer.gs.get(refs[0]).unwrap();
    assert_eq!(a.name, "a");
    assert_eq!(a.owner, Some(SymbolRef { id: 0, kind: SymbolKind::Package }));
}

#[test]
fn unification_type_alias_and_rule_yield_one_symbol() {
    let mut namer = Namer::new("pkg".to_string());
    let u = namer
        .walk_stmt(&Stmt::Unification(UnificationStmt { target: node(1, ident(1, &["t"]), 1) }))
        .unwrap();
    assert_eq!(u.len(), 1);
    assert_eq!(u[0].kind, SymbolKind::Value);
    let t = namer
        .walk_stmt(&Stmt::TypeAlias(TypeAliasStmt { ty_name: node(2, ident(2, &["Alias"]), 2) }))
        .unwrap();
    assert_eq!(t.len(), 1);
    assert_eq!(t[0].kind, SymbolKind::TypeAlias);
    let r = namer
        .walk_stmt(&Stmt::Rule(RuleStmt { name: node(3, "R".to_string(), 3) }))
        .unwrap();
    assert_eq!(r.len(), 1);
    assert_eq!(r[0].kind, SymbolKind::Rule);
    assert!(namer.walk_stmt(&Stmt::Expr).is_none());
    assert!(namer.walk_stmt(&Stmt::If).is_none());
}

#[test]
fn schema_owner_stack_and_attributes() {
    let mut namer = Namer::new("pkg".to_string());
    let module = Module { filename: "main.k".to_string(), body: vec![schema_a(true)] };
    namer.walk_module(&module);
    // The stack is back to just the package.
    assert_eq!(namer.owner_symbols.len(), 1);
    assert_eq!(namer.owner_symbols[0].kind, SymbolKind::Package);

    // Find the schema through the package member map.
    let pkg = namer.current_pkg;
    let schema_ref = namer.gs.get_package_member(pkg, &"A".to_string()).unwrap();
    assert_eq!(schema_ref.kind, SymbolKind::Schema);
    let schema = namer.gs.get(schema_ref).unwrap();
    assert_eq!(schema.name, "A");
    assert_eq!(schema.owner, Some(pkg));
    match &schema.detail {
        SymbolDetail::Schema { parent_schema, mixins, attributes } => {
            // The parent placeholder carries the parent name and the schema
            // as owner.
            let parent_ref = parent_schema.unwrap();
            let parent = namer.gs.get(parent_ref).unwrap();
            assert_eq!(parent.name, "Base");
            assert_eq!(parent.owner, Some(schema_ref));
            // Mixins in source order.
            assert_eq!(mixins.len(), 2);
            assert_eq!(namer.gs.get(mixins[0]).unwrap().name, "M1");
            assert_eq!(namer.gs.get(mixins[1]).unwrap().name, "M2");
            // Only the attribute lands in the attribute map; the plain value
            // does not.
            assert_eq!(attributes.len(), 1);
            assert_eq!(attributes[0].0, "x");
            let x = namer.gs.get(attributes[0].1).unwrap();
            assert_eq!(x.name, "x");
            assert_eq!(x.owner, Some(schema_ref));
        },
        _ => panic!("expected a schema symbol"),
    }

    // Every symbol declared in the body is owned by the schema.
    let x_ref = match &schema.detail {
        SymbolDetail::Schema { attributes, .. } => attributes[0].1,
        _ => unreachable!(),
    };
    assert_eq!(
        namer.gs.get_fully_qualified_name(x_ref).unwrap(),
        "pkg.A.x",
    );
}

#[test]
fn mixin_order_is_source_order() {
    let mut namer = Namer::new("pkg".to_string());
    let module = Module { filename: "main.k".to_string(), body: vec![schema_a(false)] };
    namer.walk_module(&module);
    let schema_ref = namer.gs.get_package_member(namer.current_pkg, &"A".to_string()).unwrap();
    match &namer.gs.get(schema_ref).unwrap().detail {
        SymbolDetail::Schema { parent_schema, mixins, .. } => {
            assert!(parent_schema.is_none());
            let names: Vec<String> = mixins
                .iter()
                .map(|m| namer.gs.get(*m).unwrap().name.clone())
                .collect();
            assert_eq!(names, vec!["M1".to_string(), "M2".to_string()]);
        },
        _ => panic!("expected a schema symbol"),
    }
}

#[test]
fn shadowing_keeps_the_later_declaration() {
    let mut namer = Namer::new("pkg".to_string());
    let module = Module {
        filename: "main.k".to_string(),
        body: vec![
            node(1, Stmt::Assign(AssignStmt { targets: vec![node(2, ident(2, &["a"]), 1)] }), 1),
            node(3, Stmt::Assign(AssignStmt { targets: vec![node(4, ident(4, &["a"]), 2)] }), 2),
        ],
    };
    namer.walk_module(&module);
    let winner = namer.gs.get_package_member(namer.current_pkg, &"a".to_string()).unwrap();
    // Three symbols: the package and the two values; the later value wins.
    assert_eq!(winner.id, 2);
    assert_eq!(winner.kind, SymbolKind::Value);
}

#[test]
fn dotted_target_is_keyed_by_last_segment() {
    let mut namer = Namer::new("pkg".to_string());
    let module = Module {
        filename: "main.k".to_string(),
        body: vec![
            node(
                1,
                Stmt::Assign(AssignStmt { targets: vec![node(2, ident(2, &["a", "b"]), 1)] }),
                1,
            ),
        ],
    };
    namer.walk_module(&module);
    let r = namer.gs.get_package_member(namer.current_pkg, &"b".to_string()).unwrap();
    let sym = namer.gs.get(r).unwrap();
    assert_eq!(sym.name, "a.b");
    assert_eq!(namer.gs.get_fully_qualified_name(r).unwrap(), "pkg.a.b");
    assert!(namer.gs.get_package_member(namer.current_pkg, &"a.b".to_string()).is_none());
}

#[test]
fn imports_and_modules_are_recorded_on_the_package() {
    let mut namer = Namer::new("pkg".to_string());
    let module = Module {
        filename: "main.k".to_string(),
        body: vec![
            node(
                1,
                Stmt::Import(ImportStmt { name: "m".to_string(), path: "pkg.sub.m".to_string() }),
                1,
            ),
        ],
    };
    namer.walk_module(&module);
    let pkg = namer.gs.get(namer.current_pkg).unwrap();
    match &pkg.detail {
        SymbolDetail::Package { members, modules, imports } => {
            assert!(members.is_empty());
            assert_eq!(modules, &vec!["main.k".to_string()]);
            assert_eq!(imports.len(), 1);
            assert_eq!(imports[0].name, "m");
            assert_eq!(imports[0].path, "pkg.sub.m");
        },
        _ => panic!("expected a package symbol"),
    }
}

#[test]
fn naming_twice_gives_isomorphic_stores() {
    let make = || Module {
        filename: "main.k".to_string(),
        body: vec![
            schema_a(true),
            node(
                200,
                Stmt::Assign(AssignStmt { targets: vec![node(201, ident(201, &["v"]), 5)] }),
                5,
            ),
        ],
    };
    let mut n1 = Namer::new("pkg".to_string());
    n1.walk_module(&make());
    let mut n2 = Namer::new("pkg".to_string());
    n2.walk_module(&make());
    assert_eq!(
        format!("{:?}", n1.gs.symbols),
        format!("{:?}", n2.gs.symbols),
    );
    assert_eq!(
        format!("{:?}", n1.gs.node_symbol_map),
        format!("{:?}", n2.gs.node_symbol_map),
    );
}

#[test]
fn node_bindings_follow_allocation() {
    let mut namer = Namer::new("pkg".to_string());
    let stmt = Stmt::Assign(AssignStmt { targets: vec![node(42, ident(42, &["a"]), 1)] });
    let refs = namer.walk_stmt(&stmt).unwrap();
    assert_eq!(namer.gs.node_symbol_map.len(), 1);
    assert_eq!(namer.gs.node_symbol_map[0], (42, refs[0]));
}
