use sema_core::ast::{Expr, Identifier, Keyword, Node};
use sema_core::diag::DiagKind;
use sema_core::pos::Pos;
use sema_core::resolver::Resolver;
use sema_core::ty::{FunctionType, Parameter, TypeEngine, TypeRef};

fn node<T>(id: u64, payload: T, sl: u64, sc: u64, el: u64, ec: u64) -> Node<T> {
    Node {
        id,
        node: payload,
        start: Pos { line: sl, column: sc },
        end: Pos { line: el, column: ec },
    }
}

fn ident(id: u64, names: &[&str]) -> Identifier {
    Identifier {
        names: names
            .iter()
            .enumerate()
            .map(|(i, s)| node(id * 1000 + i as u64 + 1, s.to_string(), 0, 0, 0, 0))
            .collect(),
    }
}

fn func_f(id: u64) -> Node<Expr> {
    node(id, Expr::Identifier(ident(id, &["f"])), 1, 0, 1, 1)
}

fn kw(id: u64, name: &str, value_id: u64, end_col: u64) -> Node<Keyword> {
    Node {
        id,
        node: Keyword {
            arg: node(id * 10, ident(id, &[name]), 1, end_col - 4, 1, end_col - 2),
            value: Some(Box::new(node(value_id, Expr::Other, 1, end_col - 1, 1, end_col))),
        },
        start: Pos { line: 1, column: end_col - 4 },
        end: Pos { line: 1, column: end_col },
    }
}

fn param(name: &str, ty: u64, has_default: bool) -> Parameter {
    Parameter { name: name.to_string(), ty: TypeRef { id: ty }, has_default }
}

fn empty_engine() -> TypeEngine {
    TypeEngine { node_types: Vec::new(), assignable_pairs: Vec::new(), upgrades: Vec::new() }
}

fn count_kind(r: &Resolver, kind: DiagKind) -> usize {
    r.handler.diagnostics.iter().filter(|d| d.kind == kind).count()
}

#[test]
fn duplicate_keyword_argument() {
    // f(x=1, x=2): exactly one duplicate error, spanning from the end of
    // `x=1` to the end of `x=2`.
    let mut r = Resolver::new(empty_engine());
    let func = func_f(1);
    let args: Vec<Node<Expr>> = Vec::new();
    let kwargs = vec![kw(2, "x", 3, 10), kw(4, "x", 5, 20)];
    let fty = FunctionType { params: Vec::new(), is_variadic: true };
    r.do_arguments_type_check(&func, &args, &kwargs, &fty);
    assert_eq!(count_kind(&r, DiagKind::DuplicateKeywordArgument), 1);
    let d = r
        .handler
        .diagnostics
        .iter()
        .find(|d| d.kind == DiagKind::DuplicateKeywordArgument)
        .unwrap();
    assert_eq!(d.start, Pos { line: 1, column: 10 });
    assert_eq!(d.end, Pos { line: 1, column: 20 });
    assert_eq!(d.message, "\"f\" has duplicated keyword argument x");
    assert_eq!(r.handler.diagnostics.len(), 1);
}

#[test]
fn arity_too_few() {
    // Signature (a, b, c=default), call f(1): expected 2, found 1.
    let mut r = Resolver::new(empty_engine());
    let func = func_f(1);
    let args = vec![node(2, Expr::Other, 1, 2, 1, 3)];
    let kwargs: Vec<Node<Keyword>> = Vec::new();
    let fty = FunctionType {
        params: vec![param("a", 0, false), param("b", 0, false), param("c", 0, true)],
        is_variadic: false,
    };
    r.do_arguments_type_check(&func, &args, &kwargs, &fty);
    assert_eq!(r.handler.diagnostics.len(), 1);
    let d = &r.handler.diagnostics[0];
    assert_eq!(d.kind, DiagKind::ArityTooFew);
    assert_eq!(d.message, "expected 2 positional arguments, found 1");
    assert_eq!(d.start, func.start);
    assert_eq!(d.end, func.end);
}

#[test]
fn arity_too_few_singular_unit() {
    // Signature (a), call f(): the unit stays singular below two.
    let mut r = Resolver::new(empty_engine());
    let func = func_f(1);
    let args: Vec<Node<Expr>> = Vec::new();
    let kwargs: Vec<Node<Keyword>> = Vec::new();
    let fty = FunctionType { params: vec![param("a", 0, false)], is_variadic: false };
    r.do_arguments_type_check(&func, &args, &kwargs, &fty);
    assert_eq!(r.handler.diagnostics.len(), 1);
    assert_eq!(r.handler.diagnostics[0].message, "expected 1 positional argument, found 0");
}

#[test]
fn excess_positional_aborts() {
    // Signature (a), call f(1, 2): exactly one excess error at the second
    // argument, and no type mismatch for either argument.
    let mut r = Resolver::new(empty_engine());
    let func = func_f(1);
    let args = vec![node(2, Expr::Other, 1, 2, 1, 3), node(3, Expr::Other, 1, 5, 1, 6)];
    let kwargs: Vec<Node<Keyword>> = Vec::new();
    let fty = FunctionType { params: vec![param("a", 0, false)], is_variadic: false };
    r.do_arguments_type_check(&func, &args, &kwargs, &fty);
    assert_eq!(r.handler.diagnostics.len(), 1);
    let d = &r.handler.diagnostics[0];
    assert_eq!(d.kind, DiagKind::ArityTooMany);
    assert_eq!(d.message, "\"f\" takes 1 positional argument but 2 were given");
    assert_eq!(d.start, Pos { line: 1, column: 5 });
    assert_eq!(d.end, Pos { line: 1, column: 6 });
    assert_eq!(count_kind(&r, DiagKind::TypeMismatch), 0);
}

#[test]
fn unknown_keyword_with_suggestion() {
    // Signature (count), call f(cuont=1): one unknown-keyword error whose
    // message offers the close match.
    let mut r = Resolver::new(empty_engine());
    let func = func_f(1);
    let args: Vec<Node<Expr>> = Vec::new();
    let kwargs = vec![kw(2, "cuont", 3, 12)];
    let fty = FunctionType { params: vec![param("count", 0, true)], is_variadic: false };
    r.do_arguments_type_check(&func, &args, &kwargs, &fty);
    assert_eq!(r.handler.diagnostics.len(), 1);
    let d = &r.handler.diagnostics[0];
    assert_eq!(d.kind, DiagKind::UnknownKeywordArgument);
    assert!(d.message.contains("did you mean 'count'?"));
    assert!(d.message.starts_with("\"f\" got an unexpected keyword argument 'cuont'"));
    assert_eq!(d.suggestions, vec!["count".to_string()]);
}

#[test]
fn unknown_keyword_without_suggestion() {
    // Nothing close: no suggestion clause, no suggested replacements.
    let mut r = Resolver::new(empty_engine());
    let func = func_f(1);
    let args: Vec<Node<Expr>> = Vec::new();
    let kwargs = vec![kw(2, "zzz", 3, 12)];
    let fty = FunctionType { params: vec![param("count", 0, true)], is_variadic: false };
    r.do_arguments_type_check(&func, &args, &kwargs, &fty);
    assert_eq!(r.handler.diagnostics.len(), 1);
    let d = &r.handler.diagnostics[0];
    assert_eq!(d.kind, DiagKind::UnknownKeywordArgument);
    assert_eq!(d.message, "\"f\" got an unexpected keyword argument 'zzz'");
    assert!(d.suggestions.is_empty());
}

#[test]
fn variadic_bypass() {
    // Against a variadic signature, no arity or unknown-keyword errors,
    // whatever the counts and names.
    let mut r = Resolver::new(empty_engine());
    let func = func_f(1);
    let args = vec![
        node(2, Expr::Other, 1, 2, 1, 3),
        node(3, Expr::Other, 1, 5, 1, 6),
        node(4, Expr::Other, 1, 8, 1, 9),
    ];
    let kwargs = vec![kw(5, "x", 6, 15), kw(7, "bogus", 8, 25)];
    let fty = FunctionType { params: Vec::new(), is_variadic: true };
    r.do_arguments_type_check(&func, &args, &kwargs, &fty);
    assert!(r.handler.diagnostics.is_empty());
}

#[test]
fn missing_argument_name() {
    // A keyword argument without a name is reported and skipped.
    let mut r = Resolver::new(empty_engine());
    let func = func_f(1);
    let args: Vec<Node<Expr>> = Vec::new();
    let nameless = Node {
        id: 2,
        node: Keyword {
            arg: node(20, Identifier { names: Vec::new() }, 1, 2, 1, 3),
            value: None,
        },
        start: Pos { line: 1, column: 2 },
        end: Pos { line: 1, column: 5 },
    };
    let kwargs = vec![nameless];
    let fty = FunctionType { params: Vec::new(), is_variadic: true };
    r.do_arguments_type_check(&func, &args, &kwargs, &fty);
    assert_eq!(r.handler.diagnostics.len(), 1);
    let d = &r.handler.diagnostics[0];
    assert_eq!(d.kind, DiagKind::MissingArgumentName);
    assert_eq!(d.message, "missing argument");
    assert_eq!(d.start, Pos { line: 1, column: 2 });
    assert_eq!(d.end, Pos { line: 1, column: 5 });
}

#[test]
fn positional_type_mismatch_and_upgrade() {
    // The argument's inferred type 7 is not assignable to the declared 8,
    // and the recorded type follows the declared coercion to 9.
    let engine = TypeEngine {
        node_types: vec![(2, TypeRef { id: 7 })],
        assignable_pairs: Vec::new(),
        upgrades: vec![(TypeRef { id: 7 }, TypeRef { id: 8 }, TypeRef { id: 9 })],
    };
    let mut r = Resolver::new(engine);
    let func = func_f(1);
    let args = vec![node(2, Expr::Other, 1, 2, 1, 3)];
    let kwargs: Vec<Node<Keyword>> = Vec::new();
    let fty = FunctionType { params: vec![param("a", 8, false)], is_variadic: false };
    r.do_arguments_type_check(&func, &args, &kwargs, &fty);
    assert_eq!(count_kind(&r, DiagKind::TypeMismatch), 1);
    assert!(r.node_ty_map.contains(&(2, TypeRef { id: 9 })));
}

#[test]
fn positional_assignable_records_actual_type() {
    // An assignable pair passes silently; with no coercion the actual
    // type is recorded.
    let engine = TypeEngine {
        node_types: vec![(2, TypeRef { id: 7 })],
        assignable_pairs: vec![(TypeRef { id: 7 }, TypeRef { id: 8 })],
        upgrades: Vec::new(),
    };
    let mut r = Resolver::new(engine);
    let func = func_f(1);
    let args = vec![node(2, Expr::Other, 1, 2, 1, 3)];
    let kwargs: Vec<Node<Keyword>> = Vec::new();
    let fty = FunctionType { params: vec![param("a", 8, false)], is_variadic: false };
    r.do_arguments_type_check(&func, &args, &kwargs, &fty);
    assert!(r.handler.diagnostics.is_empty());
    assert!(r.node_ty_map.contains(&(2, TypeRef { id: 7 })));
}

#[test]
fn keyword_type_mismatch() {
    // The keyword value's type 7 against the parameter's declared 8.
    let engine = TypeEngine {
        node_types: vec![(3, TypeRef { id: 7 })],
        assignable_pairs: Vec::new(),
        upgrades: Vec::new(),
    };
    let mut r = Resolver::new(engine);
    let func = func_f(1);
    let args: Vec<Node<Expr>> = Vec::new();
    let kwargs = vec![kw(2, "a", 3, 10)];
    let fty = FunctionType { params: vec![param("a", 8, true)], is_variadic: false };
    r.do_arguments_type_check(&func, &args, &kwargs, &fty);
    assert_eq!(count_kind(&r, DiagKind::TypeMismatch), 1);
    // The keyword value's inferred type is recorded under the keyword node.
    assert!(r.node_ty_map.contains(&(2, TypeRef { id: 7 })));
}

#[test]
fn unknown_keyword_span_after_nameless_keyword() {
    // A nameless keyword does not shift which keyword an unknown-name
    // error points at.
    let mut r = Resolver::new(empty_engine());
    let func = func_f(1);
    let args: Vec<Node<Expr>> = Vec::new();
    let nameless = Node {
        id: 2,
        node: Keyword {
            arg: node(20, Identifier { names: Vec::new() }, 1, 2, 1, 3),
            value: None,
        },
        start: Pos { line: 1, column: 2 },
        end: Pos { line: 1, column: 5 },
    };
    let bogus = kw(3, "bogus", 4, 20);
    let bogus_arg_span = (bogus.node.arg.start, bogus.node.arg.end);
    let kwargs = vec![nameless, bogus];
    let fty = FunctionType { params: Vec::new(), is_variadic: false };
    r.do_arguments_type_check(&func, &args, &kwargs, &fty);
    assert_eq!(count_kind(&r, DiagKind::MissingArgumentName), 1);
    assert_eq!(count_kind(&r, DiagKind::UnknownKeywordArgument), 1);
    let d = r
        .handler
        .diagnostics
        .iter()
        .find(|d| d.kind == DiagKind::UnknownKeywordArgument)
        .unwrap();
    assert_eq!((d.start, d.end), bogus_arg_span);
}

#[test]
fn variadic_excess_still_checks_keyword_types() {
    // Extra positionals against a variadic signature are accepted
    // unchecked, and the keyword-type pass still runs.
    let engine = TypeEngine {
        node_types: vec![(6, TypeRef { id: 7 })],
        assignable_pairs: Vec::new(),
        upgrades: Vec::new(),
    };
    let mut r = Resolver::new(engine);
    let func = func_f(1);
    let args = vec![node(2, Expr::Other, 1, 2, 1, 3), node(3, Expr::Other, 1, 5, 1, 6)];
    let kwargs = vec![kw(5, "a", 6, 15)];
    let fty = FunctionType { params: vec![param("a", 0, true)], is_variadic: true };
    r.do_arguments_type_check(&func, &args, &kwargs, &fty);
    // The only report is the keyword value's mismatch against `a`.
    assert_eq!(r.handler.diagnostics.len(), 1);
    assert_eq!(r.handler.diagnostics[0].kind, DiagKind::TypeMismatch);
}

#[test]
fn callee_display_names() {
    let r = Resolver::new(empty_engine());
    let plain = Expr::Identifier(ident(1, &["f"]));
    assert_eq!(r.get_func_name(&plain), "\"f\"");
    let dotted = Expr::Identifier(ident(2, &["pkg", "f"]));
    assert_eq!(r.get_func_name(&dotted), "\"pkg.f\"");
    let selector = Expr::Selector(sema_core::ast::SelectorExpr {
        value: Box::new(node(3, Expr::Other, 0, 0, 0, 0)),
        attr: node(4, ident(4, &["method"]), 0, 0, 0, 0),
    });
    let wrapped = Expr::Paren(Box::new(node(5, selector, 0, 0, 0, 0)));
    assert_eq!(r.get_func_name(&wrapped), "\"method\"");
    assert_eq!(r.get_func_name(&Expr::Other), "anonymous function");
}
