use crate::ast::{ident_name, Expr, Keyword, Node};
use crate::check_table::{check_table_contains, check_table_insert, check_table_new, index_set_elems};
use crate::diag::{diag_view, DiagKind, DiagView, Handler};
use crate::pos::Pos;
use crate::strings::{dec_of, join_upto, to_decimal};
use crate::suggest::{provide_suggestions, suggestions_for};
use crate::ty::{
    assignable_spec, infer_spec, upgrade_spec, FunctionType, Parameter, TypeEngine, TypeRef,
};
use vstd::prelude::*;
use vstd::string::StringExecFns;

verus! {

// ---------------------------------------------------------------------
// Display names and messages
// ---------------------------------------------------------------------
/// A name wrapped in double quotes.
pub open spec fn quoted(s: Seq<char>) -> Seq<char> {
    "\""@ + s + "\""@
}

/// How a callee is reported: a quoted name for plain names and attribute
/// accesses (parentheses unwrapped), generic otherwise.
pub open spec fn func_name_spec(e: Expr) -> Seq<char>
    decreases e,
{
    match e {
        Expr::Identifier(id) => quoted(ident_name(id)),
        Expr::Selector(sel) => quoted(ident_name(sel.attr.node)),
        Expr::Paren(inner) => func_name_spec(inner.node),
        Expr::Other => "anonymous function"@,
    }
}

pub open spec fn missing_arg_msg() -> Seq<char> {
    "missing argument"@
}

pub open spec fn mismatch_msg() -> Seq<char> {
    "type mismatch"@
}

pub open spec fn dup_kw_msg(f: Seq<char>, name: Seq<char>) -> Seq<char> {
    f + " has duplicated keyword argument "@ + name
}

/// A count with its unit, the unit pluralized above one.
pub open spec fn unit_positional(n: nat) -> Seq<char> {
    dec_of(n) + " positional argument"@ + (if n > 1 {
        "s"@
    } else {
        Seq::<char>::empty()
    })
}

pub open spec fn arity_few_msg(expect: nat, got: nat) -> Seq<char> {
    "expected "@ + unit_positional(expect) + ", found "@ + dec_of(got)
}

pub open spec fn arity_many_msg(f: Seq<char>, params_len: nat, args_len: nat) -> Seq<char> {
    f + " takes "@ + unit_positional(params_len) + " but "@ + dec_of(args_len) + " were given"@
}

/// The suggestion phrase appended to an unknown-keyword message; empty
/// when the matcher offers nothing.
pub open spec fn sugg_clause(suggs: Seq<Seq<char>>) -> Seq<char> {
    if suggs.len() > 0 {
        ", did you mean '"@ + join_upto(suggs, " or "@, suggs.len() as int) + "'?"@
    } else {
        Seq::<char>::empty()
    }
}

pub open spec fn unknown_kw_msg(f: Seq<char>, name: Seq<char>, clause: Seq<char>) -> Seq<char> {
    f + " got an unexpected keyword argument '"@ + name + "'"@ + clause
}

fn render_dup_kw_msg(f: &String, name: &String) -> (r: String)
    ensures
        r@ == dup_kw_msg(f@, name@),
{
    let mut m = f.clone();
    m.append(" has duplicated keyword argument ");
    m.append(name.as_str());
    m
}

fn render_unit_positional(n: usize) -> (r: String)
    ensures
        r@ == unit_positional(n as nat),
{
    let mut m = to_decimal(n);
    m.append(" positional argument");
    if n > 1 {
        m.append("s");
    }
    proof {
        assert(m@ =~= unit_positional(n as nat));
    }
    m
}

fn render_arity_few_msg(expect: usize, got: usize) -> (r: String)
    ensures
        r@ == arity_few_msg(expect as nat, got as nat),
{
    let mut m = "expected ".to_owned();
    let unit = render_unit_positional(expect);
    m.append(unit.as_str());
    m.append(", found ");
    let g = to_decimal(got);
    m.append(g.as_str());
    m
}

fn render_arity_many_msg(f: &String, params_len: usize, args_len: usize) -> (r: String)
    ensures
        r@ == arity_many_msg(f@, params_len as nat, args_len as nat),
{
    let mut m = f.clone();
    m.append(" takes ");
    let unit = render_unit_positional(params_len);
    m.append(unit.as_str());
    m.append(" but ");
    let g = to_decimal(args_len);
    m.append(g.as_str());
    m.append(" were given");
    m
}

fn render_unknown_kw_msg(f: &String, name: &String, clause: &String) -> (r: String)
    ensures
        r@ == unknown_kw_msg(f@, name@, clause@),
{
    let mut m = f.clone();
    m.append(" got an unexpected keyword argument '");
    m.append(name.as_str());
    m.append("'");
    m.append(clause.as_str());
    m
}

// ---------------------------------------------------------------------
// The keyword pass
// ---------------------------------------------------------------------
/// Whether a keyword argument carries a name.
pub open spec fn kw_is_named(kw: Node<Keyword>) -> bool {
    kw.node.arg.node.names@.len() > 0
}

/// The name a keyword argument is checked under: its first segment.
pub open spec fn kw_name(kw: Node<Keyword>) -> Seq<char> {
    kw.node.arg.node.names@[0].node@
}

/// The inferred type of an optional value; "any" when absent.
pub open spec fn opt_value_ty(eng: TypeEngine, v: Option<Box<Node<Expr>>>) -> TypeRef {
    match v {
        Some(e) => infer_spec(eng, e.id),
        None => TypeRef::any_type(),
    }
}

pub open spec fn kw_value_ty(eng: TypeEngine, kw: Node<Keyword>) -> TypeRef {
    opt_value_ty(eng, kw.node.value)
}

/// Where a duplicate's range starts: the previous keyword's end, or the
/// first keyword's own end.
pub open spec fn prev_end(kwargs: Seq<Node<Keyword>>, i: int) -> Pos {
    if i == 0 {
        kwargs[0].end
    } else {
        kwargs[i - 1].end
    }
}

/// The keyword names seen strictly before index `n`.
pub open spec fn seen_upto(kwargs: Seq<Node<Keyword>>, n: int) -> Set<Seq<char>>
    decreases n,
{
    if n <= 0 {
        Set::<Seq<char>>::empty()
    } else if kw_is_named(kwargs[n - 1]) {
        seen_upto(kwargs, n - 1).insert(kw_name(kwargs[n - 1]))
    } else {
        seen_upto(kwargs, n - 1)
    }
}

/// What the keyword pass reports at index `i`: a missing name, a
/// duplicate of an earlier name, or nothing.
pub open spec fn kw_diag_at(f: Seq<char>, kwargs: Seq<Node<Keyword>>, i: int) -> Seq<DiagView> {
    let kw = kwargs[i];
    if !kw_is_named(kw) {
        seq![
            diag_view(
                DiagKind::MissingArgumentName,
                missing_arg_msg(),
                (kw.start, kw.end),
                Seq::<Seq<char>>::empty(),
            ),
        ]
    } else if seen_upto(kwargs, i).contains(kw_name(kw)) {
        seq![
            diag_view(
                DiagKind::DuplicateKeywordArgument,
                dup_kw_msg(f, kw_name(kw)),
                (prev_end(kwargs, i), kw.end),
                Seq::<Seq<char>>::empty(),
            ),
        ]
    } else {
        Seq::<DiagView>::empty()
    }
}

pub open spec fn kw_diags_upto(f: Seq<char>, kwargs: Seq<Node<Keyword>>, n: int) -> Seq<DiagView>
    decreases n,
{
    if n <= 0 {
        Seq::<DiagView>::empty()
    } else {
        kw_diags_upto(f, kwargs, n - 1) + kw_diag_at(f, kwargs, n - 1)
    }
}

/// The node-type entries the keyword pass writes: one per named keyword.
pub open spec fn kw_tymap_upto(eng: TypeEngine, kwargs: Seq<Node<Keyword>>, n: int) -> Seq<
    (u64, TypeRef),
>
    decreases n,
{
    if n <= 0 {
        Seq::<(u64, TypeRef)>::empty()
    } else {
        kw_tymap_upto(eng, kwargs, n - 1) + (if kw_is_named(kwargs[n - 1]) {
            seq![(kwargs[n - 1].id, kw_value_ty(eng, kwargs[n - 1]))]
        } else {
            Seq::<(u64, TypeRef)>::empty()
        })
    }
}

/// The (name, type, origin index) triples the keyword pass accumulates.
pub open spec fn kw_pairs_upto(eng: TypeEngine, kwargs: Seq<Node<Keyword>>, n: int) -> Seq<
    (Seq<char>, TypeRef, int),
>
    decreases n,
{
    if n <= 0 {
        Seq::<(Seq<char>, TypeRef, int)>::empty()
    } else {
        kw_pairs_upto(eng, kwargs, n - 1) + (if kw_is_named(kwargs[n - 1]) {
            seq![(kw_name(kwargs[n - 1]), kw_value_ty(eng, kwargs[n - 1]), n - 1)]
        } else {
            Seq::<(Seq<char>, TypeRef, int)>::empty()
        })
    }
}

// ---------------------------------------------------------------------
// The arity pass
// ---------------------------------------------------------------------
/// How many of the first `n` parameters lack a default.
pub open spec fn expect_upto(params: Seq<Parameter>, n: int) -> int
    decreases n,
{
    if n <= 0 {
        0
    } else {
        expect_upto(params, n - 1) + (if !params[n - 1].has_default {
            1int
        } else {
            0int
        })
    }
}

/// How many of the first `n` required parameters were supplied by name.
pub open spec fn got_kw_upto(params: Seq<Parameter>, seen: Set<Seq<char>>, n: int) -> int
    decreases n,
{
    if n <= 0 {
        0
    } else {
        got_kw_upto(params, seen, n - 1) + (if !params[n - 1].has_default && seen.contains(
            params[n - 1].name@,
        ) {
            1int
        } else {
            0int
        })
    }
}

/// The arity check, skipped entirely for variadic signatures: too few
/// arguments when the positionals plus the required parameters supplied
/// by name fall short of the required count.
pub open spec fn arity_diags(
    func: Node<Expr>,
    params: Seq<Parameter>,
    is_variadic: bool,
    kwargs: Seq<Node<Keyword>>,
    args_len: int,
) -> Seq<DiagView> {
    if is_variadic {
        Seq::<DiagView>::empty()
    } else {
        let expect = expect_upto(params, params.len() as int);
        let got = got_kw_upto(params, seen_upto(kwargs, kwargs.len() as int), params.len() as int)
            + args_len;
        if got < expect {
            seq![
                diag_view(
                    DiagKind::ArityTooFew,
                    arity_few_msg(expect as nat, got as nat),
                    (func.start, func.end),
                    Seq::<Seq<char>>::empty(),
                ),
            ]
        } else {
            Seq::<DiagView>::empty()
        }
    }
}

// ---------------------------------------------------------------------
// The positional pass
// ---------------------------------------------------------------------
/// What a failed assignability check reports.
pub open spec fn mismatch_diags(eng: TypeEngine, a: TypeRef, b: TypeRef, range: (Pos, Pos)) -> Seq<
    DiagView,
> {
    if assignable_spec(eng, a, b) {
        Seq::<DiagView>::empty()
    } else {
        seq![diag_view(DiagKind::TypeMismatch, mismatch_msg(), range, Seq::<Seq<char>>::empty())]
    }
}

/// How many positional arguments are checked against a parameter.
pub open spec fn checked_len(args_len: int, params_len: int) -> int {
    if args_len <= params_len {
        args_len
    } else {
        params_len
    }
}

pub open spec fn pos_diag_at(
    eng: TypeEngine,
    args: Seq<Node<Expr>>,
    params: Seq<Parameter>,
    i: int,
) -> Seq<DiagView> {
    mismatch_diags(
        eng,
        infer_spec(eng, args[i].id),
        params[i].ty,
        (args[i].start, args[i].end),
    )
}

pub open spec fn pos_diags_upto(
    eng: TypeEngine,
    args: Seq<Node<Expr>>,
    params: Seq<Parameter>,
    n: int,
) -> Seq<DiagView>
    decreases n,
{
    if n <= 0 {
        Seq::<DiagView>::empty()
    } else {
        pos_diags_upto(eng, args, params, n - 1) + pos_diag_at(eng, args, params, n - 1)
    }
}

/// The excess-positional report: on a non-variadic signature, the first
/// argument past the parameters; variadic signatures accept the excess.
pub open spec fn pos_excess_diags(
    f: Seq<char>,
    args: Seq<Node<Expr>>,
    params_len: int,
    is_variadic: bool,
) -> Seq<DiagView> {
    if args.len() > params_len && !is_variadic {
        seq![
            diag_view(
                DiagKind::ArityTooMany,
                arity_many_msg(f, params_len as nat, args.len() as nat),
                (args[params_len].start, args[params_len].end),
                Seq::<Seq<char>>::empty(),
            ),
        ]
    } else {
        Seq::<DiagView>::empty()
    }
}

/// The node-type entries the positional pass writes: the possibly
/// coerced type of each argument that has a parameter.
pub open spec fn pos_tymap_upto(
    eng: TypeEngine,
    args: Seq<Node<Expr>>,
    params: Seq<Parameter>,
    n: int,
) -> Seq<(u64, TypeRef)>
    decreases n,
{
    if n <= 0 {
        Seq::<(u64, TypeRef)>::empty()
    } else {
        pos_tymap_upto(eng, args, params, n - 1) + seq![
            (args[n - 1].id, upgrade_spec(eng, infer_spec(eng, args[n - 1].id), params[n - 1].ty)),
        ]
    }
}

/// Whether excess positional arguments abort the remaining checks.
pub open spec fn check_aborted(args_len: int, params_len: int, is_variadic: bool) -> bool {
    args_len > params_len && !is_variadic
}

// ---------------------------------------------------------------------
// The keyword-type pass
// ---------------------------------------------------------------------
pub open spec fn param_names(params: Seq<Parameter>) -> Seq<Seq<char>> {
    params.map_values(|p: Parameter| p.name@)
}

pub open spec fn has_param(params: Seq<Parameter>, name: Seq<char>) -> bool {
    exists|i: int| 0 <= i < params.len() && params[i].name@ == name
}

/// The declared type of the first parameter named `name`, from `i` on.
pub open spec fn first_param_ty_from(params: Seq<Parameter>, name: Seq<char>, i: int) -> TypeRef
    decreases params.len() - i,
{
    if i < 0 || i >= params.len() {
        TypeRef::any_type()
    } else if params[i].name@ == name {
        params[i].ty
    } else {
        first_param_ty_from(params, name, i + 1)
    }
}

/// What the keyword-type pass reports for one accumulated pair: an
/// unknown-keyword error (with suggestions) on a non-variadic signature,
/// then a type mismatch against the first parameter of that name.
pub open spec fn kwty_diag_at(
    eng: TypeEngine,
    f: Seq<char>,
    kwargs: Seq<Node<Keyword>>,
    params: Seq<Parameter>,
    is_variadic: bool,
    pair: (Seq<char>, TypeRef, int),
) -> Seq<DiagView> {
    let name = pair.0;
    let kw = kwargs[pair.2];
    let suggs = suggestions_for(name, param_names(params));
    let unknown = if !has_param(params, name) && !is_variadic {
        seq![
            diag_view(
                DiagKind::UnknownKeywordArgument,
                unknown_kw_msg(f, name, sugg_clause(suggs)),
                (kw.node.arg.start, kw.node.arg.end),
                suggs,
            ),
        ]
    } else {
        Seq::<DiagView>::empty()
    };
    let mis = if has_param(params, name) {
        mismatch_diags(eng, pair.1, first_param_ty_from(params, name, 0), (kw.start, kw.end))
    } else {
        Seq::<DiagView>::empty()
    };
    unknown + mis
}

pub open spec fn kwty_diags_upto(
    eng: TypeEngine,
    f: Seq<char>,
    kwargs: Seq<Node<Keyword>>,
    params: Seq<Parameter>,
    is_variadic: bool,
    pairs: Seq<(Seq<char>, TypeRef, int)>,
    n: int,
) -> Seq<DiagView>
    decreases n,
{
    if n <= 0 {
        Seq::<DiagView>::empty()
    } else {
        kwty_diags_upto(eng, f, kwargs, params, is_variadic, pairs, n - 1) + kwty_diag_at(
            eng,
            f,
            kwargs,
            params,
            is_variadic,
            pairs[n - 1],
        )
    }
}

// ---------------------------------------------------------------------
// The whole check
// ---------------------------------------------------------------------
/// Every diagnostic one call check reports, in order: the keyword pass,
/// the arity check, the positional pass, and — unless excess positionals
/// aborted a non-variadic check — the keyword-type pass.
pub open spec fn check_call_diags(
    eng: TypeEngine,
    func: Node<Expr>,
    args: Seq<Node<Expr>>,
    kwargs: Seq<Node<Keyword>>,
    fty: FunctionType,
) -> Seq<DiagView> {
    let f = func_name_spec(func.node);
    let params = fty.params@;
    let checked = checked_len(args.len() as int, params.len() as int);
    let pairs = kw_pairs_upto(eng, kwargs, kwargs.len() as int);
    kw_diags_upto(f, kwargs, kwargs.len() as int) + arity_diags(
        func,
        params,
        fty.is_variadic,
        kwargs,
        args.len() as int,
    ) + pos_diags_upto(eng, args, params, checked) + pos_excess_diags(
        f,
        args,
        params.len() as int,
        fty.is_variadic,
    ) + (if check_aborted(args.len() as int, params.len() as int, fty.is_variadic) {
        Seq::<DiagView>::empty()
    } else {
        kwty_diags_upto(eng, f, kwargs, params, fty.is_variadic, pairs, pairs.len() as int)
    })
}

/// Every node-type entry one call check writes, in order: the keyword
/// values, then the checked positional arguments.
pub open spec fn check_call_tymap(
    eng: TypeEngine,
    args: Seq<Node<Expr>>,
    kwargs: Seq<Node<Keyword>>,
    fty: FunctionType,
) -> Seq<(u64, TypeRef)> {
    kw_tymap_upto(eng, kwargs, kwargs.len() as int) + pos_tymap_upto(
        eng,
        args,
        fty.params@,
        checked_len(args.len() as int, fty.params@.len() as int),
    )
}

// ---------------------------------------------------------------------
// The resolver
// ---------------------------------------------------------------------
/// Checks call sites against signatures: collects diagnostics and writes
/// the per-node types the later passes consume.
#[derive(Debug)]
pub struct Resolver {
    pub handler: Handler,
    pub node_ty_map: Vec<(u64, TypeRef)>,
    pub engine: TypeEngine,
}

fn param_exists(params: &Vec<Parameter>, name: &String) -> (r: bool)
    ensures
        r == has_param(params@, name@),
{
    let mut i: usize = 0;
    while i < params.len()
        invariant
            i <= params.len(),
            forall|j: int| 0 <= j < i ==> params@[j].name@ != name@,
        decreases params.len() - i,
    {
        if params[i].name == *name {
            return true;
        }
        i = i + 1;
    }
    false
}

fn first_param_ty(params: &Vec<Parameter>, name: &String) -> (r: Option<TypeRef>)
    ensures
        r == (if has_param(params@, name@) {
            Some(first_param_ty_from(params@, name@, 0))
        } else {
            None::<TypeRef>
        }),
{
    let mut i: usize = 0;
    while i < params.len()
        invariant
            i <= params.len(),
            forall|j: int| 0 <= j < i ==> params@[j].name@ != name@,
            first_param_ty_from(params@, name@, 0) == first_param_ty_from(
                params@,
                name@,
                i as int,
            ),
        decreases params.len() - i,
    {
        if params[i].name == *name {
            return Some(params[i].ty);
        }
        i = i + 1;
    }
    None
}

impl Resolver {
    /// A resolver over the given engine, with no diagnostics and no
    /// node types yet.
    pub fn new(engine: TypeEngine) -> (r: Resolver)
        ensures
            r.handler@ == Seq::<DiagView>::empty(),
            r.node_ty_map@ == Seq::<(u64, TypeRef)>::empty(),
            r.engine == engine,
    {
        Resolver { handler: Handler::new(), node_ty_map: Vec::new(), engine }
    }

    /// The display name a call is reported under.
    pub fn get_func_name(&self, func: &Expr) -> (r: String)
        ensures
            r@ == func_name_spec(*func),
        decreases *func,
    {
        match func {
            Expr::Identifier(identifier) => {
                let mut m = "\"".to_owned();
                let name = identifier.get_name();
                m.append(name.as_str());
                m.append("\"");
                m
            },
            Expr::Selector(selector_expr) => {
                let mut m = "\"".to_owned();
                let name = selector_expr.attr.node.get_name();
                m.append(name.as_str());
                m.append("\"");
                m
            },
            Expr::Paren(paren_expr) => self.get_func_name(&paren_expr.node),
            Expr::Other => "anonymous function".to_owned(),
        }
    }

    /// The inferred type of each argument expression.
    pub fn exprs(&self, args: &Vec<Node<Expr>>) -> (r: Vec<TypeRef>)
        ensures
            r@.len() == args@.len(),
            forall|i: int| 0 <= i < args@.len() ==> r@[i] == infer_spec(self.engine, args@[i].id),
    {
        let mut r: Vec<TypeRef> = Vec::new();
        let mut i: usize = 0;
        while i < args.len()
            invariant
                i <= args.len(),
                r@.len() == i,
                forall|j: int| 0 <= j < i ==> r@[j] == infer_spec(self.engine, args@[j].id),
            decreases args.len() - i,
        {
            let t = self.engine.infer(args[i].id);
            r.push(t);
            i = i + 1;
        }
        r
    }

    /// The inferred type of an optional value; "any" when absent.
    pub fn expr_or_any_type(&self, value: &Option<Box<Node<Expr>>>) -> (r: TypeRef)
        ensures
            r == opt_value_ty(self.engine, *value),
    {
        match value {
            Some(v) => self.engine.infer(v.id),
            None => TypeRef::any(),
        }
    }

    /// Reports a type mismatch unless the engine holds the actual type
    /// assignable to the expected one.
    pub fn must_assignable_to(&mut self, ty: TypeRef, expected: TypeRef, range: (Pos, Pos))
        ensures
            final(self).handler@ == old(self).handler@ + mismatch_diags(
                old(self).engine,
                ty,
                expected,
                range,
            ),
            final(self).node_ty_map@ == old(self).node_ty_map@,
            final(self).engine == old(self).engine,
    {
        if !self.engine.assignable(ty, expected) {
            self.handler.add_compile_error(DiagKind::TypeMismatch, "type mismatch".to_owned(), range);
        }
        proof {
            assert(self.handler@ =~= old(self).handler@ + mismatch_diags(
                old(self).engine,
                ty,
                expected,
                range,
            ));
        }
    }

    /// The coerced type recorded when `ty` is supplied where `expected`
    /// is declared; `ty` itself when no coercion applies.
    pub fn upgrade_dict_to_schema(&self, ty: TypeRef, expected: TypeRef, _range: &(Pos, Pos)) -> (r:
        TypeRef)
        ensures
            r == upgrade_spec(self.engine, ty, expected),
    {
        self.engine.upgrade(ty, expected)
    }

    /// The suggestions for a misspelled keyword name against the
    /// signature's parameter names, and the rendered suggestion phrase.
    pub fn get_arg_kw_err_suggestion_from_name(
        &self,
        arg_name: &String,
        func_ty: &FunctionType,
    ) -> (r: (Vec<String>, String))
        ensures
            r.0@.map_values(|s: String| s@) == suggestions_for(
                arg_name@,
                param_names(func_ty.params@),
            ),
            r.1@ == sugg_clause(suggestions_for(arg_name@, param_names(func_ty.params@))),
    {
        let mut valid_params: Vec<String> = Vec::new();
        let mut i: usize = 0;
        while i < func_ty.params.len()
            invariant
                i <= func_ty.params.len(),
                valid_params@.len() == i,
                forall|j: int| 0 <= j < i ==> valid_params@[j]@ == func_ty.params@[j].name@,
            decreases func_ty.params.len() - i,
        {
            valid_params.push(func_ty.params[i].name.clone());
            i = i + 1;
        }
        proof {
            assert(valid_params@.map_values(|s: String| s@) =~= param_names(func_ty.params@));
        }
        let suggs = provide_suggestions(arg_name, &valid_params);
        let suggestion = if suggs.len() > 0 {
            let mut m = ", did you mean '".to_owned();
            let joined = join_strings_or(&suggs);
            m.append(joined.as_str());
            m.append("'?");
            m
        } else {
            String::new()
        };
        (suggs, suggestion)
    }

    /// Validates a call's positional and keyword arguments against the
    /// callee's signature: reports duplicate and nameless keywords, too
    /// few arguments, excess positionals (aborting the rest of this
    /// call's checks on a non-variadic signature), unknown keywords with
    /// fuzzy-matched suggestions, and per-argument type mismatches; and
    /// records the type of every keyword value and every checked
    /// positional argument.
    pub fn do_arguments_type_check(
        &mut self,
        func: &Node<Expr>,
        args: &Vec<Node<Expr>>,
        kwargs: &Vec<Node<Keyword>>,
        func_ty: &FunctionType,
    )
        ensures
            final(self).handler@ == old(self).handler@ + check_call_diags(
                old(self).engine,
                *func,
                args@,
                kwargs@,
                *func_ty,
            ),
            final(self).node_ty_map@ == old(self).node_ty_map@ + check_call_tymap(
                old(self).engine,
                args@,
                kwargs@,
                *func_ty,
            ),
            final(self).engine == old(self).engine,
    {
        let ghost eng = self.engine;
        let ghost h0 = self.handler@;
        let ghost t0 = self.node_ty_map@;
        let ghost fname = func_name_spec(func.node);
        let ghost params = func_ty.params@;

        let func_name = self.get_func_name(&func.node);
        let arg_types = self.exprs(args);
        let mut kwarg_types: Vec<(String, TypeRef, usize)> = Vec::new();
        let mut check_table = check_table_new();
        let mut prev_kw_pos: Option<Pos> = None;

        proof {
            assert(kwarg_types@.map_values(|p: (String, TypeRef, usize)| (p.0@, p.1, p.2 as int))
                =~= kw_pairs_upto(eng, kwargs@, 0));
        }

        let mut j: usize = 0;
        while j < kwargs.len()
            invariant
                j <= kwargs@.len(),
                self.engine == eng,
                func_name@ == fname,
                self.handler@ == h0 + kw_diags_upto(fname, kwargs@, j as int),
                self.node_ty_map@ == t0 + kw_tymap_upto(eng, kwargs@, j as int),
                index_set_elems(check_table) == seen_upto(kwargs@, j as int),
                kwarg_types@.map_values(|p: (String, TypeRef, usize)| (p.0@, p.1, p.2 as int))
                    == kw_pairs_upto(eng, kwargs@, j as int),
                forall|k: int|
                    0 <= k < kwarg_types@.len() ==> (#[trigger] kwarg_types@[k]).2 < j,
                j == 0 ==> prev_kw_pos is None,
                j > 0 ==> prev_kw_pos == Some(kwargs@[j - 1].end),
            decreases kwargs@.len() - j,
        {
            let ghost pre_pairs = kwarg_types@.map_values(
                |p: (String, TypeRef, usize)| (p.0@, p.1, p.2 as int),
            );
            let kw = &kwargs[j];
            if kw.node.arg.node.names.len() > 0 {
                let previous_pos = match prev_kw_pos {
                    Some(p) => p,
                    None => kw.get_end_pos(),
                };
                let arg_name = kw.node.arg.node.names[0].node.clone();
                if check_table_contains(&check_table, &arg_name) {
                    let msg = render_dup_kw_msg(&func_name, &arg_name);
                    self.handler.add_compile_error(
                        DiagKind::DuplicateKeywordArgument,
                        msg,
                        (previous_pos, kw.get_end_pos()),
                    );
                }
                check_table_insert(&mut check_table, arg_name.clone());
                let arg_value_type = self.expr_or_any_type(&kw.node.value);
                self.node_ty_map.push((kw.id, arg_value_type));
                kwarg_types.push((arg_name, arg_value_type, j));
                proof {
                    assert(kwarg_types@.map_values(
                        |p: (String, TypeRef, usize)| (p.0@, p.1, p.2 as int),
                    ) =~= pre_pairs.push(
                        (kw_name(kwargs@[j as int]), kw_value_ty(eng, kwargs@[j as int]), j as int),
                    ));
                    assert(kwarg_types@.map_values(
                        |p: (String, TypeRef, usize)| (p.0@, p.1, p.2 as int),
                    ) =~= kw_pairs_upto(eng, kwargs@, j as int + 1));
                    assert(self.node_ty_map@ =~= t0 + kw_tymap_upto(eng, kwargs@, j as int + 1));
                }
            } else {
                self.handler.add_compile_error(
                    DiagKind::MissingArgumentName,
                    "missing argument".to_owned(),
                    kw.get_span_pos(),
                );
                proof {
                    assert(kwarg_types@.map_values(
                        |p: (String, TypeRef, usize)| (p.0@, p.1, p.2 as int),
                    ) =~= kw_pairs_upto(eng, kwargs@, j as int + 1));
                    assert(self.node_ty_map@ =~= t0 + kw_tymap_upto(eng, kwargs@, j as int + 1));
                }
            }
            prev_kw_pos = Some(kw.get_end_pos());
            proof {
                assert(self.handler@ =~= h0 + kw_diags_upto(fname, kwargs@, j as int + 1));
            }
            j = j + 1;
        }

        let ghost seen_full = seen_upto(kwargs@, kwargs@.len() as int);
        let ghost kw_diags = kw_diags_upto(fname, kwargs@, kwargs@.len() as int);
        let ghost ar_diags = arity_diags(*func, params, func_ty.is_variadic, kwargs@, args@.len() as int);

        // Too-few-arguments check, skipped for variadic signatures.
        if !func_ty.is_variadic {
            let mut expect_count: usize = 0;
            let mut got_kw: usize = 0;
            let mut i: usize = 0;
            while i < func_ty.params.len()
                invariant
                    i <= func_ty.params.len(),
                    params == func_ty.params@,
                    index_set_elems(check_table) == seen_full,
                    expect_count == expect_upto(params, i as int),
                    got_kw == got_kw_upto(params, seen_full, i as int),
                    expect_count <= i,
                    got_kw <= i,
                decreases func_ty.params.len() - i,
            {
                if !func_ty.params[i].has_default {
                    expect_count = expect_count + 1;
                    if check_table_contains(&check_table, &func_ty.params[i].name) {
                        got_kw = got_kw + 1;
                    }
                }
                i = i + 1;
            }
            if got_kw < expect_count && args.len() < expect_count - got_kw {
                let got_count = got_kw + args.len();
                let msg = render_arity_few_msg(expect_count, got_count);
                self.handler.add_compile_error(
                    DiagKind::ArityTooFew,
                    msg,
                    func.get_span_pos(),
                );
            }
            proof {
                assert(self.handler@ =~= h0 + kw_diags + ar_diags);
            }
        } else {
            proof {
                assert(self.handler@ =~= h0 + kw_diags + ar_diags);
            }
        }

        // Positional pass: check each argument that has a parameter; on
        // excess, a non-variadic signature reports once and aborts.
        let ghost checked = checked_len(args@.len() as int, params.len() as int);
        let ghost t1 = t0 + kw_tymap_upto(eng, kwargs@, kwargs@.len() as int);
        let mut i: usize = 0;
        while i < arg_types.len() && i < func_ty.params.len()
            invariant
                i <= args@.len(),
                i <= checked,
                checked == checked_len(args@.len() as int, params.len() as int),
                arg_types@.len() == args@.len(),
                forall|k: int| 0 <= k < args@.len() ==> arg_types@[k] == infer_spec(eng, args@[k].id),
                self.engine == eng,
                func_name@ == fname,
                params == func_ty.params@,
                self.handler@ == h0 + kw_diags + ar_diags + pos_diags_upto(eng, args@, params, i as int),
                self.node_ty_map@ == t1 + pos_tymap_upto(eng, args@, params, i as int),
            decreases arg_types@.len() - i,
        {
            let expected_ty = func_ty.params[i].ty;
            self.must_assignable_to(arg_types[i], expected_ty, args[i].get_span_pos());
            let upgrade_schema_type = self.upgrade_dict_to_schema(
                arg_types[i],
                expected_ty,
                &args[i].get_span_pos(),
            );
            self.node_ty_map.push((args[i].id, upgrade_schema_type));
            proof {
                assert(self.handler@ =~= h0 + kw_diags + ar_diags + pos_diags_upto(
                    eng,
                    args@,
                    params,
                    i as int + 1,
                ));
                assert(self.node_ty_map@ =~= t1 + pos_tymap_upto(eng, args@, params, i as int + 1));
            }
            i = i + 1;
        }

        proof {
            assert(i as int == checked);
        }
        if i < arg_types.len() {
            // Arguments remain past the parameters.
            if !func_ty.is_variadic {
                let msg = render_arity_many_msg(&func_name, func_ty.params.len(), args.len());
                self.handler.add_compile_error(
                    DiagKind::ArityTooMany,
                    msg,
                    args[i].get_span_pos(),
                );
                proof {
                    assert(check_aborted(args@.len() as int, params.len() as int, func_ty.is_variadic));
                    assert(self.handler@ =~= old(self).handler@ + check_call_diags(
                        eng,
                        *func,
                        args@,
                        kwargs@,
                        *func_ty,
                    ));
                    assert(self.node_ty_map@ =~= old(self).node_ty_map@ + check_call_tymap(
                        eng,
                        args@,
                        kwargs@,
                        *func_ty,
                    ));
                }
                return;
            }
        }

        proof {
            assert(!check_aborted(args@.len() as int, params.len() as int, func_ty.is_variadic));
            assert(pos_excess_diags(fname, args@, params.len() as int, func_ty.is_variadic)
                =~= Seq::<DiagView>::empty());
        }

        let ghost pre_kwty = h0 + kw_diags + ar_diags + pos_diags_upto(eng, args@, params, checked)
            + pos_excess_diags(fname, args@, params.len() as int, func_ty.is_variadic);
        proof {
            assert(self.handler@ =~= pre_kwty);
        }

        // Keyword-type pass over the accumulated pairs, in order.
        let ghost pairs = kw_pairs_upto(eng, kwargs@, kwargs@.len() as int);
        let mut k: usize = 0;
        while k < kwarg_types.len()
            invariant
                k <= kwarg_types@.len(),
                self.engine == eng,
                func_name@ == fname,
                params == func_ty.params@,
                kwarg_types@.map_values(|p: (String, TypeRef, usize)| (p.0@, p.1, p.2 as int))
                    == pairs,
                forall|m: int|
                    0 <= m < kwarg_types@.len() ==> (#[trigger] kwarg_types@[m]).2 < kwargs@.len(),
                self.handler@ == pre_kwty + kwty_diags_upto(
                    eng,
                    fname,
                    kwargs@,
                    params,
                    func_ty.is_variadic,
                    pairs,
                    k as int,
                ),
                self.node_ty_map@ == t1 + pos_tymap_upto(eng, args@, params, checked),
            decreases kwarg_types@.len() - k,
        {
            proof {
                assert(pairs[k as int] == (kwarg_types@[k as int].0@, kwarg_types@[k as int].1, kwarg_types@[k as int].2 as int));
            }
            let found = param_exists(&func_ty.params, &kwarg_types[k].0);
            if !found && !func_ty.is_variadic {
                let (suggs, sugg_msg) = self.get_arg_kw_err_suggestion_from_name(
                    &kwarg_types[k].0,
                    func_ty,
                );
                let msg = render_unknown_kw_msg(&func_name, &kwarg_types[k].0, &sugg_msg);
                let idx = kwarg_types[k].2;
                let range = kwargs[idx].node.arg.get_span_pos();
                self.handler.add_compile_error_with_suggestions(
                    DiagKind::UnknownKeywordArgument,
                    msg,
                    range,
                    suggs,
                );
            }
            match first_param_ty(&func_ty.params, &kwarg_types[k].0) {
                Some(expected) => {
                    let idx = kwarg_types[k].2;
                    let kwarg_ty = kwarg_types[k].1;
                    let range = kwargs[idx].get_span_pos();
                    self.must_assignable_to(kwarg_ty, expected, range);
                },
                None => {},
            }
            proof {
                assert(self.handler@ =~= pre_kwty + kwty_diags_upto(
                    eng,
                    fname,
                    kwargs@,
                    params,
                    func_ty.is_variadic,
                    pairs,
                    k as int + 1,
                ));
            }
            k = k + 1;
        }

        proof {
            assert(self.handler@ =~= old(self).handler@ + check_call_diags(
                eng,
                *func,
                args@,
                kwargs@,
                *func_ty,
            ));
            assert(self.node_ty_map@ =~= old(self).node_ty_map@ + check_call_tymap(
                eng,
                args@,
                kwargs@,
                *func_ty,
            ));
        }
    }
}

/// Joins suggestions with " or ", as the suggestion phrase shows them.
fn join_strings_or(items: &Vec<String>) -> (r: String)
    ensures
        r@ == join_upto(items@.map_values(|s: String| s@), " or "@, items@.len() as int),
{
    crate::strings::join_strings(items, " or ")
}

} // verus!
