use crate::pos::Pos;
use crate::strings::join_upto;
use vstd::prelude::*;
use vstd::string::StringExecFns;

verus! {

/// A syntax-tree node: a payload together with a stable per-node identity
/// and a source range.
#[derive(Debug)]
pub struct Node<T> {
    pub id: u64,
    pub node: T,
    pub start: Pos,
    pub end: Pos,
}

impl<T> Node<T> {
    /// The node's source range.
    pub open spec fn span(self) -> (Pos, Pos) {
        (self.start, self.end)
    }

    pub fn get_span_pos(&self) -> (r: (Pos, Pos))
        ensures
            r == self.span(),
    {
        (self.start, self.end)
    }

    pub fn get_end_pos(&self) -> (r: Pos)
        ensures
            r == self.end,
    {
        self.end
    }
}

/// A possibly dotted name: one segment per component.
#[derive(Debug)]
pub struct Identifier {
    pub names: Vec<Node<String>>,
}

/// The segments of an identifier joined by '.'.
pub open spec fn ident_name(id: Identifier) -> Seq<char> {
    join_upto(id.names@.map_values(|n: Node<String>| n.node@), "."@, id.names@.len() as int)
}

impl Identifier {
    /// The full dotted name.
    pub fn get_name(&self) -> (r: String)
        ensures
            r@ == ident_name(*self),
    {
        let ghost views = self.names@.map_values(|n: Node<String>| n.node@);
        let mut acc = String::new();
        let mut i: usize = 0;
        while i < self.names.len()
            invariant
                i <= self.names.len(),
                views == self.names@.map_values(|n: Node<String>| n.node@),
                acc@ == join_upto(views, "."@, i as int),
            decreases self.names.len() - i,
        {
            if i > 0 {
                acc.append(".");
            }
            acc.append(self.names[i].node.as_str());
            assert(views[i as int] == self.names@[i as int].node@);
            i = i + 1;
        }
        acc
    }
}

/// An expression, discriminated only as far as this core reads it: the
/// callee shapes that yield a display name, and everything else.
#[derive(Debug)]
pub enum Expr {
    Identifier(Identifier),
    Selector(SelectorExpr),
    Paren(Box<Node<Expr>>),
    Other,
}

/// An attribute access `value.attr`.
#[derive(Debug)]
pub struct SelectorExpr {
    pub value: Box<Node<Expr>>,
    pub attr: Node<Identifier>,
}

/// A keyword argument `arg=value`; a parse may leave the name or the
/// value empty.
#[derive(Debug)]
pub struct Keyword {
    pub arg: Node<Identifier>,
    pub value: Option<Box<Node<Expr>>>,
}

/// A statement, discriminated as far as naming reads it; forms that
/// declare nothing are carried without their contents.
#[derive(Debug)]
pub enum Stmt {
    Expr,
    AugAssign,
    Assert,
    If,
    Assign(AssignStmt),
    Unification(UnificationStmt),
    TypeAlias(TypeAliasStmt),
    Import(ImportStmt),
    Schema(SchemaStmt),
    Rule(RuleStmt),
    SchemaAttr(SchemaAttr),
}

/// `a = b = value`: one target per binding.
#[derive(Debug)]
pub struct AssignStmt {
    pub targets: Vec<Node<Identifier>>,
}

/// `target: Schema {...}`: binds a schema application to a name.
#[derive(Debug)]
pub struct UnificationStmt {
    pub target: Node<Identifier>,
}

/// `type Alias = ...`.
#[derive(Debug)]
pub struct TypeAliasStmt {
    pub ty_name: Node<Identifier>,
}

/// `import path as name`.
#[derive(Debug)]
pub struct ImportStmt {
    pub name: String,
    pub path: String,
}

/// A schema declaration with an optional parent, mixins, and a body.
#[derive(Debug)]
pub struct SchemaStmt {
    pub name: Node<String>,
    pub parent_name: Option<Node<Identifier>>,
    pub mixins: Vec<Node<Identifier>>,
    pub body: Vec<Node<Stmt>>,
}

/// A rule declaration; its body introduces no nested scope here.
#[derive(Debug)]
pub struct RuleStmt {
    pub name: Node<String>,
}

/// An attribute declaration inside a schema body.
#[derive(Debug)]
pub struct SchemaAttr {
    pub name: Node<String>,
}

/// One source file's parsed statements.
#[derive(Debug)]
pub struct Module {
    pub filename: String,
    pub body: Vec<Node<Stmt>>,
}

} // verus!
