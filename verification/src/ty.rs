use vstd::prelude::*;

verus! {

/// An opaque type handle issued by the external type-inference engine.
/// The zero handle stands for the engine's "any" type, to which
/// unresolvable expressions degrade.
#[derive(Clone, Copy, PartialEq, Eq, Structural, Debug)]
pub struct TypeRef {
    pub id: u64,
}

impl TypeRef {
    /// The "any" type handle.
    pub open spec fn any_type() -> TypeRef {
        TypeRef { id: 0 }
    }

    #[verifier::when_used_as_spec(any_type)]
    pub fn any() -> (r: TypeRef)
        ensures
            r == TypeRef::any_type(),
    {
        TypeRef { id: 0 }
    }
}

/// A declared parameter of a callee signature.
#[derive(Debug)]
pub struct Parameter {
    pub name: String,
    pub ty: TypeRef,
    pub has_default: bool,
}

/// A callee signature: ordered parameters and a variadic flag. Parameter
/// names are not required to be unique here; a duplicate is the
/// producer's contract violation.
#[derive(Debug)]
pub struct FunctionType {
    pub params: Vec<Parameter>,
    pub is_variadic: bool,
}

/// A finite model of the external type-inference collaborators, consumed
/// read-only: inferred types by syntax-node identity (nodes without an
/// entry degrade to "any"), the assignability relation (taken reflexive),
/// and the dict-to-schema coercions (first match wins, otherwise the
/// actual type stands).
#[derive(Debug)]
pub struct TypeEngine {
    pub node_types: Vec<(u64, TypeRef)>,
    pub assignable_pairs: Vec<(TypeRef, TypeRef)>,
    pub upgrades: Vec<(TypeRef, TypeRef, TypeRef)>,
}

/// The first entry for `id` at or after `i`, or "any" when none exists.
pub open spec fn lookup_node_type_from(entries: Seq<(u64, TypeRef)>, id: u64, i: int) -> TypeRef
    decreases entries.len() - i,
{
    if i < 0 || i >= entries.len() {
        TypeRef::any_type()
    } else if entries[i].0 == id {
        entries[i].1
    } else {
        lookup_node_type_from(entries, id, i + 1)
    }
}

/// The engine's inferred type for the syntax node `id`.
pub open spec fn infer_spec(eng: TypeEngine, id: u64) -> TypeRef {
    lookup_node_type_from(eng.node_types@, id, 0)
}

/// Whether the engine holds `a` assignable to `b`.
pub open spec fn assignable_spec(eng: TypeEngine, a: TypeRef, b: TypeRef) -> bool {
    a == b || exists|i: int|
        0 <= i < eng.assignable_pairs@.len() && eng.assignable_pairs@[i] == (a, b)
}

/// The first coercion for `(a, b)` at or after `i`, or `a` when none
/// applies.
pub open spec fn upgrade_from(
    entries: Seq<(TypeRef, TypeRef, TypeRef)>,
    a: TypeRef,
    b: TypeRef,
    i: int,
) -> TypeRef
    decreases entries.len() - i,
{
    if i < 0 || i >= entries.len() {
        a
    } else if entries[i].0 == a && entries[i].1 == b {
        entries[i].2
    } else {
        upgrade_from(entries, a, b, i + 1)
    }
}

/// The coerced type recorded when `a` is supplied where `b` is declared.
pub open spec fn upgrade_spec(eng: TypeEngine, a: TypeRef, b: TypeRef) -> TypeRef {
    upgrade_from(eng.upgrades@, a, b, 0)
}

impl TypeEngine {
    /// An engine with no inferred nodes, no assignable pairs beyond
    /// reflexivity, and no coercions.
    pub fn new() -> (r: TypeEngine)
        ensures
            r.node_types@ == Seq::<(u64, TypeRef)>::empty(),
            r.assignable_pairs@ == Seq::<(TypeRef, TypeRef)>::empty(),
            r.upgrades@ == Seq::<(TypeRef, TypeRef, TypeRef)>::empty(),
    {
        TypeEngine { node_types: Vec::new(), assignable_pairs: Vec::new(), upgrades: Vec::new() }
    }

    /// The inferred type of the syntax node `id`; never fails.
    pub fn infer(&self, id: u64) -> (r: TypeRef)
        ensures
            r == infer_spec(*self, id),
    {
        let mut i: usize = 0;
        while i < self.node_types.len()
            invariant
                i <= self.node_types.len(),
                lookup_node_type_from(self.node_types@, id, 0) == lookup_node_type_from(
                    self.node_types@,
                    id,
                    i as int,
                ),
            decreases self.node_types.len() - i,
        {
            if self.node_types[i].0 == id {
                return self.node_types[i].1;
            }
            i = i + 1;
        }
        TypeRef::any()
    }

    /// Whether the engine holds `a` assignable to `b`.
    pub fn assignable(&self, a: TypeRef, b: TypeRef) -> (r: bool)
        ensures
            r == assignable_spec(*self, a, b),
    {
        if a == b {
            return true;
        }
        let mut i: usize = 0;
        while i < self.assignable_pairs.len()
            invariant
                i <= self.assignable_pairs.len(),
                forall|j: int| 0 <= j < i ==> self.assignable_pairs@[j] != (a, b),
            decreases self.assignable_pairs.len() - i,
        {
            if self.assignable_pairs[i].0 == a && self.assignable_pairs[i].1 == b {
                return true;
            }
            i = i + 1;
        }
        false
    }

    /// The coerced type recorded when `a` is supplied where `b` is
    /// declared; `a` itself when no coercion applies.
    pub fn upgrade(&self, a: TypeRef, b: TypeRef) -> (r: TypeRef)
        ensures
            r == upgrade_spec(*self, a, b),
    {
        let mut i: usize = 0;
        while i < self.upgrades.len()
            invariant
                i <= self.upgrades.len(),
                upgrade_from(self.upgrades@, a, b, 0) == upgrade_from(
                    self.upgrades@,
                    a,
                    b,
                    i as int,
                ),
            decreases self.upgrades.len() - i,
        {
            if self.upgrades[i].0 == a && self.upgrades[i].1 == b {
                return self.upgrades[i].2;
            }
            i = i + 1;
        }
        a
    }
}

} // verus!
