use vstd::prelude::*;

verus! {

/// The insertion-ordered set of the indexmap crate; this core reads it
/// only as a set of seen keyword names.
#[verifier::external_type_specification]
#[verifier::external_body]
#[verifier::reject_recursive_types(T)]
#[verifier::reject_recursive_types(S)]
pub struct ExIndexSet<T, S>(indexmap::IndexSet<T, S>);

/// What a check table holds: the set of the inserted strings.
pub uninterp spec fn index_set_elems(s: indexmap::IndexSet<String>) -> Set<Seq<char>>;

/// Relies on indexmap::IndexSet::default: a fresh set is empty.
#[verifier::external_body]
pub fn check_table_new() -> (r: indexmap::IndexSet<String>)
    ensures
        index_set_elems(r) == Set::<Seq<char>>::empty(),
{
    indexmap::IndexSet::default()
}

/// Relies on indexmap::IndexSet::contains: membership by string
/// equality.
#[verifier::external_body]
pub fn check_table_contains(t: &indexmap::IndexSet<String>, name: &String) -> (r: bool)
    ensures
        r == index_set_elems(*t).contains(name@),
{
    t.contains(name.as_str())
}

/// Relies on indexmap::IndexSet::insert: afterwards the value is in the
/// set, and nothing else changed.
#[verifier::external_body]
pub fn check_table_insert(t: &mut indexmap::IndexSet<String>, name: String)
    ensures
        index_set_elems(*final(t)) == index_set_elems(*old(t)).insert(name@),
{
    t.insert(name);
}

} // verus!
