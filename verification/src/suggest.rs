use vstd::prelude::*;

verus! {

/// What the fuzzy matcher answers for a misspelled name against a
/// candidate list; it depends on the two arguments alone.
pub uninterp spec fn suggestions_for(name: Seq<char>, candidates: Seq<Seq<char>>) -> Seq<Seq<char>>;

/// Relies on suggestions::provide_suggestions: the result is a pure
/// function of the name and the candidate list, every entry is drawn
/// from the candidates, and no candidates yield no suggestions.
#[verifier::external_body]
pub fn provide_suggestions(name: &String, candidates: &Vec<String>) -> (r: Vec<String>)
    ensures
        r@.map_values(|s: String| s@) == suggestions_for(
            name@,
            candidates@.map_values(|s: String| s@),
        ),
        forall|i: int|
            0 <= i < r@.len() ==> candidates@.map_values(|s: String| s@).contains(r@[i]@),
        candidates@.len() == 0 ==> r@.len() == 0,
{
    suggestions::provide_suggestions(name.as_str(), candidates)
}

} // verus!
