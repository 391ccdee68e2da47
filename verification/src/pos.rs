use vstd::prelude::*;

verus! {

/// A source position: a line and a column.
#[derive(Clone, Copy, PartialEq, Eq, Structural, Debug)]
pub struct Pos {
    pub line: u64,
    pub column: u64,
}

} // verus!
