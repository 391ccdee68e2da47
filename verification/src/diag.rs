use crate::pos::Pos;
use vstd::prelude::*;

verus! {

/// The error taxonomy of this core. Every error is collected, none is
/// thrown, and none is fatal to the pass.
#[derive(Clone, Copy, PartialEq, Eq, Structural, Debug)]
pub enum DiagKind {
    DuplicateKeywordArgument,
    MissingArgumentName,
    ArityTooFew,
    ArityTooMany,
    UnknownKeywordArgument,
    TypeMismatch,
}

/// A structured error: a kind, a rendered message, a primary source
/// range, and zero or more suggested replacement strings.
#[derive(Debug)]
pub struct Diagnostic {
    pub kind: DiagKind,
    pub message: String,
    pub start: Pos,
    pub end: Pos,
    pub suggestions: Vec<String>,
}

/// The mathematical image of a diagnostic.
pub struct DiagView {
    pub kind: DiagKind,
    pub message: Seq<char>,
    pub start: Pos,
    pub end: Pos,
    pub suggestions: Seq<Seq<char>>,
}

impl View for Diagnostic {
    type V = DiagView;

    open spec fn view(&self) -> DiagView {
        DiagView {
            kind: self.kind,
            message: self.message@,
            start: self.start,
            end: self.end,
            suggestions: self.suggestions@.map_values(|s: String| s@),
        }
    }
}

/// Builds the image of a diagnostic.
pub open spec fn diag_view(
    kind: DiagKind,
    message: Seq<char>,
    range: (Pos, Pos),
    suggestions: Seq<Seq<char>>,
) -> DiagView {
    DiagView { kind, message, start: range.0, end: range.1, suggestions }
}

/// Collects the diagnostics of one compilation unit, in the order they
/// were reported.
#[derive(Debug)]
pub struct Handler {
    pub diagnostics: Vec<Diagnostic>,
}

impl View for Handler {
    type V = Seq<DiagView>;

    open spec fn view(&self) -> Seq<DiagView> {
        self.diagnostics@.map_values(|d: Diagnostic| d@)
    }
}

impl Handler {
    /// A handler with no diagnostics yet.
    pub fn new() -> (r: Handler)
        ensures
            r@ == Seq::<DiagView>::empty(),
    {
        let r = Handler { diagnostics: Vec::new() };
        proof {
            assert(r@ =~= Seq::<DiagView>::empty());
        }
        r
    }

    /// Records an error without suggestions.
    pub fn add_compile_error(&mut self, kind: DiagKind, message: String, range: (Pos, Pos))
        ensures
            final(self)@ == old(self)@.push(
                diag_view(kind, message@, range, Seq::<Seq<char>>::empty()),
            ),
    {
        let empty: Vec<String> = Vec::new();
        proof {
            assert(empty@.map_values(|s: String| s@) =~= Seq::<Seq<char>>::empty());
        }
        self.add_compile_error_with_suggestions(kind, message, range, empty);
    }

    /// Records an error carrying suggested replacement strings.
    pub fn add_compile_error_with_suggestions(
        &mut self,
        kind: DiagKind,
        message: String,
        range: (Pos, Pos),
        suggestions: Vec<String>,
    )
        ensures
            final(self)@ == old(self)@.push(
                diag_view(kind, message@, range, suggestions@.map_values(|s: String| s@)),
            ),
    {
        let d = Diagnostic { kind, message, start: range.0, end: range.1, suggestions };
        let ghost dv = d@;
        self.diagnostics.push(d);
        proof {
            assert(self@ =~= old(self)@.push(dv));
        }
    }
}

} // verus!
