//! Where a replacement takes its pattern from.

use vstd::prelude::*;

use crate::error::PatternError;
use crate::pattern::{pattern_compiles, Pattern};

verus! {

/// Regex to match against.
#[derive(Debug)]
pub enum Source {
    /// Pattern text that is still to be compiled.
    Raw(&'static str),
    /// A pattern that was compiled before.
    Regex(Pattern),
}

impl Source {
    /// The pattern text.
    pub open spec fn text(self) -> Seq<char> {
        match self {
            Source::Raw(raw) => raw@,
            Source::Regex(pattern) => pattern@,
        }
    }
}

impl Pattern {
    /// The compiled pattern of a source: raw text is compiled, and fails where
    /// the engine does not accept it; a compiled pattern is handed on.
    pub fn try_from(source: Source) -> (r: Result<Pattern, PatternError>)
        ensures
            r is Ok <==> pattern_compiles(source.text()),
            r matches Ok(pattern) ==> pattern@ == source.text() && pattern.well_formed(),
    {
        match source {
            Source::Raw(raw) => Pattern::new(raw),
            Source::Regex(pattern) => {
                proof {
                    use_type_invariant(&pattern);
                }
                Ok(pattern)
            },
        }
    }
}

} // verus!
