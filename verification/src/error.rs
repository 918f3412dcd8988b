//! The three ways in which building or applying an accent can fail.

use vstd::prelude::*;
use vstd::string::StringExecFns;

verus! {

/// A pattern source that the regex engine refused to compile.
#[derive(Debug)]
pub struct PatternError {
    /// The engine's own account of what is wrong with the pattern.
    pub detail: String,
}

impl PatternError {
    /// The text that every message about a refused pattern starts with.
    pub open spec fn spec_prefix() -> Seq<char> {
        "regex compilation failed: "@
    }

    /// The full message: a fixed prefix followed by the engine's account.
    pub fn message(&self) -> (text: String)
        ensures
            text@ == Self::spec_prefix() + self.detail@,
    {
        let mut text = String::from_str("regex compilation failed: ");
        text.append(self.detail.as_str());
        text
    }
}

/// A target that was given nothing valid to choose from.
#[derive(Clone, Copy, Debug, PartialEq, Eq, Structural)]
pub enum ConfigError {
    /// There is no sub-target at all.
    NoItem,
    /// A weight is larger than the sampling table can hold for this many
    /// sub-targets.
    InvalidWeight,
    /// Every weight is zero, so nothing could ever be drawn.
    AllWeightsZero,
    /// There are more sub-targets than the sampling table can index.
    TooMany,
}

/// A failure of the regex engine while it searched one particular text.
#[derive(Debug)]
pub enum MatchError {
    /// The engine gave up on the text; the string is its own account of why.
    Engine(String),
    /// The engine reported a match, at this position in its list, that does
    /// not lie on whole characters behind the match before it.
    Span(usize),
}

} // verus!
