//! What a target is shown of one match.

use vstd::prelude::*;

verus! {

/// One match as a target sees it: the matched text, borrowed from the text
/// that is being rewritten, and the severity of the call.
#[derive(Clone, Copy, Debug)]
pub struct Capture<'text> {
    original: &'text str,
    severity: i32,
}

impl<'text> Capture<'text> {
    /// The matched text as characters.
    pub closed spec fn spec_original(self) -> Seq<char> {
        self.original@
    }

    /// The severity that the match was found under.
    pub closed spec fn spec_severity(self) -> i32 {
        self.severity
    }

    pub fn new(original: &'text str, severity: i32) -> (caps: Self)
        ensures
            caps.spec_original() == original@,
            caps.spec_severity() == severity,
    {
        Self { original, severity }
    }

    /// The whole matched text.
    pub fn original(&self) -> (matched: &'text str)
        ensures
            matched@ == self.spec_original(),
    {
        self.original
    }

    /// The severity that the match was found under.
    pub fn severity(&self) -> (severity: i32)
        ensures
            severity == self.spec_severity(),
    {
        self.severity
    }
}

} // verus!
