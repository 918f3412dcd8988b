//! The pattern matcher: one compiled regular expression.

use vstd::prelude::*;

use crate::error::{MatchError, PatternError};
use crate::text::{first_misfit, misfits_first, spans_fit, Span};

verus! {

/// `fancy_regex::Regex`, a compiled regular expression: carried through, never
/// looked into.
#[verifier::external_type_specification]
#[verifier::external_body]
pub struct ExRegex(fancy_regex::Regex);

/// `fancy_regex::Error`, what the engine reports when it cannot compile a
/// pattern or gives up on a text: carried through, never looked into.
#[verifier::external_type_specification]
#[verifier::external_body]
pub struct ExRegexError(fancy_regex::Error);

/// The pattern text that a compiled regex was built from.
pub uninterp spec fn regex_source(regex: fancy_regex::Regex) -> Seq<char>;

/// Whether the regex engine accepts `source` as a pattern.
pub uninterp spec fn pattern_compiles(source: Seq<char>) -> bool;

/// The matches that the pattern `source` has in `text`: every non-overlapping
/// match from left to right, or `None` where the engine fails on this text.
pub uninterp spec fn pattern_spans(source: Seq<char>, text: Seq<char>) -> Option<Seq<Span>>;

/// `fancy_regex::Regex::new`: compiles `source` with the engine's default
/// options. Whether it succeeds depends on the pattern text alone, and a regex
/// that comes back remembers the text it was built from.
#[verifier::external_body]
fn regex_new(source: &str) -> (r: Result<fancy_regex::Regex, fancy_regex::Error>)
    ensures
        r is Ok <==> pattern_compiles(source@),
        r matches Ok(regex) ==> regex_source(regex) == source@,
{
    fancy_regex::Regex::new(source)
}

/// `fancy_regex::Regex::as_str`: the pattern text a regex was built from.
#[verifier::external_body]
fn regex_as_str(regex: &fancy_regex::Regex) -> (source: &str)
    ensures
        source@ == regex_source(*regex),
{
    regex.as_str()
}

/// The `Display` text of a `fancy_regex::Error`. Nothing is claimed of it.
#[verifier::external_body]
fn error_text(error: &fancy_regex::Error) -> String {
    error.to_string()
}

/// A compiled pattern. It is only ever made by [`Pattern::new`], so the regex
/// inside was compiled from its source with the engine's default options.
#[derive(Debug)]
pub struct Pattern {
    regex: fancy_regex::Regex,
}

/// `fancy_regex::Regex::find_iter`, run to its end: the byte offsets of each
/// successive non-overlapping match in `text`, or the first error that the
/// engine reports. For a regex compiled with the default options this is a
/// function of the pattern text and the searched text.
#[verifier::external_body]
fn regex_find_iter(pattern: &Pattern, text: &str) -> (r: Result<Vec<Span>, fancy_regex::Error>)
    ensures
        r matches Ok(spans) ==> pattern_spans(pattern@, text@) == Some(spans@),
        r is Err ==> pattern_spans(pattern@, text@) is None,
{
    pattern.regex.find_iter(text).map(|found| {
        found.map(|found| Span { start: found.start(), end: found.end() })
    }).collect()
}

/// Whether `error` is the report that fits `spans`: it names the first span
/// that cannot be cut out of `text`.
pub open spec fn reports_misfit(text: Seq<char>, spans: Seq<Span>, error: MatchError) -> bool {
    error matches MatchError::Span(index) && misfits_first(text, spans, index as int)
}

/// Whether searching `text` for the pattern `source` gives `spans`: they are
/// what the engine reports, and they are successive, non-overlapping
/// stretches of whole characters of the text.
pub open spec fn finds(source: Seq<char>, text: Seq<char>, spans: Seq<Span>) -> bool {
    pattern_spans(source, text) == Some(spans) && spans_fit(text, spans)
}

/// Whether searching `text` for the pattern `source` fails, and with `error`:
/// the engine fails on the text, or it reports spans of which one does not
/// fit.
pub open spec fn search_fails_with(source: Seq<char>, text: Seq<char>, error: MatchError) -> bool {
    match pattern_spans(source, text) {
        None => error is Engine,
        Some(spans) => reports_misfit(text, spans, error),
    }
}

impl View for Pattern {
    type V = Seq<char>;

    /// The pattern text.
    closed spec fn view(&self) -> Seq<char> {
        regex_source(self.regex)
    }
}

impl Pattern {
    /// The engine accepted the pattern text.
    #[verifier::type_invariant]
    pub open spec fn well_formed(self) -> bool {
        pattern_compiles(self@)
    }

    /// Compiles `source`. Fails exactly on the texts that the engine does not
    /// accept as a pattern.
    pub fn new(source: &str) -> (r: Result<Pattern, PatternError>)
        ensures
            r is Ok <==> pattern_compiles(source@),
            r matches Ok(pattern) ==> pattern@ == source@ && pattern.well_formed(),
    {
        match regex_new(source) {
            Ok(regex) => Ok(Pattern { regex }),
            Err(error) => Err(PatternError { detail: error_text(&error) }),
        }
    }

    /// The pattern text.
    pub fn as_str(&self) -> (source: &str)
        ensures
            source@ == self@,
            pattern_compiles(self@),
    {
        proof {
            use_type_invariant(self);
        }
        regex_as_str(&self.regex)
    }

    /// Every match of the pattern in `text`: successive, non-overlapping
    /// stretches of whole characters, from left to right. What the engine
    /// reports is looked over before it is handed on.
    pub fn find_spans(&self, text: &str) -> (r: Result<Vec<Span>, MatchError>)
        ensures
            match r {
                Ok(spans) => finds(self@, text@, spans@),
                Err(error) => search_fails_with(self@, text@, error),
            },
    {
        match regex_find_iter(self, text) {
            Ok(spans) => match first_misfit(text, &spans) {
                None => Ok(spans),
                Some(index) => Err(MatchError::Span(index)),
            },
            Err(error) => Err(MatchError::Engine(error_text(&error))),
        }
    }
}

} // verus!
