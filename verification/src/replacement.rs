//! The rule: one pattern bound to one target.

use std::borrow::Cow;
use vstd::prelude::*;
use vstd::string::StringExecFns;
use vstd::utf8::*;

use crate::capture::Capture;
use crate::error::{MatchError, PatternError};
use crate::pattern::{
    finds, pattern_compiles, pattern_spans, reports_misfit, search_fails_with, Pattern,
};
use crate::source::Source;
use crate::target::Target;
use crate::text::{
    byte_len, first_misfit, gap_start, lemma_splice_nothing, lemma_spliced_through_prefix,
    matched_text, slice, span_fits, spans_fit, splice, spliced_through, Span,
};

verus! {

/// Whether `fragments` holds, for each of `spans`, a fragment that `target`
/// may hand out when it is shown the text of that span at `severity`.
pub open spec fn fragments_suit(
    target: Target,
    text: Seq<char>,
    spans: Seq<Span>,
    severity: i32,
    fragments: Seq<Seq<char>>,
) -> bool {
    &&& fragments.len() == spans.len()
    &&& forall|i: int|
        0 <= i < fragments.len() ==> target.can_produce(
            matched_text(text, spans[i]),
            severity,
            #[trigger] fragments[i],
        )
}

/// Whether `out` is `text` with each of `spans` replaced by a fragment that
/// `target` may hand out for it at `severity`, and everything else left as it
/// is.
pub open spec fn rewrites(
    target: Target,
    text: Seq<char>,
    spans: Seq<Span>,
    severity: i32,
    out: Seq<char>,
) -> bool {
    exists|fragments: Seq<Seq<char>>|
        fragments_suit(target, text, spans, severity, fragments) && out == #[trigger] splice(
            text,
            spans,
            fragments,
        )
}

/// One rewrite rule.
#[derive(Debug)]
pub struct Replacement {
    source: Pattern,
    target: Target,
}

impl Replacement {
    /// The text of the rule's pattern.
    pub closed spec fn pattern(self) -> Seq<char> {
        self.source@
    }

    /// The rule's target.
    pub closed spec fn spec_target(self) -> Target {
        self.target
    }

    /// Whether applying the rule to `text` at `severity` may give `out`: the
    /// search for the pattern gives spans, and `out` is the text with each of
    /// them replaced by a fragment from the target.
    pub open spec fn may_give(self, text: Seq<char>, severity: i32, out: Seq<char>) -> bool {
        &&& pattern_spans(self.pattern(), text) matches Some(spans)
        &&& finds(self.pattern(), text, spans)
        &&& rewrites(self.spec_target(), text, spans, severity, out)
    }

    /// Whether applying the rule to `text` fails, and with `error`: the
    /// search for the pattern does.
    pub open spec fn fails_with(self, text: Seq<char>, error: MatchError) -> bool {
        search_fails_with(self.pattern(), text, error)
    }

    /// What applying a rule with a `Fixed` target to `text` gives: every match
    /// replaced by the target's fragment, or nothing where the rule fails.
    pub open spec fn fixed_result(self, text: Seq<char>) -> Option<Seq<char>> {
        match pattern_spans(self.pattern(), text) {
            Some(spans) => if spans_fit(text, spans) {
                Some(
                    splice(
                        text,
                        spans,
                        Seq::new(
                            spans.len(),
                            |i: int| self.spec_target()->Fixed_0.replacement@,
                        ),
                    ),
                )
            } else {
                None
            },
            None => None,
        }
    }

    /// Binds a pattern to a target. Fails exactly where the source is raw
    /// text that the engine does not accept as a pattern.
    pub fn new(source: Source, target: Target) -> (r: Result<Self, PatternError>)
        ensures
            r is Ok <==> pattern_compiles(source.text()),
            r matches Ok(rule) ==> rule.pattern() == source.text() && rule.spec_target() == target,
    {
        match Pattern::try_from(source) {
            Ok(source) => Ok(Self { source, target }),
            Err(error) => Err(error),
        }
    }

    /// The rule's pattern.
    pub fn source(&self) -> (source: &Pattern)
        ensures
            source@ == self.pattern(),
    {
        &self.source
    }

    /// The rule's target.
    pub fn target(&self) -> (target: &Target)
        ensures
            *target == self.spec_target(),
    {
        &self.target
    }

    /// Replaces every match of the pattern in `text` by a fragment from the
    /// target, which is shown the matched text and `severity`. A text without
    /// a match is handed back as it is, borrowed; nothing else is ever handed
    /// back borrowed. A failure of the engine on this text is the result;
    /// nothing of a partly rewritten text is. With a `Fixed` target the
    /// result depends on the text alone.
    pub fn apply<'text>(&self, text: &'text str, severity: i32) -> (r: Result<
        Cow<'text, str>,
        MatchError,
    >)
        ensures
            match r {
                Ok(out) => self.may_give(text@, severity, out@),
                Err(error) => self.fails_with(text@, error),
            },
            pattern_spans(self.pattern(), text@) == Some(Seq::<Span>::empty()) ==> r == Ok::<
                Cow<'text, str>,
                MatchError,
            >(Cow::Borrowed(text)),
            r matches Ok(Cow::Borrowed(kept)) ==> kept@ == text@,
            self.spec_target() is Fixed ==> match r {
                Ok(out) => self.fixed_result(text@) == Some(out@),
                Err(_) => self.fixed_result(text@) is None,
            },
    {
        match self.source.find_spans(text) {
            Ok(spans) => {
                let out = self.fill(text, &spans, severity);
                proof {
                    if self.spec_target() is Fixed {
                        self.lemma_fixed_gives(text@, severity, out@);
                    }
                }
                Ok(out)
            },
            Err(error) => Err(error),
        }
    }

    /// Replaces each of `spans` in `text` by a fragment from the target and
    /// keeps what lies between them. With no span the text is handed back as
    /// it is, borrowed; nothing else is ever handed back borrowed. Spans that
    /// are not successive stretches of whole characters of `text` are
    /// refused, with the position of the first one that is at fault.
    pub fn rewrite<'text>(&self, text: &'text str, spans: &Vec<Span>, severity: i32) -> (r: Result<
        Cow<'text, str>,
        MatchError,
    >)
        ensures
            match r {
                Ok(out) => spans_fit(text@, spans@) && rewrites(
                    self.spec_target(),
                    text@,
                    spans@,
                    severity,
                    out@,
                ),
                Err(error) => reports_misfit(text@, spans@, error),
            },
            spans@.len() == 0 ==> r == Ok::<Cow<'text, str>, MatchError>(Cow::Borrowed(text)),
            r matches Ok(Cow::Borrowed(kept)) ==> kept@ == text@,
    {
        match first_misfit(text, spans) {
            None => Ok(self.fill(text, spans, severity)),
            Some(index) => Err(MatchError::Span(index)),
        }
    }

    /// Replaces each of `spans`, which fit `text`, by a fragment from the
    /// target and keeps what lies between them.
    fn fill<'text>(&self, text: &'text str, spans: &Vec<Span>, severity: i32) -> (out: Cow<
        'text,
        str,
    >)
        requires
            spans_fit(text@, spans@),
        ensures
            rewrites(self.spec_target(), text@, spans@, severity, out@),
            spans@.len() == 0 ==> out == Cow::<'text, str>::Borrowed(text),
            out matches Cow::Borrowed(kept) ==> kept@ == text@,
    {
        if spans.len() == 0 {
            proof {
                let none = Seq::<Seq<char>>::empty();
                lemma_splice_nothing(text@, none);
                assert(fragments_suit(self.spec_target(), text@, spans@, severity, none));
                assert(text@ == splice(text@, spans@, none));
            }
            return Cow::Borrowed(text);
        }
        let mut out = String::new();
        let mut floor: usize = 0;
        let ghost mut fragments: Seq<Seq<char>> = Seq::empty();
        for index in 0..spans.len()
            invariant
                spans_fit(text@, spans@),
                floor == gap_start(spans@, index as int),
                fragments_suit(
                    self.spec_target(),
                    text@,
                    spans@.take(index as int),
                    severity,
                    fragments,
                ),
                out@ == spliced_through(text@, spans@, fragments, index as nat),
        {
            let span = spans[index];
            assert(span_fits(text@, spans@, index as int));
            out.append(slice(text, floor, span.start));
            let fragment = self.target.callback(
                Capture::new(slice(text, span.start, span.end), severity),
            );
            out.append(fragment);
            proof {
                let longer = fragments.push(fragment@);
                lemma_spliced_through_prefix(text@, spans@, fragments, longer, index as nat);
                fragments = longer;
            }
            floor = span.end;
        }
        proof {
            broadcast use group_utf8_lib;
            assert(span_fits(text@, spans@, spans.len() - 1));
            assert(spans@.take(spans.len() as int) == spans@);
        }
        out.append(slice(text, floor, byte_len(text)));
        assert(out@ == splice(text@, spans@, fragments));
        Cow::Owned(out)
    }

    /// A rule whose pattern matches nowhere in a text can only hand the text
    /// back as it is.
    pub proof fn lemma_no_match_changes_nothing(self, text: Seq<char>, severity: i32, out: Seq<char>)
        requires
            pattern_spans(self.pattern(), text) == Some(Seq::<Span>::empty()),
            self.may_give(text, severity, out),
        ensures
            out == text,
    {
        let spans = Seq::<Span>::empty();
        let fragments = choose|fragments: Seq<Seq<char>>|
            fragments_suit(self.spec_target(), text, spans, severity, fragments) && out
                == #[trigger] splice(text, spans, fragments);
        lemma_splice_nothing(text, fragments);
    }

    /// What a rule with a `Fixed` target may give is what
    /// [`fixed_result`](Self::fixed_result) says, and nothing else, whatever
    /// the severity.
    pub proof fn lemma_fixed_gives(self, text: Seq<char>, severity: i32, out: Seq<char>)
        requires
            self.spec_target() is Fixed,
            self.may_give(text, severity, out),
        ensures
            self.fixed_result(text) == Some(out),
    {
        let spans = pattern_spans(self.pattern(), text)->0;
        let fragments = choose|fragments: Seq<Seq<char>>|
            fragments_suit(self.spec_target(), text, spans, severity, fragments) && out
                == #[trigger] splice(text, spans, fragments);
        assert(fragments =~= Seq::new(
            spans.len(),
            |i: int| self.spec_target()->Fixed_0.replacement@,
        ));
    }

    /// Where a rule fails, [`fixed_result`](Self::fixed_result) is nothing.
    pub proof fn lemma_fixed_fails(self, text: Seq<char>, error: MatchError)
        requires
            self.fails_with(text, error),
        ensures
            self.fixed_result(text) is None,
    {
    }
}

} // verus!
