//! The accent: an ordered list of rules that a text is folded through.

use std::borrow::Cow;
use vstd::prelude::*;

use crate::error::{MatchError, PatternError};
use crate::pattern::pattern_compiles;
use crate::replacement::Replacement;
use crate::source::Source;
use crate::target::Target;

verus! {

/// Whether `rules`, applied one behind the other and each at `severity`, may
/// turn `text` into `out`: the last rule works on what the rules before it
/// may have made of the text.
pub open spec fn folds_to(
    rules: Seq<Replacement>,
    text: Seq<char>,
    severity: i32,
    out: Seq<char>,
) -> bool
    decreases rules.len(),
{
    if rules.len() == 0 {
        out == text
    } else {
        exists|mid: Seq<char>|
            folds_to(rules.drop_last(), text, severity, mid) && #[trigger] rules.last().may_give(
                mid,
                severity,
                out,
            )
    }
}

/// Whether applying `rules` one behind the other to `text` may fail with
/// `error`: some rule fails with it on what the rules before it may have made
/// of the text.
pub open spec fn fold_fails_with(
    rules: Seq<Replacement>,
    text: Seq<char>,
    severity: i32,
    error: MatchError,
) -> bool {
    exists|count: int, mid: Seq<char>|
        0 <= count < rules.len() && folds_to(rules.take(count), text, severity, mid)
            && #[trigger] rules[count].fails_with(mid, error)
}

/// Whether every one of `rules` has a `Fixed` target.
pub open spec fn all_fixed(rules: Seq<Replacement>) -> bool {
    forall|i: int| 0 <= i < rules.len() ==> (#[trigger] rules[i]).spec_target() is Fixed
}

/// What rules with `Fixed` targets make of `text` when they are applied one
/// behind the other, or nothing where one of them fails.
pub open spec fn fixed_fold(rules: Seq<Replacement>, text: Seq<char>) -> Option<Seq<char>>
    decreases rules.len(),
{
    if rules.len() == 0 {
        Some(text)
    } else {
        match fixed_fold(rules.drop_last(), text) {
            Some(mid) => rules.last().fixed_result(mid),
            None => None,
        }
    }
}

/// An ordered list of rules. Each rule works on what the rule before it made
/// of the text, so the order matters.
#[derive(Debug)]
pub struct Accent {
    replacements: Vec<Replacement>,
}

impl Accent {
    /// The rules, in the order they are applied.
    pub closed spec fn rules(self) -> Seq<Replacement> {
        self.replacements@
    }

    /// Whether applying the accent to `text` at `severity` may give `out`.
    pub open spec fn may_give(self, text: Seq<char>, severity: i32, out: Seq<char>) -> bool {
        folds_to(self.rules(), text, severity, out)
    }

    /// Whether applying the accent to `text` at `severity` may fail, and with
    /// `error`.
    pub open spec fn fails_with(self, text: Seq<char>, severity: i32, error: MatchError) -> bool {
        fold_fails_with(self.rules(), text, severity, error)
    }

    /// Whether applying the accent to `text` at `severity` may end in `end`:
    /// in a text, or in a failure where `end` is nothing.
    pub open spec fn may_end_in(self, text: Seq<char>, severity: i32, end: Option<Seq<char>>) -> bool {
        match end {
            Some(out) => self.may_give(text, severity, out),
            None => exists|error: MatchError| self.fails_with(text, severity, error),
        }
    }

    /// Whether every rule has a `Fixed` target.
    pub open spec fn fixed_only(self) -> bool {
        all_fixed(self.rules())
    }

    /// What an accent of `Fixed` targets makes of `text`, or nothing where
    /// one of its rules fails.
    pub open spec fn fixed_result(self, text: Seq<char>) -> Option<Seq<char>> {
        fixed_fold(self.rules(), text)
    }

    /// An accent that applies `replacements` in their order.
    pub fn new(replacements: Vec<Replacement>) -> (accent: Self)
        ensures
            accent.rules() == replacements@,
    {
        Self { replacements }
    }

    /// The rules, in the order they are applied.
    pub fn replacements(&self) -> (rules: &[Replacement])
        ensures
            rules@ == self.rules(),
    {
        self.replacements.as_slice()
    }

    /// Folds `text` through the rules in their order, each with the same
    /// `severity`: a rule sees what the rule before it made of the text. The
    /// first failure of a rule is the result; nothing of a partly rewritten
    /// text is. Without rules the text comes back as it is, and with `Fixed`
    /// targets alone the result depends on the text only.
    pub fn apply(&self, text: &str, severity: i32) -> (r: Result<String, MatchError>)
        ensures
            match r {
                Ok(out) => self.may_give(text@, severity, out@),
                Err(error) => self.fails_with(text@, severity, error),
            },
            self.rules().len() == 0 ==> (r matches Ok(out) && out@ == text@),
            self.fixed_only() ==> match r {
                Ok(out) => self.fixed_result(text@) == Some(out@),
                Err(_) => self.fixed_result(text@) is None,
            },
    {
        let mut current: String = text.to_owned();
        for index in 0..self.replacements.len()
            invariant
                folds_to(self.rules().take(index as int), text@, severity, current@),
        {
            let ghost before = current@;
            let changed: Option<String> = match self.replacements[index].apply(
                current.as_str(),
                severity,
            ) {
                Ok(Cow::Borrowed(_)) => None,
                Ok(Cow::Owned(made)) => Some(made),
                Err(error) => {
                    proof {
                        assert(self.rules()[index as int].fails_with(before, error));
                        if self.fixed_only() {
                            lemma_fixed_fold_fails(self.rules(), text@, severity, error);
                        }
                    }
                    return Err(error);
                },
            };
            if let Some(made) = changed {
                current = made;
            }
            proof {
                let longer = self.rules().take(index + 1);
                assert(longer.drop_last() == self.rules().take(index as int));
                assert(longer.last().may_give(before, severity, current@));
            }
        }
        proof {
            assert(self.rules().take(self.rules().len() as int) == self.rules());
            if self.fixed_only() {
                lemma_fixed_fold_gives(self.rules(), text@, severity, current@);
            }
        }
        Ok(current)
    }

    /// An accent of `Fixed` targets alone is deterministic: whatever two
    /// applications to the same text end in, be it a text or a failure, and
    /// whatever the severity of each, they end in the same.
    pub proof fn lemma_fixed_accent_is_deterministic(
        self,
        text: Seq<char>,
        first_severity: i32,
        first: Option<Seq<char>>,
        second_severity: i32,
        second: Option<Seq<char>>,
    )
        requires
            self.fixed_only(),
            self.may_end_in(text, first_severity, first),
            self.may_end_in(text, second_severity, second),
        ensures
            first == second,
    {
        self.lemma_fixed_end(text, first_severity, first);
        self.lemma_fixed_end(text, second_severity, second);
    }

    /// Every end of an accent of `Fixed` targets on a text is its
    /// [`fixed_result`](Self::fixed_result).
    pub proof fn lemma_fixed_end(self, text: Seq<char>, severity: i32, end: Option<Seq<char>>)
        requires
            self.fixed_only(),
            self.may_end_in(text, severity, end),
        ensures
            end == self.fixed_result(text),
    {
        match end {
            Some(out) => {
                lemma_fixed_fold_gives(self.rules(), text, severity, out);
            },
            None => {
                let error = choose|error: MatchError| self.fails_with(text, severity, error);
                lemma_fixed_fold_fails(self.rules(), text, severity, error);
            },
        }
    }

    /// An accent without rules can only hand a text back as it is.
    pub proof fn lemma_no_rules_change_nothing(
        self,
        text: Seq<char>,
        severity: i32,
        end: Option<Seq<char>>,
    )
        requires
            self.rules().len() == 0,
            self.may_end_in(text, severity, end),
        ensures
            end == Some(text),
    {
    }
}

/// Rules in a row work as a pipeline: what `first` followed by `second` may
/// make of a text is what `second` may make of something that `first` may
/// make of it.
pub proof fn lemma_fold_is_a_pipeline(
    first: Seq<Replacement>,
    second: Seq<Replacement>,
    text: Seq<char>,
    severity: i32,
    out: Seq<char>,
)
    ensures
        folds_to(first + second, text, severity, out) <==> exists|mid: Seq<char>|
            folds_to(first, text, severity, mid) && #[trigger] folds_to(second, mid, severity, out),
    decreases second.len(),
{
    let both = first + second;
    if second.len() == 0 {
        assert(both == first);
        if folds_to(first, text, severity, out) {
            assert(folds_to(second, out, severity, out));
        }
    } else {
        assert(both.drop_last() == first + second.drop_last());
        assert(both.last() == second.last());
        if folds_to(both, text, severity, out) {
            let late = choose|late: Seq<char>|
                folds_to(both.drop_last(), text, severity, late) && #[trigger] both.last().may_give(
                    late,
                    severity,
                    out,
                );
            lemma_fold_is_a_pipeline(first, second.drop_last(), text, severity, late);
            let mid = choose|mid: Seq<char>|
                folds_to(first, text, severity, mid) && #[trigger] folds_to(
                    second.drop_last(),
                    mid,
                    severity,
                    late,
                );
            assert(second.last().may_give(late, severity, out));
            assert(folds_to(second, mid, severity, out));
        }
        if exists|mid: Seq<char>|
            folds_to(first, text, severity, mid) && #[trigger] folds_to(second, mid, severity, out) {
            let mid = choose|mid: Seq<char>|
                folds_to(first, text, severity, mid) && #[trigger] folds_to(
                    second,
                    mid,
                    severity,
                    out,
                );
            let late = choose|late: Seq<char>|
                folds_to(second.drop_last(), mid, severity, late)
                    && #[trigger] second.last().may_give(late, severity, out);
            lemma_fold_is_a_pipeline(first, second.drop_last(), text, severity, late);
            assert(folds_to(both.drop_last(), text, severity, late));
            assert(both.last().may_give(late, severity, out));
        }
    }
}

/// What rules with `Fixed` targets may make of a text is what
/// [`fixed_fold`] says, whatever the severity.
pub proof fn lemma_fixed_fold_gives(
    rules: Seq<Replacement>,
    text: Seq<char>,
    severity: i32,
    out: Seq<char>,
)
    requires
        all_fixed(rules),
        folds_to(rules, text, severity, out),
    ensures
        fixed_fold(rules, text) == Some(out),
    decreases rules.len(),
{
    if rules.len() > 0 {
        let mid = choose|mid: Seq<char>|
            folds_to(rules.drop_last(), text, severity, mid) && #[trigger] rules.last().may_give(
                mid,
                severity,
                out,
            );
        assert(all_fixed(rules.drop_last())) by {
            assert forall|i: int| 0 <= i < rules.drop_last().len() implies (
            #[trigger] rules.drop_last()[i]).spec_target() is Fixed by {
                assert(rules.drop_last()[i] == rules[i]);
            }
        }
        lemma_fixed_fold_gives(rules.drop_last(), text, severity, mid);
        rules.last().lemma_fixed_gives(mid, severity, out);
    }
}

/// Where rules with `Fixed` targets may fail on a text, [`fixed_fold`] is
/// nothing.
pub proof fn lemma_fixed_fold_fails(
    rules: Seq<Replacement>,
    text: Seq<char>,
    severity: i32,
    error: MatchError,
)
    requires
        all_fixed(rules),
        fold_fails_with(rules, text, severity, error),
    ensures
        fixed_fold(rules, text) is None,
{
    let (count, mid) = choose|count: int, mid: Seq<char>|
        0 <= count < rules.len() && folds_to(rules.take(count), text, severity, mid)
            && #[trigger] rules[count].fails_with(mid, error);
    let before = rules.take(count);
    let through = rules.take(count + 1);
    assert(all_fixed(before)) by {
        assert forall|i: int| 0 <= i < before.len() implies (#[trigger] before[i]).spec_target() is Fixed by {
            assert(before[i] == rules[i]);
        }
    }
    lemma_fixed_fold_gives(before, text, severity, mid);
    rules[count].lemma_fixed_fails(mid, error);
    assert(through.drop_last() == before);
    assert(through.last() == rules[count]);
    assert(fixed_fold(through, text) is None);
    lemma_fixed_fold_stays_failed(rules, text, count + 1);
}

/// Once one of the rules has failed, nothing comes of the rules behind it.
proof fn lemma_fixed_fold_stays_failed(rules: Seq<Replacement>, text: Seq<char>, failed: int)
    requires
        0 <= failed <= rules.len(),
        fixed_fold(rules.take(failed), text) is None,
    ensures
        fixed_fold(rules, text) is None,
    decreases rules.len() - failed,
{
    if failed < rules.len() {
        let longer = rules.take(failed + 1);
        assert(longer.drop_last() == rules.take(failed));
        lemma_fixed_fold_stays_failed(rules, text, failed + 1);
    } else {
        assert(rules.take(failed) == rules);
    }
}

/// Builds an accent from pattern sources and their targets, in their order.
/// One source that does not compile fails the whole accent: no rule is left
/// out silently.
pub fn build_accent(rules: Vec<(Source, Target)>) -> (r: Result<Accent, PatternError>)
    ensures
        r is Ok <==> forall|i: int|
            0 <= i < rules@.len() ==> pattern_compiles(#[trigger] rules@[i].0.text()),
        r matches Ok(accent) ==> {
            &&& accent.rules().len() == rules@.len()
            &&& forall|i: int|
                0 <= i < rules@.len() ==> {
                    &&& (#[trigger] accent.rules()[i]).pattern() == rules@[i].0.text()
                    &&& accent.rules()[i].spec_target() == rules@[i].1
                }
        },
{
    let ghost given = rules@;
    let mut replacements: Vec<Replacement> = Vec::with_capacity(rules.len());
    for rule in it: rules
        invariant
            it.seq() == given,
            replacements@.len() == it.index(),
            forall|i: int| 0 <= i < it.index() ==> pattern_compiles(#[trigger] given[i].0.text()),
            forall|i: int|
                0 <= i < it.index() ==> {
                    &&& (#[trigger] replacements@[i]).pattern() == given[i].0.text()
                    &&& replacements@[i].spec_target() == given[i].1
                },
    {
        let (source, target) = rule;
        match Replacement::new(source, target) {
            Ok(replacement) => {
                replacements.push(replacement);
            },
            Err(error) => {
                assert(!pattern_compiles(given[it.index()].0.text()));
                return Err(error);
            },
        }
    }
    Ok(Accent::new(replacements))
}

} // verus!
