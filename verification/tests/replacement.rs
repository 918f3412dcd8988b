use std::borrow::Cow;

use pink_accents::error::MatchError;
use pink_accents::pattern::Pattern;
use pink_accents::replacement::Replacement;
use pink_accents::source::Source;
use pink_accents::target::{DirectTarget, MapTarget, MultiTarget, Target};
use pink_accents::text::Span;

fn fixed(replacement: &'static str) -> Target {
    Target::Fixed(DirectTarget { replacement })
}

fn fixed_rule(pattern: &'static str, replacement: &'static str) -> Replacement {
    Replacement::new(Source::Raw(pattern), fixed(replacement)).unwrap()
}

#[test]
fn word_boundary_rule_does_not_match_inside_words() {
    let rule = fixed_rule(r"\bfoo\b", "bar");
    assert_eq!(rule.apply("foo foobar foo", 0).unwrap(), "bar foobar bar");
}

#[test]
fn rule_without_a_match_returns_the_text_unchanged() {
    let rule = fixed_rule(r"\bfoo\b", "bar");
    let text = String::from("nothing to see here");
    let result = rule.apply(&text, 0).unwrap();
    assert_eq!(result, "nothing to see here");
    match result {
        Cow::Borrowed(kept) => assert!(std::ptr::eq(kept, text.as_str())),
        Cow::Owned(_) => panic!("an unchanged text is not copied"),
    }
}

#[test]
fn rule_on_empty_text_returns_it() {
    let rule = fixed_rule("a", "b");
    assert!(matches!(rule.apply("", 0).unwrap(), Cow::Borrowed("")));
}

#[test]
fn rule_keeps_text_between_and_around_matches() {
    let rule = fixed_rule("[0-9]+", "#");
    assert_eq!(rule.apply("a1b22c333", 0).unwrap(), "a#b#c#");
    assert_eq!(rule.apply("1 and 2", 0).unwrap(), "# and #");
    assert_eq!(rule.apply("12", 0).unwrap(), "#");
}

#[test]
fn rule_works_on_text_with_wide_characters() {
    let rule = fixed_rule("ö", "oe");
    assert_eq!(rule.apply("schön böse ö", 0).unwrap(), "schoen boese oe");
    let rule = fixed_rule("l+", "L");
    assert_eq!(rule.apply("héllo wörld", 0).unwrap(), "héLo wörLd");
}

#[test]
fn rule_can_insert_at_empty_matches() {
    let rule = fixed_rule(r"$(?<!```)\z", " ye ken");
    assert_eq!(rule.apply("hello", 0).unwrap(), "hello ye ken");
    assert!(matches!(rule.apply("hello```", 0).unwrap(), Cow::Borrowed("hello```")));
    let rule = fixed_rule("", "-");
    assert_eq!(rule.apply("hé", 0).unwrap(), "-h-é-");
}

#[test]
fn fixed_rule_does_not_depend_on_severity() {
    let rule = fixed_rule(r"\babout\b", "aboot");
    let mild = rule.apply("what about it", i32::MIN).unwrap();
    let harsh = rule.apply("what about it", i32::MAX).unwrap();
    assert_eq!(mild, "what aboot it");
    assert_eq!(mild, harsh);
}

#[test]
fn rule_with_random_target_replaces_each_match_on_its_own() {
    let multi = MultiTarget::new(vec![fixed("x"), fixed("yy")]).unwrap();
    let rule = Replacement::new(Source::Raw("a"), Target::Multi(multi)).unwrap();
    let mut mixed = false;
    for _ in 0..200 {
        let out = rule.apply("a-a-a-a", 2).unwrap().into_owned();
        let parts: Vec<&str> = out.split('-').collect();
        assert_eq!(parts.len(), 4);
        assert!(parts.iter().all(|part| *part == "x" || *part == "yy"));
        mixed = mixed || parts.iter().any(|part| *part != parts[0]);
    }
    assert!(mixed);
}

#[test]
fn rule_with_weighted_target_never_uses_zero_weight() {
    let map = MapTarget::new(vec![(fixed("A"), 0), (fixed("B"), 1)]).unwrap();
    let rule = Replacement::new(Source::Raw("a"), Target::Weighted(map)).unwrap();
    for _ in 0..500 {
        assert_eq!(rule.apply("banana", 1).unwrap(), "bBnBnB");
    }
}

#[test]
fn rule_from_compiled_pattern() {
    let pattern = Pattern::new("na").unwrap();
    let rule = Replacement::new(Source::Regex(pattern), fixed("NA")).unwrap();
    assert_eq!(rule.source().as_str(), "na");
    assert_eq!(rule.apply("banana", 0).unwrap(), "baNANA");
}

#[test]
fn rule_hands_out_its_parts() {
    let rule = fixed_rule(r"\bboys\b", "lads");
    assert_eq!(rule.source().as_str(), r"\bboys\b");
    match rule.target() {
        Target::Fixed(direct) => assert_eq!(direct.replacement, "lads"),
        _ => panic!("the target was fixed"),
    }
}

#[test]
fn rule_with_bad_pattern_is_not_built() {
    let error = Replacement::new(Source::Raw("(unclosed"), fixed("x")).unwrap_err();
    assert!(error.message().starts_with("regex compilation failed: "));
}

#[test]
fn engine_failure_aborts_the_rule() {
    let rule = fixed_rule(r"(x+x+)+(?>y)", "z");
    let error = rule.apply("xxxxxxxxxxxxxxxxxxxxxxxxxxxxxxxxxxxxxxxx", 0).unwrap_err();
    assert!(matches!(error, MatchError::Engine(_)));
}

#[test]
fn rewrite_replaces_the_given_spans() {
    let rule = fixed_rule("unused", "bar");
    let spans = vec![Span { start: 0, end: 3 }, Span { start: 11, end: 14 }];
    assert_eq!(rule.rewrite("foo foobar foo", &spans, 0).unwrap(), "bar foobar bar");
    let spans = vec![Span { start: 4, end: 10 }];
    assert_eq!(rule.rewrite("foo foobar foo", &spans, 0).unwrap(), "foo bar foo");
    let spans = vec![Span { start: 0, end: 14 }];
    assert_eq!(rule.rewrite("foo foobar foo", &spans, 0).unwrap(), "bar");
}

#[test]
fn rewrite_with_adjacent_and_empty_spans() {
    let rule = fixed_rule("unused", "|");
    let spans = vec![Span { start: 0, end: 0 }, Span { start: 0, end: 1 }, Span { start: 1, end: 3 }, Span { start: 3, end: 3 }];
    assert_eq!(rule.rewrite("abc", &spans, 0).unwrap(), "||||");
    let spans = vec![Span { start: 1, end: 1 }];
    assert_eq!(rule.rewrite("héllo", &spans, 0).unwrap(), "h|éllo");
    let spans = vec![Span { start: 1, end: 3 }];
    assert_eq!(rule.rewrite("héllo", &spans, 0).unwrap(), "h|llo");
}

#[test]
fn rewrite_without_spans_borrows_the_text() {
    let rule = fixed_rule("unused", "bar");
    assert!(matches!(rule.rewrite("foo", &vec![], 0).unwrap(), Cow::Borrowed("foo")));
}

#[test]
fn rewrite_refuses_spans_that_do_not_fit() {
    let rule = fixed_rule("unused", "bar");
    let overlapping = vec![Span { start: 0, end: 3 }, Span { start: 2, end: 5 }];
    assert!(matches!(rule.rewrite("foo foobar", &overlapping, 0), Err(MatchError::Span(1))));
    let beyond = vec![Span { start: 0, end: 30 }];
    assert!(matches!(rule.rewrite("foo foobar", &beyond, 0), Err(MatchError::Span(0))));
    let inside = vec![Span { start: 0, end: 1 }, Span { start: 1, end: 1 }, Span { start: 2, end: 3 }];
    assert!(matches!(rule.rewrite("héllo", &inside, 0), Err(MatchError::Span(2))));
}
