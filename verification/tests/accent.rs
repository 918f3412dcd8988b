use pink_accents::accent::{build_accent, Accent};
use pink_accents::error::MatchError;
use pink_accents::pattern::Pattern;
use pink_accents::replacement::Replacement;
use pink_accents::source::Source;
use pink_accents::target::{DirectTarget, MapTarget, MultiTarget, Target};

fn fixed(replacement: &'static str) -> Target {
    Target::Fixed(DirectTarget { replacement })
}

fn fixed_accent(rules: &[(&'static str, &'static str)]) -> Accent {
    build_accent(rules.iter().map(|(pattern, replacement)| (Source::Raw(*pattern), fixed(*replacement))).collect())
        .unwrap()
}

#[test]
fn accent_without_rules_returns_the_text() {
    let accent = Accent::new(vec![]);
    assert_eq!(accent.apply("the cat sat", 0).unwrap(), "the cat sat");
    assert_eq!(accent.apply("", 9).unwrap(), "");
    assert_eq!(accent.apply("héllo wörld", -1).unwrap(), "héllo wörld");
    let built = build_accent(vec![]).unwrap();
    assert!(built.replacements().is_empty());
    assert_eq!(built.apply("unchanged", 3).unwrap(), "unchanged");
}

#[test]
fn later_rule_sees_output_of_earlier_rule() {
    let accent = fixed_accent(&[(r"\bcat\b", "dog"), (r"\bdog\b", "fish")]);
    assert_eq!(accent.apply("the cat sat", 0).unwrap(), "the fish sat");
}

#[test]
fn earlier_rule_does_not_see_output_of_later_rule() {
    let accent = fixed_accent(&[(r"\bdog\b", "fish"), (r"\bcat\b", "dog")]);
    assert_eq!(accent.apply("the cat sat", 0).unwrap(), "the dog sat");
}

#[test]
fn applying_twice_need_not_be_a_no_op() {
    let accent = fixed_accent(&[("a", "aa")]);
    let once = accent.apply("a", 0).unwrap();
    let twice = accent.apply(&once, 0).unwrap();
    assert_eq!(once, "aa");
    assert_eq!(twice, "aaaa");
    assert_ne!(once, twice);
}

#[test]
fn fixed_accent_is_deterministic() {
    let accent = fixed_accent(&[
        (r"\babout\b", "aboot"),
        (r"\bboys\b", "lads"),
        (r"\bgirls\b", "lasses"),
        (r"$(?<!```)\z", " aye"),
    ]);
    let text = "what about the boys and the girls";
    let expected = "what aboot the lads and the lasses aye";
    for severity in [i32::MIN, -1, 0, 1, 10, i32::MAX] {
        assert_eq!(accent.apply(text, severity).unwrap(), expected);
        assert_eq!(accent.apply(text, severity).unwrap(), expected);
    }
}

#[test]
fn accent_keeps_the_order_of_its_rules() {
    let accent = fixed_accent(&[("b", "2"), ("a", "1"), ("c", "3")]);
    let sources: Vec<&str> = accent.replacements().iter().map(|rule| rule.source().as_str()).collect();
    assert_eq!(sources, vec!["b", "a", "c"]);
}

#[test]
fn accent_from_rules_applies_them_in_order() {
    let first = Replacement::new(Source::Raw("x"), fixed("y")).unwrap();
    let second = Replacement::new(Source::Regex(Pattern::new("y").unwrap()), fixed("z")).unwrap();
    let accent = Accent::new(vec![first, second]);
    assert_eq!(accent.replacements().len(), 2);
    assert_eq!(accent.apply("xyz", 1).unwrap(), "zzz");
}

#[test]
fn one_bad_pattern_fails_the_whole_accent() {
    let error = build_accent(vec![
        (Source::Raw("fine"), fixed("a")),
        (Source::Raw("(broken"), fixed("b")),
        (Source::Raw("also fine"), fixed("c")),
    ])
    .unwrap_err();
    assert!(error.message().starts_with("regex compilation failed: "));
}

#[test]
fn failing_rule_fails_the_whole_application() {
    let accent = fixed_accent(&[("x", "xx"), (r"(x+x+)+(?>y)", "z"), ("x", "never reached")]);
    let error = accent.apply("xxxxxxxxxxxxxxxxxxxx", 0).unwrap_err();
    assert!(matches!(error, MatchError::Engine(_)));
    assert_eq!(accent.apply("no such letter", 0).unwrap(), "no such letter");
}

#[test]
fn random_targets_draw_afresh_in_every_application() {
    let multi = MultiTarget::new(vec![fixed("1"), fixed("2"), fixed("3"), fixed("4")]).unwrap();
    let weighted = MapTarget::new(vec![(fixed("never"), 0), (fixed("!"), 3)]).unwrap();
    let accent = build_accent(vec![
        (Source::Raw("n"), Target::Multi(multi)),
        (Source::Raw(r"\z"), Target::Weighted(weighted)),
    ])
    .unwrap();
    let mut outputs = std::collections::BTreeSet::new();
    for _ in 0..300 {
        let out = accent.apply("nnnn", 4).unwrap();
        assert_eq!(out.len(), 5);
        assert!(out.ends_with('!'));
        assert!(out[..4].chars().all(|c| ('1'..='4').contains(&c)));
        outputs.insert(out);
    }
    assert!(outputs.len() > 1);
}
