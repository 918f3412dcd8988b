use pink_accents::accent::Accent;
use pink_accents::replacement::Replacement;
use pink_accents::scotsman::{Scotsman, RULES};
use pink_accents::target::Target;

#[test]
fn scotsman_compiles_every_rule_of_the_dictionary() {
    let scotsman = Scotsman::new().unwrap();
    let rules = scotsman.replacements();
    assert_eq!(RULES.len(), 631);
    assert_eq!(rules.len(), RULES.len());
    for (rule, (pattern, replacement)) in rules.iter().zip(RULES.iter()) {
        assert_eq!(rule.source().as_str(), *pattern);
        match rule.target() {
            Target::Fixed(direct) => assert_eq!(direct.replacement, *replacement),
            _ => panic!("every target of the dictionary is fixed"),
        }
    }
}

#[test]
fn scotsman_dictionary_starts_and_ends_as_written() {
    assert_eq!(RULES[0], (r"$(?<!```)\z", " ye daft cunt"));
    assert_eq!(RULES[1], (r"\babout\b", "aboot"));
    assert_eq!(RULES[629], (r"\bboys\b", "lads"));
    assert_eq!(RULES[630], (r"\bgirls\b", "lasses"));
}

#[test]
fn scotsman_rewrites_whole_words() {
    let scotsman = Scotsman::new().unwrap();
    assert_eq!(scotsman.apply("boys```", 0).unwrap(), "lads```");
    assert_eq!(scotsman.apply("about about```", 0).unwrap(), "aboot aboot```");
    assert_eq!(scotsman.apply("aboutabout```", 0).unwrap(), "aboutabout```");
    assert_eq!(scotsman.apply("nothing here```", 0).unwrap(), "neithin' `ere```");
}

#[test]
fn scotsman_signs_off_unless_the_text_ends_in_a_fence() {
    let scotsman = Scotsman::new().unwrap();
    assert_eq!(scotsman.apply("", 0).unwrap(), " ye daft cunt");
    assert_eq!(scotsman.apply("```", 0).unwrap(), "```");
    assert_eq!(scotsman.apply("i know", 0).unwrap(), "a ken ye daft cunt");
    assert_eq!(scotsman.apply("I know", 0).unwrap(), "I ken ye daft cunt");
    assert_eq!(scotsman.apply("True or False", 0).unwrap(), "aye or na ye daft cunt");
}

#[test]
fn scotsman_rewrites_a_sentence() {
    let scotsman = Scotsman::new().unwrap();
    assert_eq!(
        scotsman.apply("what about the boys and girls", 0).unwrap(),
        "whit aboot th` lads `n` lasses ye daft cunt"
    );
}

#[test]
fn scotsman_does_not_depend_on_severity() {
    let scotsman = Scotsman::new().unwrap();
    let expected = "whit aboot th` lads `n` lasses ye daft cunt";
    for severity in [i32::MIN, -7, 0, 1, 100, i32::MAX] {
        assert_eq!(scotsman.apply("what about the boys and girls", severity).unwrap(), expected);
    }
}

#[test]
fn scotsman_hands_out_its_accent() {
    let accent: Accent = Scotsman::new().unwrap().into_accent();
    assert_eq!(accent.replacements().len(), 631);
    assert_eq!(accent.apply("girls```", 2).unwrap(), "lasses```");
}

#[test]
fn accents_and_their_parts_can_be_shared_between_threads() {
    fn shared<T: Send + Sync>() {}
    shared::<Accent>();
    shared::<Scotsman>();
    shared::<Replacement>();
    shared::<Target>();
}
