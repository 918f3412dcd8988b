use pink_accents::error::MatchError;
use pink_accents::pattern::Pattern;
use pink_accents::source::Source;
use pink_accents::text::Span;

#[test]
fn word_boundary_pattern_finds_whole_words_only() {
    let pattern = Pattern::new(r"\bfoo\b").unwrap();
    let spans = pattern.find_spans("foo foobar foo").unwrap();
    assert_eq!(spans, vec![Span { start: 0, end: 3 }, Span { start: 11, end: 14 }]);
}

#[test]
fn pattern_without_a_match_finds_nothing() {
    let pattern = Pattern::new(r"\bfoo\b").unwrap();
    assert_eq!(pattern.find_spans("foobar").unwrap(), vec![]);
    assert_eq!(pattern.find_spans("").unwrap(), vec![]);
}

#[test]
fn spans_are_byte_offsets() {
    let pattern = Pattern::new("l+").unwrap();
    let spans = pattern.find_spans("héllo").unwrap();
    assert_eq!(spans, vec![Span { start: 3, end: 5 }]);
}

#[test]
fn empty_matches_are_reported_once_per_position() {
    let pattern = Pattern::new("").unwrap();
    let spans = pattern.find_spans("hé").unwrap();
    assert_eq!(
        spans,
        vec![Span { start: 0, end: 0 }, Span { start: 1, end: 1 }, Span { start: 3, end: 3 }]
    );
}

#[test]
fn negative_lookbehind_is_supported() {
    let pattern = Pattern::new(r"$(?<!```)\z").unwrap();
    assert_eq!(pattern.find_spans("hello").unwrap(), vec![Span { start: 5, end: 5 }]);
    assert_eq!(pattern.find_spans("hello```").unwrap(), vec![]);
}

#[test]
fn pattern_remembers_its_source() {
    let pattern = Pattern::new(r"\babout\b").unwrap();
    assert_eq!(pattern.as_str(), r"\babout\b");
}

#[test]
fn unclosed_group_does_not_compile() {
    let error = Pattern::new("(a|b").unwrap_err();
    let message = error.message();
    assert!(message.starts_with("regex compilation failed: "));
    assert_eq!(message, format!("regex compilation failed: {}", error.detail));
    assert!(!error.detail.is_empty());
}

#[test]
fn raw_source_is_compiled() {
    let pattern = Pattern::try_from(Source::Raw(r"\bcat\b")).unwrap();
    assert_eq!(pattern.as_str(), r"\bcat\b");
    assert_eq!(pattern.find_spans("the cat sat").unwrap(), vec![Span { start: 4, end: 7 }]);
}

#[test]
fn raw_source_that_does_not_compile_is_refused() {
    let error = Pattern::try_from(Source::Raw("[a-")).unwrap_err();
    assert!(error.message().starts_with("regex compilation failed: "));
}

#[test]
fn compiled_source_is_handed_on() {
    let compiled = Pattern::new("a+").unwrap();
    let pattern = Pattern::try_from(Source::Regex(compiled)).unwrap();
    assert_eq!(pattern.as_str(), "a+");
    assert_eq!(pattern.find_spans("baaad").unwrap(), vec![Span { start: 1, end: 4 }]);
}

#[test]
fn engine_failure_while_searching_is_a_match_error() {
    let pattern = Pattern::new(r"(x+x+)+(?>y)").unwrap();
    let error = pattern.find_spans("xxxxxxxxxxxxxxxxxxxxxxxxxxxxxxxxxxxxxxxx").unwrap_err();
    match error {
        MatchError::Engine(detail) => assert!(!detail.is_empty()),
        MatchError::Span(_) => panic!("the engine failed, no span is at fault"),
    }
}
