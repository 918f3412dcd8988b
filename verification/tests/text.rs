use pink_accents::text::{byte_len, first_misfit, slice, Span};

#[test]
fn slice_cuts_between_byte_offsets() {
    assert_eq!(slice("foo foobar foo", 4, 10), "foobar");
    assert_eq!(slice("héllo", 0, 3), "hé");
    assert_eq!(slice("héllo", 3, 6), "llo");
}

#[test]
fn slice_of_nothing_is_empty() {
    assert_eq!(slice("abc", 0, 0), "");
    assert_eq!(slice("abc", 3, 3), "");
    assert_eq!(slice("", 0, 0), "");
}

#[test]
fn slice_of_everything_is_the_text() {
    assert_eq!(slice("wörld", 0, 6), "wörld");
}

#[test]
fn byte_len_counts_bytes_not_characters() {
    assert_eq!(byte_len(""), 0);
    assert_eq!(byte_len("abc"), 3);
    assert_eq!(byte_len("héllo"), 6);
}

#[test]
fn successive_spans_fit() {
    let spans = vec![Span { start: 0, end: 3 }, Span { start: 3, end: 3 }, Span { start: 11, end: 14 }];
    assert_eq!(first_misfit("foo foobar foo", &spans), None);
    assert_eq!(first_misfit("anything", &vec![]), None);
}

#[test]
fn overlapping_span_is_a_misfit() {
    let spans = vec![Span { start: 0, end: 3 }, Span { start: 2, end: 5 }];
    assert_eq!(first_misfit("foo foobar foo", &spans), Some(1));
}

#[test]
fn span_beyond_the_text_is_a_misfit() {
    assert_eq!(first_misfit("abc", &vec![Span { start: 1, end: 4 }]), Some(0));
    assert_eq!(first_misfit("abc", &vec![Span { start: 0, end: 1 }, Span { start: 7, end: 9 }]), Some(1));
}

#[test]
fn reversed_span_is_a_misfit() {
    assert_eq!(first_misfit("abc", &vec![Span { start: 2, end: 1 }]), Some(0));
}

#[test]
fn span_inside_a_character_is_a_misfit() {
    assert_eq!(first_misfit("héllo", &vec![Span { start: 2, end: 3 }]), Some(0));
    assert_eq!(first_misfit("héllo", &vec![Span { start: 1, end: 2 }]), Some(0));
    assert_eq!(first_misfit("héllo", &vec![Span { start: 1, end: 3 }]), None);
}

#[test]
fn first_of_several_misfits_is_named() {
    let spans = vec![
        Span { start: 0, end: 1 },
        Span { start: 5, end: 4 },
        Span { start: 9, end: 9 },
    ];
    assert_eq!(first_misfit("abcdef", &spans), Some(1));
}
