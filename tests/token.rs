use hover_lsp::token::{find_word_at_pos, word_span};

#[test]
fn resolve_inside_first_word() {
    assert_eq!(find_word_at_pos("foo bar", 1), (0, 3));
}

#[test]
fn resolve_at_start_of_second_word() {
    assert_eq!(find_word_at_pos("foo bar", 4), (4, 7));
}

#[test]
fn resolve_on_separator_is_empty() {
    assert_eq!(find_word_at_pos("foo bar", 3), (3, 3));
}

#[test]
fn resolve_empty_line() {
    assert_eq!(find_word_at_pos("", 0), (0, 0));
}

#[test]
fn resolve_is_repeatable() {
    let first = find_word_at_pos("let value = 1;", 6);
    let second = find_word_at_pos("let value = 1;", 6);
    assert_eq!(first, second);
    assert_eq!(first, (4, 9));
}

#[test]
fn resolve_at_line_start() {
    assert_eq!(find_word_at_pos("foo bar", 0), (0, 3));
}

#[test]
fn resolve_at_line_end_takes_last_word() {
    assert_eq!(find_word_at_pos("foo bar", 7), (4, 7));
}

#[test]
fn resolve_past_line_end_is_clamped() {
    assert_eq!(find_word_at_pos("foo bar", 40), (4, 7));
    assert_eq!(find_word_at_pos("foo ", 9), (4, 4));
}

#[test]
fn resolve_underscore_and_digits_are_identifier() {
    assert_eq!(find_word_at_pos("(my_var2)", 3), (1, 8));
}

#[test]
fn resolve_inside_whitespace_is_empty() {
    assert_eq!(find_word_at_pos("a    b", 2), (2, 2));
}

#[test]
fn resolve_counts_characters_not_bytes() {
    assert_eq!(find_word_at_pos("héllo wörld", 8), (6, 11));
    assert_eq!(find_word_at_pos("x=名前", 3), (2, 4));
}

#[test]
fn resolve_punctuation_is_separator() {
    assert_eq!(find_word_at_pos("a.b::c", 4), (4, 4));
    assert_eq!(find_word_at_pos("a.b::c", 5), (5, 6));
}

#[test]
fn span_from_classes() {
    let classes = vec![true, true, false, true];
    assert_eq!(word_span(&classes, 0), (0, 2));
    assert_eq!(word_span(&classes, 2), (2, 2));
    assert_eq!(word_span(&classes, 3), (3, 4));
    assert_eq!(word_span(&classes, 4), (3, 4));
    assert_eq!(word_span(&Vec::new(), 5), (0, 0));
}
