use span_coords::{process_span, underline, CliFormat, Cooked, Raw, Span};

#[test]
fn carets_stand_under_the_span() {
    assert_eq!(underline(9, &Span::<Cooked>::new(6, 3)), "      ^^^");
    assert_eq!(underline(14, &Span::<Cooked>::new(2, 3)), "  ^^^         ");
}

#[test]
fn an_empty_span_leaves_no_mark() {
    assert_eq!(underline(5, &Span::<Cooked>::new(2, 0)), "     ");
}

#[test]
fn an_empty_text_has_an_empty_line() {
    assert_eq!(underline(0, &Span::<Cooked>::new(0, 3)), "");
}

#[test]
fn marks_stop_where_the_text_stops() {
    assert_eq!(underline(4, &Span::<Cooked>::new(2, 10)), "  ^^");
    assert_eq!(underline(4, &Span::<Cooked>::new(4, 1)), "    ");
    assert_eq!(underline(3, &Span::<Cooked>::new(1, usize::MAX)), " ^^");
    assert_eq!(underline(3, &Span::<Cooked>::new(usize::MAX, usize::MAX)), "   ");
}

#[test]
fn a_converted_argument_is_underlined_in_the_joined_text() {
    let input = vec!["--foo".to_string(), "bar".to_string()];
    let text = input.join(" ");
    let cooked = process_span(&CliFormat, Span::<Raw>::new(1, 1), &input).unwrap();
    assert_eq!(text, "--foo bar");
    assert_eq!(underline(text.len(), &cooked), "      ^^^");
}
