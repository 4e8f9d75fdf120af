use facet_core::spez::Spez;
use span_coords::cli::cook_tokens;
use span_coords::{
    convert_span, process_span, CliFormat, Cooked, CookedFormat, Dispatch, JsonFormat, Raw,
    RawFormat, Span, SpanError, Spannable, Spanned, ToCooked,
};

fn tokens(words: &[&str]) -> Vec<String> {
    words.iter().map(|word| word.to_string()).collect()
}

#[test]
fn second_argument_lies_after_the_first_and_a_space() {
    let input = tokens(&["--foo", "bar"]);
    let cooked = process_span(&CliFormat, Span::<Raw>::new(1, 1), &input);
    assert_eq!(cooked, Ok(Span::<Cooked>::new(6, 3)));
}

#[test]
fn first_argument_lies_at_the_start() {
    let input = tokens(&["--foo", "bar"]);
    let cooked = process_span(&CliFormat, Span::<Raw>::new(0, 1), &input);
    assert_eq!(cooked, Ok(Span::<Cooked>::new(0, 5)));
}

#[test]
fn a_cooked_argument_is_what_the_joined_text_holds() {
    let input = tokens(&["run", "--release", "-p", "demo"]);
    let text = input.join(" ");
    for index in 0..input.len() {
        let cooked = process_span(&CliFormat, Span::<Raw>::new(index, 1), &input).unwrap();
        assert_eq!(&text[cooked.start()..cooked.end()], input[index]);
    }
}

#[test]
fn several_arguments_include_the_spaces_between_them() {
    let input = tokens(&["--foo", "bar", "baz"]);
    assert_eq!(
        process_span(&CliFormat, Span::<Raw>::new(0, 2), &input),
        Ok(Span::<Cooked>::new(0, 9))
    );
    assert_eq!(
        process_span(&CliFormat, Span::<Raw>::new(1, 2), &input),
        Ok(Span::<Cooked>::new(6, 7))
    );
    assert_eq!(
        process_span(&CliFormat, Span::<Raw>::new(0, 3), &input),
        Ok(Span::<Cooked>::new(0, 13))
    );
}

#[test]
fn a_run_of_arguments_is_what_the_joined_text_holds() {
    let input = tokens(&["a", "", "ccc", "dd"]);
    let text = input.join(" ");
    for start in 0..input.len() {
        for len in 1..=input.len() - start {
            let cooked = process_span(&CliFormat, Span::<Raw>::new(start, len), &input).unwrap();
            let expected = input[start..start + len].join(" ");
            assert_eq!(&text[cooked.start()..cooked.end()], expected);
        }
    }
}

#[test]
fn widths_are_counted_in_bytes() {
    let input = tokens(&["caf\u{e9}", "\u{65e5}\u{672c}", "x"]);
    assert_eq!(
        process_span(&CliFormat, Span::<Raw>::new(1, 1), &input),
        Ok(Span::<Cooked>::new(6, 6))
    );
    assert_eq!(
        process_span(&CliFormat, Span::<Raw>::new(2, 1), &input),
        Ok(Span::<Cooked>::new(13, 1))
    );
}

#[test]
fn empty_arguments_still_take_their_space() {
    let input = tokens(&["", "", "x"]);
    assert_eq!(
        process_span(&CliFormat, Span::<Raw>::new(2, 1), &input),
        Ok(Span::<Cooked>::new(2, 1))
    );
    assert_eq!(
        process_span(&CliFormat, Span::<Raw>::new(0, 2), &input),
        Ok(Span::<Cooked>::new(0, 1))
    );
}

#[test]
fn an_empty_raw_span_stays_empty() {
    let input = tokens(&["--foo", "bar"]);
    assert_eq!(
        process_span(&CliFormat, Span::<Raw>::new(1, 0), &input),
        Ok(Span::<Cooked>::new(6, 0))
    );
    assert_eq!(
        process_span(&CliFormat, Span::<Raw>::new(0, 0), &input),
        Ok(Span::<Cooked>::new(0, 0))
    );
}

#[test]
fn an_empty_raw_span_stays_empty_under_the_fallback() {
    let cooked = process_span(&RawFormat(()), Span::<Raw>::new(4, 0), &()).unwrap();
    assert!(cooked.is_empty());
    assert_eq!(cooked.start(), 4);
}

#[test]
fn an_index_beyond_the_arguments_is_out_of_range() {
    let input = tokens(&["a", "b"]);
    assert_eq!(
        process_span(&CliFormat, Span::<Raw>::new(5, 1), &input),
        Err(SpanError::OutOfRange)
    );
}

#[test]
fn a_span_that_runs_past_the_last_argument_is_out_of_range() {
    let input = tokens(&["a", "b"]);
    assert_eq!(
        process_span(&CliFormat, Span::<Raw>::new(1, 2), &input),
        Err(SpanError::OutOfRange)
    );
    assert_eq!(
        process_span(&CliFormat, Span::<Raw>::new(0, 3), &input),
        Err(SpanError::OutOfRange)
    );
    assert_eq!(
        process_span(&CliFormat, Span::<Raw>::new(0, 2), &input),
        Ok(Span::<Cooked>::new(0, 3))
    );
}

#[test]
fn the_position_after_the_last_argument_is_out_of_range() {
    let input = tokens(&["a", "b"]);
    assert_eq!(
        process_span(&CliFormat, Span::<Raw>::new(2, 0), &input),
        Err(SpanError::OutOfRange)
    );
    assert_eq!(
        process_span(&CliFormat, Span::<Raw>::new(2, 1), &input),
        Err(SpanError::OutOfRange)
    );
}

#[test]
fn no_span_lies_in_an_empty_argument_list() {
    let input: Vec<String> = Vec::new();
    assert_eq!(
        process_span(&CliFormat, Span::<Raw>::new(0, 0), &input),
        Err(SpanError::OutOfRange)
    );
    assert_eq!(
        process_span(&CliFormat, Span::<Raw>::new(0, 1), &input),
        Err(SpanError::OutOfRange)
    );
}

#[test]
fn the_largest_numbers_are_out_of_range_not_a_wrap() {
    let input = tokens(&["a", "b"]);
    assert_eq!(
        process_span(&CliFormat, Span::<Raw>::new(usize::MAX, usize::MAX), &input),
        Err(SpanError::OutOfRange)
    );
    assert_eq!(
        process_span(&CliFormat, Span::<Raw>::new(1, usize::MAX), &input),
        Err(SpanError::OutOfRange)
    );
}

#[test]
fn a_cooked_span_converts_to_itself() {
    let bytes = "{\"foo\": \"bar\"}".as_bytes();
    let span = Span::<Cooked>::new(2, 3);
    assert_eq!(process_span(&JsonFormat, span, bytes), Ok(span));
    assert_eq!(process_span(&CookedFormat(()), span, &()), Ok(span));
    let input = tokens(&["a"]);
    assert_eq!(span.to_cooked(&CliFormat, &input), Ok(span));
}

#[test]
fn a_cooked_span_outside_the_input_converts_to_itself_too() {
    let bytes = "{}".as_bytes();
    let span = Span::<Cooked>::new(40, 6);
    assert_eq!(process_span(&JsonFormat, span, bytes), Ok(span));
    let far = Span::<Cooked>::new(usize::MAX, usize::MAX);
    assert_eq!(process_span(&JsonFormat, far, bytes), Ok(far));
}

#[test]
fn cooking_twice_is_cooking_once() {
    let input = tokens(&["--foo", "bar"]);
    let once = process_span(&CliFormat, Span::<Raw>::new(1, 1), &input).unwrap();
    let twice = once.to_cooked(&CliFormat, &input).unwrap();
    assert_eq!(once, twice);
}

#[test]
fn the_fallback_keeps_the_numbers() {
    let cooked = process_span(&RawFormat(()), Span::<Raw>::new(10, 5), &());
    assert_eq!(cooked, Ok(Span::<Cooked>::new(10, 5)));
}

#[test]
fn the_fallback_is_right_where_units_are_bytes() {
    let bytes: Vec<u8> = "{\"foo\": \"bar\"}".bytes().collect();
    for start in 0..bytes.len() {
        for len in 0..=bytes.len() - start {
            let by_hand = Span::<Cooked>::new(
                bytes[..start].iter().map(|_| 1usize).sum(),
                bytes[start..start + len].iter().map(|_| 1usize).sum(),
            );
            let cooked = process_span(&RawFormat(bytes.clone()), Span::<Raw>::new(start, len), &bytes);
            assert_eq!(cooked, Ok(by_hand));
        }
    }
}

#[test]
fn the_fallback_is_wrong_for_arguments() {
    let input = tokens(&["--foo", "bar"]);
    let raw = Span::<Raw>::new(1, 1);
    let by_rule = process_span(&CliFormat, raw, &input).unwrap();
    let by_fallback = process_span(&RawFormat(input.clone()), raw, &input).unwrap();
    assert_eq!(by_rule, Span::<Cooked>::new(6, 3));
    assert_eq!(by_fallback, Span::<Cooked>::new(1, 1));
    assert_ne!(by_rule, by_fallback);
    let text = input.join(" ");
    assert_eq!(&text[by_rule.start()..by_rule.end()], "bar");
    assert_ne!(&text[by_fallback.start()..by_fallback.end()], "bar");
}

#[test]
fn to_cooked_and_process_span_agree() {
    let input = tokens(&["--foo", "bar"]);
    let raw = Span::<Raw>::new(1, 1);
    assert_eq!(raw.to_cooked(&CliFormat, &input), process_span(&CliFormat, raw, &input));
    assert_eq!(cook_tokens(raw, &input), process_span(&CliFormat, raw, &input));
}

#[test]
fn convert_span_goes_by_the_tag() {
    assert_eq!(convert_span(Span::<Raw>::new(56, 78)), Span::<Cooked>::new(56, 78));
    assert_eq!(convert_span(Span::<Cooked>::new(12, 34)), Span::<Cooked>::new(12, 34));
    let normal: Span = Span::new(12, 34);
    assert_eq!(convert_span(normal), Span::<Cooked>::new(12, 34));
}

#[test]
fn a_wrapped_span_runs_the_rule_of_its_tag() {
    let raw = Spez(Span::<Raw>::new(56, 78));
    let cooked = Spez(Span::<Cooked>::new(12, 34));
    assert_eq!((&raw).run(), Span::<Cooked>::new(56, 78));
    assert_eq!((&cooked).run(), Span::<Cooked>::new(12, 34));
}

#[test]
fn a_spanned_value_is_carried_through_a_conversion() {
    let input = tokens(&["--foo", "bar"]);
    let raw: Spanned<&str, Raw> = "bar".with_span(Span::new(1, 1));
    let cooked = raw.map_span(|span| process_span(&CliFormat, span, &input).unwrap());
    assert_eq!(cooked.node, "bar");
    assert_eq!(cooked.span, Span::<Cooked>::new(6, 3));
}
